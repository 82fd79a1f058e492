use dmabuf_import::kernel::{parse_version, trim, warn_if_dmabuf_inodes_unsupported};

#[test]
fn old_kernels_are_warned_about() {
    for release in ["5.2.21", "5.0.0", "4.19.0-amd64\n", "4.99", "3.10.0-1160.el7.x86_64", "5"] {
        assert!(warn_if_dmabuf_inodes_unsupported(release).is_some(), "{release}");
    }
}

#[test]
fn new_kernels_are_not_warned_about() {
    for release in ["5.3.0", "5.3", "5.15.0-91-generic\n", "6.0.0", "10.1.2", "6"] {
        assert!(warn_if_dmabuf_inodes_unsupported(release).is_none(), "{release}");
    }
}

#[test]
fn unparseable_releases_are_left_unwarned() {
    for release in ["", "\n", "linux", "x.2", "5.x", "5.2-rc1", "4.", "-4.2", "4 .2", "0.99", "99999999999.1", "+.1"] {
        assert!(warn_if_dmabuf_inodes_unsupported(release).is_none(), "{release}");
    }
}

#[test]
fn warning_names_the_trimmed_release() {
    assert_eq!(
        warn_if_dmabuf_inodes_unsupported(" 5.2.0-custom\n").unwrap(),
        "kernel 5.2.0-custom predates Linux 5.3, where DMA-BUFs share a single inode: the \
         zero-copy import cache keys collide across buffers and may serve the wrong frame \
         (corruption or device-lost). Upgrade to Linux 5.3+ for DMA-BUF capture."
    );
}

#[test]
fn versions_are_read_field_by_field() {
    assert_eq!(parse_version("6.12.3-arch1\n"), Some((6, 12)));
    assert_eq!(parse_version("5"), Some((5, 0)));
    assert_eq!(parse_version("+5.+3"), Some((5, 3)));
    assert_eq!(parse_version("005.010"), Some((5, 10)));
    assert_eq!(parse_version("4294967295.4294967295"), Some((u32::MAX, u32::MAX)));
    assert_eq!(parse_version("4294967296.0"), None);
    assert_eq!(parse_version("5.4294967296"), None);
    assert_eq!(parse_version("5.3-rc1"), None);
    assert_eq!(parse_version(".3"), None);
    assert_eq!(parse_version("++5.3"), None);
}

#[test]
fn numbers_parse_as_the_standard_library_parses_them() {
    for text in ["0", "+0", "7", "007", "+42", "4294967295", "4294967296", "18446744073709551617", "", "+", "-1", "1a", "a1", " 1", "1_0"] {
        let expected = text.parse::<u32>().ok().map(|n| (n, 1));
        let release = format!("{text}.1");
        if text.trim() == text {
            assert_eq!(parse_version(&release), expected, "{text}");
        }
    }
}

#[test]
fn whitespace_is_trimmed_as_the_standard_library_trims_it() {
    for c in (0..=0x3100u32).filter_map(char::from_u32) {
        let text = format!("{c}{c}5{c}3{c}");
        assert_eq!(trim(&text), text.trim(), "{:#x}", c as u32);
    }
    assert_eq!(trim("  \n"), "");
}
