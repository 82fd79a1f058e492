use ash::vk;
use dmabuf_import::params::{DmaBufPlane, Format, ImportParams};

fn plane(offset: u32, stride: u32) -> DmaBufPlane {
    DmaBufPlane { fd: 42, offset, stride, modifier: 0xdead }
}

fn format(format: vk::Format) -> Format {
    Format(format.as_raw())
}

#[test]
fn import_params_match_for_identical_buffer() {
    let a = ImportParams::new(1920, 1080, format(vk::Format::A2B10G10R10_UNORM_PACK32), &[plane(0, 7680)]);
    let b = ImportParams::new(1920, 1080, format(vk::Format::A2B10G10R10_UNORM_PACK32), &[plane(0, 7680)]);
    assert_eq!(a, b);
}

#[test]
fn import_params_detect_recycled_fd_after_format_switch() {
    // PQ to scRGB swapchain recreation: the new FP16 buffer can land on the
    // same fd number as the destroyed 10-bit buffer, with a different format
    // and stride. The cache must not treat this as a hit.
    let pq = ImportParams::new(1920, 1080, format(vk::Format::A2B10G10R10_UNORM_PACK32), &[plane(0, 7680)]);
    let scrgb = ImportParams::new(1920, 1080, format(vk::Format::R16G16B16A16_SFLOAT), &[plane(0, 15360)]);
    assert_ne!(pq, scrgb);
}

#[test]
fn import_params_detect_stride_only_change() {
    let a = ImportParams::new(1920, 1080, format(vk::Format::R16G16B16A16_SFLOAT), &[plane(0, 15360)]);
    let b = ImportParams::new(1920, 1080, format(vk::Format::R16G16B16A16_SFLOAT), &[plane(0, 16384)]);
    assert_ne!(a, b);
}

#[test]
fn import_params_hold_what_they_were_made_of() {
    let params = ImportParams::new(640, 480, Format(44), &[plane(1, 2), plane(3, 4)]);
    assert_eq!(params.width, 640);
    assert_eq!(params.height, 480);
    assert_eq!(params.format, Format(44));
    assert_eq!(params.modifier, 0xdead);
    assert_eq!(params.plane_count, 2);
    assert_eq!(params.plane_layouts, [(1, 2), (3, 4), (0, 0), (0, 0)]);
}

#[test]
fn import_params_of_no_plane() {
    let params = ImportParams::new(640, 480, Format(44), &[]);
    assert_eq!(params.modifier, 0);
    assert_eq!(params.plane_count, 0);
    assert_eq!(params.plane_layouts, [(0, 0); 4]);
}

#[test]
fn import_params_count_four_planes_at_most() {
    let five = [plane(1, 1), plane(2, 2), plane(3, 3), plane(4, 4), plane(5, 5)];
    let a = ImportParams::new(640, 480, Format(44), &five);
    let b = ImportParams::new(640, 480, Format(44), &five[..4]);
    assert_eq!(a.plane_count, 4);
    assert_eq!(a.plane_layouts, [(1, 1), (2, 2), (3, 3), (4, 4)]);
    assert_eq!(a, b);
}

#[test]
fn import_params_tell_a_zero_plane_from_none() {
    let one = ImportParams::new(640, 480, Format(44), &[plane(1, 1)]);
    let two = ImportParams::new(640, 480, Format(44), &[plane(1, 1), plane(0, 0)]);
    assert_ne!(one, two);
}

#[test]
fn import_params_see_each_field() {
    let base = ImportParams::new(640, 480, Format(44), &[plane(1, 2)]);
    assert_ne!(base, ImportParams::new(641, 480, Format(44), &[plane(1, 2)]));
    assert_ne!(base, ImportParams::new(640, 481, Format(44), &[plane(1, 2)]));
    assert_ne!(base, ImportParams::new(640, 480, Format(45), &[plane(1, 2)]));
    assert_ne!(base, ImportParams::new(640, 480, Format(44), &[plane(2, 2)]));
    let other_modifier = DmaBufPlane { modifier: 1, ..plane(1, 2) };
    assert_ne!(base, ImportParams::new(640, 480, Format(44), &[other_modifier]));
}

#[test]
fn import_params_ignore_descriptors_and_later_modifiers() {
    let a = [plane(1, 2), plane(3, 4)];
    let b = [
        DmaBufPlane { fd: 7, ..plane(1, 2) },
        DmaBufPlane { fd: 8, modifier: 1, ..plane(3, 4) },
    ];
    assert_eq!(ImportParams::new(640, 480, Format(44), &a), ImportParams::new(640, 480, Format(44), &b));
}
