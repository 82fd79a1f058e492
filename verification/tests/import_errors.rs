use ash::vk;
use dmabuf_import::error::ImportError;

#[test]
fn stat_failure_names_the_descriptor_and_the_reason() {
    let error = ImportError::Stat { fd: 17, reason: "Bad file descriptor (os error 9)".to_string() };
    assert_eq!(error.message(), "fstat on DMA-BUF fd 17 failed: Bad file descriptor (os error 9)");
    assert_eq!(error.code(), None);
}

#[test]
fn descriptors_are_written_in_decimal() {
    for fd in [0, 9, 10, 12345, -1, i32::MAX, i32::MIN] {
        let error = ImportError::Stat { fd, reason: "r".to_string() };
        assert_eq!(error.message(), format!("fstat on DMA-BUF fd {fd} failed: r"));
    }
}

#[test]
fn fixed_messages() {
    assert_eq!(ImportError::NoPlanes.message(), "At least one DMA-BUF plane is required");
    assert_eq!(ImportError::NoMemoryType.message(), "No suitable memory type for DMA-BUF import");
    let error = ImportError::DuplicateFd { reason: "Too many open files (os error 24)".to_string() };
    assert_eq!(error.message(), "Failed to duplicate DMA-BUF FD: Too many open files (os error 24)");
}

#[test]
fn device_failures_spell_out_the_result() {
    let code = vk::Result::ERROR_OUT_OF_DEVICE_MEMORY.as_raw();
    let text = "A device memory allocation has failed";
    assert_eq!(ImportError::ImageCreation { code }.message(), format!("DMA-BUF image creation: {text}"));
    assert_eq!(
        ImportError::FdProperties { code }.message(),
        format!("Failed to get memory FD properties: {text}")
    );
    assert_eq!(ImportError::MemoryImport { code }.message(), format!("DMA-BUF memory import: {text}"));
    assert_eq!(ImportError::MemoryBind { code }.message(), format!("DMA-BUF memory bind: {text}"));
    assert_eq!(ImportError::MemoryBind { code }.code(), Some(-2));
}

#[test]
fn every_result_reads_as_ash_spells_it() {
    for code in [0, 1, -1, -4, -13, 12345, -1000072003, i32::MIN] {
        let text = vk::Result::from_raw(code).to_string();
        assert_eq!(ImportError::ImageCreation { code }.message(), format!("DMA-BUF image creation: {text}"));
    }
}

#[test]
fn messages_take_the_given_text() {
    assert_eq!(ImportError::MemoryImport { code: -1 }.message_with("why"), "DMA-BUF memory import: why");
    assert_eq!(ImportError::NoPlanes.message_with("why"), "At least one DMA-BUF plane is required");
}
