//! What can go wrong during an import, and how it reads.
use vstd::prelude::*;
use vstd::string::StringExecFns;

use crate::text::push_decimal;

verus! {

/// Why an import failed.
#[derive(Debug, PartialEq, Eq)]
pub enum ImportError {
    /// The inode of the buffer could not be read.
    Stat { fd: i32, reason: String },
    /// The request names no plane.
    NoPlanes,
    /// The device did not create the image; `code` is its `VkResult`.
    ImageCreation { code: i32 },
    /// The device did not give the memory properties of the descriptor.
    FdProperties { code: i32 },
    /// The descriptor could not be duplicated.
    DuplicateFd { reason: String },
    /// No memory type suits both the image and the descriptor.
    NoMemoryType,
    /// The device did not import the memory.
    MemoryImport { code: i32 },
    /// The device did not bind the memory to the image.
    MemoryBind { code: i32 },
}

/// How `ash` spells out the `VkResult` numbered `code`.
pub uninterp spec fn result_text(code: i32) -> Seq<char>;

/// Spells out a `VkResult` the way `ash` does, through the `Display` impl of
/// `ash::vk::Result`. That impl picks a fixed sentence, name or number by the
/// code alone, so equal codes always read the same.
#[verifier::external_body]
fn describe_result(code: i32) -> (text: String)
    ensures
        text@ == result_text(code),
{
    format!("{}", ash::vk::Result::from_raw(code))
}

/// How each failure reads: what was being done, then the reason. The reason is
/// the system's own where the system failed, and where the device failed it is
/// the device's code spelled out.
pub proof fn law_messages_name_the_failure(error: ImportError, result: Seq<char>)
    ensures
        error matches ImportError::Stat { fd, reason } ==> error.text() == "fstat on DMA-BUF fd "@
            + crate::text::decimal(fd as int) + " failed: "@ + reason@,
        error is NoPlanes ==> error.text() == "At least one DMA-BUF plane is required"@,
        error matches ImportError::ImageCreation { code } ==> error.text()
            == "DMA-BUF image creation: "@ + result_text(code),
        error matches ImportError::FdProperties { code } ==> error.text()
            == "Failed to get memory FD properties: "@ + result_text(code),
        error matches ImportError::DuplicateFd { reason } ==> error.text()
            == "Failed to duplicate DMA-BUF FD: "@ + reason@,
        error is NoMemoryType ==> error.text() == "No suitable memory type for DMA-BUF import"@,
        error matches ImportError::MemoryImport { code } ==> error.text()
            == "DMA-BUF memory import: "@ + result_text(code),
        error matches ImportError::MemoryBind { code } ==> error.text() == "DMA-BUF memory bind: "@
            + result_text(code),
        error is ImageCreation ==> error.text_with(result) == "DMA-BUF image creation: "@ + result,
        error is FdProperties ==> error.text_with(result) == "Failed to get memory FD properties: "@
            + result,
        error is MemoryImport ==> error.text_with(result) == "DMA-BUF memory import: "@ + result,
        error is MemoryBind ==> error.text_with(result) == "DMA-BUF memory bind: "@ + result,
        error is Stat || error is NoPlanes || error is DuplicateFd || error is NoMemoryType
            ==> error.text_with(result) == error.text(),
{
}

/// An error has a code exactly where the device failed, and it is the code that
/// the device answered with.
pub proof fn law_codes_are_those_of_the_device(error: ImportError)
    ensures
        error matches ImportError::ImageCreation { code } ==> error.spec_code() == Some(code),
        error matches ImportError::FdProperties { code } ==> error.spec_code() == Some(code),
        error matches ImportError::MemoryImport { code } ==> error.spec_code() == Some(code),
        error matches ImportError::MemoryBind { code } ==> error.spec_code() == Some(code),
        error is Stat || error is NoPlanes || error is DuplicateFd || error is NoMemoryType
            ==> error.spec_code() is None,
{
}

impl ImportError {
    /// The `VkResult` that the device answered with, where it was the device
    /// that failed.
    pub open spec fn spec_code(&self) -> Option<i32> {
        match self {
            ImportError::ImageCreation { code } => Some(*code),
            ImportError::FdProperties { code } => Some(*code),
            ImportError::MemoryImport { code } => Some(*code),
            ImportError::MemoryBind { code } => Some(*code),
            _ => None,
        }
    }

    /// How the error reads when `result` spells out the code of the device.
    pub open spec fn text_with(&self, result: Seq<char>) -> Seq<char> {
        match self {
            ImportError::Stat { fd, reason } => "fstat on DMA-BUF fd "@ + crate::text::decimal(
                *fd as int,
            ) + " failed: "@ + reason@,
            ImportError::NoPlanes => "At least one DMA-BUF plane is required"@,
            ImportError::ImageCreation { .. } => "DMA-BUF image creation: "@ + result,
            ImportError::FdProperties { .. } => "Failed to get memory FD properties: "@ + result,
            ImportError::DuplicateFd { reason } => "Failed to duplicate DMA-BUF FD: "@ + reason@,
            ImportError::NoMemoryType => "No suitable memory type for DMA-BUF import"@,
            ImportError::MemoryImport { .. } => "DMA-BUF memory import: "@ + result,
            ImportError::MemoryBind { .. } => "DMA-BUF memory bind: "@ + result,
        }
    }

    /// How the error reads.
    pub open spec fn text(&self) -> Seq<char> {
        match self.spec_code() {
            Some(code) => self.text_with(result_text(code)),
            None => self.text_with(Seq::empty()),
        }
    }

    /// The `VkResult` that the device answered with, where it was the device
    /// that failed.
    pub fn code(&self) -> (code: Option<i32>)
        ensures
            code == self.spec_code(),
    {
        match self {
            ImportError::ImageCreation { code } => Some(*code),
            ImportError::FdProperties { code } => Some(*code),
            ImportError::MemoryImport { code } => Some(*code),
            ImportError::MemoryBind { code } => Some(*code),
            _ => None,
        }
    }

    /// The message for this error, with `result` as the text of its code.
    pub fn message_with(&self, result: &str) -> (message: String)
        ensures
            message@ == self.text_with(result@),
    {
        match self {
            ImportError::Stat { fd, reason } => {
                let mut message = "fstat on DMA-BUF fd ".to_string();
                push_decimal(&mut message, *fd);
                message.append(" failed: ");
                message.append(reason.as_str());
                message
            },
            ImportError::NoPlanes => "At least one DMA-BUF plane is required".to_string(),
            ImportError::ImageCreation { .. } => "DMA-BUF image creation: ".to_string().concat(
                result,
            ),
            ImportError::FdProperties { .. } => {
                "Failed to get memory FD properties: ".to_string().concat(result)
            },
            ImportError::DuplicateFd { reason } => {
                "Failed to duplicate DMA-BUF FD: ".to_string().concat(reason.as_str())
            },
            ImportError::NoMemoryType => "No suitable memory type for DMA-BUF import".to_string(),
            ImportError::MemoryImport { .. } => "DMA-BUF memory import: ".to_string().concat(
                result,
            ),
            ImportError::MemoryBind { .. } => "DMA-BUF memory bind: ".to_string().concat(result),
        }
    }

    /// The message for this error.
    pub fn message(&self) -> (message: String)
        ensures
            message@ == self.text(),
    {
        match self.code() {
            Some(code) => {
                let result = describe_result(code);
                self.message_with(result.as_str())
            },
            None => {
                let none = String::new();
                self.message_with(none.as_str())
            },
        }
    }
}

} // verus!
