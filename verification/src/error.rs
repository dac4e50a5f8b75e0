//! Errors of the gadget: the library's own error value and the rule that
//! decides which failures of the gadget clean-up are harmless.

use vstd::prelude::*;
use vstd::string::*;
use crate::text::{contains_chars, occurs_at, text_contains};

verus! {

broadcast use vstd::string::group_string_axioms;

/// An error reported by the USB gadget layer, carrying its description.
#[derive(Debug, Clone)]
pub struct UsbError(pub String);

/// The text shown for a [`UsbError`] whose description is `detail`.
pub open spec fn usb_error_text(detail: Seq<char>) -> Seq<char> {
    "USB Gadgets 错误: "@ + detail
}

/// The description of a failed keyboard report write.
pub open spec fn keyboard_send_failure_text(cause: Seq<char>) -> Seq<char> {
    "异步发送键盘报告失败: "@ + cause
}

/// The description of a failed mouse report write.
pub open spec fn mouse_send_failure_text(cause: Seq<char>) -> Seq<char> {
    "异步发送鼠标报告失败: "@ + cause
}

impl UsbError {
    /// The human-readable text of the error.
    pub fn message(&self) -> (m: String)
        ensures
            m@ == usb_error_text(self.0@),
    {
        let mut m = String::from_str("USB Gadgets 错误: ");
        m.append(self.0.as_str());
        m
    }

    /// The error for a keyboard report that could not be written; `cause`
    /// describes the write failure.
    pub fn keyboard_send_failed(cause: &str) -> (e: UsbError)
        ensures
            e.0@ == keyboard_send_failure_text(cause@),
    {
        let mut d = String::from_str("异步发送键盘报告失败: ");
        d.append(cause);
        UsbError(d)
    }

    /// The error for a mouse report that could not be written; `cause`
    /// describes the write failure.
    pub fn mouse_send_failed(cause: &str) -> (e: UsbError)
        ensures
            e.0@ == mouse_send_failure_text(cause@),
    {
        let mut d = String::from_str("异步发送鼠标报告失败: ");
        d.append(cause);
        UsbError(d)
    }
}

/// Removing the existing gadgets failed for a reason other than their
/// directory being absent.
pub open spec fn removal_failure_is_fatal(message: Seq<char>) -> bool {
    &&& !contains_chars(message, "No such file or directory"@)
    &&& !contains_chars(message, "os error 2"@)
}

/// Decides, from the text of the error with which removing the existing
/// gadgets failed, whether the setup must stop. A missing gadget directory
/// (the file-not-found error) only means that there was nothing to remove.
pub fn removal_failure_fatal(message: &str) -> (fatal: bool)
    ensures
        fatal == removal_failure_is_fatal(message@),
{
    !text_contains(message, "No such file or directory") && !text_contains(message, "os error 2")
}

/// A failure to remove the existing gadgets is tolerated exactly when its
/// message names the missing file: it holds `No such file or directory` or
/// `os error 2` somewhere. Every other failure stops the setup.
pub proof fn lemma_removal_tolerated_only_when_not_found(message: Seq<char>)
    ensures
        !removal_failure_is_fatal(message) <==> ((exists|i: int|
            occurs_at(message, "No such file or directory"@, i)) || (exists|i: int|
            occurs_at(message, "os error 2"@, i))),
{
}

} // verus!
