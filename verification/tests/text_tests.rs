use hid_api::enumeration::{poll_step, PollAction, PollEvent};
use hid_api::enumeration::is_configured_state;
use hid_api::error::{removal_failure_fatal, UsbError};
use hid_api::text::{append_decimal, text_contains, text_eq, trim_white_space};

#[test]
fn trimming() {
    assert_eq!(trim_white_space("  configured\n"), "configured");
    assert_eq!(trim_white_space("\u{3000}a b\u{a0}\t"), "a b");
    assert_eq!(trim_white_space(" \n\t "), "");
    assert_eq!(trim_white_space(""), "");
    assert_eq!(trim_white_space("x"), "x");
    let s = " \r\n attached \u{2029}";
    assert_eq!(trim_white_space(s), s.trim());
}

#[test]
fn configured_state() {
    assert!(is_configured_state("configured\n"));
    assert!(is_configured_state("  configured  "));
    assert!(!is_configured_state("not attached\n"));
    assert!(!is_configured_state("configuredx"));
    assert!(!is_configured_state("Configured"));
    assert!(!is_configured_state(""));
}

#[test]
fn containment_and_equality() {
    assert!(text_contains("No such file or directory (os error 2)", "os error 2"));
    assert!(!text_contains("os error 22", "os error 3"));
    assert!(text_contains("abc", ""));
    assert!(!text_contains("ab", "abc"));
    assert!(text_eq("abc", "abc"));
    assert!(!text_eq("abc", "abd"));
    assert!(!text_eq("abc", "ab"));
}

#[test]
fn removal_failures() {
    assert!(!removal_failure_fatal("No such file or directory (os error 2)"));
    assert!(!removal_failure_fatal("os error 2"));
    assert!(!removal_failure_fatal("No such file or directory"));
    assert!(removal_failure_fatal("Permission denied (os error 13)"));
    assert!(removal_failure_fatal(""));
}

#[test]
fn error_texts() {
    assert_eq!(UsbError("x".to_string()).message(), "USB Gadgets 错误: x");
    assert_eq!(UsbError::keyboard_send_failed("boom").0, "异步发送键盘报告失败: boom");
    assert_eq!(UsbError::mouse_send_failed("gone").0, "异步发送鼠标报告失败: gone");
}

#[test]
fn decimal_notation() {
    for n in [0u64, 7, 10, 42, 1000, u64::MAX] {
        let mut s = String::from("n=");
        append_decimal(&mut s, n);
        assert_eq!(s, format!("n={}", n));
    }
}

#[test]
fn enumeration_poll_steps() {
    assert_eq!(poll_step(&PollEvent::ListingFailed), PollAction::Pause);
    assert_eq!(poll_step(&PollEvent::StateUnreadable), PollAction::NextState);
    assert_eq!(poll_step(&PollEvent::StateRead("configured\n".to_string())), PollAction::Enumerated);
    assert_eq!(poll_step(&PollEvent::StateRead("not attached\n".to_string())), PollAction::NextState);
    assert_eq!(poll_step(&PollEvent::PassDone), PollAction::Pause);
}
