use hid_api::{check_keyboard_call, check_mouse_call, delivery_status, ApiStatus, KeySource};

#[test]
fn status_codes() {
    assert_eq!(ApiStatus::Success.code(), 0);
    assert_eq!(ApiStatus::NullContext.code(), -1);
    assert_eq!(ApiStatus::LockFailed.code(), -2);
    assert_eq!(ApiStatus::SendFailed.code(), -3);
    assert_eq!(ApiStatus::InvalidArgument.code(), -4);
}

#[test]
fn keyboard_call_checks() {
    assert_eq!(check_keyboard_call(true, 0, true), Err(ApiStatus::NullContext));
    assert_eq!(check_keyboard_call(true, 3, false), Err(ApiStatus::NullContext));
    assert_eq!(check_keyboard_call(false, 0, true), Ok(KeySource::Empty));
    assert_eq!(check_keyboard_call(false, 0, false), Ok(KeySource::Empty));
    assert_eq!(check_keyboard_call(false, 2, true), Err(ApiStatus::InvalidArgument));
    assert_eq!(check_keyboard_call(false, 2, false), Ok(KeySource::Pointer));
}

#[test]
fn mouse_call_checks() {
    assert_eq!(check_mouse_call(true), Err(ApiStatus::NullContext));
    assert_eq!(check_mouse_call(false), Ok(()));
}

#[test]
fn delivery_outcomes() {
    assert_eq!(delivery_status(false, false), ApiStatus::LockFailed);
    assert_eq!(delivery_status(false, true), ApiStatus::LockFailed);
    assert_eq!(delivery_status(true, true), ApiStatus::Success);
    assert_eq!(delivery_status(true, false), ApiStatus::SendFailed);
}
