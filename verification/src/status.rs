//! Status codes of the C interface and the checks that a call goes through
//! before a report is sent.

use vstd::prelude::*;

verus! {

/// Outcome of a call of the C interface.
#[derive(Clone, Copy, Debug, PartialEq, Eq, Structural)]
pub enum ApiStatus {
    /// The report was written.
    Success,
    /// The context handle is null.
    NullContext,
    /// The device lock is poisoned.
    LockFailed,
    /// Writing the report failed.
    SendFailed,
    /// A non-empty key list was given through a null pointer.
    InvalidArgument,
}

/// The integer that the C interface returns for each outcome.
pub open spec fn status_code(s: ApiStatus) -> int {
    match s {
        ApiStatus::Success => 0,
        ApiStatus::NullContext => -1,
        ApiStatus::LockFailed => -2,
        ApiStatus::SendFailed => -3,
        ApiStatus::InvalidArgument => -4,
    }
}

impl ApiStatus {
    /// The integer that the C interface returns for this outcome.
    pub fn code(self) -> (c: i32)
        ensures
            c == status_code(self),
    {
        match self {
            ApiStatus::Success => 0,
            ApiStatus::NullContext => -1,
            ApiStatus::LockFailed => -2,
            ApiStatus::SendFailed => -3,
            ApiStatus::InvalidArgument => -4,
        }
    }
}

/// Where the keys of a keyboard call are read from.
#[derive(Clone, Copy, Debug, PartialEq, Eq, Structural)]
pub enum KeySource {
    /// No key is pressed: the key list is empty, whatever the pointer.
    Empty,
    /// `keys_len` keys are read from the pointer given.
    Pointer,
}

/// Checks the arguments of a keyboard call: a null context is refused first,
/// then a non-empty key list behind a null pointer.
pub fn check_keyboard_call(ctx_is_null: bool, keys_len: usize, keys_ptr_is_null: bool) -> (res:
    Result<KeySource, ApiStatus>)
    ensures
        ctx_is_null ==> res == Err::<KeySource, ApiStatus>(ApiStatus::NullContext),
        !ctx_is_null && keys_len == 0 ==> res == Ok::<KeySource, ApiStatus>(KeySource::Empty),
        !ctx_is_null && keys_len != 0 && keys_ptr_is_null ==> res == Err::<KeySource, ApiStatus>(
            ApiStatus::InvalidArgument,
        ),
        !ctx_is_null && keys_len != 0 && !keys_ptr_is_null ==> res == Ok::<KeySource, ApiStatus>(
            KeySource::Pointer,
        ),
{
    if ctx_is_null {
        return Err(ApiStatus::NullContext);
    }
    if keys_len == 0 {
        Ok(KeySource::Empty)
    } else if keys_ptr_is_null {
        Err(ApiStatus::InvalidArgument)
    } else {
        Ok(KeySource::Pointer)
    }
}

/// Checks the arguments of a mouse call: only a null context is refused.
pub fn check_mouse_call(ctx_is_null: bool) -> (res: Result<(), ApiStatus>)
    ensures
        res == (if ctx_is_null {
            Err::<(), ApiStatus>(ApiStatus::NullContext)
        } else {
            Ok::<(), ApiStatus>(())
        }),
{
    if ctx_is_null {
        Err(ApiStatus::NullContext)
    } else {
        Ok(())
    }
}

/// The outcome once the arguments passed: a poisoned lock fails the call
/// before anything is written; otherwise the write decides.
pub open spec fn delivery_status_spec(lock_acquired: bool, written: bool) -> ApiStatus {
    if !lock_acquired {
        ApiStatus::LockFailed
    } else if written {
        ApiStatus::Success
    } else {
        ApiStatus::SendFailed
    }
}

/// The outcome of a call whose arguments passed, from whether the device
/// lock was acquired and, if so, whether the report was written (`written`
/// is not read when the lock was not acquired).
pub fn delivery_status(lock_acquired: bool, written: bool) -> (s: ApiStatus)
    ensures
        s == delivery_status_spec(lock_acquired, written),
{
    if !lock_acquired {
        ApiStatus::LockFailed
    } else if written {
        ApiStatus::Success
    } else {
        ApiStatus::SendFailed
    }
}


/// Every outcome has its own code, and only success reports 0; every failure
/// reports a negative code.
pub proof fn lemma_status_codes_distinct(a: ApiStatus, b: ApiStatus)
    ensures
        status_code(a) == status_code(b) <==> a == b,
        status_code(a) == 0 <==> a == ApiStatus::Success,
        a != ApiStatus::Success ==> status_code(a) < 0,
{
}

} // verus!
