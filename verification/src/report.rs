//! Input reports of the keyboard and mouse functions, and the report
//! descriptors that announce their layout to the host.

use vstd::prelude::*;

verus! {

/// Length in bytes of a keyboard input report.
pub const KEYBOARD_REPORT_LEN: usize = 8;

/// Length in bytes of a mouse input report.
pub const MOUSE_REPORT_LEN: usize = 4;

/// Number of key slots in a keyboard report (boot protocol: six keys).
pub const KEYBOARD_KEY_SLOTS: usize = 6;

/// The byte carried by key slot `i`: the `i`-th pressed key, or 0 when fewer
/// keys are pressed.
pub open spec fn key_slot(keys: Seq<u8>, i: int) -> u8 {
    if 0 <= i < keys.len() {
        keys[i]
    } else {
        0
    }
}

/// A keyboard report: the modifier byte, a reserved zero byte, then the
/// first six keys, padded with zeros.
pub open spec fn keyboard_report_bytes(modifiers: u8, keys: Seq<u8>) -> Seq<u8> {
    seq![modifiers, 0u8] + Seq::new(KEYBOARD_KEY_SLOTS as nat, |i: int| key_slot(keys, i))
}

/// Builds the 8-byte keyboard input report for the given modifier byte and
/// pressed keys. Keys beyond the sixth are dropped.
pub fn keyboard_report(modifiers: u8, keys: &[u8]) -> (report: [u8; 8])
    ensures
        report@ == keyboard_report_bytes(modifiers, keys@),
{
    let n = keys.len();
    let k0 = if 0 < n { keys[0] } else { 0u8 };
    let k1 = if 1 < n { keys[1] } else { 0u8 };
    let k2 = if 2 < n { keys[2] } else { 0u8 };
    let k3 = if 3 < n { keys[3] } else { 0u8 };
    let k4 = if 4 < n { keys[4] } else { 0u8 };
    let k5 = if 5 < n { keys[5] } else { 0u8 };
    let report = [modifiers, 0u8, k0, k1, k2, k3, k4, k5];
    assert(report@ =~= keyboard_report_bytes(modifiers, keys@));
    report
}


/// The byte that carries a signed axis value: its two's-complement encoding.
pub open spec fn axis_byte(v: i8) -> u8 {
    if v < 0 {
        (v + 256) as u8
    } else {
        v as u8
    }
}

/// The signed value that an axis byte carries.
pub open spec fn axis_value(b: u8) -> i8 {
    if b < 128 {
        b as i8
    } else {
        (b - 256) as i8
    }
}

/// A mouse report: the button bits, then X, Y and wheel motion, each as a
/// two's-complement byte.
pub open spec fn mouse_report_bytes(buttons: u8, x: i8, y: i8, wheel: i8) -> Seq<u8> {
    seq![buttons, axis_byte(x), axis_byte(y), axis_byte(wheel)]
}

fn encode_axis(v: i8) -> (b: u8)
    ensures
        b == axis_byte(v),
{
    let b = v as u8;
    assert(v < 0 ==> b == v + 256) by (bit_vector)
        requires
            b == v as u8,
    ;
    assert(v >= 0 ==> b == v) by (bit_vector)
        requires
            b == v as u8,
    ;
    b
}

/// Builds the 4-byte mouse input report for the given buttons and relative
/// motion.
pub fn mouse_report(buttons: u8, x: i8, y: i8, wheel: i8) -> (report: [u8; 4])
    ensures
        report@ == mouse_report_bytes(buttons, x, y, wheel),
{
    let report = [buttons, encode_axis(x), encode_axis(y), encode_axis(wheel)];
    assert(report@ =~= mouse_report_bytes(buttons, x, y, wheel));
    report
}


/// A keyboard report is `KEYBOARD_REPORT_LEN` bytes: the modifiers, a zero
/// byte, and in slot `i` the `i`-th key or zero.
pub proof fn lemma_keyboard_report_layout(modifiers: u8, keys: Seq<u8>)
    ensures
        keyboard_report_bytes(modifiers, keys).len() == KEYBOARD_REPORT_LEN,
        keyboard_report_bytes(modifiers, keys)[0] == modifiers,
        keyboard_report_bytes(modifiers, keys)[1] == 0,
        forall|i: int|
            0 <= i < KEYBOARD_KEY_SLOTS ==> #[trigger] keyboard_report_bytes(modifiers, keys)[2
                + i] == (if i < keys.len() {
                keys[i]
            } else {
                0u8
            }),
{
}

/// Keys past the sixth do not reach the report: the report of a long key
/// list is that of its first six keys.
pub proof fn lemma_keyboard_report_ignores_extra_keys(modifiers: u8, keys: Seq<u8>)
    requires
        KEYBOARD_KEY_SLOTS <= keys.len(),
    ensures
        keyboard_report_bytes(modifiers, keys) == keyboard_report_bytes(
            modifiers,
            keys.take(KEYBOARD_KEY_SLOTS as int),
        ),
{
    assert(keyboard_report_bytes(modifiers, keys) =~= keyboard_report_bytes(
        modifiers,
        keys.take(KEYBOARD_KEY_SLOTS as int),
    ));
}

/// Reading an axis byte back gives the signed value that was encoded.
pub proof fn lemma_axis_roundtrip(v: i8)
    ensures
        axis_value(axis_byte(v)) == v,
{
}

/// A mouse report is `MOUSE_REPORT_LEN` bytes, and each of its inputs can be
/// read back from it unchanged.
pub proof fn lemma_mouse_report_roundtrip(buttons: u8, x: i8, y: i8, wheel: i8)
    ensures
        mouse_report_bytes(buttons, x, y, wheel).len() == MOUSE_REPORT_LEN,
        mouse_report_bytes(buttons, x, y, wheel)[0] == buttons,
        axis_value(mouse_report_bytes(buttons, x, y, wheel)[1]) == x,
        axis_value(mouse_report_bytes(buttons, x, y, wheel)[2]) == y,
        axis_value(mouse_report_bytes(buttons, x, y, wheel)[3]) == wheel,
{
    lemma_axis_roundtrip(x);
    lemma_axis_roundtrip(y);
    lemma_axis_roundtrip(wheel);
}

} // verus!
