//! The HID report descriptors of the keyboard and mouse functions, and what
//! they declare about the reports.

use vstd::prelude::*;
use crate::report::{
    axis_byte, key_slot, keyboard_report_bytes, mouse_report_bytes, KEYBOARD_REPORT_LEN,
    MOUSE_REPORT_LEN,
};

verus! {

/// Report descriptor of the keyboard: a modifier byte, a reserved byte, a
/// five-bit LED output report with three bits of padding, and six key codes
/// from 0 to 101.
pub open spec fn keyboard_descriptor_bytes() -> Seq<u8> {
    seq![
        0x05u8, 0x01, 0x09, 0x06, 0xA1, 0x01,
        0x05, 0x07, 0x19, 0xE0, 0x29, 0xE7, 0x15, 0x00, 0x25, 0x01, 0x75, 0x01, 0x95, 0x08,
        0x81, 0x02,
        0x95, 0x01, 0x75, 0x08, 0x81, 0x01,
        0x95, 0x05, 0x75, 0x01, 0x05, 0x08, 0x19, 0x01, 0x29, 0x05, 0x91, 0x02,
        0x95, 0x01, 0x75, 0x03, 0x91, 0x01,
        0x95, 0x06, 0x75, 0x08, 0x15, 0x00, 0x25, 0x65, 0x05, 0x07, 0x19, 0x00, 0x29, 0x65,
        0x81, 0x00,
        0xC0,
    ]
}

/// Report descriptor of the mouse: three buttons with five bits of padding,
/// then relative X, Y and wheel motion from -127 to 127.
pub open spec fn mouse_descriptor_bytes() -> Seq<u8> {
    seq![
        0x05u8, 0x01, 0x09, 0x02, 0xA1, 0x01, 0x09, 0x01, 0xA1, 0x00,
        0x05, 0x09, 0x19, 0x01, 0x29, 0x03, 0x15, 0x00, 0x25, 0x01, 0x95, 0x03, 0x75, 0x01,
        0x81, 0x02,
        0x95, 0x01, 0x75, 0x05, 0x81, 0x01,
        0x05, 0x01, 0x09, 0x30, 0x09, 0x31, 0x09, 0x38, 0x15, 0x81, 0x25, 0x7F, 0x75, 0x08,
        0x95, 0x03, 0x81, 0x06,
        0xC0, 0xC0,
    ]
}

/// The keyboard's report descriptor.
pub fn keyboard_report_descriptor() -> (d: Vec<u8>)
    ensures
        d@ == keyboard_descriptor_bytes(),
{
    let d = vec![
        0x05u8, 0x01, 0x09, 0x06, 0xA1, 0x01,
        0x05, 0x07, 0x19, 0xE0, 0x29, 0xE7, 0x15, 0x00, 0x25, 0x01, 0x75, 0x01, 0x95, 0x08,
        0x81, 0x02,
        0x95, 0x01, 0x75, 0x08, 0x81, 0x01,
        0x95, 0x05, 0x75, 0x01, 0x05, 0x08, 0x19, 0x01, 0x29, 0x05, 0x91, 0x02,
        0x95, 0x01, 0x75, 0x03, 0x91, 0x01,
        0x95, 0x06, 0x75, 0x08, 0x15, 0x00, 0x25, 0x65, 0x05, 0x07, 0x19, 0x00, 0x29, 0x65,
        0x81, 0x00,
        0xC0,
    ];
    assert(d@ =~= keyboard_descriptor_bytes());
    d
}

/// The mouse's report descriptor.
pub fn mouse_report_descriptor() -> (d: Vec<u8>)
    ensures
        d@ == mouse_descriptor_bytes(),
{
    let d = vec![
        0x05u8, 0x01, 0x09, 0x02, 0xA1, 0x01, 0x09, 0x01, 0xA1, 0x00,
        0x05, 0x09, 0x19, 0x01, 0x29, 0x03, 0x15, 0x00, 0x25, 0x01, 0x95, 0x03, 0x75, 0x01,
        0x81, 0x02,
        0x95, 0x01, 0x75, 0x05, 0x81, 0x01,
        0x05, 0x01, 0x09, 0x30, 0x09, 0x31, 0x09, 0x38, 0x15, 0x81, 0x25, 0x7F, 0x75, 0x08,
        0x95, 0x03, 0x81, 0x06,
        0xC0, 0xC0,
    ];
    assert(d@ =~= mouse_descriptor_bytes());
    d
}


/// Number of data bytes that follow a short item's prefix byte.
pub open spec fn item_data_len(prefix: u8) -> nat {
    let code = prefix % 4;
    if code == 3 {
        4
    } else {
        code as nat
    }
}

/// The unsigned little-endian value of the `len` data bytes of an item that
/// start at `pos` (`len` is 0, 1, 2 or 4).
pub open spec fn item_value(d: Seq<u8>, pos: int, len: nat) -> nat {
    if len == 0 {
        0
    } else if len == 1 {
        d[pos] as nat
    } else if len == 2 {
        d[pos] as nat + 256 * d[pos + 1] as nat
    } else {
        d[pos] as nat + 256 * d[pos + 1] as nat + 65536 * d[pos + 2] as nat + 16777216 * d[pos
            + 3] as nat
    }
}

/// Report bits declared, from position `pos` on, by the main items with tag
/// `main_tag` (8 for Input, 9 for Output), where `size` and `count` are the
/// current Report Size and Report Count. Each main item of that tag declares
/// `size * count` bits.
pub open spec fn declared_bits(d: Seq<u8>, pos: nat, main_tag: u8, size: nat, count: nat) -> nat
    decreases d.len() - pos,
{
    if pos >= d.len() {
        0
    } else {
        let prefix = d[pos as int];
        let n = item_data_len(prefix);
        if pos + 1 + n > d.len() {
            0
        } else {
            let value = item_value(d, pos + 1int, n);
            let next = pos + 1 + n;
            let kind = prefix - prefix % 4;
            if kind == 0x74 {
                declared_bits(d, next, main_tag, value, count)
            } else if kind == 0x94 {
                declared_bits(d, next, main_tag, size, value)
            } else if kind == main_tag * 16int {
                size * count + declared_bits(d, next, main_tag, size, count)
            } else {
                declared_bits(d, next, main_tag, size, count)
            }
        }
    }
}


/// The item state of a descriptor reader: the global items (usage page,
/// logical range, report size and count) and the local usage items that the
/// next main item consumes.
pub struct ItemState {
    pub page: nat,
    pub usages: Seq<nat>,
    pub usage_min: Option<nat>,
    pub usage_max: Option<nat>,
    pub logical_min: int,
    pub logical_max: int,
    pub size: nat,
    pub count: nat,
}

/// A report field, as an Input or Output main item declares it: its flags
/// (bit 0 constant, bit 1 variable, bit 2 relative), usage page, usages
/// (a list, or a range from `usage_min` to `usage_max`), logical range, and
/// `count` values of `size` bits each.
pub struct ReportField {
    pub flags: nat,
    pub page: nat,
    pub usages: Seq<nat>,
    pub usage_min: Option<nat>,
    pub usage_max: Option<nat>,
    pub logical_min: int,
    pub logical_max: int,
    pub size: nat,
    pub count: nat,
}

/// The state before the first item: nothing declared yet.
pub open spec fn initial_item_state() -> ItemState {
    ItemState {
        page: 0,
        usages: Seq::empty(),
        usage_min: None,
        usage_max: None,
        logical_min: 0,
        logical_max: 0,
        size: 0,
        count: 0,
    }
}

/// The signed value of `len` data bytes whose unsigned value is `v`.
pub open spec fn signed_item_value(v: nat, len: nat) -> int {
    if len == 1 && v >= 0x80 {
        v - 0x100
    } else if len == 2 && v >= 0x8000 {
        v - 0x1_0000
    } else if len == 4 && v >= 0x8000_0000 {
        v - 0x1_0000_0000
    } else {
        v as int
    }
}

/// The state after a main item: the local usage items are consumed.
pub open spec fn without_locals(st: ItemState) -> ItemState {
    ItemState { usages: Seq::empty(), usage_min: None, usage_max: None, ..st }
}

/// The state after a short item that is not a main item, of kind `kind`
/// (the prefix byte without its size bits) and value `v` over `n` bytes.
pub open spec fn after_item(st: ItemState, kind: u8, v: nat, n: nat) -> ItemState {
    if kind == 0x04 {
        ItemState { page: v, ..st }
    } else if kind == 0x14 {
        ItemState { logical_min: signed_item_value(v, n), ..st }
    } else if kind == 0x24 {
        ItemState { logical_max: signed_item_value(v, n), ..st }
    } else if kind == 0x74 {
        ItemState { size: v, ..st }
    } else if kind == 0x94 {
        ItemState { count: v, ..st }
    } else if kind == 0x08 {
        ItemState { usages: st.usages.push(v), ..st }
    } else if kind == 0x18 {
        ItemState { usage_min: Some(v), ..st }
    } else if kind == 0x28 {
        ItemState { usage_max: Some(v), ..st }
    } else {
        st
    }
}

/// The field that a main item with flags `flags` declares in state `st`.
pub open spec fn field_of(st: ItemState, flags: nat) -> ReportField {
    ReportField {
        flags,
        page: st.page,
        usages: st.usages,
        usage_min: st.usage_min,
        usage_max: st.usage_max,
        logical_min: st.logical_min,
        logical_max: st.logical_max,
        size: st.size,
        count: st.count,
    }
}

/// The fields that the main items of kind `main_kind` (0x80 Input, 0x90
/// Output) declare, in order, reading the descriptor from `pos` in state
/// `st`. Every main item (Input, Output, Feature, Collection, End
/// Collection) consumes the local usage items.
pub open spec fn report_fields(d: Seq<u8>, pos: nat, main_kind: u8, st: ItemState) -> Seq<
    ReportField,
>
    decreases d.len() - pos,
{
    if pos >= d.len() {
        Seq::empty()
    } else {
        let prefix = d[pos as int];
        let n = item_data_len(prefix);
        if pos + 1 + n > d.len() {
            Seq::empty()
        } else {
            let v = item_value(d, pos + 1int, n);
            let next = pos + 1 + n;
            let kind = (prefix - prefix % 4) as u8;
            if kind == main_kind {
                seq![field_of(st, v)] + report_fields(d, next, main_kind, without_locals(st))
            } else if kind == 0x80 || kind == 0x90 || kind == 0xb0 || kind == 0xa0 || kind == 0xc0 {
                report_fields(d, next, main_kind, without_locals(st))
            } else {
                report_fields(d, next, main_kind, after_item(st, kind, v, n))
            }
        }
    }
}

/// The bit at which field `i` starts in its report: the bits of the fields
/// before it.
pub open spec fn field_bit_offset(fields: Seq<ReportField>, i: int) -> nat
    decreases i,
{
    if i <= 0 {
        0
    } else {
        field_bit_offset(fields, i - 1) + fields[i - 1].size * fields[i - 1].count
    }
}

/// The field flags: bit 0 set for constant (padding), bit 1 for a variable
/// (one value per usage), bit 2 for relative values.
pub open spec fn is_constant(flags: nat) -> bool {
    flags % 2 == 1
}

pub open spec fn is_variable(flags: nat) -> bool {
    (flags / 2) % 2 == 1
}

pub open spec fn is_relative(flags: nat) -> bool {
    (flags / 4) % 2 == 1
}

/// The keyboard's descriptor declares input reports of exactly the length
/// that `keyboard_report` builds, and a one-byte LED output report.
pub proof fn lemma_keyboard_descriptor_fits_report()
    ensures
        declared_bits(keyboard_descriptor_bytes(), 0, 8, 0, 0) == 8 * KEYBOARD_REPORT_LEN,
        declared_bits(keyboard_descriptor_bytes(), 0, 9, 0, 0) == 8,
{
    let d = keyboard_descriptor_bytes();
    // Walk the items from the last back to the first, one unfolding each.
    assert(d.len() == 63);
    assert(declared_bits(d, 63, 8, 8, 6) == 0);
    assert(declared_bits(d, 62, 8, 8, 6) == 0);
    assert(declared_bits(d, 60, 8, 8, 6) == 48);
    assert(declared_bits(d, 58, 8, 8, 6) == 48);
    assert(declared_bits(d, 56, 8, 8, 6) == 48);
    assert(declared_bits(d, 54, 8, 8, 6) == 48);
    assert(declared_bits(d, 52, 8, 8, 6) == 48);
    assert(declared_bits(d, 50, 8, 8, 6) == 48);
    assert(declared_bits(d, 48, 8, 3, 6) == 48);
    assert(declared_bits(d, 46, 8, 3, 1) == 48);
    assert(declared_bits(d, 44, 8, 3, 1) == 48);
    assert(declared_bits(d, 42, 8, 1, 1) == 48);
    assert(declared_bits(d, 40, 8, 1, 5) == 48);
    assert(declared_bits(d, 38, 8, 1, 5) == 48);
    assert(declared_bits(d, 36, 8, 1, 5) == 48);
    assert(declared_bits(d, 34, 8, 1, 5) == 48);
    assert(declared_bits(d, 32, 8, 1, 5) == 48);
    assert(declared_bits(d, 30, 8, 8, 5) == 48);
    assert(declared_bits(d, 28, 8, 8, 1) == 48);
    assert(declared_bits(d, 26, 8, 8, 1) == 56);
    assert(declared_bits(d, 24, 8, 1, 1) == 56);
    assert(declared_bits(d, 22, 8, 1, 8) == 56);
    assert(declared_bits(d, 20, 8, 1, 8) == 64);
    assert(declared_bits(d, 18, 8, 1, 0) == 64);
    assert(declared_bits(d, 16, 8, 0, 0) == 64);
    assert(declared_bits(d, 14, 8, 0, 0) == 64);
    assert(declared_bits(d, 12, 8, 0, 0) == 64);
    assert(declared_bits(d, 10, 8, 0, 0) == 64);
    assert(declared_bits(d, 8, 8, 0, 0) == 64);
    assert(declared_bits(d, 6, 8, 0, 0) == 64);
    assert(declared_bits(d, 4, 8, 0, 0) == 64);
    assert(declared_bits(d, 2, 8, 0, 0) == 64);
    assert(declared_bits(d, 0, 8, 0, 0) == 64);
    assert(declared_bits(d, 63, 9, 8, 6) == 0);
    assert(declared_bits(d, 62, 9, 8, 6) == 0);
    assert(declared_bits(d, 60, 9, 8, 6) == 0);
    assert(declared_bits(d, 58, 9, 8, 6) == 0);
    assert(declared_bits(d, 56, 9, 8, 6) == 0);
    assert(declared_bits(d, 54, 9, 8, 6) == 0);
    assert(declared_bits(d, 52, 9, 8, 6) == 0);
    assert(declared_bits(d, 50, 9, 8, 6) == 0);
    assert(declared_bits(d, 48, 9, 3, 6) == 0);
    assert(declared_bits(d, 46, 9, 3, 1) == 0);
    assert(declared_bits(d, 44, 9, 3, 1) == 3);
    assert(declared_bits(d, 42, 9, 1, 1) == 3);
    assert(declared_bits(d, 40, 9, 1, 5) == 3);
    assert(declared_bits(d, 38, 9, 1, 5) == 8);
    assert(declared_bits(d, 36, 9, 1, 5) == 8);
    assert(declared_bits(d, 34, 9, 1, 5) == 8);
    assert(declared_bits(d, 32, 9, 1, 5) == 8);
    assert(declared_bits(d, 30, 9, 8, 5) == 8);
    assert(declared_bits(d, 28, 9, 8, 1) == 8);
    assert(declared_bits(d, 26, 9, 8, 1) == 8);
    assert(declared_bits(d, 24, 9, 1, 1) == 8);
    assert(declared_bits(d, 22, 9, 1, 8) == 8);
    assert(declared_bits(d, 20, 9, 1, 8) == 8);
    assert(declared_bits(d, 18, 9, 1, 0) == 8);
    assert(declared_bits(d, 16, 9, 0, 0) == 8);
    assert(declared_bits(d, 14, 9, 0, 0) == 8);
    assert(declared_bits(d, 12, 9, 0, 0) == 8);
    assert(declared_bits(d, 10, 9, 0, 0) == 8);
    assert(declared_bits(d, 8, 9, 0, 0) == 8);
    assert(declared_bits(d, 6, 9, 0, 0) == 8);
    assert(declared_bits(d, 4, 9, 0, 0) == 8);
    assert(declared_bits(d, 2, 9, 0, 0) == 8);
    assert(declared_bits(d, 0, 9, 0, 0) == 8);
}

/// The mouse's descriptor declares input reports of exactly the length that
/// `mouse_report` builds, and no output report.
pub proof fn lemma_mouse_descriptor_fits_report()
    ensures
        declared_bits(mouse_descriptor_bytes(), 0, 8, 0, 0) == 8 * MOUSE_REPORT_LEN,
        declared_bits(mouse_descriptor_bytes(), 0, 9, 0, 0) == 0,
{
    let d = mouse_descriptor_bytes();
    // Walk the items from the last back to the first, one unfolding each.
    assert(d.len() == 52);
    assert(declared_bits(d, 52, 8, 8, 3) == 0);
    assert(declared_bits(d, 51, 8, 8, 3) == 0);
    assert(declared_bits(d, 50, 8, 8, 3) == 0);
    assert(declared_bits(d, 48, 8, 8, 3) == 24);
    assert(declared_bits(d, 46, 8, 8, 1) == 24);
    assert(declared_bits(d, 44, 8, 5, 1) == 24);
    assert(declared_bits(d, 42, 8, 5, 1) == 24);
    assert(declared_bits(d, 40, 8, 5, 1) == 24);
    assert(declared_bits(d, 38, 8, 5, 1) == 24);
    assert(declared_bits(d, 36, 8, 5, 1) == 24);
    assert(declared_bits(d, 34, 8, 5, 1) == 24);
    assert(declared_bits(d, 32, 8, 5, 1) == 24);
    assert(declared_bits(d, 30, 8, 5, 1) == 29);
    assert(declared_bits(d, 28, 8, 1, 1) == 29);
    assert(declared_bits(d, 26, 8, 1, 3) == 29);
    assert(declared_bits(d, 24, 8, 1, 3) == 32);
    assert(declared_bits(d, 22, 8, 0, 3) == 32);
    assert(declared_bits(d, 20, 8, 0, 0) == 32);
    assert(declared_bits(d, 18, 8, 0, 0) == 32);
    assert(declared_bits(d, 16, 8, 0, 0) == 32);
    assert(declared_bits(d, 14, 8, 0, 0) == 32);
    assert(declared_bits(d, 12, 8, 0, 0) == 32);
    assert(declared_bits(d, 10, 8, 0, 0) == 32);
    assert(declared_bits(d, 8, 8, 0, 0) == 32);
    assert(declared_bits(d, 6, 8, 0, 0) == 32);
    assert(declared_bits(d, 4, 8, 0, 0) == 32);
    assert(declared_bits(d, 2, 8, 0, 0) == 32);
    assert(declared_bits(d, 0, 8, 0, 0) == 32);
    assert(declared_bits(d, 52, 9, 8, 3) == 0);
    assert(declared_bits(d, 51, 9, 8, 3) == 0);
    assert(declared_bits(d, 50, 9, 8, 3) == 0);
    assert(declared_bits(d, 48, 9, 8, 3) == 0);
    assert(declared_bits(d, 46, 9, 8, 1) == 0);
    assert(declared_bits(d, 44, 9, 5, 1) == 0);
    assert(declared_bits(d, 42, 9, 5, 1) == 0);
    assert(declared_bits(d, 40, 9, 5, 1) == 0);
    assert(declared_bits(d, 38, 9, 5, 1) == 0);
    assert(declared_bits(d, 36, 9, 5, 1) == 0);
    assert(declared_bits(d, 34, 9, 5, 1) == 0);
    assert(declared_bits(d, 32, 9, 5, 1) == 0);
    assert(declared_bits(d, 30, 9, 5, 1) == 0);
    assert(declared_bits(d, 28, 9, 1, 1) == 0);
    assert(declared_bits(d, 26, 9, 1, 3) == 0);
    assert(declared_bits(d, 24, 9, 1, 3) == 0);
    assert(declared_bits(d, 22, 9, 0, 3) == 0);
    assert(declared_bits(d, 20, 9, 0, 0) == 0);
    assert(declared_bits(d, 18, 9, 0, 0) == 0);
    assert(declared_bits(d, 16, 9, 0, 0) == 0);
    assert(declared_bits(d, 14, 9, 0, 0) == 0);
    assert(declared_bits(d, 12, 9, 0, 0) == 0);
    assert(declared_bits(d, 10, 9, 0, 0) == 0);
    assert(declared_bits(d, 8, 9, 0, 0) == 0);
    assert(declared_bits(d, 6, 9, 0, 0) == 0);
    assert(declared_bits(d, 4, 9, 0, 0) == 0);
    assert(declared_bits(d, 2, 9, 0, 0) == 0);
    assert(declared_bits(d, 0, 9, 0, 0) == 0);
}


/// The mouse's descriptor declares, in order, these input fields: three
/// buttons (Button page, usages 1 to 3, one bit each; data, variable,
/// absolute), five bits of constant padding, then X, Y and the wheel
/// (Generic Desktop usages 0x30, 0x31, 0x38; eight bits each; data,
/// variable, relative; from -127 to 127) from bit 8 on. It declares no
/// output field.
pub proof fn lemma_mouse_descriptor_fields()
    ensures
        ({
            let f = report_fields(mouse_descriptor_bytes(), 0, 0x80, initial_item_state());
            &&& f.len() == 3
            &&& f[0].page == 9 && f[0].usage_min == Some(1nat) && f[0].usage_max == Some(3nat)
            &&& f[0].size == 1 && f[0].count == 3
            &&& !is_constant(f[0].flags) && is_variable(f[0].flags) && !is_relative(f[0].flags)
            &&& is_constant(f[1].flags) && f[1].size == 5 && f[1].count == 1
            &&& f[2].page == 1 && f[2].usages == seq![0x30nat, 0x31nat, 0x38nat]
            &&& f[2].size == 8 && f[2].count == 3
            &&& !is_constant(f[2].flags) && is_variable(f[2].flags) && is_relative(f[2].flags)
            &&& f[2].logical_min == -127 && f[2].logical_max == 127
            &&& field_bit_offset(f, 0) == 0
            &&& field_bit_offset(f, 2) == 8
        }),
        report_fields(mouse_descriptor_bytes(), 0, 0x90, initial_item_state()).len() == 0,
{
    let d = mouse_descriptor_bytes();
    assert(d.len() == 52);
    assert(Seq::<nat>::empty().push(0x30nat) =~= seq![0x30nat]);
    assert(seq![0x30nat].push(0x31nat) =~= seq![0x30nat, 0x31nat]);
    assert(seq![0x30nat, 0x31nat].push(0x38nat) =~= seq![0x30nat, 0x31nat, 0x38nat]);
    assert(initial_item_state() == ItemState { page: 0, usages: Seq::<nat>::empty(), usage_min: None, usage_max: None, logical_min: 0, logical_max: 0, size: 0, count: 0 });
    // Read the items from the last back to the first, one unfolding each.
    assert(report_fields(d, 52, 128, ItemState { page: 1, usages: Seq::<nat>::empty(), usage_min: None, usage_max: None, logical_min: -127, logical_max: 127, size: 8, count: 3 }) =~~= Seq::<ReportField>::empty());
    assert(report_fields(d, 51, 128, ItemState { page: 1, usages: Seq::<nat>::empty(), usage_min: None, usage_max: None, logical_min: -127, logical_max: 127, size: 8, count: 3 }) =~~= Seq::<ReportField>::empty());
    assert(report_fields(d, 50, 128, ItemState { page: 1, usages: Seq::<nat>::empty(), usage_min: None, usage_max: None, logical_min: -127, logical_max: 127, size: 8, count: 3 }) =~~= Seq::<ReportField>::empty());
    assert(report_fields(d, 48, 128, ItemState { page: 1, usages: seq![48nat, 49nat, 56nat], usage_min: None, usage_max: None, logical_min: -127, logical_max: 127, size: 8, count: 3 }) =~~= seq![ReportField { flags: 6, page: 1, usages: seq![48nat, 49nat, 56nat], usage_min: None, usage_max: None, logical_min: -127, logical_max: 127, size: 8, count: 3 }]);
    assert(report_fields(d, 46, 128, ItemState { page: 1, usages: seq![48nat, 49nat, 56nat], usage_min: None, usage_max: None, logical_min: -127, logical_max: 127, size: 8, count: 1 }) =~~= seq![ReportField { flags: 6, page: 1, usages: seq![48nat, 49nat, 56nat], usage_min: None, usage_max: None, logical_min: -127, logical_max: 127, size: 8, count: 3 }]);
    assert(report_fields(d, 44, 128, ItemState { page: 1, usages: seq![48nat, 49nat, 56nat], usage_min: None, usage_max: None, logical_min: -127, logical_max: 127, size: 5, count: 1 }) =~~= seq![ReportField { flags: 6, page: 1, usages: seq![48nat, 49nat, 56nat], usage_min: None, usage_max: None, logical_min: -127, logical_max: 127, size: 8, count: 3 }]);
    assert(report_fields(d, 42, 128, ItemState { page: 1, usages: seq![48nat, 49nat, 56nat], usage_min: None, usage_max: None, logical_min: -127, logical_max: 1, size: 5, count: 1 }) =~~= seq![ReportField { flags: 6, page: 1, usages: seq![48nat, 49nat, 56nat], usage_min: None, usage_max: None, logical_min: -127, logical_max: 127, size: 8, count: 3 }]);
    assert(report_fields(d, 40, 128, ItemState { page: 1, usages: seq![48nat, 49nat, 56nat], usage_min: None, usage_max: None, logical_min: 0, logical_max: 1, size: 5, count: 1 }) =~~= seq![ReportField { flags: 6, page: 1, usages: seq![48nat, 49nat, 56nat], usage_min: None, usage_max: None, logical_min: -127, logical_max: 127, size: 8, count: 3 }]);
    assert(report_fields(d, 38, 128, ItemState { page: 1, usages: seq![48nat, 49nat], usage_min: None, usage_max: None, logical_min: 0, logical_max: 1, size: 5, count: 1 }) =~~= seq![ReportField { flags: 6, page: 1, usages: seq![48nat, 49nat, 56nat], usage_min: None, usage_max: None, logical_min: -127, logical_max: 127, size: 8, count: 3 }]);
    assert(report_fields(d, 36, 128, ItemState { page: 1, usages: seq![48nat], usage_min: None, usage_max: None, logical_min: 0, logical_max: 1, size: 5, count: 1 }) =~~= seq![ReportField { flags: 6, page: 1, usages: seq![48nat, 49nat, 56nat], usage_min: None, usage_max: None, logical_min: -127, logical_max: 127, size: 8, count: 3 }]);
    assert(report_fields(d, 34, 128, ItemState { page: 1, usages: Seq::<nat>::empty(), usage_min: None, usage_max: None, logical_min: 0, logical_max: 1, size: 5, count: 1 }) =~~= seq![ReportField { flags: 6, page: 1, usages: seq![48nat, 49nat, 56nat], usage_min: None, usage_max: None, logical_min: -127, logical_max: 127, size: 8, count: 3 }]);
    assert(report_fields(d, 32, 128, ItemState { page: 9, usages: Seq::<nat>::empty(), usage_min: None, usage_max: None, logical_min: 0, logical_max: 1, size: 5, count: 1 }) =~~= seq![ReportField { flags: 6, page: 1, usages: seq![48nat, 49nat, 56nat], usage_min: None, usage_max: None, logical_min: -127, logical_max: 127, size: 8, count: 3 }]);
    assert(report_fields(d, 30, 128, ItemState { page: 9, usages: Seq::<nat>::empty(), usage_min: None, usage_max: None, logical_min: 0, logical_max: 1, size: 5, count: 1 }) =~~= seq![ReportField { flags: 1, page: 9, usages: Seq::<nat>::empty(), usage_min: None, usage_max: None, logical_min: 0, logical_max: 1, size: 5, count: 1 }, ReportField { flags: 6, page: 1, usages: seq![48nat, 49nat, 56nat], usage_min: None, usage_max: None, logical_min: -127, logical_max: 127, size: 8, count: 3 }]);
    assert(report_fields(d, 28, 128, ItemState { page: 9, usages: Seq::<nat>::empty(), usage_min: None, usage_max: None, logical_min: 0, logical_max: 1, size: 1, count: 1 }) =~~= seq![ReportField { flags: 1, page: 9, usages: Seq::<nat>::empty(), usage_min: None, usage_max: None, logical_min: 0, logical_max: 1, size: 5, count: 1 }, ReportField { flags: 6, page: 1, usages: seq![48nat, 49nat, 56nat], usage_min: None, usage_max: None, logical_min: -127, logical_max: 127, size: 8, count: 3 }]);
    assert(report_fields(d, 26, 128, ItemState { page: 9, usages: Seq::<nat>::empty(), usage_min: None, usage_max: None, logical_min: 0, logical_max: 1, size: 1, count: 3 }) =~~= seq![ReportField { flags: 1, page: 9, usages: Seq::<nat>::empty(), usage_min: None, usage_max: None, logical_min: 0, logical_max: 1, size: 5, count: 1 }, ReportField { flags: 6, page: 1, usages: seq![48nat, 49nat, 56nat], usage_min: None, usage_max: None, logical_min: -127, logical_max: 127, size: 8, count: 3 }]);
    assert(report_fields(d, 24, 128, ItemState { page: 9, usages: Seq::<nat>::empty(), usage_min: Some(1nat), usage_max: Some(3nat), logical_min: 0, logical_max: 1, size: 1, count: 3 }) =~~= seq![ReportField { flags: 2, page: 9, usages: Seq::<nat>::empty(), usage_min: Some(1nat), usage_max: Some(3nat), logical_min: 0, logical_max: 1, size: 1, count: 3 }, ReportField { flags: 1, page: 9, usages: Seq::<nat>::empty(), usage_min: None, usage_max: None, logical_min: 0, logical_max: 1, size: 5, count: 1 }, ReportField { flags: 6, page: 1, usages: seq![48nat, 49nat, 56nat], usage_min: None, usage_max: None, logical_min: -127, logical_max: 127, size: 8, count: 3 }]);
    assert(report_fields(d, 22, 128, ItemState { page: 9, usages: Seq::<nat>::empty(), usage_min: Some(1nat), usage_max: Some(3nat), logical_min: 0, logical_max: 1, size: 0, count: 3 }) =~~= seq![ReportField { flags: 2, page: 9, usages: Seq::<nat>::empty(), usage_min: Some(1nat), usage_max: Some(3nat), logical_min: 0, logical_max: 1, size: 1, count: 3 }, ReportField { flags: 1, page: 9, usages: Seq::<nat>::empty(), usage_min: None, usage_max: None, logical_min: 0, logical_max: 1, size: 5, count: 1 }, ReportField { flags: 6, page: 1, usages: seq![48nat, 49nat, 56nat], usage_min: None, usage_max: None, logical_min: -127, logical_max: 127, size: 8, count: 3 }]);
    assert(report_fields(d, 20, 128, ItemState { page: 9, usages: Seq::<nat>::empty(), usage_min: Some(1nat), usage_max: Some(3nat), logical_min: 0, logical_max: 1, size: 0, count: 0 }) =~~= seq![ReportField { flags: 2, page: 9, usages: Seq::<nat>::empty(), usage_min: Some(1nat), usage_max: Some(3nat), logical_min: 0, logical_max: 1, size: 1, count: 3 }, ReportField { flags: 1, page: 9, usages: Seq::<nat>::empty(), usage_min: None, usage_max: None, logical_min: 0, logical_max: 1, size: 5, count: 1 }, ReportField { flags: 6, page: 1, usages: seq![48nat, 49nat, 56nat], usage_min: None, usage_max: None, logical_min: -127, logical_max: 127, size: 8, count: 3 }]);
    assert(report_fields(d, 18, 128, ItemState { page: 9, usages: Seq::<nat>::empty(), usage_min: Some(1nat), usage_max: Some(3nat), logical_min: 0, logical_max: 0, size: 0, count: 0 }) =~~= seq![ReportField { flags: 2, page: 9, usages: Seq::<nat>::empty(), usage_min: Some(1nat), usage_max: Some(3nat), logical_min: 0, logical_max: 1, size: 1, count: 3 }, ReportField { flags: 1, page: 9, usages: Seq::<nat>::empty(), usage_min: None, usage_max: None, logical_min: 0, logical_max: 1, size: 5, count: 1 }, ReportField { flags: 6, page: 1, usages: seq![48nat, 49nat, 56nat], usage_min: None, usage_max: None, logical_min: -127, logical_max: 127, size: 8, count: 3 }]);
    assert(report_fields(d, 16, 128, ItemState { page: 9, usages: Seq::<nat>::empty(), usage_min: Some(1nat), usage_max: Some(3nat), logical_min: 0, logical_max: 0, size: 0, count: 0 }) =~~= seq![ReportField { flags: 2, page: 9, usages: Seq::<nat>::empty(), usage_min: Some(1nat), usage_max: Some(3nat), logical_min: 0, logical_max: 1, size: 1, count: 3 }, ReportField { flags: 1, page: 9, usages: Seq::<nat>::empty(), usage_min: None, usage_max: None, logical_min: 0, logical_max: 1, size: 5, count: 1 }, ReportField { flags: 6, page: 1, usages: seq![48nat, 49nat, 56nat], usage_min: None, usage_max: None, logical_min: -127, logical_max: 127, size: 8, count: 3 }]);
    assert(report_fields(d, 14, 128, ItemState { page: 9, usages: Seq::<nat>::empty(), usage_min: Some(1nat), usage_max: None, logical_min: 0, logical_max: 0, size: 0, count: 0 }) =~~= seq![ReportField { flags: 2, page: 9, usages: Seq::<nat>::empty(), usage_min: Some(1nat), usage_max: Some(3nat), logical_min: 0, logical_max: 1, size: 1, count: 3 }, ReportField { flags: 1, page: 9, usages: Seq::<nat>::empty(), usage_min: None, usage_max: None, logical_min: 0, logical_max: 1, size: 5, count: 1 }, ReportField { flags: 6, page: 1, usages: seq![48nat, 49nat, 56nat], usage_min: None, usage_max: None, logical_min: -127, logical_max: 127, size: 8, count: 3 }]);
    assert(report_fields(d, 12, 128, ItemState { page: 9, usages: Seq::<nat>::empty(), usage_min: None, usage_max: None, logical_min: 0, logical_max: 0, size: 0, count: 0 }) =~~= seq![ReportField { flags: 2, page: 9, usages: Seq::<nat>::empty(), usage_min: Some(1nat), usage_max: Some(3nat), logical_min: 0, logical_max: 1, size: 1, count: 3 }, ReportField { flags: 1, page: 9, usages: Seq::<nat>::empty(), usage_min: None, usage_max: None, logical_min: 0, logical_max: 1, size: 5, count: 1 }, ReportField { flags: 6, page: 1, usages: seq![48nat, 49nat, 56nat], usage_min: None, usage_max: None, logical_min: -127, logical_max: 127, size: 8, count: 3 }]);
    assert(report_fields(d, 10, 128, ItemState { page: 1, usages: Seq::<nat>::empty(), usage_min: None, usage_max: None, logical_min: 0, logical_max: 0, size: 0, count: 0 }) =~~= seq![ReportField { flags: 2, page: 9, usages: Seq::<nat>::empty(), usage_min: Some(1nat), usage_max: Some(3nat), logical_min: 0, logical_max: 1, size: 1, count: 3 }, ReportField { flags: 1, page: 9, usages: Seq::<nat>::empty(), usage_min: None, usage_max: None, logical_min: 0, logical_max: 1, size: 5, count: 1 }, ReportField { flags: 6, page: 1, usages: seq![48nat, 49nat, 56nat], usage_min: None, usage_max: None, logical_min: -127, logical_max: 127, size: 8, count: 3 }]);
    assert(report_fields(d, 8, 128, ItemState { page: 1, usages: seq![1nat], usage_min: None, usage_max: None, logical_min: 0, logical_max: 0, size: 0, count: 0 }) =~~= seq![ReportField { flags: 2, page: 9, usages: Seq::<nat>::empty(), usage_min: Some(1nat), usage_max: Some(3nat), logical_min: 0, logical_max: 1, size: 1, count: 3 }, ReportField { flags: 1, page: 9, usages: Seq::<nat>::empty(), usage_min: None, usage_max: None, logical_min: 0, logical_max: 1, size: 5, count: 1 }, ReportField { flags: 6, page: 1, usages: seq![48nat, 49nat, 56nat], usage_min: None, usage_max: None, logical_min: -127, logical_max: 127, size: 8, count: 3 }]);
    assert(report_fields(d, 6, 128, ItemState { page: 1, usages: Seq::<nat>::empty(), usage_min: None, usage_max: None, logical_min: 0, logical_max: 0, size: 0, count: 0 }) =~~= seq![ReportField { flags: 2, page: 9, usages: Seq::<nat>::empty(), usage_min: Some(1nat), usage_max: Some(3nat), logical_min: 0, logical_max: 1, size: 1, count: 3 }, ReportField { flags: 1, page: 9, usages: Seq::<nat>::empty(), usage_min: None, usage_max: None, logical_min: 0, logical_max: 1, size: 5, count: 1 }, ReportField { flags: 6, page: 1, usages: seq![48nat, 49nat, 56nat], usage_min: None, usage_max: None, logical_min: -127, logical_max: 127, size: 8, count: 3 }]);
    assert(report_fields(d, 4, 128, ItemState { page: 1, usages: seq![2nat], usage_min: None, usage_max: None, logical_min: 0, logical_max: 0, size: 0, count: 0 }) =~~= seq![ReportField { flags: 2, page: 9, usages: Seq::<nat>::empty(), usage_min: Some(1nat), usage_max: Some(3nat), logical_min: 0, logical_max: 1, size: 1, count: 3 }, ReportField { flags: 1, page: 9, usages: Seq::<nat>::empty(), usage_min: None, usage_max: None, logical_min: 0, logical_max: 1, size: 5, count: 1 }, ReportField { flags: 6, page: 1, usages: seq![48nat, 49nat, 56nat], usage_min: None, usage_max: None, logical_min: -127, logical_max: 127, size: 8, count: 3 }]);
    assert(report_fields(d, 2, 128, ItemState { page: 1, usages: Seq::<nat>::empty(), usage_min: None, usage_max: None, logical_min: 0, logical_max: 0, size: 0, count: 0 }) =~~= seq![ReportField { flags: 2, page: 9, usages: Seq::<nat>::empty(), usage_min: Some(1nat), usage_max: Some(3nat), logical_min: 0, logical_max: 1, size: 1, count: 3 }, ReportField { flags: 1, page: 9, usages: Seq::<nat>::empty(), usage_min: None, usage_max: None, logical_min: 0, logical_max: 1, size: 5, count: 1 }, ReportField { flags: 6, page: 1, usages: seq![48nat, 49nat, 56nat], usage_min: None, usage_max: None, logical_min: -127, logical_max: 127, size: 8, count: 3 }]);
    assert(report_fields(d, 0, 128, ItemState { page: 0, usages: Seq::<nat>::empty(), usage_min: None, usage_max: None, logical_min: 0, logical_max: 0, size: 0, count: 0 }) =~~= seq![ReportField { flags: 2, page: 9, usages: Seq::<nat>::empty(), usage_min: Some(1nat), usage_max: Some(3nat), logical_min: 0, logical_max: 1, size: 1, count: 3 }, ReportField { flags: 1, page: 9, usages: Seq::<nat>::empty(), usage_min: None, usage_max: None, logical_min: 0, logical_max: 1, size: 5, count: 1 }, ReportField { flags: 6, page: 1, usages: seq![48nat, 49nat, 56nat], usage_min: None, usage_max: None, logical_min: -127, logical_max: 127, size: 8, count: 3 }]);
    assert(report_fields(d, 52, 144, ItemState { page: 1, usages: Seq::<nat>::empty(), usage_min: None, usage_max: None, logical_min: -127, logical_max: 127, size: 8, count: 3 }) =~~= Seq::<ReportField>::empty());
    assert(report_fields(d, 51, 144, ItemState { page: 1, usages: Seq::<nat>::empty(), usage_min: None, usage_max: None, logical_min: -127, logical_max: 127, size: 8, count: 3 }) =~~= Seq::<ReportField>::empty());
    assert(report_fields(d, 50, 144, ItemState { page: 1, usages: Seq::<nat>::empty(), usage_min: None, usage_max: None, logical_min: -127, logical_max: 127, size: 8, count: 3 }) =~~= Seq::<ReportField>::empty());
    assert(report_fields(d, 48, 144, ItemState { page: 1, usages: seq![48nat, 49nat, 56nat], usage_min: None, usage_max: None, logical_min: -127, logical_max: 127, size: 8, count: 3 }) =~~= Seq::<ReportField>::empty());
    assert(report_fields(d, 46, 144, ItemState { page: 1, usages: seq![48nat, 49nat, 56nat], usage_min: None, usage_max: None, logical_min: -127, logical_max: 127, size: 8, count: 1 }) =~~= Seq::<ReportField>::empty());
    assert(report_fields(d, 44, 144, ItemState { page: 1, usages: seq![48nat, 49nat, 56nat], usage_min: None, usage_max: None, logical_min: -127, logical_max: 127, size: 5, count: 1 }) =~~= Seq::<ReportField>::empty());
    assert(report_fields(d, 42, 144, ItemState { page: 1, usages: seq![48nat, 49nat, 56nat], usage_min: None, usage_max: None, logical_min: -127, logical_max: 1, size: 5, count: 1 }) =~~= Seq::<ReportField>::empty());
    assert(report_fields(d, 40, 144, ItemState { page: 1, usages: seq![48nat, 49nat, 56nat], usage_min: None, usage_max: None, logical_min: 0, logical_max: 1, size: 5, count: 1 }) =~~= Seq::<ReportField>::empty());
    assert(report_fields(d, 38, 144, ItemState { page: 1, usages: seq![48nat, 49nat], usage_min: None, usage_max: None, logical_min: 0, logical_max: 1, size: 5, count: 1 }) =~~= Seq::<ReportField>::empty());
    assert(report_fields(d, 36, 144, ItemState { page: 1, usages: seq![48nat], usage_min: None, usage_max: None, logical_min: 0, logical_max: 1, size: 5, count: 1 }) =~~= Seq::<ReportField>::empty());
    assert(report_fields(d, 34, 144, ItemState { page: 1, usages: Seq::<nat>::empty(), usage_min: None, usage_max: None, logical_min: 0, logical_max: 1, size: 5, count: 1 }) =~~= Seq::<ReportField>::empty());
    assert(report_fields(d, 32, 144, ItemState { page: 9, usages: Seq::<nat>::empty(), usage_min: None, usage_max: None, logical_min: 0, logical_max: 1, size: 5, count: 1 }) =~~= Seq::<ReportField>::empty());
    assert(report_fields(d, 30, 144, ItemState { page: 9, usages: Seq::<nat>::empty(), usage_min: None, usage_max: None, logical_min: 0, logical_max: 1, size: 5, count: 1 }) =~~= Seq::<ReportField>::empty());
    assert(report_fields(d, 28, 144, ItemState { page: 9, usages: Seq::<nat>::empty(), usage_min: None, usage_max: None, logical_min: 0, logical_max: 1, size: 1, count: 1 }) =~~= Seq::<ReportField>::empty());
    assert(report_fields(d, 26, 144, ItemState { page: 9, usages: Seq::<nat>::empty(), usage_min: None, usage_max: None, logical_min: 0, logical_max: 1, size: 1, count: 3 }) =~~= Seq::<ReportField>::empty());
    assert(report_fields(d, 24, 144, ItemState { page: 9, usages: Seq::<nat>::empty(), usage_min: Some(1nat), usage_max: Some(3nat), logical_min: 0, logical_max: 1, size: 1, count: 3 }) =~~= Seq::<ReportField>::empty());
    assert(report_fields(d, 22, 144, ItemState { page: 9, usages: Seq::<nat>::empty(), usage_min: Some(1nat), usage_max: Some(3nat), logical_min: 0, logical_max: 1, size: 0, count: 3 }) =~~= Seq::<ReportField>::empty());
    assert(report_fields(d, 20, 144, ItemState { page: 9, usages: Seq::<nat>::empty(), usage_min: Some(1nat), usage_max: Some(3nat), logical_min: 0, logical_max: 1, size: 0, count: 0 }) =~~= Seq::<ReportField>::empty());
    assert(report_fields(d, 18, 144, ItemState { page: 9, usages: Seq::<nat>::empty(), usage_min: Some(1nat), usage_max: Some(3nat), logical_min: 0, logical_max: 0, size: 0, count: 0 }) =~~= Seq::<ReportField>::empty());
    assert(report_fields(d, 16, 144, ItemState { page: 9, usages: Seq::<nat>::empty(), usage_min: Some(1nat), usage_max: Some(3nat), logical_min: 0, logical_max: 0, size: 0, count: 0 }) =~~= Seq::<ReportField>::empty());
    assert(report_fields(d, 14, 144, ItemState { page: 9, usages: Seq::<nat>::empty(), usage_min: Some(1nat), usage_max: None, logical_min: 0, logical_max: 0, size: 0, count: 0 }) =~~= Seq::<ReportField>::empty());
    assert(report_fields(d, 12, 144, ItemState { page: 9, usages: Seq::<nat>::empty(), usage_min: None, usage_max: None, logical_min: 0, logical_max: 0, size: 0, count: 0 }) =~~= Seq::<ReportField>::empty());
    assert(report_fields(d, 10, 144, ItemState { page: 1, usages: Seq::<nat>::empty(), usage_min: None, usage_max: None, logical_min: 0, logical_max: 0, size: 0, count: 0 }) =~~= Seq::<ReportField>::empty());
    assert(report_fields(d, 8, 144, ItemState { page: 1, usages: seq![1nat], usage_min: None, usage_max: None, logical_min: 0, logical_max: 0, size: 0, count: 0 }) =~~= Seq::<ReportField>::empty());
    assert(report_fields(d, 6, 144, ItemState { page: 1, usages: Seq::<nat>::empty(), usage_min: None, usage_max: None, logical_min: 0, logical_max: 0, size: 0, count: 0 }) =~~= Seq::<ReportField>::empty());
    assert(report_fields(d, 4, 144, ItemState { page: 1, usages: seq![2nat], usage_min: None, usage_max: None, logical_min: 0, logical_max: 0, size: 0, count: 0 }) =~~= Seq::<ReportField>::empty());
    assert(report_fields(d, 2, 144, ItemState { page: 1, usages: Seq::<nat>::empty(), usage_min: None, usage_max: None, logical_min: 0, logical_max: 0, size: 0, count: 0 }) =~~= Seq::<ReportField>::empty());
    assert(report_fields(d, 0, 144, ItemState { page: 0, usages: Seq::<nat>::empty(), usage_min: None, usage_max: None, logical_min: 0, logical_max: 0, size: 0, count: 0 }) =~~= Seq::<ReportField>::empty());
    reveal_with_fuel(field_bit_offset, 3);
}

/// Each value of a mouse report sits where the mouse's descriptor declares
/// it: the buttons in the first byte, and X, Y and the wheel (usages 0x30,
/// 0x31, 0x38, in this order) in the bytes from bit 8 on.
pub proof fn lemma_mouse_report_matches_descriptor(buttons: u8, x: i8, y: i8, wheel: i8)
    ensures
        ({
            let f = report_fields(mouse_descriptor_bytes(), 0, 0x80, initial_item_state());
            let r = mouse_report_bytes(buttons, x, y, wheel);
            let axes = field_bit_offset(f, 2) / 8;
            &&& r[(field_bit_offset(f, 0) / 8) as int] == buttons
            &&& f[2].usages[0] == 0x30 && r[axes as int] == axis_byte(x)
            &&& f[2].usages[1] == 0x31 && r[axes + 1int] == axis_byte(y)
            &&& f[2].usages[2] == 0x38 && r[axes + 2int] == axis_byte(wheel)
        }),
{
    lemma_mouse_descriptor_fields();
}

/// The keyboard's descriptor declares, in order, these input fields: the
/// eight modifier keys (Keyboard page, usages 0xE0 to 0xE7, one bit each;
/// data, variable, absolute), a constant byte, then from bit 16 on an array
/// of six eight-bit key codes (Keyboard page, usages 0 to 101, values 0 to
/// 101; data, array, absolute). Its output fields are the five LEDs (LED
/// page, usages 1 to 5, one bit each; data, variable, absolute) and three
/// bits of constant padding.
pub proof fn lemma_keyboard_descriptor_fields()
    ensures
        ({
            let f = report_fields(keyboard_descriptor_bytes(), 0, 0x80, initial_item_state());
            &&& f.len() == 3
            &&& f[0].page == 7 && f[0].usage_min == Some(0xE0nat) && f[0].usage_max == Some(
                0xE7nat,
            )
            &&& f[0].size == 1 && f[0].count == 8
            &&& !is_constant(f[0].flags) && is_variable(f[0].flags) && !is_relative(f[0].flags)
            &&& is_constant(f[1].flags) && f[1].size == 8 && f[1].count == 1
            &&& f[2].page == 7 && f[2].usage_min == Some(0nat) && f[2].usage_max == Some(0x65nat)
            &&& f[2].logical_min == 0 && f[2].logical_max == 0x65
            &&& f[2].size == 8 && f[2].count == 6
            &&& !is_constant(f[2].flags) && !is_variable(f[2].flags) && !is_relative(f[2].flags)
            &&& field_bit_offset(f, 0) == 0
            &&& field_bit_offset(f, 2) == 16
        }),
        ({
            let o = report_fields(keyboard_descriptor_bytes(), 0, 0x90, initial_item_state());
            &&& o.len() == 2
            &&& o[0].page == 8 && o[0].usage_min == Some(1nat) && o[0].usage_max == Some(5nat)
            &&& o[0].size == 1 && o[0].count == 5
            &&& !is_constant(o[0].flags) && is_variable(o[0].flags) && !is_relative(o[0].flags)
            &&& is_constant(o[1].flags) && o[1].size == 3 && o[1].count == 1
        }),
{
    let d = keyboard_descriptor_bytes();
    assert(d.len() == 63);
    assert(initial_item_state() == ItemState { page: 0, usages: Seq::<nat>::empty(), usage_min: None, usage_max: None, logical_min: 0, logical_max: 0, size: 0, count: 0 });
    // Read the items from the last back to the first, one unfolding each.
    assert(report_fields(d, 63, 128, ItemState { page: 7, usages: Seq::<nat>::empty(), usage_min: None, usage_max: None, logical_min: 0, logical_max: 101, size: 8, count: 6 }) =~~= Seq::<ReportField>::empty());
    assert(report_fields(d, 62, 128, ItemState { page: 7, usages: Seq::<nat>::empty(), usage_min: None, usage_max: None, logical_min: 0, logical_max: 101, size: 8, count: 6 }) =~~= Seq::<ReportField>::empty());
    assert(report_fields(d, 60, 128, ItemState { page: 7, usages: Seq::<nat>::empty(), usage_min: Some(0nat), usage_max: Some(101nat), logical_min: 0, logical_max: 101, size: 8, count: 6 }) =~~= seq![ReportField { flags: 0, page: 7, usages: Seq::<nat>::empty(), usage_min: Some(0nat), usage_max: Some(101nat), logical_min: 0, logical_max: 101, size: 8, count: 6 }]);
    assert(report_fields(d, 58, 128, ItemState { page: 7, usages: Seq::<nat>::empty(), usage_min: Some(0nat), usage_max: None, logical_min: 0, logical_max: 101, size: 8, count: 6 }) =~~= seq![ReportField { flags: 0, page: 7, usages: Seq::<nat>::empty(), usage_min: Some(0nat), usage_max: Some(101nat), logical_min: 0, logical_max: 101, size: 8, count: 6 }]);
    assert(report_fields(d, 56, 128, ItemState { page: 7, usages: Seq::<nat>::empty(), usage_min: None, usage_max: None, logical_min: 0, logical_max: 101, size: 8, count: 6 }) =~~= seq![ReportField { flags: 0, page: 7, usages: Seq::<nat>::empty(), usage_min: Some(0nat), usage_max: Some(101nat), logical_min: 0, logical_max: 101, size: 8, count: 6 }]);
    assert(report_fields(d, 54, 128, ItemState { page: 8, usages: Seq::<nat>::empty(), usage_min: None, usage_max: None, logical_min: 0, logical_max: 101, size: 8, count: 6 }) =~~= seq![ReportField { flags: 0, page: 7, usages: Seq::<nat>::empty(), usage_min: Some(0nat), usage_max: Some(101nat), logical_min: 0, logical_max: 101, size: 8, count: 6 }]);
    assert(report_fields(d, 52, 128, ItemState { page: 8, usages: Seq::<nat>::empty(), usage_min: None, usage_max: None, logical_min: 0, logical_max: 1, size: 8, count: 6 }) =~~= seq![ReportField { flags: 0, page: 7, usages: Seq::<nat>::empty(), usage_min: Some(0nat), usage_max: Some(101nat), logical_min: 0, logical_max: 101, size: 8, count: 6 }]);
    assert(report_fields(d, 50, 128, ItemState { page: 8, usages: Seq::<nat>::empty(), usage_min: None, usage_max: None, logical_min: 0, logical_max: 1, size: 8, count: 6 }) =~~= seq![ReportField { flags: 0, page: 7, usages: Seq::<nat>::empty(), usage_min: Some(0nat), usage_max: Some(101nat), logical_min: 0, logical_max: 101, size: 8, count: 6 }]);
    assert(report_fields(d, 48, 128, ItemState { page: 8, usages: Seq::<nat>::empty(), usage_min: None, usage_max: None, logical_min: 0, logical_max: 1, size: 3, count: 6 }) =~~= seq![ReportField { flags: 0, page: 7, usages: Seq::<nat>::empty(), usage_min: Some(0nat), usage_max: Some(101nat), logical_min: 0, logical_max: 101, size: 8, count: 6 }]);
    assert(report_fields(d, 46, 128, ItemState { page: 8, usages: Seq::<nat>::empty(), usage_min: None, usage_max: None, logical_min: 0, logical_max: 1, size: 3, count: 1 }) =~~= seq![ReportField { flags: 0, page: 7, usages: Seq::<nat>::empty(), usage_min: Some(0nat), usage_max: Some(101nat), logical_min: 0, logical_max: 101, size: 8, count: 6 }]);
    assert(report_fields(d, 44, 128, ItemState { page: 8, usages: Seq::<nat>::empty(), usage_min: None, usage_max: None, logical_min: 0, logical_max: 1, size: 3, count: 1 }) =~~= seq![ReportField { flags: 0, page: 7, usages: Seq::<nat>::empty(), usage_min: Some(0nat), usage_max: Some(101nat), logical_min: 0, logical_max: 101, size: 8, count: 6 }]);
    assert(report_fields(d, 42, 128, ItemState { page: 8, usages: Seq::<nat>::empty(), usage_min: None, usage_max: None, logical_min: 0, logical_max: 1, size: 1, count: 1 }) =~~= seq![ReportField { flags: 0, page: 7, usages: Seq::<nat>::empty(), usage_min: Some(0nat), usage_max: Some(101nat), logical_min: 0, logical_max: 101, size: 8, count: 6 }]);
    assert(report_fields(d, 40, 128, ItemState { page: 8, usages: Seq::<nat>::empty(), usage_min: None, usage_max: None, logical_min: 0, logical_max: 1, size: 1, count: 5 }) =~~= seq![ReportField { flags: 0, page: 7, usages: Seq::<nat>::empty(), usage_min: Some(0nat), usage_max: Some(101nat), logical_min: 0, logical_max: 101, size: 8, count: 6 }]);
    assert(report_fields(d, 38, 128, ItemState { page: 8, usages: Seq::<nat>::empty(), usage_min: Some(1nat), usage_max: Some(5nat), logical_min: 0, logical_max: 1, size: 1, count: 5 }) =~~= seq![ReportField { flags: 0, page: 7, usages: Seq::<nat>::empty(), usage_min: Some(0nat), usage_max: Some(101nat), logical_min: 0, logical_max: 101, size: 8, count: 6 }]);
    assert(report_fields(d, 36, 128, ItemState { page: 8, usages: Seq::<nat>::empty(), usage_min: Some(1nat), usage_max: None, logical_min: 0, logical_max: 1, size: 1, count: 5 }) =~~= seq![ReportField { flags: 0, page: 7, usages: Seq::<nat>::empty(), usage_min: Some(0nat), usage_max: Some(101nat), logical_min: 0, logical_max: 101, size: 8, count: 6 }]);
    assert(report_fields(d, 34, 128, ItemState { page: 8, usages: Seq::<nat>::empty(), usage_min: None, usage_max: None, logical_min: 0, logical_max: 1, size: 1, count: 5 }) =~~= seq![ReportField { flags: 0, page: 7, usages: Seq::<nat>::empty(), usage_min: Some(0nat), usage_max: Some(101nat), logical_min: 0, logical_max: 101, size: 8, count: 6 }]);
    assert(report_fields(d, 32, 128, ItemState { page: 7, usages: Seq::<nat>::empty(), usage_min: None, usage_max: None, logical_min: 0, logical_max: 1, size: 1, count: 5 }) =~~= seq![ReportField { flags: 0, page: 7, usages: Seq::<nat>::empty(), usage_min: Some(0nat), usage_max: Some(101nat), logical_min: 0, logical_max: 101, size: 8, count: 6 }]);
    assert(report_fields(d, 30, 128, ItemState { page: 7, usages: Seq::<nat>::empty(), usage_min: None, usage_max: None, logical_min: 0, logical_max: 1, size: 8, count: 5 }) =~~= seq![ReportField { flags: 0, page: 7, usages: Seq::<nat>::empty(), usage_min: Some(0nat), usage_max: Some(101nat), logical_min: 0, logical_max: 101, size: 8, count: 6 }]);
    assert(report_fields(d, 28, 128, ItemState { page: 7, usages: Seq::<nat>::empty(), usage_min: None, usage_max: None, logical_min: 0, logical_max: 1, size: 8, count: 1 }) =~~= seq![ReportField { flags: 0, page: 7, usages: Seq::<nat>::empty(), usage_min: Some(0nat), usage_max: Some(101nat), logical_min: 0, logical_max: 101, size: 8, count: 6 }]);
    assert(report_fields(d, 26, 128, ItemState { page: 7, usages: Seq::<nat>::empty(), usage_min: None, usage_max: None, logical_min: 0, logical_max: 1, size: 8, count: 1 }) =~~= seq![ReportField { flags: 1, page: 7, usages: Seq::<nat>::empty(), usage_min: None, usage_max: None, logical_min: 0, logical_max: 1, size: 8, count: 1 }, ReportField { flags: 0, page: 7, usages: Seq::<nat>::empty(), usage_min: Some(0nat), usage_max: Some(101nat), logical_min: 0, logical_max: 101, size: 8, count: 6 }]);
    assert(report_fields(d, 24, 128, ItemState { page: 7, usages: Seq::<nat>::empty(), usage_min: None, usage_max: None, logical_min: 0, logical_max: 1, size: 1, count: 1 }) =~~= seq![ReportField { flags: 1, page: 7, usages: Seq::<nat>::empty(), usage_min: None, usage_max: None, logical_min: 0, logical_max: 1, size: 8, count: 1 }, ReportField { flags: 0, page: 7, usages: Seq::<nat>::empty(), usage_min: Some(0nat), usage_max: Some(101nat), logical_min: 0, logical_max: 101, size: 8, count: 6 }]);
    assert(report_fields(d, 22, 128, ItemState { page: 7, usages: Seq::<nat>::empty(), usage_min: None, usage_max: None, logical_min: 0, logical_max: 1, size: 1, count: 8 }) =~~= seq![ReportField { flags: 1, page: 7, usages: Seq::<nat>::empty(), usage_min: None, usage_max: None, logical_min: 0, logical_max: 1, size: 8, count: 1 }, ReportField { flags: 0, page: 7, usages: Seq::<nat>::empty(), usage_min: Some(0nat), usage_max: Some(101nat), logical_min: 0, logical_max: 101, size: 8, count: 6 }]);
    assert(report_fields(d, 20, 128, ItemState { page: 7, usages: Seq::<nat>::empty(), usage_min: Some(224nat), usage_max: Some(231nat), logical_min: 0, logical_max: 1, size: 1, count: 8 }) =~~= seq![ReportField { flags: 2, page: 7, usages: Seq::<nat>::empty(), usage_min: Some(224nat), usage_max: Some(231nat), logical_min: 0, logical_max: 1, size: 1, count: 8 }, ReportField { flags: 1, page: 7, usages: Seq::<nat>::empty(), usage_min: None, usage_max: None, logical_min: 0, logical_max: 1, size: 8, count: 1 }, ReportField { flags: 0, page: 7, usages: Seq::<nat>::empty(), usage_min: Some(0nat), usage_max: Some(101nat), logical_min: 0, logical_max: 101, size: 8, count: 6 }]);
    assert(report_fields(d, 18, 128, ItemState { page: 7, usages: Seq::<nat>::empty(), usage_min: Some(224nat), usage_max: Some(231nat), logical_min: 0, logical_max: 1, size: 1, count: 0 }) =~~= seq![ReportField { flags: 2, page: 7, usages: Seq::<nat>::empty(), usage_min: Some(224nat), usage_max: Some(231nat), logical_min: 0, logical_max: 1, size: 1, count: 8 }, ReportField { flags: 1, page: 7, usages: Seq::<nat>::empty(), usage_min: None, usage_max: None, logical_min: 0, logical_max: 1, size: 8, count: 1 }, ReportField { flags: 0, page: 7, usages: Seq::<nat>::empty(), usage_min: Some(0nat), usage_max: Some(101nat), logical_min: 0, logical_max: 101, size: 8, count: 6 }]);
    assert(report_fields(d, 16, 128, ItemState { page: 7, usages: Seq::<nat>::empty(), usage_min: Some(224nat), usage_max: Some(231nat), logical_min: 0, logical_max: 1, size: 0, count: 0 }) =~~= seq![ReportField { flags: 2, page: 7, usages: Seq::<nat>::empty(), usage_min: Some(224nat), usage_max: Some(231nat), logical_min: 0, logical_max: 1, size: 1, count: 8 }, ReportField { flags: 1, page: 7, usages: Seq::<nat>::empty(), usage_min: None, usage_max: None, logical_min: 0, logical_max: 1, size: 8, count: 1 }, ReportField { flags: 0, page: 7, usages: Seq::<nat>::empty(), usage_min: Some(0nat), usage_max: Some(101nat), logical_min: 0, logical_max: 101, size: 8, count: 6 }]);
    assert(report_fields(d, 14, 128, ItemState { page: 7, usages: Seq::<nat>::empty(), usage_min: Some(224nat), usage_max: Some(231nat), logical_min: 0, logical_max: 0, size: 0, count: 0 }) =~~= seq![ReportField { flags: 2, page: 7, usages: Seq::<nat>::empty(), usage_min: Some(224nat), usage_max: Some(231nat), logical_min: 0, logical_max: 1, size: 1, count: 8 }, ReportField { flags: 1, page: 7, usages: Seq::<nat>::empty(), usage_min: None, usage_max: None, logical_min: 0, logical_max: 1, size: 8, count: 1 }, ReportField { flags: 0, page: 7, usages: Seq::<nat>::empty(), usage_min: Some(0nat), usage_max: Some(101nat), logical_min: 0, logical_max: 101, size: 8, count: 6 }]);
    assert(report_fields(d, 12, 128, ItemState { page: 7, usages: Seq::<nat>::empty(), usage_min: Some(224nat), usage_max: Some(231nat), logical_min: 0, logical_max: 0, size: 0, count: 0 }) =~~= seq![ReportField { flags: 2, page: 7, usages: Seq::<nat>::empty(), usage_min: Some(224nat), usage_max: Some(231nat), logical_min: 0, logical_max: 1, size: 1, count: 8 }, ReportField { flags: 1, page: 7, usages: Seq::<nat>::empty(), usage_min: None, usage_max: None, logical_min: 0, logical_max: 1, size: 8, count: 1 }, ReportField { flags: 0, page: 7, usages: Seq::<nat>::empty(), usage_min: Some(0nat), usage_max: Some(101nat), logical_min: 0, logical_max: 101, size: 8, count: 6 }]);
    assert(report_fields(d, 10, 128, ItemState { page: 7, usages: Seq::<nat>::empty(), usage_min: Some(224nat), usage_max: None, logical_min: 0, logical_max: 0, size: 0, count: 0 }) =~~= seq![ReportField { flags: 2, page: 7, usages: Seq::<nat>::empty(), usage_min: Some(224nat), usage_max: Some(231nat), logical_min: 0, logical_max: 1, size: 1, count: 8 }, ReportField { flags: 1, page: 7, usages: Seq::<nat>::empty(), usage_min: None, usage_max: None, logical_min: 0, logical_max: 1, size: 8, count: 1 }, ReportField { flags: 0, page: 7, usages: Seq::<nat>::empty(), usage_min: Some(0nat), usage_max: Some(101nat), logical_min: 0, logical_max: 101, size: 8, count: 6 }]);
    assert(report_fields(d, 8, 128, ItemState { page: 7, usages: Seq::<nat>::empty(), usage_min: None, usage_max: None, logical_min: 0, logical_max: 0, size: 0, count: 0 }) =~~= seq![ReportField { flags: 2, page: 7, usages: Seq::<nat>::empty(), usage_min: Some(224nat), usage_max: Some(231nat), logical_min: 0, logical_max: 1, size: 1, count: 8 }, ReportField { flags: 1, page: 7, usages: Seq::<nat>::empty(), usage_min: None, usage_max: None, logical_min: 0, logical_max: 1, size: 8, count: 1 }, ReportField { flags: 0, page: 7, usages: Seq::<nat>::empty(), usage_min: Some(0nat), usage_max: Some(101nat), logical_min: 0, logical_max: 101, size: 8, count: 6 }]);
    assert(report_fields(d, 6, 128, ItemState { page: 1, usages: Seq::<nat>::empty(), usage_min: None, usage_max: None, logical_min: 0, logical_max: 0, size: 0, count: 0 }) =~~= seq![ReportField { flags: 2, page: 7, usages: Seq::<nat>::empty(), usage_min: Some(224nat), usage_max: Some(231nat), logical_min: 0, logical_max: 1, size: 1, count: 8 }, ReportField { flags: 1, page: 7, usages: Seq::<nat>::empty(), usage_min: None, usage_max: None, logical_min: 0, logical_max: 1, size: 8, count: 1 }, ReportField { flags: 0, page: 7, usages: Seq::<nat>::empty(), usage_min: Some(0nat), usage_max: Some(101nat), logical_min: 0, logical_max: 101, size: 8, count: 6 }]);
    assert(report_fields(d, 4, 128, ItemState { page: 1, usages: seq![6nat], usage_min: None, usage_max: None, logical_min: 0, logical_max: 0, size: 0, count: 0 }) =~~= seq![ReportField { flags: 2, page: 7, usages: Seq::<nat>::empty(), usage_min: Some(224nat), usage_max: Some(231nat), logical_min: 0, logical_max: 1, size: 1, count: 8 }, ReportField { flags: 1, page: 7, usages: Seq::<nat>::empty(), usage_min: None, usage_max: None, logical_min: 0, logical_max: 1, size: 8, count: 1 }, ReportField { flags: 0, page: 7, usages: Seq::<nat>::empty(), usage_min: Some(0nat), usage_max: Some(101nat), logical_min: 0, logical_max: 101, size: 8, count: 6 }]);
    assert(report_fields(d, 2, 128, ItemState { page: 1, usages: Seq::<nat>::empty(), usage_min: None, usage_max: None, logical_min: 0, logical_max: 0, size: 0, count: 0 }) =~~= seq![ReportField { flags: 2, page: 7, usages: Seq::<nat>::empty(), usage_min: Some(224nat), usage_max: Some(231nat), logical_min: 0, logical_max: 1, size: 1, count: 8 }, ReportField { flags: 1, page: 7, usages: Seq::<nat>::empty(), usage_min: None, usage_max: None, logical_min: 0, logical_max: 1, size: 8, count: 1 }, ReportField { flags: 0, page: 7, usages: Seq::<nat>::empty(), usage_min: Some(0nat), usage_max: Some(101nat), logical_min: 0, logical_max: 101, size: 8, count: 6 }]);
    assert(report_fields(d, 0, 128, ItemState { page: 0, usages: Seq::<nat>::empty(), usage_min: None, usage_max: None, logical_min: 0, logical_max: 0, size: 0, count: 0 }) =~~= seq![ReportField { flags: 2, page: 7, usages: Seq::<nat>::empty(), usage_min: Some(224nat), usage_max: Some(231nat), logical_min: 0, logical_max: 1, size: 1, count: 8 }, ReportField { flags: 1, page: 7, usages: Seq::<nat>::empty(), usage_min: None, usage_max: None, logical_min: 0, logical_max: 1, size: 8, count: 1 }, ReportField { flags: 0, page: 7, usages: Seq::<nat>::empty(), usage_min: Some(0nat), usage_max: Some(101nat), logical_min: 0, logical_max: 101, size: 8, count: 6 }]);
    assert(report_fields(d, 63, 144, ItemState { page: 7, usages: Seq::<nat>::empty(), usage_min: None, usage_max: None, logical_min: 0, logical_max: 101, size: 8, count: 6 }) =~~= Seq::<ReportField>::empty());
    assert(report_fields(d, 62, 144, ItemState { page: 7, usages: Seq::<nat>::empty(), usage_min: None, usage_max: None, logical_min: 0, logical_max: 101, size: 8, count: 6 }) =~~= Seq::<ReportField>::empty());
    assert(report_fields(d, 60, 144, ItemState { page: 7, usages: Seq::<nat>::empty(), usage_min: Some(0nat), usage_max: Some(101nat), logical_min: 0, logical_max: 101, size: 8, count: 6 }) =~~= Seq::<ReportField>::empty());
    assert(report_fields(d, 58, 144, ItemState { page: 7, usages: Seq::<nat>::empty(), usage_min: Some(0nat), usage_max: None, logical_min: 0, logical_max: 101, size: 8, count: 6 }) =~~= Seq::<ReportField>::empty());
    assert(report_fields(d, 56, 144, ItemState { page: 7, usages: Seq::<nat>::empty(), usage_min: None, usage_max: None, logical_min: 0, logical_max: 101, size: 8, count: 6 }) =~~= Seq::<ReportField>::empty());
    assert(report_fields(d, 54, 144, ItemState { page: 8, usages: Seq::<nat>::empty(), usage_min: None, usage_max: None, logical_min: 0, logical_max: 101, size: 8, count: 6 }) =~~= Seq::<ReportField>::empty());
    assert(report_fields(d, 52, 144, ItemState { page: 8, usages: Seq::<nat>::empty(), usage_min: None, usage_max: None, logical_min: 0, logical_max: 1, size: 8, count: 6 }) =~~= Seq::<ReportField>::empty());
    assert(report_fields(d, 50, 144, ItemState { page: 8, usages: Seq::<nat>::empty(), usage_min: None, usage_max: None, logical_min: 0, logical_max: 1, size: 8, count: 6 }) =~~= Seq::<ReportField>::empty());
    assert(report_fields(d, 48, 144, ItemState { page: 8, usages: Seq::<nat>::empty(), usage_min: None, usage_max: None, logical_min: 0, logical_max: 1, size: 3, count: 6 }) =~~= Seq::<ReportField>::empty());
    assert(report_fields(d, 46, 144, ItemState { page: 8, usages: Seq::<nat>::empty(), usage_min: None, usage_max: None, logical_min: 0, logical_max: 1, size: 3, count: 1 }) =~~= Seq::<ReportField>::empty());
    assert(report_fields(d, 44, 144, ItemState { page: 8, usages: Seq::<nat>::empty(), usage_min: None, usage_max: None, logical_min: 0, logical_max: 1, size: 3, count: 1 }) =~~= seq![ReportField { flags: 1, page: 8, usages: Seq::<nat>::empty(), usage_min: None, usage_max: None, logical_min: 0, logical_max: 1, size: 3, count: 1 }]);
    assert(report_fields(d, 42, 144, ItemState { page: 8, usages: Seq::<nat>::empty(), usage_min: None, usage_max: None, logical_min: 0, logical_max: 1, size: 1, count: 1 }) =~~= seq![ReportField { flags: 1, page: 8, usages: Seq::<nat>::empty(), usage_min: None, usage_max: None, logical_min: 0, logical_max: 1, size: 3, count: 1 }]);
    assert(report_fields(d, 40, 144, ItemState { page: 8, usages: Seq::<nat>::empty(), usage_min: None, usage_max: None, logical_min: 0, logical_max: 1, size: 1, count: 5 }) =~~= seq![ReportField { flags: 1, page: 8, usages: Seq::<nat>::empty(), usage_min: None, usage_max: None, logical_min: 0, logical_max: 1, size: 3, count: 1 }]);
    assert(report_fields(d, 38, 144, ItemState { page: 8, usages: Seq::<nat>::empty(), usage_min: Some(1nat), usage_max: Some(5nat), logical_min: 0, logical_max: 1, size: 1, count: 5 }) =~~= seq![ReportField { flags: 2, page: 8, usages: Seq::<nat>::empty(), usage_min: Some(1nat), usage_max: Some(5nat), logical_min: 0, logical_max: 1, size: 1, count: 5 }, ReportField { flags: 1, page: 8, usages: Seq::<nat>::empty(), usage_min: None, usage_max: None, logical_min: 0, logical_max: 1, size: 3, count: 1 }]);
    assert(report_fields(d, 36, 144, ItemState { page: 8, usages: Seq::<nat>::empty(), usage_min: Some(1nat), usage_max: None, logical_min: 0, logical_max: 1, size: 1, count: 5 }) =~~= seq![ReportField { flags: 2, page: 8, usages: Seq::<nat>::empty(), usage_min: Some(1nat), usage_max: Some(5nat), logical_min: 0, logical_max: 1, size: 1, count: 5 }, ReportField { flags: 1, page: 8, usages: Seq::<nat>::empty(), usage_min: None, usage_max: None, logical_min: 0, logical_max: 1, size: 3, count: 1 }]);
    assert(report_fields(d, 34, 144, ItemState { page: 8, usages: Seq::<nat>::empty(), usage_min: None, usage_max: None, logical_min: 0, logical_max: 1, size: 1, count: 5 }) =~~= seq![ReportField { flags: 2, page: 8, usages: Seq::<nat>::empty(), usage_min: Some(1nat), usage_max: Some(5nat), logical_min: 0, logical_max: 1, size: 1, count: 5 }, ReportField { flags: 1, page: 8, usages: Seq::<nat>::empty(), usage_min: None, usage_max: None, logical_min: 0, logical_max: 1, size: 3, count: 1 }]);
    assert(report_fields(d, 32, 144, ItemState { page: 7, usages: Seq::<nat>::empty(), usage_min: None, usage_max: None, logical_min: 0, logical_max: 1, size: 1, count: 5 }) =~~= seq![ReportField { flags: 2, page: 8, usages: Seq::<nat>::empty(), usage_min: Some(1nat), usage_max: Some(5nat), logical_min: 0, logical_max: 1, size: 1, count: 5 }, ReportField { flags: 1, page: 8, usages: Seq::<nat>::empty(), usage_min: None, usage_max: None, logical_min: 0, logical_max: 1, size: 3, count: 1 }]);
    assert(report_fields(d, 30, 144, ItemState { page: 7, usages: Seq::<nat>::empty(), usage_min: None, usage_max: None, logical_min: 0, logical_max: 1, size: 8, count: 5 }) =~~= seq![ReportField { flags: 2, page: 8, usages: Seq::<nat>::empty(), usage_min: Some(1nat), usage_max: Some(5nat), logical_min: 0, logical_max: 1, size: 1, count: 5 }, ReportField { flags: 1, page: 8, usages: Seq::<nat>::empty(), usage_min: None, usage_max: None, logical_min: 0, logical_max: 1, size: 3, count: 1 }]);
    assert(report_fields(d, 28, 144, ItemState { page: 7, usages: Seq::<nat>::empty(), usage_min: None, usage_max: None, logical_min: 0, logical_max: 1, size: 8, count: 1 }) =~~= seq![ReportField { flags: 2, page: 8, usages: Seq::<nat>::empty(), usage_min: Some(1nat), usage_max: Some(5nat), logical_min: 0, logical_max: 1, size: 1, count: 5 }, ReportField { flags: 1, page: 8, usages: Seq::<nat>::empty(), usage_min: None, usage_max: None, logical_min: 0, logical_max: 1, size: 3, count: 1 }]);
    assert(report_fields(d, 26, 144, ItemState { page: 7, usages: Seq::<nat>::empty(), usage_min: None, usage_max: None, logical_min: 0, logical_max: 1, size: 8, count: 1 }) =~~= seq![ReportField { flags: 2, page: 8, usages: Seq::<nat>::empty(), usage_min: Some(1nat), usage_max: Some(5nat), logical_min: 0, logical_max: 1, size: 1, count: 5 }, ReportField { flags: 1, page: 8, usages: Seq::<nat>::empty(), usage_min: None, usage_max: None, logical_min: 0, logical_max: 1, size: 3, count: 1 }]);
    assert(report_fields(d, 24, 144, ItemState { page: 7, usages: Seq::<nat>::empty(), usage_min: None, usage_max: None, logical_min: 0, logical_max: 1, size: 1, count: 1 }) =~~= seq![ReportField { flags: 2, page: 8, usages: Seq::<nat>::empty(), usage_min: Some(1nat), usage_max: Some(5nat), logical_min: 0, logical_max: 1, size: 1, count: 5 }, ReportField { flags: 1, page: 8, usages: Seq::<nat>::empty(), usage_min: None, usage_max: None, logical_min: 0, logical_max: 1, size: 3, count: 1 }]);
    assert(report_fields(d, 22, 144, ItemState { page: 7, usages: Seq::<nat>::empty(), usage_min: None, usage_max: None, logical_min: 0, logical_max: 1, size: 1, count: 8 }) =~~= seq![ReportField { flags: 2, page: 8, usages: Seq::<nat>::empty(), usage_min: Some(1nat), usage_max: Some(5nat), logical_min: 0, logical_max: 1, size: 1, count: 5 }, ReportField { flags: 1, page: 8, usages: Seq::<nat>::empty(), usage_min: None, usage_max: None, logical_min: 0, logical_max: 1, size: 3, count: 1 }]);
    assert(report_fields(d, 20, 144, ItemState { page: 7, usages: Seq::<nat>::empty(), usage_min: Some(224nat), usage_max: Some(231nat), logical_min: 0, logical_max: 1, size: 1, count: 8 }) =~~= seq![ReportField { flags: 2, page: 8, usages: Seq::<nat>::empty(), usage_min: Some(1nat), usage_max: Some(5nat), logical_min: 0, logical_max: 1, size: 1, count: 5 }, ReportField { flags: 1, page: 8, usages: Seq::<nat>::empty(), usage_min: None, usage_max: None, logical_min: 0, logical_max: 1, size: 3, count: 1 }]);
    assert(report_fields(d, 18, 144, ItemState { page: 7, usages: Seq::<nat>::empty(), usage_min: Some(224nat), usage_max: Some(231nat), logical_min: 0, logical_max: 1, size: 1, count: 0 }) =~~= seq![ReportField { flags: 2, page: 8, usages: Seq::<nat>::empty(), usage_min: Some(1nat), usage_max: Some(5nat), logical_min: 0, logical_max: 1, size: 1, count: 5 }, ReportField { flags: 1, page: 8, usages: Seq::<nat>::empty(), usage_min: None, usage_max: None, logical_min: 0, logical_max: 1, size: 3, count: 1 }]);
    assert(report_fields(d, 16, 144, ItemState { page: 7, usages: Seq::<nat>::empty(), usage_min: Some(224nat), usage_max: Some(231nat), logical_min: 0, logical_max: 1, size: 0, count: 0 }) =~~= seq![ReportField { flags: 2, page: 8, usages: Seq::<nat>::empty(), usage_min: Some(1nat), usage_max: Some(5nat), logical_min: 0, logical_max: 1, size: 1, count: 5 }, ReportField { flags: 1, page: 8, usages: Seq::<nat>::empty(), usage_min: None, usage_max: None, logical_min: 0, logical_max: 1, size: 3, count: 1 }]);
    assert(report_fields(d, 14, 144, ItemState { page: 7, usages: Seq::<nat>::empty(), usage_min: Some(224nat), usage_max: Some(231nat), logical_min: 0, logical_max: 0, size: 0, count: 0 }) =~~= seq![ReportField { flags: 2, page: 8, usages: Seq::<nat>::empty(), usage_min: Some(1nat), usage_max: Some(5nat), logical_min: 0, logical_max: 1, size: 1, count: 5 }, ReportField { flags: 1, page: 8, usages: Seq::<nat>::empty(), usage_min: None, usage_max: None, logical_min: 0, logical_max: 1, size: 3, count: 1 }]);
    assert(report_fields(d, 12, 144, ItemState { page: 7, usages: Seq::<nat>::empty(), usage_min: Some(224nat), usage_max: Some(231nat), logical_min: 0, logical_max: 0, size: 0, count: 0 }) =~~= seq![ReportField { flags: 2, page: 8, usages: Seq::<nat>::empty(), usage_min: Some(1nat), usage_max: Some(5nat), logical_min: 0, logical_max: 1, size: 1, count: 5 }, ReportField { flags: 1, page: 8, usages: Seq::<nat>::empty(), usage_min: None, usage_max: None, logical_min: 0, logical_max: 1, size: 3, count: 1 }]);
    assert(report_fields(d, 10, 144, ItemState { page: 7, usages: Seq::<nat>::empty(), usage_min: Some(224nat), usage_max: None, logical_min: 0, logical_max: 0, size: 0, count: 0 }) =~~= seq![ReportField { flags: 2, page: 8, usages: Seq::<nat>::empty(), usage_min: Some(1nat), usage_max: Some(5nat), logical_min: 0, logical_max: 1, size: 1, count: 5 }, ReportField { flags: 1, page: 8, usages: Seq::<nat>::empty(), usage_min: None, usage_max: None, logical_min: 0, logical_max: 1, size: 3, count: 1 }]);
    assert(report_fields(d, 8, 144, ItemState { page: 7, usages: Seq::<nat>::empty(), usage_min: None, usage_max: None, logical_min: 0, logical_max: 0, size: 0, count: 0 }) =~~= seq![ReportField { flags: 2, page: 8, usages: Seq::<nat>::empty(), usage_min: Some(1nat), usage_max: Some(5nat), logical_min: 0, logical_max: 1, size: 1, count: 5 }, ReportField { flags: 1, page: 8, usages: Seq::<nat>::empty(), usage_min: None, usage_max: None, logical_min: 0, logical_max: 1, size: 3, count: 1 }]);
    assert(report_fields(d, 6, 144, ItemState { page: 1, usages: Seq::<nat>::empty(), usage_min: None, usage_max: None, logical_min: 0, logical_max: 0, size: 0, count: 0 }) =~~= seq![ReportField { flags: 2, page: 8, usages: Seq::<nat>::empty(), usage_min: Some(1nat), usage_max: Some(5nat), logical_min: 0, logical_max: 1, size: 1, count: 5 }, ReportField { flags: 1, page: 8, usages: Seq::<nat>::empty(), usage_min: None, usage_max: None, logical_min: 0, logical_max: 1, size: 3, count: 1 }]);
    assert(report_fields(d, 4, 144, ItemState { page: 1, usages: seq![6nat], usage_min: None, usage_max: None, logical_min: 0, logical_max: 0, size: 0, count: 0 }) =~~= seq![ReportField { flags: 2, page: 8, usages: Seq::<nat>::empty(), usage_min: Some(1nat), usage_max: Some(5nat), logical_min: 0, logical_max: 1, size: 1, count: 5 }, ReportField { flags: 1, page: 8, usages: Seq::<nat>::empty(), usage_min: None, usage_max: None, logical_min: 0, logical_max: 1, size: 3, count: 1 }]);
    assert(report_fields(d, 2, 144, ItemState { page: 1, usages: Seq::<nat>::empty(), usage_min: None, usage_max: None, logical_min: 0, logical_max: 0, size: 0, count: 0 }) =~~= seq![ReportField { flags: 2, page: 8, usages: Seq::<nat>::empty(), usage_min: Some(1nat), usage_max: Some(5nat), logical_min: 0, logical_max: 1, size: 1, count: 5 }, ReportField { flags: 1, page: 8, usages: Seq::<nat>::empty(), usage_min: None, usage_max: None, logical_min: 0, logical_max: 1, size: 3, count: 1 }]);
    assert(report_fields(d, 0, 144, ItemState { page: 0, usages: Seq::<nat>::empty(), usage_min: None, usage_max: None, logical_min: 0, logical_max: 0, size: 0, count: 0 }) =~~= seq![ReportField { flags: 2, page: 8, usages: Seq::<nat>::empty(), usage_min: Some(1nat), usage_max: Some(5nat), logical_min: 0, logical_max: 1, size: 1, count: 5 }, ReportField { flags: 1, page: 8, usages: Seq::<nat>::empty(), usage_min: None, usage_max: None, logical_min: 0, logical_max: 1, size: 3, count: 1 }]);
    reveal_with_fuel(field_bit_offset, 3);
    let f = report_fields(d, 0, 0x80, initial_item_state());
    assert(f[0].size * f[0].count == 8) by (nonlinear_arith)
        requires
            f[0].size == 1,
            f[0].count == 8,
    ;
    assert(f[1].size * f[1].count == 8) by (nonlinear_arith)
        requires
            f[1].size == 8,
            f[1].count == 1,
    ;
}

/// Each value of a keyboard report sits where the keyboard's descriptor
/// declares it: the modifier bits in the first byte, and key `i` in slot `i`
/// of the key array.
pub proof fn lemma_keyboard_report_matches_descriptor(modifiers: u8, keys: Seq<u8>)
    ensures
        ({
            let f = report_fields(keyboard_descriptor_bytes(), 0, 0x80, initial_item_state());
            let r = keyboard_report_bytes(modifiers, keys);
            let slots = field_bit_offset(f, 2) / 8;
            &&& r[(field_bit_offset(f, 0) / 8) as int] == modifiers
            &&& forall|i: int| 0 <= i < f[2].count ==> #[trigger] r[slots + i] == key_slot(keys, i)
        }),
{
    lemma_keyboard_descriptor_fields();
}

} // verus!
