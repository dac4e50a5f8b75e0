use hid_api::descriptor::{keyboard_report_descriptor, mouse_report_descriptor};
use hid_api::report::{keyboard_report, mouse_report, KEYBOARD_REPORT_LEN, MOUSE_REPORT_LEN};

#[test]
fn keyboard_report_with_two_keys() {
    assert_eq!(keyboard_report(0x02, &[0x04, 0x05]), [0x02, 0x00, 0x04, 0x05, 0, 0, 0, 0]);
}

#[test]
fn keyboard_report_without_keys() {
    assert_eq!(keyboard_report(0xff, &[]), [0xff, 0, 0, 0, 0, 0, 0, 0]);
}

#[test]
fn keyboard_report_with_six_keys() {
    assert_eq!(keyboard_report(0, &[1, 2, 3, 4, 5, 6]), [0, 0, 1, 2, 3, 4, 5, 6]);
}

#[test]
fn keyboard_report_drops_keys_past_the_sixth() {
    let long = keyboard_report(0x01, &[10, 11, 12, 13, 14, 15, 16, 17]);
    assert_eq!(long, [0x01, 0, 10, 11, 12, 13, 14, 15]);
    assert_eq!(long, keyboard_report(0x01, &[10, 11, 12, 13, 14, 15]));
}

#[test]
fn mouse_report_encodes_signed_motion() {
    assert_eq!(mouse_report(1, -5, 5, 0), [1, 251, 5, 0]);
    assert_eq!(mouse_report(7, -128, 127, -1), [7, 128, 127, 255]);
}

#[test]
fn mouse_report_fields_read_back() {
    for &(x, y, w) in &[(-128i8, 0i8, 127i8), (-1, 1, -20), (0, -127, 64)] {
        let r = mouse_report(0b101, x, y, w);
        assert_eq!(r[0], 0b101);
        assert_eq!(r[1] as i8, x);
        assert_eq!(r[2] as i8, y);
        assert_eq!(r[3] as i8, w);
    }
}

#[test]
fn report_lengths() {
    assert_eq!(keyboard_report(0, &[]).len(), KEYBOARD_REPORT_LEN);
    assert_eq!(mouse_report(0, 0, 0, 0).len(), MOUSE_REPORT_LEN);
    assert_eq!(KEYBOARD_REPORT_LEN, 8);
    assert_eq!(MOUSE_REPORT_LEN, 4);
}

#[test]
fn descriptors() {
    let k = keyboard_report_descriptor();
    assert_eq!(k.len(), 63);
    assert_eq!(&k[..6], &[0x05, 0x01, 0x09, 0x06, 0xA1, 0x01]);
    assert_eq!(k[62], 0xC0);
    let m = mouse_report_descriptor();
    assert_eq!(m.len(), 52);
    assert_eq!(&m[..4], &[0x05, 0x01, 0x09, 0x02]);
    assert_eq!(&m[50..], &[0xC0, 0xC0]);
}
