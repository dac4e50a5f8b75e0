use hid_api::{compose_hid_gadget, gadget_identity, keyboard_function, mouse_function};

#[test]
fn keyboard_function_settings() {
    let f = keyboard_function();
    assert_eq!((f.sub_class, f.protocol, f.report_len), (1, 1, 8));
    assert_eq!(f.report_desc, hid_api::descriptor::keyboard_report_descriptor());
}

#[test]
fn mouse_function_settings() {
    let f = mouse_function();
    assert_eq!((f.sub_class, f.protocol, f.report_len), (1, 2, 4));
    assert_eq!(f.report_desc, hid_api::descriptor::mouse_report_descriptor());
}

#[test]
fn identity_of_the_gadget() {
    let g = gadget_identity();
    assert_eq!((g.class, g.sub_class, g.protocol), (0, 0, 0));
    assert_eq!((g.vendor, g.product), (0x1d6b, 0x0104));
    assert_eq!(g.manufacturer, "Bridge HID");
    assert_eq!(g.product_name, "Virtual Keyboard Mouse");
    assert_eq!(g.serial_number, "001");
    assert_eq!(g.config_name, "config");
}

#[test]
fn composed_gadget_holds_identity_and_both_functions() {
    let hg = compose_hid_gadget(gadget_identity(), keyboard_function(), mouse_function());
    let g = &hg.gadget;
    assert_eq!(g.device_class, usb_gadget::Class::new(0, 0, 0));
    assert_eq!(g.id, usb_gadget::Id::new(0x1d6b, 0x0104));
    let strings: Vec<&usb_gadget::Strings> = g.strings.values().collect();
    assert_eq!(strings.len(), 1);
    assert_eq!(strings[0].manufacturer, "Bridge HID");
    assert_eq!(strings[0].product, "Virtual Keyboard Mouse");
    assert_eq!(strings[0].serial_number, "001");
    assert_eq!(g.configs.len(), 1);
    assert_eq!(g.configs[0].functions.len(), 2);
    assert!(g.configs[0].description.values().any(|d| d == "config"));
}
