//! The USB gadget that exposes the keyboard and the mouse: the settings of
//! its two HID functions and its identity, put together with `usb_gadget`.

use vstd::prelude::*;
use vstd::string::*;
use vstd::multiset::Multiset;
use usb_gadget::function::hid::{Hid, HidBuilder};
use usb_gadget::function::Handle;
use usb_gadget::{Class, Config, Gadget, Id, Strings};
use crate::descriptor::{
    keyboard_descriptor_bytes, keyboard_report_descriptor, mouse_descriptor_bytes,
    mouse_report_descriptor,
};
use crate::report::{KEYBOARD_REPORT_LEN, MOUSE_REPORT_LEN};

verus! {

broadcast use vstd::string::group_string_axioms;

#[verifier::external_type_specification]
#[verifier::external_body]
pub struct ExHid(Hid);

#[verifier::external_type_specification]
#[verifier::external_body]
pub struct ExHidBuilder(HidBuilder);

#[verifier::external_type_specification]
#[verifier::external_body]
pub struct ExHandle(Handle);

#[verifier::external_type_specification]
#[verifier::external_body]
pub struct ExClass(Class);

#[verifier::external_type_specification]
#[verifier::external_body]
pub struct ExId(Id);

#[verifier::external_type_specification]
#[verifier::external_body]
pub struct ExStrings(Strings);

#[verifier::external_type_specification]
#[verifier::external_body]
pub struct ExConfig(Config);

#[verifier::external_type_specification]
#[verifier::external_body]
pub struct ExGadget(Gadget);

/// The codes a device class holds: class, subclass and protocol.
pub uninterp spec fn class_codes(class: Class) -> (u8, u8, u8);

/// The ids a device id holds: vendor and product.
pub uninterp spec fn id_codes(id: Id) -> (u16, u16);

/// The texts a set of device strings holds: manufacturer, product and serial
/// number.
pub uninterp spec fn strings_texts(strings: Strings) -> (Seq<char>, Seq<char>, Seq<char>);

/// The settings a HID builder holds: subclass, protocol, report descriptor,
/// report length, and whether the function has no out endpoint.
pub uninterp spec fn builder_settings(builder: HidBuilder) -> (u8, u8, Seq<u8>, u8, bool);

/// The settings of the HID function behind a function handle, in the order
/// of [`builder_settings`].
pub uninterp spec fn handle_settings(handle: Handle) -> (u8, u8, Seq<u8>, u8, bool);

/// `hid` and the function behind `handle` share the function directory that
/// one call of `HidBuilder::build` created: they are the same HID function.
pub uninterp spec fn hid_of_handle(hid: Hid, handle: Handle) -> bool;

/// The function handles a configuration holds, in the order they were added.
pub uninterp spec fn config_functions(config: Config) -> Seq<Handle>;

/// The description texts a configuration holds, one per language.
pub uninterp spec fn config_descriptions(config: Config) -> Multiset<Seq<char>>;

/// The device class codes a gadget holds.
pub uninterp spec fn gadget_class_codes(gadget: Gadget) -> (u8, u8, u8);

/// The device ids a gadget holds.
pub uninterp spec fn gadget_id_codes(gadget: Gadget) -> (u16, u16);

/// The device strings a gadget holds, one set per language.
pub uninterp spec fn gadget_strings_texts(gadget: Gadget) -> Multiset<(Seq<char>, Seq<char>, Seq<char>)>;

/// The configurations a gadget holds, in the order they were added.
pub uninterp spec fn gadget_configs(gadget: Gadget) -> Seq<Config>;

/// `HidBuilder::build` keeps the builder in the function behind the handle
/// it returns, so the handle carries the builder's settings, and gives the
/// returned `Hid` the same function directory as that function.
pub assume_specification[ HidBuilder::build ](builder: HidBuilder) -> (res: (Hid, Handle))
    ensures
        handle_settings(res.1) == builder_settings(builder),
        hid_of_handle(res.0, res.1),
;

/// `Class::new` stores its three codes.
pub assume_specification[ Class::new ](class: u8, sub_class: u8, protocol: u8) -> (res: Class)
    ensures
        class_codes(res) == (class, sub_class, protocol),
;

/// `Id::new` stores the vendor and product ids.
pub assume_specification[ Id::new ](vendor: u16, product: u16) -> (res: Id)
    ensures
        id_codes(res) == (vendor, product),
;

/// `Gadget::new` stores the class and the id, stores the strings under the
/// default language only, and starts without configurations.
pub assume_specification[ Gadget::new ](device_class: Class, id: Id, strings: Strings) -> (res:
    Gadget)
    ensures
        gadget_class_codes(res) == class_codes(device_class),
        gadget_id_codes(res) == id_codes(id),
        gadget_strings_texts(res) == Multiset::singleton(strings_texts(strings)),
        gadget_configs(res) == Seq::<Config>::empty(),
;

/// `Config::add_function` appends the handle to the configuration's
/// functions and leaves its descriptions as they were.
pub assume_specification[ Config::add_function ](config: &mut Config, function_handle: Handle)
    ensures
        config_functions(*final(config)) == config_functions(*old(config)).push(function_handle),
        config_descriptions(*final(config)) == config_descriptions(*old(config)),
;

/// `Gadget::add_config` appends the configuration to the gadget's
/// configurations and leaves its class, id and strings as they were.
pub assume_specification[ Gadget::add_config ](gadget: &mut Gadget, config: Config)
    ensures
        gadget_configs(*final(gadget)) == gadget_configs(*old(gadget)).push(config),
        gadget_class_codes(*final(gadget)) == gadget_class_codes(*old(gadget)),
        gadget_id_codes(*final(gadget)) == gadget_id_codes(*old(gadget)),
        gadget_strings_texts(*final(gadget)) == gadget_strings_texts(*old(gadget)),
;

/// Settings of one HID function of the gadget.
#[derive(Debug, Clone)]
pub struct HidFunctionSpec {
    /// HID subclass (1: boot interface).
    pub sub_class: u8,
    /// HID protocol (1: keyboard, 2: mouse).
    pub protocol: u8,
    /// Report descriptor.
    pub report_desc: Vec<u8>,
    /// Length in bytes of the function's reports.
    pub report_len: u8,
}

/// The keyboard function: boot-interface keyboard with 8-byte reports.
pub fn keyboard_function() -> (f: HidFunctionSpec)
    ensures
        f.sub_class == 1,
        f.protocol == 1,
        f.report_desc@ == keyboard_descriptor_bytes(),
        f.report_len == KEYBOARD_REPORT_LEN,
{
    HidFunctionSpec {
        sub_class: 1,
        protocol: 1,
        report_desc: keyboard_report_descriptor(),
        report_len: 8,
    }
}

/// The mouse function: boot-interface mouse with 4-byte reports.
pub fn mouse_function() -> (f: HidFunctionSpec)
    ensures
        f.sub_class == 1,
        f.protocol == 2,
        f.report_desc@ == mouse_descriptor_bytes(),
        f.report_len == MOUSE_REPORT_LEN,
{
    HidFunctionSpec {
        sub_class: 1,
        protocol: 2,
        report_desc: mouse_report_descriptor(),
        report_len: 4,
    }
}

/// Identity that the gadget shows the host.
#[derive(Debug, Clone)]
pub struct GadgetIdentity {
    /// Device class, subclass and protocol codes.
    pub class: u8,
    pub sub_class: u8,
    pub protocol: u8,
    /// Vendor and product ids.
    pub vendor: u16,
    pub product: u16,
    /// Manufacturer, product and serial-number strings.
    pub manufacturer: String,
    pub product_name: String,
    pub serial_number: String,
    /// Description of the gadget's single configuration.
    pub config_name: String,
}

/// The identity of the keyboard-and-mouse gadget: class codes deferred to
/// the interfaces, the Linux Foundation's composite-gadget id.
pub fn gadget_identity() -> (g: GadgetIdentity)
    ensures
        g.class == 0 && g.sub_class == 0 && g.protocol == 0,
        g.vendor == 0x1d6b && g.product == 0x0104,
        g.manufacturer@ == "Bridge HID"@,
        g.product_name@ == "Virtual Keyboard Mouse"@,
        g.serial_number@ == "001"@,
        g.config_name@ == "config"@,
{
    GadgetIdentity {
        class: 0x00,
        sub_class: 0x00,
        protocol: 0x00,
        vendor: 0x1d6b,
        product: 0x0104,
        manufacturer: String::from_str("Bridge HID"),
        product_name: String::from_str("Virtual Keyboard Mouse"),
        serial_number: String::from_str("001"),
        config_name: String::from_str("config"),
    }
}

/// The settings a HID builder made from `f` holds: those of `f`, with an out
/// endpoint (the builder's default).
pub open spec fn function_settings(f: HidFunctionSpec) -> (u8, u8, Seq<u8>, u8, bool) {
    (f.sub_class, f.protocol, f.report_desc@, f.report_len, false)
}

/// Calls `Hid::builder`, whose builder has no settings but an out endpoint,
/// and sets its public subclass, protocol, descriptor and length fields to
/// those given.
#[verifier::external_body]
fn hid_builder(spec: HidFunctionSpec) -> (builder: HidBuilder)
    ensures
        builder_settings(builder) == function_settings(spec),
{
    let mut builder = Hid::builder();
    builder.sub_class = spec.sub_class;
    builder.protocol = spec.protocol;
    builder.report_desc = spec.report_desc;
    builder.report_len = spec.report_len;
    builder
}

/// Calls `Strings::new`, which stores a copy of each of the three strings.
#[verifier::external_body]
fn gadget_strings(manufacturer: &str, product: &str, serial_number: &str) -> (strings: Strings)
    ensures
        strings_texts(strings) == (manufacturer@, product@, serial_number@),
{
    Strings::new(manufacturer, product, serial_number)
}

/// Calls `Config::new`, which stores the description under the default
/// language only and starts without functions.
#[verifier::external_body]
fn gadget_config(description: &str) -> (config: Config)
    ensures
        config_descriptions(config) == Multiset::singleton(description@),
        config_functions(config) == Seq::<Handle>::empty(),
{
    Config::new(description)
}

/// The gadget description, ready to be bound to a controller, with the
/// keyboard and mouse functions that it holds.
pub struct HidGadget {
    pub gadget: Gadget,
    pub keyboard: Hid,
    pub mouse: Hid,
}

/// Puts the gadget together: the two HID functions in one configuration,
/// keyboard first, under the identity given.
pub fn compose_hid_gadget(
    identity: GadgetIdentity,
    keyboard: HidFunctionSpec,
    mouse: HidFunctionSpec,
) -> (res: HidGadget)
    ensures
        gadget_class_codes(res.gadget) == (identity.class, identity.sub_class, identity.protocol),
        gadget_id_codes(res.gadget) == (identity.vendor, identity.product),
        gadget_strings_texts(res.gadget) == Multiset::singleton(
            (identity.manufacturer@, identity.product_name@, identity.serial_number@),
        ),
        gadget_configs(res.gadget).len() == 1,
        config_descriptions(gadget_configs(res.gadget)[0]) == Multiset::singleton(
            identity.config_name@,
        ),
        config_functions(gadget_configs(res.gadget)[0]).len() == 2,
        handle_settings(config_functions(gadget_configs(res.gadget)[0])[0]) == function_settings(
            keyboard,
        ),
        handle_settings(config_functions(gadget_configs(res.gadget)[0])[1]) == function_settings(
            mouse,
        ),
        hid_of_handle(res.keyboard, config_functions(gadget_configs(res.gadget)[0])[0]),
        hid_of_handle(res.mouse, config_functions(gadget_configs(res.gadget)[0])[1]),
{
    let (keyboard_hid, keyboard_handle) = hid_builder(keyboard).build();
    let (mouse_hid, mouse_handle) = hid_builder(mouse).build();
    let mut gadget = Gadget::new(
        Class::new(identity.class, identity.sub_class, identity.protocol),
        Id::new(identity.vendor, identity.product),
        gadget_strings(
            identity.manufacturer.as_str(),
            identity.product_name.as_str(),
            identity.serial_number.as_str(),
        ),
    );
    let mut config = gadget_config(identity.config_name.as_str());
    config.add_function(keyboard_handle);
    config.add_function(mouse_handle);
    gadget.add_config(config);
    HidGadget { gadget, keyboard: keyboard_hid, mouse: mouse_hid }
}

} // verus!
