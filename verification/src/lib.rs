//! Verified core of a USB HID keyboard and mouse gadget: the report formats
//! written to the gadget's device nodes, the gadget description handed to
//! `usb_gadget`, the device-node lookup, the enumeration check and the status
//! codes of the C interface.

pub mod report;
pub mod descriptor;
pub mod text;
pub mod device;
pub mod error;
pub mod enumeration;
pub mod status;
pub mod gadget;

pub use device::{locate_hidg_node, DeviceNotFound, HIDG_SCAN_LIMIT};
pub use enumeration::is_configured_state;
pub use error::{removal_failure_fatal, UsbError};
pub use gadget::{compose_hid_gadget, gadget_identity, keyboard_function, mouse_function, HidGadget};
pub use report::{keyboard_report, mouse_report};
pub use status::{check_keyboard_call, check_mouse_call, delivery_status, ApiStatus, KeySource};
