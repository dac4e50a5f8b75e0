# hid_api

A USB HID keyboard-and-mouse gadget for Linux, with a C interface.

- `src/` is the library, verified with Verus: the keyboard and mouse input
  reports (`report`), their report descriptors and the proof that the
  descriptors declare exactly those reports (`descriptor`), the settings and
  composition of the gadget handed to `usb_gadget` (`gadget`), the lookup of
  the `/dev/hidgN` node of a function (`device`), the enumeration check
  (`enumeration`), error texts and the clean-up rule (`error`), the status
  codes of the C interface (`status`), and the text helpers they rest on
  (`text`).
- `app/` holds the I/O around it: the `extern "C"` functions, the tokio
  runtime, registering the gadget, opening and writing the device nodes, and
  polling the controller state.
- `tests/` exercises the library on concrete values.
