//! The HID descriptor blob and the control-transfer classification.

use procon::hid::{control_in_reply, hid_class_descriptor_bytes, hid_descriptor};

#[test]
fn descriptor_shape() {
    let d = hid_descriptor();
    assert_eq!(d.len(), 203);
    // Usage Page (Generic Desktop), Logical Minimum (0), Usage (Joystick).
    assert_eq!(&d[..6], &[0x05, 0x01, 0x15, 0x00, 0x09, 0x04]);
    // The collection closes at the end.
    assert_eq!(d[202], 0xC0);
}

#[test]
fn class_descriptor_carries_the_blob_length() {
    let c = hid_class_descriptor_bytes();
    assert_eq!(c, vec![0x11, 0x01, 0x00, 0x01, 0x22, 0xCB, 0x00]);
    let len = c[5] as usize + 256 * c[6] as usize;
    assert_eq!(len, hid_descriptor().len());
}

#[test]
fn get_descriptor_for_our_interface_is_served() {
    // Standard request, interface recipient, GET_DESCRIPTOR, HID-report
    // descriptor type with index 0, aimed at interface 0.
    let r = control_in_reply(0, 1, 6, 0x2200, 0, 0);
    assert_eq!(r, Some(hid_descriptor()));
}

#[test]
fn other_control_requests_are_ignored() {
    // Another interface.
    assert_eq!(control_in_reply(0, 1, 6, 0x2200, 1, 0), None);
    // Another descriptor type.
    assert_eq!(control_in_reply(0, 1, 6, 0x2100, 0, 0), None);
    // A nonzero descriptor index.
    assert_eq!(control_in_reply(0, 1, 6, 0x2201, 0, 0), None);
    // Not GET_DESCRIPTOR.
    assert_eq!(control_in_reply(0, 1, 5, 0x2200, 0, 0), None);
    // Not a standard request, or not aimed at an interface.
    assert_eq!(control_in_reply(1, 1, 6, 0x2200, 0, 0), None);
    assert_eq!(control_in_reply(0, 0, 6, 0x2200, 0, 0), None);
}
