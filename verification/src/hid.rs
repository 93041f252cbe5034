//! The USB identity and the fixed HID report descriptor, with the
//! classification that decides when a control transfer is served with it.
//!
//! The descriptor blob is opaque to the host and must stay bit-identical to
//! the stock Pro Controller's; the console rejects anything else. The USB
//! stack that carries the transfers is unverified glue; it hands the request
//! fields in here as plain values and sends back whatever this module picks.

use vstd::prelude::*;

verus! {

/// The vendor identifier the device enumerates with.
pub const VENDOR_ID: u16 = 0x057E;
/// The product identifier the device enumerates with.
pub const PRODUCT_ID: u16 = 0x2009;
/// The interface class of a HID interface; subclass and protocol stay zero.
pub const INTERFACE_CLASS_HID: u8 = 0x03;
/// The width of every packet on the interrupt-IN endpoint and on EP0.
pub const MAX_PACKET_SIZE: u16 = 64;
/// The interrupt-IN endpoint's polling interval, in milliseconds.
pub const POLL_INTERVAL_MS: u8 = 8;
/// The `bmRequestType` type field of a standard request.
pub const REQUEST_TYPE_STANDARD: u8 = 0;
/// The `bmRequestType` recipient field naming an interface.
pub const RECIPIENT_INTERFACE: u8 = 1;
/// The standard GET_DESCRIPTOR request code.
pub const REQUEST_GET_DESCRIPTOR: u8 = 6;
/// The HID report descriptor type.
pub const DESCRIPTOR_TYPE_HID_REPORT: u8 = 0x22;

/// The fixed HID report descriptor.
pub open spec fn hid_report_descriptor() -> Seq<u8> {
    seq![
        0x05u8, 0x01, 0x15, 0x00, 0x09, 0x04, 0xA1, 0x01, 0x85, 0x30, 0x05, 0x01,
        0x05, 0x09, 0x19, 0x01, 0x29, 0x0A, 0x15, 0x00, 0x25, 0x01, 0x75, 0x01,
        0x95, 0x0A, 0x55, 0x00, 0x65, 0x00, 0x81, 0x02, 0x05, 0x09, 0x19, 0x0B,
        0x29, 0x0E, 0x15, 0x00, 0x25, 0x01, 0x75, 0x01, 0x95, 0x04, 0x81, 0x02,
        0x75, 0x01, 0x95, 0x02, 0x81, 0x03, 0x0B, 0x01, 0x00, 0x01, 0x00, 0xA1,
        0x00, 0x0B, 0x30, 0x00, 0x01, 0x00, 0x0B, 0x31, 0x00, 0x01, 0x00, 0x0B,
        0x32, 0x00, 0x01, 0x00, 0x0B, 0x35, 0x00, 0x01, 0x00, 0x15, 0x00, 0x27,
        0xFF, 0xFF, 0x00, 0x00, 0x75, 0x10, 0x95, 0x04, 0x81, 0x02, 0xC0, 0x0B,
        0x39, 0x00, 0x01, 0x00, 0x15, 0x00, 0x25, 0x07, 0x35, 0x00, 0x46, 0x3B,
        0x01, 0x65, 0x14, 0x75, 0x04, 0x95, 0x01, 0x81, 0x02, 0x05, 0x09, 0x19,
        0x0F, 0x29, 0x12, 0x15, 0x00, 0x25, 0x01, 0x75, 0x01, 0x95, 0x04, 0x81,
        0x02, 0x75, 0x08, 0x95, 0x34, 0x81, 0x03, 0x06, 0x00, 0xFF, 0x85, 0x21,
        0x09, 0x01, 0x75, 0x08, 0x95, 0x3F, 0x81, 0x03, 0x85, 0x81, 0x09, 0x02,
        0x75, 0x08, 0x95, 0x3F, 0x81, 0x03, 0x85, 0x01, 0x09, 0x03, 0x75, 0x08,
        0x95, 0x3F, 0x91, 0x83, 0x85, 0x10, 0x09, 0x04, 0x75, 0x08, 0x95, 0x3F,
        0x91, 0x83, 0x85, 0x80, 0x09, 0x05, 0x75, 0x08, 0x95, 0x3F, 0x91, 0x83,
        0x85, 0x82, 0x09, 0x06, 0x75, 0x08, 0x95, 0x3F, 0x91, 0x83, 0xC0,
    ]
}

/// The fixed HID report descriptor as bytes for the wire.
pub fn hid_descriptor() -> (r: Vec<u8>)
    ensures
        r@ == hid_report_descriptor(),
{
    let r = vec![
        0x05, 0x01, 0x15, 0x00, 0x09, 0x04, 0xA1, 0x01, 0x85, 0x30, 0x05, 0x01,
        0x05, 0x09, 0x19, 0x01, 0x29, 0x0A, 0x15, 0x00, 0x25, 0x01, 0x75, 0x01,
        0x95, 0x0A, 0x55, 0x00, 0x65, 0x00, 0x81, 0x02, 0x05, 0x09, 0x19, 0x0B,
        0x29, 0x0E, 0x15, 0x00, 0x25, 0x01, 0x75, 0x01, 0x95, 0x04, 0x81, 0x02,
        0x75, 0x01, 0x95, 0x02, 0x81, 0x03, 0x0B, 0x01, 0x00, 0x01, 0x00, 0xA1,
        0x00, 0x0B, 0x30, 0x00, 0x01, 0x00, 0x0B, 0x31, 0x00, 0x01, 0x00, 0x0B,
        0x32, 0x00, 0x01, 0x00, 0x0B, 0x35, 0x00, 0x01, 0x00, 0x15, 0x00, 0x27,
        0xFF, 0xFF, 0x00, 0x00, 0x75, 0x10, 0x95, 0x04, 0x81, 0x02, 0xC0, 0x0B,
        0x39, 0x00, 0x01, 0x00, 0x15, 0x00, 0x25, 0x07, 0x35, 0x00, 0x46, 0x3B,
        0x01, 0x65, 0x14, 0x75, 0x04, 0x95, 0x01, 0x81, 0x02, 0x05, 0x09, 0x19,
        0x0F, 0x29, 0x12, 0x15, 0x00, 0x25, 0x01, 0x75, 0x01, 0x95, 0x04, 0x81,
        0x02, 0x75, 0x08, 0x95, 0x34, 0x81, 0x03, 0x06, 0x00, 0xFF, 0x85, 0x21,
        0x09, 0x01, 0x75, 0x08, 0x95, 0x3F, 0x81, 0x03, 0x85, 0x81, 0x09, 0x02,
        0x75, 0x08, 0x95, 0x3F, 0x81, 0x03, 0x85, 0x01, 0x09, 0x03, 0x75, 0x08,
        0x95, 0x3F, 0x91, 0x83, 0x85, 0x10, 0x09, 0x04, 0x75, 0x08, 0x95, 0x3F,
        0x91, 0x83, 0x85, 0x80, 0x09, 0x05, 0x75, 0x08, 0x95, 0x3F, 0x91, 0x83,
        0x85, 0x82, 0x09, 0x06, 0x75, 0x08, 0x95, 0x3F, 0x91, 0x83, 0xC0,
    ];
    proof {
        assert(r@ =~= hid_report_descriptor());
    }
    r
}

/// The class-descriptor bytes the configuration descriptor carries for the
/// HID interface: HID version 1.11, no country code, one descriptor of type
/// HID report, and the report descriptor's length little-endian.
pub open spec fn hid_class_descriptor() -> Seq<u8> {
    seq![0x11u8, 0x01, 0x00, 0x01, 0x22, 0xCB, 0x00]
}

/// The HID class descriptor as bytes for the configuration descriptor.
pub fn hid_class_descriptor_bytes() -> (r: Vec<u8>)
    ensures
        r@ == hid_class_descriptor(),
        r@[5] + 256 * r@[6] == hid_report_descriptor().len(),
{
    let r = vec![0x11u8, 0x01, 0x00, 0x01, 0x22, 0xCB, 0x00];
    proof {
        assert(r@ =~= hid_class_descriptor());
    }
    r
}

/// Whether a control-IN request asks for the HID report descriptor: a
/// standard GET_DESCRIPTOR aimed at our interface, for descriptor type
/// HID-report with index zero.
pub open spec fn wants_hid_descriptor(
    request_type: u8,
    recipient: u8,
    request: u8,
    value: u16,
    index: u16,
    interface_number: u16,
) -> bool {
    &&& request_type == REQUEST_TYPE_STANDARD
    &&& recipient == RECIPIENT_INTERFACE
    &&& request == REQUEST_GET_DESCRIPTOR
    &&& index == interface_number
    &&& value >> 8 == DESCRIPTOR_TYPE_HID_REPORT as u16
    &&& value & 0xFF == 0
}

/// Decide a control-IN transfer: the HID report descriptor when the request
/// asks for it, nothing otherwise. The request fields arrive as USB encodes
/// them on the wire; `value` carries the descriptor type above its index.
pub fn control_in_reply(
    request_type: u8,
    recipient: u8,
    request: u8,
    value: u16,
    index: u16,
    interface_number: u16,
) -> (r: Option<Vec<u8>>)
    ensures
        match r {
            Some(d) => wants_hid_descriptor(
                request_type,
                recipient,
                request,
                value,
                index,
                interface_number,
            ) && d@ == hid_report_descriptor(),
            None => !wants_hid_descriptor(
                request_type,
                recipient,
                request,
                value,
                index,
                interface_number,
            ),
        },
{
    if request_type == REQUEST_TYPE_STANDARD && recipient == RECIPIENT_INTERFACE
        && request == REQUEST_GET_DESCRIPTOR && index == interface_number
        && value >> 8 == DESCRIPTOR_TYPE_HID_REPORT as u16 && value & 0xFF == 0 {
        Some(hid_descriptor())
    } else {
        None
    }
}

} // verus!
