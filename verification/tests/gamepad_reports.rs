//! The physical pad's report parser and the compact input-report form.

use procon::gamepad::{
    from_bytes, into_input_report_bytes, Buttons, BUTTON_CAPTURE, BUTTON_DOWN, BUTTON_EAST,
    BUTTON_HOME, BUTTON_L1, BUTTON_LEFT, BUTTON_MINUS, BUTTON_NORTH, BUTTON_PLUS, BUTTON_R2,
    BUTTON_R3, BUTTON_SOUTH, BUTTON_UP, BUTTON_WEST,
};

fn pad_report() -> Vec<u8> {
    let mut buf = vec![0u8; 64];
    buf[0] = 1;
    buf[1] = 0x40; // left stick X
    buf[2] = 0x41; // left stick Y
    buf[3] = 0x42; // right stick X
    buf[4] = 0x43; // right stick Y
    buf[5] = 0x08; // D-pad released
    buf[7] = 0x14; // counter 5 in the high six bits
    buf[8] = 0x60; // left trigger
    buf[9] = 0x61; // right trigger
    buf[13] = 0x34; // acceleration X, little-endian
    buf[14] = 0x12;
    buf[15] = 0xFF; // acceleration Y = -1
    buf[16] = 0xFF;
    buf[19] = 0x01; // orientation X
    buf[20] = 0x00;
    buf
}

#[test]
fn parses_sticks_triggers_and_counter() {
    let report = from_bytes(&pad_report());
    assert_eq!(report.counter(), Some(5));
    assert_eq!(report.status.left_stick.x, 0x40);
    assert_eq!(report.status.left_stick.y, 0x41);
    assert_eq!(report.status.right_stick.x, 0x42);
    assert_eq!(report.status.right_stick.y, 0x43);
    assert_eq!(report.status.left_trigger, 0x60);
    assert_eq!(report.status.right_trigger, 0x61);
}

#[test]
fn parses_axes_little_endian_and_signed() {
    let report = from_bytes(&pad_report());
    assert_eq!(report.status.acceleration.x, 0x1234);
    assert_eq!(report.status.acceleration.y, -1);
    assert_eq!(report.status.acceleration.z, 0);
    assert_eq!(report.status.orientation.x, 1);
}

#[test]
fn parses_dpad_rose() {
    let mut buf = pad_report();
    buf[5] = 0x00;
    assert_eq!(from_bytes(&buf).status.buttons.bits, BUTTON_UP);
    buf[5] = 0x05;
    assert_eq!(
        from_bytes(&buf).status.buttons.bits,
        BUTTON_DOWN | BUTTON_LEFT
    );
    buf[5] = 0x08;
    assert_eq!(from_bytes(&buf).status.buttons.bits, 0);
}

#[test]
fn parses_flag_buttons() {
    let mut buf = pad_report();
    buf[5] = 0x08 | 0x10 | 0x80; // West and North faces
    buf[6] = 0x01 | 0x08; // L1 and R2
    buf[7] |= 0x01; // Home
    let report = from_bytes(&buf);
    assert_eq!(
        report.status.buttons.bits,
        BUTTON_WEST | BUTTON_NORTH | BUTTON_L1 | BUTTON_R2 | BUTTON_HOME
    );
    assert!(report.status.buttons.contains(BUTTON_WEST));
    assert!(!report.status.buttons.contains(BUTTON_SOUTH));
}

#[test]
fn compact_report_layout() {
    let mut buf = pad_report();
    buf[5] = 0x08 | 0x20; // South face
    buf[6] = 0x10 | 0x20 | 0x80; // Minus, Plus, R3
    buf[7] |= 0x02; // Capture
    let report = from_bytes(&buf);
    assert_eq!(
        report.status.buttons.bits,
        BUTTON_SOUTH | BUTTON_MINUS | BUTTON_PLUS | BUTTON_R3 | BUTTON_CAPTURE
    );
    let out = into_input_report_bytes(report);
    assert_eq!(out[0], 0x3F);
    assert_eq!(out[1], 5);
    assert_eq!(out[2], 0);
    assert_eq!(out[3], 0x04); // South
    assert_eq!(out[4], 0x01 | 0x02 | 0x04 | 0x20); // Minus, Plus, R3, Capture
    assert_eq!(out[5], 0);
    assert_eq!(out[6], 0x40);
    assert_eq!(out[7], 0x41 << 4);
    assert_eq!(out[8], 0x41 >> 4);
    assert_eq!(out[9], 0x42);
    assert_eq!(out[10], 0x43 << 4);
    assert_eq!(out[11], 0x43 >> 4);
    assert_eq!(out[12], 0);
}

#[test]
fn compact_report_of_an_empty_set() {
    let mut buf = pad_report();
    buf[5] = 0x08;
    let mut report = from_bytes(&buf);
    report.status.buttons = Buttons::empty();
    report.counter = None;
    let out = into_input_report_bytes(report);
    assert_eq!(out[1], 0);
    assert_eq!(out[3], 0);
    assert_eq!(out[4], 0);
    assert!(!report.status.buttons.contains(BUTTON_EAST));
}
