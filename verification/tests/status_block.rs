//! The controller-state record, its status block, and the stick packing.

use procon::report::{decode_stick, encode_stick, Report};

#[test]
fn neutral_status_block_bytes() {
    let report = Report::new();
    let block = report.to_array();
    assert_eq!(
        block,
        [0x91, 0x00, 0x00, 0x00, 0x00, 0x08, 0x80, 0x00, 0x08, 0x80, 0x0C]
    );
}

#[test]
fn toggle_lr_flips_the_outer_button_bytes() {
    let mut report = Report::new();
    report.toggle_lr();
    let block = report.to_array();
    assert_eq!(block[1], 0x80);
    assert_eq!(block[2], 0x00);
    assert_eq!(block[3], 0x80);
    report.toggle_lr();
    assert_eq!(report.to_array()[1], 0x00);
    assert_eq!(report.to_array()[3], 0x00);
}

#[test]
fn stick_encoding_of_center() {
    assert_eq!(encode_stick(0x800, 0x800), (0x00, 0x08, 0x80));
}

#[test]
fn stick_encoding_of_extremes() {
    assert_eq!(encode_stick(0x000, 0x000), (0x00, 0x00, 0x00));
    assert_eq!(encode_stick(0xFFF, 0xFFF), (0xFF, 0xFF, 0xFF));
    assert_eq!(encode_stick(0xABC, 0x123), (0xBC, 0x3A, 0x12));
}

#[test]
fn stick_round_trip_recovers_both_axes() {
    for x in (0..=0xFFFu16).step_by(37) {
        for y in (0..=0xFFFu16).step_by(41) {
            let (b0, b1, b2) = encode_stick(x, y);
            assert_eq!(decode_stick(b0, b1, b2), (x, y));
        }
    }
    let (b0, b1, b2) = encode_stick(0xFFF, 0xFFF);
    assert_eq!(decode_stick(b0, b1, b2), (0xFFF, 0xFFF));
}

#[test]
fn custom_pose_serializes_by_the_packing_rule() {
    let mut report = Report::new();
    report.lx = 0xABC;
    report.ly = 0x123;
    report.rx = 0x456;
    report.ry = 0x789;
    let block = report.to_array();
    assert_eq!(&block[4..7], &[0xBC, 0x3A, 0x12]);
    assert_eq!(&block[7..10], &[0x56, 0x94, 0x78]);
}
