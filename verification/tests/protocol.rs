//! End-to-end protocol scenarios against the dispatcher.

use procon::device::{DeviceState, Phase};
use procon::response::Response;

/// The status block of the neutral pose.
const NEUTRAL_STATUS: [u8; 11] = [
    0x91, 0x00, 0x00, 0x00, 0x00, 0x08, 0x80, 0x00, 0x08, 0x80, 0x0C,
];

fn subcommand_packet(sub: u8) -> Vec<u8> {
    let mut req = vec![0u8; 64];
    req[0] = 0x01;
    req[10] = sub;
    req
}

fn expect_status_reply(resp: &Response, counter: u8, code: u8, subcommand: u8, data: &[u8]) {
    assert_eq!(resp.buf.len(), 64);
    assert_eq!(resp.buf[0], 0x21);
    assert_eq!(resp.buf[1], counter);
    assert_eq!(&resp.buf[2..13], &NEUTRAL_STATUS);
    assert_eq!(resp.buf[13], code);
    assert_eq!(resp.buf[14], subcommand);
    assert_eq!(&resp.buf[15..15 + data.len()], data);
    assert_eq!(resp.len, 15 + data.len());
    for i in resp.len..64 {
        assert_eq!(resp.buf[i], 0);
    }
}

#[test]
fn probe_reply_bytes() {
    let mut dev = DeviceState::new();
    let resp = Response::new(&[0x80, 0x01, 0x00, 0x00], &mut dev).unwrap();
    let expected: [u8; 10] = [0x81, 0x01, 0x00, 0x03, 0x57, 0x30, 0xEA, 0x8A, 0xBB, 0x7C];
    assert_eq!(&resp.buf[..10], &expected);
    assert_eq!(resp.len, 10);
    for i in 10..64 {
        assert_eq!(resp.buf[i], 0);
    }
    assert_eq!(dev.counter, 0, "a short reply must not advance the counter");
}

#[test]
fn device_info_reply_bytes() {
    let mut dev = DeviceState::new();
    let req = subcommand_packet(0x02);
    let resp = Response::new(&req, &mut dev).unwrap();
    let data: [u8; 12] = [
        0x03, 0x48, 0x03, 0x02, 0x57, 0x30, 0xEF, 0x8A, 0xBB, 0x7C, 0x03, 0x02,
    ];
    expect_status_reply(&resp, 0x00, 0x82, 0x02, &data);
    assert_eq!(dev.counter, 3);
}

#[test]
fn spi_color_read_reply_bytes() {
    let mut dev = DeviceState::new();
    let mut req = subcommand_packet(0x10);
    req[11] = 0x50;
    req[12] = 0x60;
    req[15] = 3;
    let resp = Response::new(&req, &mut dev).unwrap();
    let data: [u8; 8] = [0x50, 0x60, 0x00, 0x00, 0x03, 0x0A, 0xB9, 0xE6];
    expect_status_reply(&resp, 0x00, 0x90, 0x10, &data);
}

#[test]
fn start_stream_reply_bytes() {
    let mut dev = DeviceState::new();
    let resp = Response::new(&[0x80, 0x04], &mut dev).unwrap();
    expect_status_reply(&resp, 0x00, 0x30, 0x00, &[]);
    assert_eq!(dev.counter, 3);
}

#[test]
fn idle_tick_after_start_advances_counter() {
    let mut dev = DeviceState::new();
    let first = Response::new(&[0x80, 0x04], &mut dev).unwrap();
    assert_eq!(first.buf[1], 0x00);
    let idle = Response::idle(&mut dev);
    expect_status_reply(&idle, 0x03, 0x30, 0x03, &[]);
    assert_eq!(dev.counter, 6);
}

#[test]
fn button_toggle_flips_outer_button_bytes() {
    let mut dev = DeviceState::new();
    let before = Response::idle(&mut dev);
    dev.report_toggle();
    let after = Response::idle(&mut dev);
    // The status block spans reply bytes 2..13; its button bytes sit at
    // block offsets 1 through 3.
    assert_eq!(after.buf[3], before.buf[3] ^ 0x80);
    assert_eq!(after.buf[4], before.buf[4]);
    assert_eq!(after.buf[5], before.buf[5] ^ 0x80);
    dev.report_toggle();
    let again = Response::idle(&mut dev);
    assert_eq!(again.buf[3], before.buf[3]);
    assert_eq!(again.buf[5], before.buf[5]);
}

#[test]
fn handshake_sequence_reaches_streaming() {
    let mut dev = DeviceState::new();
    dev.configured();
    assert_eq!(dev.phase, Phase::Enumerated);

    let r1 = Response::new(&[0x80, 0x01], &mut dev).unwrap();
    assert_eq!((r1.buf[0], r1.buf[1]), (0x81, 0x01));
    assert_eq!(dev.phase, Phase::Handshaking);

    let r2 = Response::new(&[0x80, 0x02], &mut dev).unwrap();
    assert_eq!((r2.buf[0], r2.buf[1]), (0x81, 0x02));
    assert_eq!(r2.len, 2);
    assert_eq!(dev.phase, Phase::Handshaking);

    let r3 = Response::new(&[0x80, 0x03], &mut dev).unwrap();
    assert_eq!((r3.buf[0], r3.buf[1]), (0x81, 0x03));
    assert_eq!(r3.len, 2);
    assert_eq!(dev.phase, Phase::Handshaking);

    let r4 = Response::new(&[0x80, 0x04], &mut dev).unwrap();
    assert_eq!(r4.buf[0], 0x21);
    assert_eq!(r4.buf[14], 0x00);
    assert_eq!(dev.phase, Phase::Streaming);
}

#[test]
fn reset_returns_to_unenumerated() {
    let mut dev = DeviceState::new();
    dev.configured();
    Response::new(&[0x80, 0x01], &mut dev);
    Response::new(&[0x80, 0x04], &mut dev);
    assert_eq!(dev.phase, Phase::Streaming);
    dev.reset();
    assert_eq!(dev.phase, Phase::Unenumerated);
}

#[test]
fn counter_progression_over_status_replies() {
    let mut dev = DeviceState::new();
    let mut expected: u8 = 0;
    for _ in 0..100 {
        let resp = Response::idle(&mut dev);
        assert_eq!(resp.buf[1], expected);
        expected = expected.wrapping_add(3);
    }
}

#[test]
fn permissive_ack_for_unknown_subcommand() {
    let mut dev = DeviceState::new();
    for k in 0..5u32 {
        let req = subcommand_packet(0x33);
        let resp = Response::new(&req, &mut dev).unwrap();
        let counter = (3 * k) as u8;
        expect_status_reply(&resp, counter, 0x80, 0x33, &[]);
    }
    assert_eq!(dev.counter, 15);
}

#[test]
fn set_type_subcommands_ack_permissively() {
    let mut dev = DeviceState::new();
    for (i, sub) in [0x03u8, 0x08, 0x30, 0x38, 0x40, 0x48].into_iter().enumerate() {
        let req = subcommand_packet(sub);
        let resp = Response::new(&req, &mut dev).unwrap();
        expect_status_reply(&resp, (3 * i) as u8, 0x80, sub, &[]);
    }
}

#[test]
fn bluetooth_pairing_and_trigger_time_replies() {
    let mut dev = DeviceState::new();
    let pairing = Response::new(&subcommand_packet(0x01), &mut dev).unwrap();
    expect_status_reply(&pairing, 0x00, 0x81, 0x01, &[0x03]);
    let elapsed = Response::new(&subcommand_packet(0x04), &mut dev).unwrap();
    expect_status_reply(&elapsed, 0x03, 0x83, 0x04, &[]);
}

#[test]
fn unanswered_packets() {
    let mut dev = DeviceState::new();
    assert!(Response::new(&[0x80, 0x05], &mut dev).is_none());
    assert!(Response::new(&[0x80], &mut dev).is_none());
    assert!(Response::new(&[], &mut dev).is_none());
    // A 0x01-channel packet must be longer than 16 bytes.
    assert!(Response::new(&[0x01; 16], &mut dev).is_none());
    // A packet on neither channel.
    assert!(Response::new(&[0x7F; 64], &mut dev).is_none());
    assert_eq!(dev.counter, 0);
    assert_eq!(dev.phase, Phase::Unenumerated);
}
