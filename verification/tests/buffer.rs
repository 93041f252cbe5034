//! The bounded byte accumulator.

use procon::buffer::FixedVec;

#[test]
fn starts_empty_with_given_capacity() {
    let buf = FixedVec::new(vec![0u8; 16]);
    assert_eq!(buf.len(), 0);
    assert_eq!(buf.to_vec(), Vec::<u8>::new());
}

#[test]
fn push_fills_the_prefix_in_order() {
    let mut buf = FixedVec::new(vec![0u8; 4]);
    buf.push(0xAA);
    buf.push(0xBB);
    assert_eq!(buf.len(), 2);
    assert_eq!(buf.to_vec(), vec![0xAA, 0xBB]);
}

#[test]
fn fake_push_leaves_the_prefix_alone() {
    let mut buf = FixedVec::new(vec![0u8; 4]);
    buf.push(0x11);
    buf.fake_push(0x22);
    assert_eq!(buf.len(), 1);
    assert_eq!(buf.to_vec(), vec![0x11]);
    // The slot it wrote is claimed by the next real push.
    buf.push(0x33);
    assert_eq!(buf.to_vec(), vec![0x11, 0x33]);
}

#[test]
fn clear_drops_the_prefix() {
    let mut buf = FixedVec::new(vec![0u8; 4]);
    buf.push_slice(&[1, 2, 3]);
    buf.clear();
    assert_eq!(buf.len(), 0);
    buf.push(9);
    assert_eq!(buf.to_vec(), vec![9]);
}

#[test]
fn push_slice_appends_every_byte() {
    let mut buf = FixedVec::new(vec![0u8; 8]);
    buf.push(0x01);
    buf.push_slice(&[0x02, 0x03, 0x04]);
    assert_eq!(buf.len(), 4);
    assert_eq!(buf.to_vec(), vec![0x01, 0x02, 0x03, 0x04]);
}

#[test]
fn as_str_decodes_valid_utf8() {
    let mut buf = FixedVec::new(vec![0u8; 8]);
    buf.push_slice(b"hi!");
    assert_eq!(buf.as_str(), Some("hi!"));
}

#[test]
fn as_str_sees_only_the_prefix() {
    let mut buf = FixedVec::new(vec![0xFFu8; 8]);
    buf.push(b'o');
    buf.push(b'k');
    assert_eq!(buf.as_str(), Some("ok"));
}

#[test]
fn as_str_refuses_invalid_utf8() {
    let mut buf = FixedVec::new(vec![0u8; 8]);
    buf.push(0xFF);
    assert_eq!(buf.as_str(), None);
}
