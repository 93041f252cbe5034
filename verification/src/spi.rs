//! The simulated SPI flash the console's calibration reads are served from.
//!
//! A read produces a 5-byte header — address little-endian, two zero bytes,
//! the size — followed by `size` payload bytes. Known addresses answer with
//! their factory blob truncated to the size; the stick user-calibration
//! region answers blank except for its "calibration present" markers; every
//! other address reads as erased flash, all `0xFF`.

use vstd::prelude::*;

use crate::buffer::FixedVec;

verus! {

/// Serial number region; reads as erased flash.
pub const ADDRESS_SERIAL_NUMBER: u16 = 0x6000;
/// Body and button colors.
pub const ADDRESS_CONTROLLER_COLOR: u16 = 0x6050;
/// First factory-parameter region.
pub const ADDRESS_FACTORY_PARAMETERS_1: u16 = 0x6080;
/// Second factory-parameter region.
pub const ADDRESS_FACTORY_PARAMETERS_2: u16 = 0x6098;
/// First factory-calibration region.
pub const ADDRESS_FACTORY_CALIBRATION_1: u16 = 0x6020;
/// Second factory-calibration region.
pub const ADDRESS_FACTORY_CALIBRATION_2: u16 = 0x603D;
/// Stick user-calibration region, blank but for its presence markers.
pub const ADDRESS_STICKS_CALIBRATION: u16 = 0x8010;
/// Motion-sensor calibration region.
pub const ADDRESS_IMU_CALIBRATION: u16 = 0x8028;

/// The addresses the table answers with something other than erased flash.
pub open spec fn known_address(address: u16) -> bool {
    ||| address == ADDRESS_SERIAL_NUMBER
    ||| address == ADDRESS_CONTROLLER_COLOR
    ||| address == ADDRESS_FACTORY_PARAMETERS_1
    ||| address == ADDRESS_FACTORY_PARAMETERS_2
    ||| address == ADDRESS_FACTORY_CALIBRATION_1
    ||| address == ADDRESS_FACTORY_CALIBRATION_2
    ||| address == ADDRESS_STICKS_CALIBRATION
    ||| address == ADDRESS_IMU_CALIBRATION
}

/// The controller-color blob.
pub open spec fn color_blob() -> Seq<u8> {
    seq![0x0Au8, 0xB9, 0xE6, 0xDD, 0xDD, 0xDD, 0xAA, 0xAA, 0xAA, 0xAA, 0xAA, 0xAA]
}

/// The first factory-parameter blob.
pub open spec fn factory_parameters_1() -> Seq<u8> {
    seq![
        0x50u8, 0xFD, 0x00, 0x00, 0xC6, 0x0F, 0x0F, 0x30, 0x61, 0x96, 0x30, 0xF3,
        0xD4, 0x14, 0x54, 0x41, 0x15, 0x54, 0xC7, 0x79, 0x9C, 0x33, 0x36, 0x63,
    ]
}

/// The second factory-parameter blob.
pub open spec fn factory_parameters_2() -> Seq<u8> {
    seq![
        0x0Fu8, 0x30, 0x61, 0x96, 0x30, 0xF3, 0xD4, 0x14, 0x54, 0x41, 0x15, 0x54,
        0xC7, 0x79, 0x9C, 0x33, 0x36, 0x63,
    ]
}

/// The first factory-calibration blob.
pub open spec fn factory_calibration_1() -> Seq<u8> {
    seq![
        0xE6u8, 0xFF, 0x3A, 0x00, 0x39, 0x00, 0x00, 0x40, 0x00, 0x40, 0x00, 0x40,
        0xF7, 0xFF, 0xFC, 0xFF, 0x00, 0x00, 0xE7, 0x3B, 0xE7, 0x3B, 0xE7, 0x3B,
    ]
}

/// The second factory-calibration blob.
pub open spec fn factory_calibration_2() -> Seq<u8> {
    seq![
        0xBAu8, 0x15, 0x62, 0x11, 0xB8, 0x7F, 0x29, 0x06, 0x5B, 0xFF, 0xE7, 0x7E,
        0x0E, 0x36, 0x56, 0x9E, 0x85, 0x60, 0xFF, 0x32, 0x32, 0x32, 0xFF, 0xFF,
        0xFF,
    ]
}

/// The motion-sensor calibration blob.
pub open spec fn imu_calibration() -> Seq<u8> {
    seq![
        0xBEu8, 0xFF, 0x3E, 0x00, 0xF0, 0x01, 0x00, 0x40, 0x00, 0x40, 0x00, 0x40,
        0xFE, 0xFF, 0xFE, 0xFF, 0x08, 0x00, 0xE7, 0x3B, 0xE7, 0x3B, 0xE7, 0x3B,
    ]
}

/// One payload byte served from a blob: the blob while it lasts, then erased
/// flash.
pub open spec fn blob_byte(blob: Seq<u8>, i: int) -> u8 {
    if i < blob.len() {
        blob[i]
    } else {
        0xFF
    }
}

/// The payload byte at offset `i` of a read of `size` bytes from `address`.
pub open spec fn payload_byte(address: u16, size: nat, i: int) -> u8 {
    if address == ADDRESS_CONTROLLER_COLOR {
        blob_byte(color_blob(), i)
    } else if address == ADDRESS_FACTORY_PARAMETERS_1 {
        blob_byte(factory_parameters_1(), i)
    } else if address == ADDRESS_FACTORY_PARAMETERS_2 {
        blob_byte(factory_parameters_2(), i)
    } else if address == ADDRESS_FACTORY_CALIBRATION_1 {
        blob_byte(factory_calibration_1(), i)
    } else if address == ADDRESS_FACTORY_CALIBRATION_2 {
        blob_byte(factory_calibration_2(), i)
    } else if address == ADDRESS_IMU_CALIBRATION {
        blob_byte(imu_calibration(), i)
    } else if address == ADDRESS_STICKS_CALIBRATION {
        if size > 23 && i == 22 {
            0xB2
        } else if size > 23 && i == 23 {
            0xA1
        } else {
            0xFF
        }
    } else {
        0xFF
    }
}

/// The whole payload of a read of `size` bytes from `address`.
pub open spec fn payload(address: u16, size: nat) -> Seq<u8> {
    Seq::new(size, |i: int| payload_byte(address, size, i))
}

/// Everything a read appends: the 5-byte header, then the payload.
pub open spec fn reply(address: u16, size: nat) -> Seq<u8> {
    seq![
        (address & 0xFF) as u8,
        ((address >> 8) & 0xFF) as u8,
        0u8,
        0u8,
        size as u8,
    ] + payload(address, size)
}

/// Any address outside the table reads as erased flash throughout.
pub proof fn lemma_unknown_address_blank(address: u16, size: nat, i: int)
    requires
        !known_address(address),
        0 <= i < size,
    ensures
        payload(address, size)[i] == 0xFF,
{
}

/// Append `size` payload bytes served from `blob`.
fn push_blob_payload(buf: &mut FixedVec, blob: &Vec<u8>, size: usize)
    requires
        old(buf).wf(),
        old(buf)@.len() + size <= old(buf).capacity(),
    ensures
        final(buf).wf(),
        final(buf)@ == old(buf)@ + Seq::new(size as nat, |i: int| blob_byte(blob@, i)),
        final(buf).capacity() == old(buf).capacity(),
{
    let ghost start = buf@;
    let mut i: usize = 0;
    while i < size
        invariant
            buf.wf(),
            i <= size,
            buf@ == start + Seq::new(i as nat, |j: int| blob_byte(blob@, j)),
            buf.capacity() == old(buf).capacity(),
            start.len() + size <= buf.capacity(),
        decreases size - i,
    {
        if i < blob.len() {
            buf.push(blob[i]);
        } else {
            buf.push(0xFF);
        }
        i = i + 1;
        proof {
            assert(buf@ =~= start + Seq::new(i as nat, |j: int| blob_byte(blob@, j)));
        }
    }
}

/// The controller-color blob as bytes.
fn color_blob_bytes() -> (r: Vec<u8>)
    ensures
        r@ == color_blob(),
{
    let r = vec![0x0Au8, 0xB9, 0xE6, 0xDD, 0xDD, 0xDD, 0xAA, 0xAA, 0xAA, 0xAA, 0xAA, 0xAA];
    proof {
        assert(r@ =~= color_blob());
    }
    r
}

/// The first factory-parameter blob as bytes.
fn factory_parameters_1_bytes() -> (r: Vec<u8>)
    ensures
        r@ == factory_parameters_1(),
{
    let r = vec![
        0x50u8, 0xFD, 0x00, 0x00, 0xC6, 0x0F, 0x0F, 0x30, 0x61, 0x96, 0x30, 0xF3,
        0xD4, 0x14, 0x54, 0x41, 0x15, 0x54, 0xC7, 0x79, 0x9C, 0x33, 0x36, 0x63,
    ];
    proof {
        assert(r@ =~= factory_parameters_1());
    }
    r
}

/// The second factory-parameter blob as bytes.
fn factory_parameters_2_bytes() -> (r: Vec<u8>)
    ensures
        r@ == factory_parameters_2(),
{
    let r = vec![
        0x0Fu8, 0x30, 0x61, 0x96, 0x30, 0xF3, 0xD4, 0x14, 0x54, 0x41, 0x15, 0x54,
        0xC7, 0x79, 0x9C, 0x33, 0x36, 0x63,
    ];
    proof {
        assert(r@ =~= factory_parameters_2());
    }
    r
}

/// The first factory-calibration blob as bytes.
fn factory_calibration_1_bytes() -> (r: Vec<u8>)
    ensures
        r@ == factory_calibration_1(),
{
    let r = vec![
        0xE6u8, 0xFF, 0x3A, 0x00, 0x39, 0x00, 0x00, 0x40, 0x00, 0x40, 0x00, 0x40,
        0xF7, 0xFF, 0xFC, 0xFF, 0x00, 0x00, 0xE7, 0x3B, 0xE7, 0x3B, 0xE7, 0x3B,
    ];
    proof {
        assert(r@ =~= factory_calibration_1());
    }
    r
}

/// The second factory-calibration blob as bytes.
fn factory_calibration_2_bytes() -> (r: Vec<u8>)
    ensures
        r@ == factory_calibration_2(),
{
    let r = vec![
        0xBAu8, 0x15, 0x62, 0x11, 0xB8, 0x7F, 0x29, 0x06, 0x5B, 0xFF, 0xE7, 0x7E,
        0x0E, 0x36, 0x56, 0x9E, 0x85, 0x60, 0xFF, 0x32, 0x32, 0x32, 0xFF, 0xFF,
        0xFF,
    ];
    proof {
        assert(r@ =~= factory_calibration_2());
    }
    r
}

/// The motion-sensor calibration blob as bytes.
fn imu_calibration_bytes() -> (r: Vec<u8>)
    ensures
        r@ == imu_calibration(),
{
    let r = vec![
        0xBEu8, 0xFF, 0x3E, 0x00, 0xF0, 0x01, 0x00, 0x40, 0x00, 0x40, 0x00, 0x40,
        0xFE, 0xFF, 0xFE, 0xFF, 0x08, 0x00, 0xE7, 0x3B, 0xE7, 0x3B, 0xE7, 0x3B,
    ];
    proof {
        assert(r@ =~= imu_calibration());
    }
    r
}

/// Serve a read of `size` bytes from `address` into `buf`: the 5-byte header
/// first, then the payload the address selects.
pub fn read(address: u16, buf: &mut FixedVec, size: usize)
    requires
        old(buf).wf(),
        old(buf)@.len() + 5 + size <= old(buf).capacity(),
        size <= 0xFF,
    ensures
        final(buf).wf(),
        final(buf)@ == old(buf)@ + reply(address, size as nat),
        final(buf).capacity() == old(buf).capacity(),
{
    let ghost start = buf@;
    buf.push((address & 0xFF) as u8);
    buf.push(((address >> 8) & 0xFF) as u8);
    buf.push(0x00);
    buf.push(0x00);
    buf.push(size as u8);
    let ghost header = buf@;

    if address == ADDRESS_CONTROLLER_COLOR {
        push_blob_payload(buf, &color_blob_bytes(), size);
    } else if address == ADDRESS_FACTORY_PARAMETERS_1 {
        push_blob_payload(buf, &factory_parameters_1_bytes(), size);
    } else if address == ADDRESS_FACTORY_PARAMETERS_2 {
        push_blob_payload(buf, &factory_parameters_2_bytes(), size);
    } else if address == ADDRESS_FACTORY_CALIBRATION_1 {
        push_blob_payload(buf, &factory_calibration_1_bytes(), size);
    } else if address == ADDRESS_FACTORY_CALIBRATION_2 {
        push_blob_payload(buf, &factory_calibration_2_bytes(), size);
    } else if address == ADDRESS_IMU_CALIBRATION {
        push_blob_payload(buf, &imu_calibration_bytes(), size);
    } else if address == ADDRESS_STICKS_CALIBRATION {
        let mut i: usize = 0;
        while i < size
            invariant
                buf.wf(),
                i <= size,
                size <= 0xFF,
                buf@ == header + payload(address, size as nat).subrange(0, i as int),
                buf.capacity() == old(buf).capacity(),
                header.len() + size <= buf.capacity(),
                address == ADDRESS_STICKS_CALIBRATION,
            decreases size - i,
        {
            if size > 23 && i == 22 {
                buf.push(0xB2);
            } else if size > 23 && i == 23 {
                buf.push(0xA1);
            } else {
                buf.push(0xFF);
            }
            i = i + 1;
            proof {
                assert(buf@ =~= header + payload(address, size as nat).subrange(0, i as int));
            }
        }
        proof {
            assert(payload(address, size as nat).subrange(0, size as int)
                =~= payload(address, size as nat));
        }
    } else {
        push_blob_payload(buf, &Vec::new(), size);
    }
    proof {
        assert(buf@ =~= start + reply(address, size as nat));
    }
}

} // verus!
