//! The controller-state record and its 11-byte on-wire status block.
//!
//! The record keeps the analog sticks in their native 12-bit range; the wire
//! form packs each stick's two 12-bit axes into three bytes. Serialization is
//! explicit, so the in-memory layout can stay whatever is natural.

use vstd::prelude::*;

verus! {

/// First stick byte: the low eight bits of the X axis.
pub open spec fn stick_byte0(x: u16) -> u8 {
    (x & 0xFF) as u8
}

/// Middle stick byte: the low nibble of Y above the high nibble of X.
pub open spec fn stick_byte1(x: u16, y: u16) -> u8 {
    (((y & 0x0F) << 4) | ((x >> 8) & 0x0F)) as u8
}

/// Last stick byte: the high eight bits of the Y axis.
pub open spec fn stick_byte2(y: u16) -> u8 {
    ((y >> 4) & 0xFF) as u8
}

/// The X axis read back from the three stick bytes.
pub open spec fn stick_decode_x(b0: u8, b1: u8) -> u16 {
    (b0 as u16) | (((b1 & 0x0F) as u16) << 8)
}

/// The Y axis read back from the three stick bytes.
pub open spec fn stick_decode_y(b1: u8, b2: u8) -> u16 {
    ((b1 >> 4) as u16) | ((b2 as u16) << 4)
}

/// The controller-state record: buttons, sticks, battery info, vibrator.
pub struct Report {
    /// Battery and connection info byte.
    pub info: u8,
    /// The three button bytes of the status block.
    pub buttons: [u8; 3],
    /// Left stick X, native range `0..=0xFFF`.
    pub lx: u16,
    /// Left stick Y, native range `0..=0xFFF`.
    pub ly: u16,
    /// Right stick X, native range `0..=0xFFF`.
    pub rx: u16,
    /// Right stick Y, native range `0..=0xFFF`.
    pub ry: u16,
    /// Vibrator state byte.
    pub vibrator: u8,
}

/// The 11-byte status block a record serializes to.
pub open spec fn status_block(r: Report) -> Seq<u8> {
    seq![
        r.info,
        r.buttons[0],
        r.buttons[1],
        r.buttons[2],
        stick_byte0(r.lx),
        stick_byte1(r.lx, r.ly),
        stick_byte2(r.ly),
        stick_byte0(r.rx),
        stick_byte1(r.rx, r.ry),
        stick_byte2(r.ry),
        r.vibrator,
    ]
}

/// The neutral pose: sticks centered, no buttons, battery full and charging,
/// connected over USB.
pub open spec fn neutral_report() -> Report {
    Report {
        info: 0x91,
        buttons: [0u8, 0u8, 0u8],
        lx: 0x800,
        ly: 0x800,
        rx: 0x800,
        ry: 0x800,
        vibrator: 0x0C,
    }
}

impl Report {
    /// Create the record in its neutral pose.
    pub fn new() -> (r: Self)
        ensures
            r == neutral_report(),
    {
        Report {
            info: 0x91,
            buttons: [0u8, 0u8, 0u8],
            lx: 0x800,
            ly: 0x800,
            rx: 0x800,
            ry: 0x800,
            vibrator: 0x0C,
        }
    }

    /// Flip the high bit of the two outer button bytes, as if L and R were
    /// pressed or released together.
    pub fn toggle_lr(&mut self)
        ensures
            final(self).buttons@ == old(self).buttons@
                .update(0, old(self).buttons[0] ^ 0x80)
                .update(2, old(self).buttons[2] ^ 0x80),
            final(self).info == old(self).info,
            final(self).lx == old(self).lx,
            final(self).ly == old(self).ly,
            final(self).rx == old(self).rx,
            final(self).ry == old(self).ry,
            final(self).vibrator == old(self).vibrator,
    {
        self.buttons[0] = self.buttons[0] ^ 0x80;
        self.buttons[2] = self.buttons[2] ^ 0x80;
        proof {
            assert(final(self).buttons@ =~= old(self).buttons@
                .update(0, old(self).buttons[0] ^ 0x80)
                .update(2, old(self).buttons[2] ^ 0x80));
        }
    }

    /// Serialize the record to its 11-byte status block.
    pub fn to_array(&self) -> (r: [u8; 11])
        ensures
            r@ == status_block(*self),
    {
        let r: [u8; 11] = [
            self.info,
            self.buttons[0],
            self.buttons[1],
            self.buttons[2],
            (self.lx & 0xFF) as u8,
            (((self.ly & 0x0F) << 4) | ((self.lx >> 8) & 0x0F)) as u8,
            ((self.ly >> 4) & 0xFF) as u8,
            (self.rx & 0xFF) as u8,
            (((self.ry & 0x0F) << 4) | ((self.rx >> 8) & 0x0F)) as u8,
            ((self.ry >> 4) & 0xFF) as u8,
            self.vibrator,
        ];
        proof {
            assert(r@ =~= status_block(*self));
        }
        r
    }
}

/// Encode one stick: two 12-bit axes packed into three bytes.
pub fn encode_stick(x: u16, y: u16) -> (r: (u8, u8, u8))
    ensures
        r.0 == stick_byte0(x),
        r.1 == stick_byte1(x, y),
        r.2 == stick_byte2(y),
{
    (
        (x & 0xFF) as u8,
        (((y & 0x0F) << 4) | ((x >> 8) & 0x0F)) as u8,
        ((y >> 4) & 0xFF) as u8,
    )
}

/// Decode one stick: the two 12-bit axes out of three packed bytes.
pub fn decode_stick(b0: u8, b1: u8, b2: u8) -> (r: (u16, u16))
    ensures
        r.0 == stick_decode_x(b0, b1),
        r.1 == stick_decode_y(b1, b2),
{
    (
        (b0 as u16) | (((b1 & 0x0F) as u16) << 8),
        ((b1 >> 4) as u16) | ((b2 as u16) << 4),
    )
}

/// Encoding a stick to its three wire bytes and decoding them recovers both
/// axes exactly, for every position in the native 12-bit range.
pub proof fn lemma_stick_round_trip(x: u16, y: u16)
    requires
        x <= 0xFFF,
        y <= 0xFFF,
    ensures
        stick_decode_x(stick_byte0(x), stick_byte1(x, y)) == x,
        stick_decode_y(stick_byte1(x, y), stick_byte2(y)) == y,
{
    assert(x <= 0xFFF && y <= 0xFFF ==> {
        let b0 = (x & 0xFF) as u8;
        let b1 = (((y & 0x0F) << 4) | ((x >> 8) & 0x0F)) as u8;
        let b2 = ((y >> 4) & 0xFF) as u8;
        (b0 as u16) | (((b1 & 0x0F) as u16) << 8) == x
            && ((b1 >> 4) as u16) | ((b2 as u16) << 4) == y
    }) by (bit_vector);
}

} // verus!
