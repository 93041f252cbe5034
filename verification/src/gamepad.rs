//! The shared model of the physical gamepad feeding the bridge, with the
//! parser for the real controller's USB report and the compact input-report
//! serializer for the emulated side.
//!
//! The host-side reader runs these on its own machine; the core consumes
//! only what it embeds into status blocks.

use vstd::prelude::*;

verus! {

/// D-pad up.
pub const BUTTON_UP: u32 = 0x00001;
/// D-pad down.
pub const BUTTON_DOWN: u32 = 0x00002;
/// D-pad left.
pub const BUTTON_LEFT: u32 = 0x00004;
/// D-pad right.
pub const BUTTON_RIGHT: u32 = 0x00008;
/// Minus, called Share on the physical pad.
pub const BUTTON_MINUS: u32 = 0x00010;
/// Plus, called Options on the physical pad.
pub const BUTTON_PLUS: u32 = 0x00020;
/// The left shoulder button.
pub const BUTTON_L1: u32 = 0x00040;
/// The right shoulder button.
pub const BUTTON_R1: u32 = 0x00080;
/// The left trigger.
pub const BUTTON_L2: u32 = 0x00100;
/// The right trigger.
pub const BUTTON_R2: u32 = 0x00200;
/// The left stick click.
pub const BUTTON_L3: u32 = 0x00400;
/// The right stick click.
pub const BUTTON_R3: u32 = 0x00800;
/// The West face button.
pub const BUTTON_WEST: u32 = 0x01000;
/// The South face button.
pub const BUTTON_SOUTH: u32 = 0x02000;
/// The East face button.
pub const BUTTON_EAST: u32 = 0x04000;
/// The North face button.
pub const BUTTON_NORTH: u32 = 0x08000;
/// Home, called PS on the physical pad.
pub const BUTTON_HOME: u32 = 0x10000;
/// Capture, the touchpad click on the physical pad.
pub const BUTTON_CAPTURE: u32 = 0x20000;

/// The set of currently pushed buttons, one bit per button.
#[derive(Clone, Copy, Debug, PartialEq, Eq, Structural)]
pub struct Buttons {
    /// The bits, one `BUTTON_` constant each.
    pub bits: u32,
}

impl Buttons {
    /// Whether every button of `mask` is pushed.
    pub open spec fn has(self, mask: u32) -> bool {
        self.bits & mask == mask
    }

    /// No button pushed.
    pub fn empty() -> (r: Self)
        ensures
            r.bits == 0,
    {
        Buttons { bits: 0 }
    }

    /// Whether every button of `mask` is pushed.
    pub fn contains(self, mask: u32) -> (r: bool)
        ensures
            r == self.has(mask),
    {
        self.bits & mask == mask
    }
}

/// Joystick state, one byte per axis as the physical pad reports it.
#[derive(Clone, Copy, Debug)]
pub struct Stick {
    /// The X axis.
    pub x: u8,
    /// The Y axis.
    pub y: u8,
}

impl Stick {
    /// Joystick state from its two axes.
    pub fn new(x: u8, y: u8) -> (r: Self)
        ensures
            r.x == x,
            r.y == y,
    {
        Stick { x, y }
    }
}

/// Accelerometer state: the X, Y and Z axes in raw sensor units.
#[derive(Clone, Copy, Debug)]
pub struct Acceleration {
    /// The X axis.
    pub x: i16,
    /// The Y axis.
    pub y: i16,
    /// The Z axis.
    pub z: i16,
}

/// Gyroscope state: angular velocity around the X, Y and Z axes in raw
/// sensor units.
#[derive(Clone, Copy, Debug)]
pub struct Orientation {
    /// The X axis.
    pub x: i16,
    /// The Y axis.
    pub y: i16,
    /// The Z axis.
    pub z: i16,
}

impl Acceleration {
    /// Accelerometer state from its three axes.
    pub fn new(x: i16, y: i16, z: i16) -> (r: Self)
        ensures
            r.x == x,
            r.y == y,
            r.z == z,
    {
        Acceleration { x, y, z }
    }
}

impl Orientation {
    /// Gyroscope state from its three axes.
    pub fn new(x: i16, y: i16, z: i16) -> (r: Self)
        ensures
            r.x == x,
            r.y == y,
            r.z == z,
    {
        Orientation { x, y, z }
    }
}

/// The whole state of the physical pad at one instant.
#[derive(Clone, Copy, Debug)]
pub struct Status {
    /// The states of all the buttons.
    pub buttons: Buttons,
    /// The left joystick.
    pub left_stick: Stick,
    /// The right joystick.
    pub right_stick: Stick,
    /// The left trigger, 0 to 255.
    pub left_trigger: u8,
    /// The right trigger, 0 to 255.
    pub right_trigger: u8,
    /// Accelerometer state.
    pub acceleration: Acceleration,
    /// Gyroscope state.
    pub orientation: Orientation,
}

/// A generic controller report: a counter and the state it carried.
#[derive(Clone, Copy, Debug)]
pub struct Report {
    /// Counts up one per report, when the pad provides it.
    pub counter: Option<u8>,
    /// The state of the controller.
    pub status: Status,
}

impl Report {
    /// The report's counter, when the pad provides one.
    pub fn counter(&self) -> (r: Option<u8>)
        ensures
            r == self.counter,
    {
        self.counter
    }
}

/// A 16-bit value read little-endian from two bytes, as a signed axis.
pub open spec fn le_i16(lo: u8, hi: u8) -> i16 {
    (((hi as u16) << 8) | (lo as u16)) as i16
}

/// Whether bit `bit` of `byte` is set.
pub open spec fn bit_set(byte: u8, bit: u8) -> bool
    recommends
        bit < 8,
{
    byte & (1u8 << bit) > 0
}

/// The D-pad buttons encoded in the low nibble of the pad's sixth byte: a
/// rose of eight directions, with eight meaning none.
pub open spec fn dpad_bits(b: u8) -> u32
    recommends
        b & 0x0F < 9,
{
    let n = b & 0x0F;
    if n == 0 {
        BUTTON_UP
    } else if n == 1 {
        BUTTON_UP | BUTTON_RIGHT
    } else if n == 2 {
        BUTTON_RIGHT
    } else if n == 3 {
        BUTTON_RIGHT | BUTTON_DOWN
    } else if n == 4 {
        BUTTON_DOWN
    } else if n == 5 {
        BUTTON_DOWN | BUTTON_LEFT
    } else if n == 6 {
        BUTTON_LEFT
    } else if n == 7 {
        BUTTON_LEFT | BUTTON_UP
    } else {
        0
    }
}

/// Every button bit the pad's report carries, D-pad rose and flag bits.
pub open spec fn buttons_bits(buf: Seq<u8>) -> u32
    recommends
        buf.len() == 64,
{
    dpad_bits(buf[5])
        | (if bit_set(buf[5], 4) { BUTTON_WEST } else { 0 })
        | (if bit_set(buf[5], 5) { BUTTON_SOUTH } else { 0 })
        | (if bit_set(buf[5], 6) { BUTTON_EAST } else { 0 })
        | (if bit_set(buf[5], 7) { BUTTON_NORTH } else { 0 })
        | (if bit_set(buf[6], 0) { BUTTON_L1 } else { 0 })
        | (if bit_set(buf[6], 1) { BUTTON_R1 } else { 0 })
        | (if bit_set(buf[6], 2) { BUTTON_L2 } else { 0 })
        | (if bit_set(buf[6], 3) { BUTTON_R2 } else { 0 })
        | (if bit_set(buf[6], 4) { BUTTON_MINUS } else { 0 })
        | (if bit_set(buf[6], 5) { BUTTON_PLUS } else { 0 })
        | (if bit_set(buf[6], 6) { BUTTON_L3 } else { 0 })
        | (if bit_set(buf[6], 7) { BUTTON_R3 } else { 0 })
        | (if bit_set(buf[7], 0) { BUTTON_HOME } else { 0 })
        | (if bit_set(buf[7], 1) { BUTTON_CAPTURE } else { 0 })
}

/// Parse the physical pad's 64-byte USB report into a generic report.
///
/// The report must be the pad's first report shape; a D-pad nibble past the
/// rose never leaves a real pad and counts as a malformed report.
pub fn from_bytes(buf: &[u8]) -> (r: Report)
    requires
        buf@.len() == 64,
        buf@[0] == 1,
        buf@[5] & 0x0F < 9,
    ensures
        r.counter == Some(buf@[7] >> 2),
        r.status.buttons.bits == buttons_bits(buf@),
        r.status.left_stick.x == buf@[1],
        r.status.left_stick.y == buf@[2],
        r.status.right_stick.x == buf@[3],
        r.status.right_stick.y == buf@[4],
        r.status.left_trigger == buf@[8],
        r.status.right_trigger == buf@[9],
        r.status.acceleration.x == le_i16(buf@[13], buf@[14]),
        r.status.acceleration.y == le_i16(buf@[15], buf@[16]),
        r.status.acceleration.z == le_i16(buf@[17], buf@[18]),
        r.status.orientation.x == le_i16(buf@[19], buf@[20]),
        r.status.orientation.y == le_i16(buf@[21], buf@[22]),
        r.status.orientation.z == le_i16(buf@[23], buf@[24]),
{
    let left_stick = Stick::new(buf[1], buf[2]);
    let right_stick = Stick::new(buf[3], buf[4]);

    let n = buf[5] & 0x0F;
    let dpad: u32 = if n == 0 {
        BUTTON_UP
    } else if n == 1 {
        BUTTON_UP | BUTTON_RIGHT
    } else if n == 2 {
        BUTTON_RIGHT
    } else if n == 3 {
        BUTTON_RIGHT | BUTTON_DOWN
    } else if n == 4 {
        BUTTON_DOWN
    } else if n == 5 {
        BUTTON_DOWN | BUTTON_LEFT
    } else if n == 6 {
        BUTTON_LEFT
    } else if n == 7 {
        BUTTON_LEFT | BUTTON_UP
    } else {
        0
    };

    let mut bits: u32 = dpad;
    bits = bits | (if (buf[5] & (1u8 << 4)) > 0 { BUTTON_WEST } else { 0 });
    bits = bits | (if (buf[5] & (1u8 << 5)) > 0 { BUTTON_SOUTH } else { 0 });
    bits = bits | (if (buf[5] & (1u8 << 6)) > 0 { BUTTON_EAST } else { 0 });
    bits = bits | (if (buf[5] & (1u8 << 7)) > 0 { BUTTON_NORTH } else { 0 });
    bits = bits | (if (buf[6] & (1u8 << 0)) > 0 { BUTTON_L1 } else { 0 });
    bits = bits | (if (buf[6] & (1u8 << 1)) > 0 { BUTTON_R1 } else { 0 });
    bits = bits | (if (buf[6] & (1u8 << 2)) > 0 { BUTTON_L2 } else { 0 });
    bits = bits | (if (buf[6] & (1u8 << 3)) > 0 { BUTTON_R2 } else { 0 });
    bits = bits | (if (buf[6] & (1u8 << 4)) > 0 { BUTTON_MINUS } else { 0 });
    bits = bits | (if (buf[6] & (1u8 << 5)) > 0 { BUTTON_PLUS } else { 0 });
    bits = bits | (if (buf[6] & (1u8 << 6)) > 0 { BUTTON_L3 } else { 0 });
    bits = bits | (if (buf[6] & (1u8 << 7)) > 0 { BUTTON_R3 } else { 0 });
    bits = bits | (if (buf[7] & (1u8 << 0)) > 0 { BUTTON_HOME } else { 0 });
    bits = bits | (if (buf[7] & (1u8 << 1)) > 0 { BUTTON_CAPTURE } else { 0 });

    let counter = Some(buf[7] >> 2);
    let left_trigger = buf[8];
    let right_trigger = buf[9];

    let acceleration = Acceleration::new(
        le_i16_exec(buf[13], buf[14]),
        le_i16_exec(buf[15], buf[16]),
        le_i16_exec(buf[17], buf[18]),
    );

    let orientation = Orientation::new(
        le_i16_exec(buf[19], buf[20]),
        le_i16_exec(buf[21], buf[22]),
        le_i16_exec(buf[23], buf[24]),
    );

    let status = Status {
        buttons: Buttons { bits },
        left_stick,
        right_stick,
        left_trigger,
        right_trigger,
        acceleration,
        orientation,
    };

    Report { counter, status }
}

/// A 16-bit value read little-endian from two bytes, as a signed axis.
pub fn le_i16_exec(lo: u8, hi: u8) -> (r: i16)
    ensures
        r == le_i16(lo, hi),
{
    #[verifier::truncate]
    ((((hi as u16) << 8) | (lo as u16)) as i16)
}

/// The compact 13-byte input-report form of a generic report.
pub open spec fn input_report_bytes(report: Report) -> Seq<u8> {
    let b = report.status.buttons;
    let b3 = 0u8
        | (if b.has(BUTTON_WEST) { 0x01u8 } else { 0 })
        | (if b.has(BUTTON_NORTH) { 0x02u8 } else { 0 })
        | (if b.has(BUTTON_SOUTH) { 0x04u8 } else { 0 })
        | (if b.has(BUTTON_EAST) { 0x08u8 } else { 0 })
        | (if b.has(BUTTON_R1) { 0x40u8 } else { 0 })
        | (if b.has(BUTTON_R2) { 0x80u8 } else { 0 });
    let b4 = 0u8
        | (if b.has(BUTTON_MINUS) { 0x01u8 } else { 0 })
        | (if b.has(BUTTON_PLUS) { 0x02u8 } else { 0 })
        | (if b.has(BUTTON_R3) { 0x04u8 } else { 0 })
        | (if b.has(BUTTON_L3) { 0x08u8 } else { 0 })
        | (if b.has(BUTTON_HOME) { 0x10u8 } else { 0 })
        | (if b.has(BUTTON_CAPTURE) { 0x20u8 } else { 0 });
    seq![
        0x3Fu8,
        (if report.counter is Some { report.counter->0 } else { 0 }),
        0u8,
        b3,
        b4,
        0u8,
        report.status.left_stick.x,
        (report.status.left_stick.y << 4) as u8,
        (report.status.left_stick.y >> 4) as u8,
        report.status.right_stick.x,
        (report.status.right_stick.y << 4) as u8,
        (report.status.right_stick.y >> 4) as u8,
        0u8,
    ]
}

/// Serialize a generic report into the compact 13-byte input-report form.
#[verifier::rlimit(30)]
pub fn into_input_report_bytes(report: Report) -> (r: [u8; 13])
    ensures
        r@ == input_report_bytes(report),
{
    let mut buf: [u8; 13] = [0u8; 13];

    buf[0] = 0x3F;
    buf[1] = match report.counter {
        Some(c) => c,
        None => 0,
    };
    // High nibble battery, low nibble connection info; nothing reported yet.
    buf[2] = 0;

    let b = report.status.buttons;
    let mut b3: u8 = 0;
    b3 = b3 | (if b.contains(BUTTON_WEST) { 0x01u8 } else { 0 });
    b3 = b3 | (if b.contains(BUTTON_NORTH) { 0x02u8 } else { 0 });
    b3 = b3 | (if b.contains(BUTTON_SOUTH) { 0x04u8 } else { 0 });
    b3 = b3 | (if b.contains(BUTTON_EAST) { 0x08u8 } else { 0 });
    b3 = b3 | (if b.contains(BUTTON_R1) { 0x40u8 } else { 0 });
    b3 = b3 | (if b.contains(BUTTON_R2) { 0x80u8 } else { 0 });
    buf[3] = b3;

    let mut b4: u8 = 0;
    b4 = b4 | (if b.contains(BUTTON_MINUS) { 0x01u8 } else { 0 });
    b4 = b4 | (if b.contains(BUTTON_PLUS) { 0x02u8 } else { 0 });
    b4 = b4 | (if b.contains(BUTTON_R3) { 0x04u8 } else { 0 });
    b4 = b4 | (if b.contains(BUTTON_L3) { 0x08u8 } else { 0 });
    b4 = b4 | (if b.contains(BUTTON_HOME) { 0x10u8 } else { 0 });
    b4 = b4 | (if b.contains(BUTTON_CAPTURE) { 0x20u8 } else { 0 });
    buf[4] = b4;

    buf[6] = report.status.left_stick.x;
    buf[7] = report.status.left_stick.y << 4;
    buf[8] = report.status.left_stick.y >> 4;

    buf[9] = report.status.right_stick.x;
    buf[10] = report.status.right_stick.y << 4;
    buf[11] = report.status.right_stick.y >> 4;

    proof {
        assert(buf@ =~= input_report_bytes(report));
    }
    buf
}

} // verus!
