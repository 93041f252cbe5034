//! The two reply shapes and the request dispatcher.
//!
//! A short command-reply answers the `0x80` handshake family; a
//! status-bearing reply carries the wrapping counter and a fresh status block
//! and answers the `0x01` subcommand channel, the start-stream command and
//! the idle tick. Every reply is one 64-byte packet; `len` tracks the
//! meaningful prefix and the rest is zero.

use vstd::prelude::*;

use crate::buffer::FixedVec;
use crate::device::DeviceState;
use crate::device::Phase;
use crate::device::wrap3;
use crate::report::status_block;
use crate::spi;

verus! {

/// Ask for nothing but the controller state.
pub const SUBCOMMAND_CONTROLLER_STATE_ONLY: u8 = 0x00;
/// Bluetooth manual pairing.
pub const SUBCOMMAND_BLUETOOTH_MANUAL_PAIRING: u8 = 0x01;
/// Ask who the controller is.
pub const SUBCOMMAND_REQUEST_DEVICE_INFO: u8 = 0x02;
/// Pick the input-report mode.
pub const SUBCOMMAND_SET_INPUT_REPORT_MODE: u8 = 0x03;
/// Ask how long the trigger buttons were held.
pub const SUBCOMMAND_TRIGGER_BUTTONS_ELAPSED_TIME: u8 = 0x04;
/// Ask for the page-list state.
pub const SUBCOMMAND_GET_PAGE_LIST_STATE: u8 = 0x05;
/// Set the HCI state.
pub const SUBCOMMAND_SET_HCI_STATE: u8 = 0x06;
/// Forget pairing information.
pub const SUBCOMMAND_RESET_PAIRING_INFO: u8 = 0x07;
/// Enter or leave shipment low-power state.
pub const SUBCOMMAND_SET_SHIPMENT_LOW_POWER_STATE: u8 = 0x08;
/// Read from the SPI flash.
pub const SUBCOMMAND_SPI_FLASH_READ: u8 = 0x10;
/// Write to the SPI flash.
pub const SUBCOMMAND_SPI_FLASH_WRITE: u8 = 0x11;
/// Erase an SPI flash sector.
pub const SUBCOMMAND_SPI_SECTOR_ERASE: u8 = 0x12;
/// Reset the NFC/IR MCU.
pub const SUBCOMMAND_RESET_NFC_IR_MCU: u8 = 0x20;
/// Configure the NFC/IR MCU.
pub const SUBCOMMAND_SET_NFC_IR_MCU_CONFIG: u8 = 0x21;
/// Set the NFC/IR MCU state.
pub const SUBCOMMAND_SET_NFC_IR_MCU_STATE: u8 = 0x22;
/// Set the player lights.
pub const SUBCOMMAND_SET_PLAYER_LIGHTS: u8 = 0x30;
/// Ask for the player lights.
pub const SUBCOMMAND_GET_PLAYER_LIGHTS: u8 = 0x31;
/// Set the home-button light.
pub const SUBCOMMAND_SET_HOME_LIGHTS: u8 = 0x38;
/// Switch the motion sensor on or off.
pub const SUBCOMMAND_ENABLE_IMU: u8 = 0x40;
/// Set the motion-sensor sensitivity.
pub const SUBCOMMAND_SET_IMU_SENSITIVITY: u8 = 0x41;
/// Write motion-sensor registers.
pub const SUBCOMMAND_WRITE_IMU_REGISTERS: u8 = 0x42;
/// Read motion-sensor registers.
pub const SUBCOMMAND_READ_IMU_REGISTERS: u8 = 0x43;
/// Switch the vibrator on or off.
pub const SUBCOMMAND_ENABLE_VIBRATION: u8 = 0x48;
/// Ask for the regulated voltage.
pub const SUBCOMMAND_GET_REGULATED_VOLTAGE: u8 = 0x50;

/// `n` zero bytes.
pub open spec fn zeros(n: nat) -> Seq<u8> {
    Seq::new(n, |i: int| 0u8)
}

/// `prefix` padded with zero bytes to the 64-byte wire width.
pub open spec fn pad64(prefix: Seq<u8>) -> Seq<u8>
    recommends
        prefix.len() <= 64,
{
    prefix + zeros((64 - prefix.len()) as nat)
}

/// The wire form of a short command-reply: code, command, data, zeros.
pub open spec fn short_reply(code: u8, command: u8, data: Seq<u8>) -> Seq<u8> {
    pad64(seq![code, command] + data)
}

/// The wire form of a status-bearing reply: the `0x21` report ID, the
/// counter, the 11-byte status block, code, subcommand, data, zeros.
pub open spec fn status_reply(counter: u8, status: Seq<u8>, code: u8, subcommand: u8, data: Seq<u8>) -> Seq<u8>
    recommends
        status.len() == 11,
{
    pad64(seq![0x21u8, counter] + status + seq![code, subcommand] + data)
}

/// The probe answer's data: an unknown byte, the Pro Controller kind, and
/// the advertised six-byte address.
pub open spec fn probe_reply_data() -> Seq<u8> {
    seq![0x00u8, 0x03, 0x57, 0x30, 0xEA, 0x8A, 0xBB, 0x7C]
}

/// The device-info data: firmware version, the Pro Controller kind, and a
/// six-byte address that differs in one byte from the probe's.
pub open spec fn device_info_data() -> Seq<u8> {
    seq![0x03u8, 0x48, 0x03, 0x02, 0x57, 0x30, 0xEF, 0x8A, 0xBB, 0x7C, 0x03, 0x02]
}

/// A packet of the `0x80` handshake family.
pub open spec fn is_command_packet(req: Seq<u8>) -> bool {
    req.len() >= 2 && req[0] == 0x80
}

/// A packet of the `0x01` subcommand channel, long enough to carry its
/// subcommand and the SPI read arguments.
pub open spec fn is_subcommand_packet(req: Seq<u8>) -> bool {
    req.len() > 16 && req[0] == 0x01
}

/// The little-endian flash address carried by an SPI read request.
pub open spec fn spi_address_of(req: Seq<u8>) -> u16
    recommends
        is_subcommand_packet(req),
{
    (req[11] as u16) | ((req[12] as u16) << 8)
}

/// The size carried by an SPI read request.
pub open spec fn spi_size_of(req: Seq<u8>) -> nat
    recommends
        is_subcommand_packet(req),
{
    req[15] as nat
}

/// An SPI read request must fit its header and payload into the reply's
/// spare room; a larger size overflows the fixed reply packet, which the
/// appliance treats as a fatal programmer error.
pub open spec fn spi_read_fits(req: Seq<u8>) -> bool {
    is_subcommand_packet(req) && req[10] == SUBCOMMAND_SPI_FLASH_READ ==> spi_size_of(req) <= 44
}

/// Whether the dispatcher answers the packet at all.
pub open spec fn replies(req: Seq<u8>) -> bool {
    if is_command_packet(req) {
        req[1] == 0x01 || req[1] == 0x02 || req[1] == 0x03 || req[1] == 0x04
    } else {
        is_subcommand_packet(req)
    }
}

/// Whether the answer is status-bearing, which advances the counter.
pub open spec fn uses_status(req: Seq<u8>) -> bool {
    (is_command_packet(req) && req[1] == 0x04) || is_subcommand_packet(req)
}

/// The subcommands with a tailored reply; every other subcommand draws the
/// permissive acknowledgement.
pub open spec fn tailored_subcommand(sub: u8) -> bool {
    ||| sub == SUBCOMMAND_BLUETOOTH_MANUAL_PAIRING
    ||| sub == SUBCOMMAND_REQUEST_DEVICE_INFO
    ||| sub == SUBCOMMAND_SPI_FLASH_READ
    ||| sub == SUBCOMMAND_TRIGGER_BUTTONS_ELAPSED_TIME
}

/// The acknowledgement code a subcommand draws.
pub open spec fn subcommand_reply_code(sub: u8) -> u8 {
    if sub == SUBCOMMAND_BLUETOOTH_MANUAL_PAIRING {
        0x81
    } else if sub == SUBCOMMAND_REQUEST_DEVICE_INFO {
        0x82
    } else if sub == SUBCOMMAND_SPI_FLASH_READ {
        0x90
    } else if sub == SUBCOMMAND_TRIGGER_BUTTONS_ELAPSED_TIME {
        0x83
    } else {
        0x80
    }
}

/// The data a subcommand's acknowledgement carries.
pub open spec fn subcommand_reply_data(req: Seq<u8>) -> Seq<u8>
    recommends
        is_subcommand_packet(req),
{
    let sub = req[10];
    if sub == SUBCOMMAND_BLUETOOTH_MANUAL_PAIRING {
        seq![0x03u8]
    } else if sub == SUBCOMMAND_REQUEST_DEVICE_INFO {
        device_info_data()
    } else if sub == SUBCOMMAND_SPI_FLASH_READ {
        spi::reply(spi_address_of(req), spi_size_of(req))
    } else {
        Seq::<u8>::empty()
    }
}

/// The full 64-byte reply to `req`, given the counter and status block the
/// status-bearing shapes embed.
pub open spec fn reply_bytes(req: Seq<u8>, counter: u8, status: Seq<u8>) -> Seq<u8>
    recommends
        replies(req),
        status.len() == 11,
{
    if is_command_packet(req) {
        if req[1] == 0x01 {
            short_reply(0x81, 0x01, probe_reply_data())
        } else if req[1] == 0x02 || req[1] == 0x03 {
            short_reply(0x81, req[1], Seq::<u8>::empty())
        } else {
            status_reply(counter, status, 0x30, counter, Seq::<u8>::empty())
        }
    } else {
        status_reply(
            counter,
            status,
            subcommand_reply_code(req[10]),
            req[10],
            subcommand_reply_data(req),
        )
    }
}

/// The meaningful prefix length of the reply to `req`.
pub open spec fn reply_len(req: Seq<u8>) -> nat
    recommends
        replies(req),
{
    if is_command_packet(req) {
        if req[1] == 0x01 {
            10
        } else if req[1] == 0x02 || req[1] == 0x03 {
            2
        } else {
            15
        }
    } else {
        15 + subcommand_reply_data(req).len()
    }
}

/// Where a packet takes the handshake: the probe opens it, the start-stream
/// command completes it, nothing else moves it.
pub open spec fn next_phase(phase: Phase, req: Seq<u8>) -> Phase {
    if is_command_packet(req) && req[1] == 0x01 {
        if phase is Enumerated || phase is Handshaking {
            Phase::Handshaking
        } else {
            phase
        }
    } else if is_command_packet(req) && req[1] == 0x04 {
        if phase is Handshaking || phase is Streaming {
            Phase::Streaming
        } else {
            phase
        }
    } else {
        phase
    }
}

/// A reply packet: 64 bytes on the wire, of which the first `len` mean
/// something and the rest are zero.
pub struct Response {
    /// The wire bytes.
    pub buf: [u8; 64],
    /// The meaningful prefix length.
    pub len: usize,
}

impl Response {
    /// The prefix length never passes the wire width.
    pub open spec fn wf(&self) -> bool {
        self.len <= 64
    }
}

/// Builder of the short command-reply shape.
pub struct Reply {
    /// The reply code, at byte 0.
    pub code: u8,
    /// The command answered, at byte 1.
    pub command: u8,
    /// The data that follows, possibly empty.
    pub data: Vec<u8>,
}

impl Reply {
    /// A short reply with no data yet.
    pub fn new(code: u8, command: u8) -> (r: Self)
        ensures
            r.code == code,
            r.command == command,
            r.data@ == Seq::<u8>::empty(),
    {
        Reply { code, command, data: Vec::new() }
    }

    /// The same reply carrying `data`.
    pub fn data(self, data: Vec<u8>) -> (r: Self)
        ensures
            r.code == self.code,
            r.command == self.command,
            r.data@ == data@,
    {
        Reply { code: self.code, command: self.command, data }
    }

    /// Lay the reply out on the wire.
    pub fn build(self) -> (r: Response)
        requires
            self.data@.len() <= 62,
        ensures
            r.wf(),
            r.buf@ == short_reply(self.code, self.command, self.data@),
            r.len == 2 + self.data@.len(),
    {
        let mut buf = [0u8; 64];
        buf[0] = self.code;
        buf[1] = self.command;
        let n = self.data.len();
        let mut i: usize = 0;
        while i < n
            invariant
                n == self.data@.len(),
                n <= 62,
                i <= n,
                buf@.len() == 64,
                buf@[0] == self.code,
                buf@[1] == self.command,
                forall|j: int| 0 <= j < i ==> buf@[2 + j] == self.data@[j],
                forall|j: int| 2 + i <= j < 64 ==> buf@[j] == 0,
            decreases n - i,
        {
            buf[2 + i] = self.data[i];
            i = i + 1;
        }
        proof {
            let s = short_reply(self.code, self.command, self.data@);
            assert forall|j: int| 0 <= j < 64 implies buf@[j] == s[j] by {
                if j >= 2 + n {
                    assert(s[j] == 0);
                }
            }
            assert(buf@ =~= s);
        }
        Response { buf, len: 2 + n }
    }
}

/// Builder of the status-bearing reply shape.
pub struct UartReply {
    /// The acknowledgement code.
    pub code: u8,
    /// The subcommand answered.
    pub subcommand: u8,
    /// The data that follows, possibly empty.
    pub data: Vec<u8>,
}

impl UartReply {
    /// A status-bearing reply with no data yet.
    pub fn new(code: u8, subcommand: u8) -> (r: Self)
        ensures
            r.code == code,
            r.subcommand == subcommand,
            r.data@ == Seq::<u8>::empty(),
    {
        UartReply { code, subcommand, data: Vec::new() }
    }

    /// The same reply carrying `data`.
    pub fn data(self, data: Vec<u8>) -> (r: Self)
        ensures
            r.code == self.code,
            r.subcommand == self.subcommand,
            r.data@ == data@,
    {
        UartReply { code: self.code, subcommand: self.subcommand, data }
    }

    /// Lay the reply out on the wire around the given counter and status
    /// block.
    pub fn build(self, counter: u8, status: &[u8; 11]) -> (r: Response)
        requires
            self.data@.len() <= 49,
        ensures
            r.wf(),
            r.buf@ == status_reply(counter, status@, self.code, self.subcommand, self.data@),
            r.len == 15 + self.data@.len(),
    {
        let mut buf = [0u8; 64];
        buf[0] = 0x21;
        buf[1] = counter;
        let mut i: usize = 0;
        while i < 11
            invariant
                i <= 11,
                buf@.len() == 64,
                buf@[0] == 0x21,
                buf@[1] == counter,
                forall|j: int| 0 <= j < i ==> buf@[2 + j] == status@[j],
                forall|j: int| 2 + i <= j < 64 ==> buf@[j] == 0,
            decreases 11 - i,
        {
            buf[2 + i] = status[i];
            i = i + 1;
        }
        buf[13] = self.code;
        buf[14] = self.subcommand;
        let n = self.data.len();
        let mut i: usize = 0;
        while i < n
            invariant
                n == self.data@.len(),
                n <= 49,
                i <= n,
                buf@.len() == 64,
                buf@[0] == 0x21,
                buf@[1] == counter,
                forall|j: int| 0 <= j < 11 ==> buf@[2 + j] == status@[j],
                buf@[13] == self.code,
                buf@[14] == self.subcommand,
                forall|j: int| 0 <= j < i ==> buf@[15 + j] == self.data@[j],
                forall|j: int| 15 + i <= j < 64 ==> buf@[j] == 0,
            decreases n - i,
        {
            buf[15 + i] = self.data[i];
            i = i + 1;
        }
        proof {
            let s = status_reply(counter, status@, self.code, self.subcommand, self.data@);
            assert forall|j: int| 0 <= j < 64 implies buf@[j] == s[j] by {
                if j >= 15 + n {
                    assert(s[j] == 0);
                }
            }
            assert(buf@ =~= s);
        }
        Response { buf, len: 15 + n }
    }
}

impl Response {
    /// Answer one packet from the host, advancing the counter and the
    /// handshake phase as the packet demands; packets outside the protocol
    /// draw no answer and change nothing.
    pub fn new(req: &[u8], dev: &mut DeviceState) -> (r: Option<Response>)
        requires
            spi_read_fits(req@),
        ensures
            match r {
                Some(resp) => replies(req@) && resp.wf()
                    && resp.buf@ == reply_bytes(req@, old(dev).counter, status_block(old(dev).report))
                    && resp.len == reply_len(req@),
                None => !replies(req@),
            },
            final(dev).report == old(dev).report,
            final(dev).counter == (if uses_status(req@) {
                wrap3(old(dev).counter)
            } else {
                old(dev).counter
            }),
            final(dev).phase == next_phase(old(dev).phase, req@),
    {
        if req.len() >= 2 && req[0] == 0x80 {
            if req[1] == 0x01 {
                if matches!(dev.phase, Phase::Enumerated | Phase::Handshaking) {
                    dev.phase = Phase::Handshaking;
                }
                let data = vec![0x00u8, 0x03, 0x57, 0x30, 0xEA, 0x8A, 0xBB, 0x7C];
                proof {
                    assert(data@ =~= probe_reply_data());
                }
                Some(Reply::new(0x81, 0x01).data(data).build())
            } else if req[1] == 0x02 || req[1] == 0x03 {
                Some(Reply::new(0x81, req[1]).build())
            } else if req[1] == 0x04 {
                if matches!(dev.phase, Phase::Handshaking | Phase::Streaming) {
                    dev.phase = Phase::Streaming;
                }
                let c = dev.count();
                let status = dev.report.to_array();
                Some(UartReply::new(0x30, c).build(c, &status))
            } else {
                None
            }
        } else if req.len() > 16 && req[0] == 0x01 {
            let sub = req[10];
            let c = dev.count();
            let status = dev.report.to_array();
            let resp = if sub == SUBCOMMAND_BLUETOOTH_MANUAL_PAIRING {
                let data = vec![0x03u8];
                proof {
                    assert(data@ =~= seq![0x03u8]);
                }
                UartReply::new(0x81, sub).data(data).build(c, &status)
            } else if sub == SUBCOMMAND_REQUEST_DEVICE_INFO {
                let data = vec![
                    0x03u8, 0x48, 0x03, 0x02, 0x57, 0x30, 0xEF, 0x8A, 0xBB, 0x7C, 0x03, 0x02,
                ];
                proof {
                    assert(data@ =~= device_info_data());
                }
                UartReply::new(0x82, sub).data(data).build(c, &status)
            } else if sub == SUBCOMMAND_SPI_FLASH_READ {
                let address = (req[11] as u16) | ((req[12] as u16) << 8);
                let size = req[15] as usize;
                let mut storage: Vec<u8> = Vec::new();
                let mut k: usize = 0;
                while k < 64
                    invariant
                        k <= 64,
                        storage@.len() == k,
                    decreases 64 - k,
                {
                    storage.push(0);
                    k = k + 1;
                }
                let mut scratch = FixedVec::new(storage);
                spi::read(address, &mut scratch, size);
                proof {
                    assert(scratch@ =~= spi::reply(address, size as nat));
                    assert(address == spi_address_of(req@));
                    assert(size as nat == spi_size_of(req@));
                }
                UartReply::new(0x90, sub).data(scratch.to_vec()).build(c, &status)
            } else if sub == SUBCOMMAND_TRIGGER_BUTTONS_ELAPSED_TIME {
                UartReply::new(0x83, sub).build(c, &status)
            } else {
                // The set-type subcommands of the protocol — input-report
                // mode, shipment state, lights, motion sensor, vibration —
                // and every unknown subcommand draw the same permissive
                // acknowledgement.
                UartReply::new(0x80, sub).build(c, &status)
            };
            Some(resp)
        } else {
            None
        }
    }

    /// The idle tick: with no host packet pending, keep the input stream
    /// alive with a status-bearing report carrying the current state.
    pub fn idle(dev: &mut DeviceState) -> (r: Response)
        ensures
            r.wf(),
            r.buf@ == status_reply(
                old(dev).counter,
                status_block(old(dev).report),
                0x30,
                old(dev).counter,
                Seq::<u8>::empty(),
            ),
            r.len == 15,
            final(dev).report == old(dev).report,
            final(dev).counter == wrap3(old(dev).counter),
            final(dev).phase == old(dev).phase,
    {
        let c = dev.count();
        let status = dev.report.to_array();
        UartReply::new(0x30, c).build(c, &status)
    }
}

/// Driving the handshake — probe, the two acknowledgements, start-stream —
/// draws an answer to all four packets, with the codes and commands the
/// console watches for, and completes with the emulation streaming.
pub proof fn lemma_handshake_liveness(
    req1: Seq<u8>,
    req2: Seq<u8>,
    req3: Seq<u8>,
    req4: Seq<u8>,
    c1: u8,
    c2: u8,
    c3: u8,
    c4: u8,
    s1: Seq<u8>,
    s2: Seq<u8>,
    s3: Seq<u8>,
    s4: Seq<u8>,
    p0: Phase,
)
    requires
        req1.len() >= 2 && req1[0] == 0x80 && req1[1] == 0x01,
        req2.len() >= 2 && req2[0] == 0x80 && req2[1] == 0x02,
        req3.len() >= 2 && req3[0] == 0x80 && req3[1] == 0x03,
        req4.len() >= 2 && req4[0] == 0x80 && req4[1] == 0x04,
        s4.len() == 11,
        p0 is Enumerated,
    ensures
        replies(req1) && replies(req2) && replies(req3) && replies(req4),
        reply_bytes(req1, c1, s1)[0] == 0x81 && reply_bytes(req1, c1, s1)[1] == 0x01,
        reply_bytes(req2, c2, s2)[0] == 0x81 && reply_bytes(req2, c2, s2)[1] == 0x02,
        reply_bytes(req3, c3, s3)[0] == 0x81 && reply_bytes(req3, c3, s3)[1] == 0x03,
        reply_bytes(req4, c4, s4)[0] == 0x21 && reply_bytes(req4, c4, s4)[14] == c4,
        next_phase(next_phase(next_phase(next_phase(p0, req1), req2), req3), req4)
            is Streaming,
{
}

/// A subcommand outside the tailored set draws the permissive
/// acknowledgement: code `0x80`, the subcommand echoed, no data, 15
/// meaningful bytes.
pub proof fn lemma_permissive_ack(req: Seq<u8>, counter: u8, status: Seq<u8>)
    requires
        is_subcommand_packet(req),
        !tailored_subcommand(req[10]),
    ensures
        replies(req),
        uses_status(req),
        reply_bytes(req, counter, status) == status_reply(
            counter,
            status,
            0x80,
            req[10],
            Seq::<u8>::empty(),
        ),
        reply_len(req) == 15,
{
}

/// Replaying an untailored request: the `k`-th acknowledgement is the same
/// permissive one, carrying the counter the `k - 1` earlier status-bearing
/// replies left behind, and `k` replays advance the counter by `3 k` in all,
/// modulo 256.
pub proof fn lemma_permissive_ack_replay(req: Seq<u8>, c0: u8, status: Seq<u8>, k: nat)
    requires
        is_subcommand_packet(req),
        !tailored_subcommand(req[10]),
        k >= 1,
    ensures
        reply_bytes(req, crate::device::counter_after(c0, (k - 1) as nat), status)
            == status_reply(
            ((c0 + 3 * (k - 1)) % 256) as u8,
            status,
            0x80,
            req[10],
            Seq::<u8>::empty(),
        ),
        crate::device::counter_after(c0, k) == (c0 + 3 * k) % 256,
{
    crate::device::lemma_counter_progression(c0, (k - 1) as nat);
    crate::device::lemma_counter_progression(c0, k);
}

/// Every reply the dispatcher can produce is exactly 64 bytes on the wire;
/// the meaningful prefix fits, and everything after it is zero.
pub proof fn lemma_reply_exactly_64(req: Seq<u8>, counter: u8, status: Seq<u8>)
    requires
        replies(req),
        spi_read_fits(req),
        status.len() == 11,
    ensures
        reply_bytes(req, counter, status).len() == 64,
        reply_len(req) <= 64,
        forall|j: int| reply_len(req) <= j < 64 ==> reply_bytes(req, counter, status)[j] == 0,
{
    let r = reply_bytes(req, counter, status);
    let n = reply_len(req);
    assert(r.len() == 64);
    assert forall|j: int| n <= j < 64 implies r[j] == 0 by {
        if is_command_packet(req) {
        } else {
            assert(subcommand_reply_data(req).len() + 15 == n);
        }
    }
}

} // verus!
