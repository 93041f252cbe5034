//! The mutable heart of the emulation: the controller-state record, the
//! wrapping packet counter, and the phase the host has driven the device to.
//!
//! On the board these live behind critical-section-guarded cells; here they
//! are one value that the interrupt glue threads through every call.

use vstd::prelude::*;

use crate::report::Report;
use crate::report::neutral_report;

verus! {

/// How far the host has taken the device, as the host sees it.
#[derive(Clone, Copy, Debug, PartialEq, Eq, Structural)]
pub enum Phase {
    /// Powered, but no USB configuration picked yet.
    Unenumerated,
    /// Enumerated; waiting for the handshake probe.
    Enumerated,
    /// Probe answered; handshake in progress.
    Handshaking,
    /// Start-stream received; input reports flow.
    Streaming,
}

/// The counter after one status-bearing emission: three further, wrapping.
pub open spec fn wrap3(c: u8) -> u8 {
    ((c + 3) % 256) as u8
}

/// The counter after `k` status-bearing emissions from `c0`.
pub open spec fn counter_after(c0: u8, k: nat) -> u8
    decreases k,
{
    if k == 0 {
        c0
    } else {
        wrap3(counter_after(c0, (k - 1) as nat))
    }
}

/// The counter of the `k`-th status-bearing reply out of `c0` is the initial
/// value advanced by three per emission, modulo 256.
pub proof fn lemma_counter_progression(c0: u8, k: nat)
    ensures
        counter_after(c0, k) == (c0 + 3 * k) % 256,
    decreases k,
{
    if k == 0 {
        assert((c0 as int) % 256 == c0);
    } else {
        lemma_counter_progression(c0, (k - 1) as nat);
        let a = c0 + 3 * (k - 1);
        vstd::arithmetic::div_mod::lemma_add_mod_noop(a, 3, 256);
        assert(3int % 256 == 3);
        assert((a % 256 + 3) % 256 == (a + 3) % 256);
        assert(a + 3 == c0 + 3 * k);
    }
}

/// Everything the interrupts share: record, counter, phase.
pub struct DeviceState {
    /// The controller-state record the status blocks are cut from.
    pub report: Report,
    /// The wrapping counter carried by status-bearing replies.
    pub counter: u8,
    /// Where the handshake stands.
    pub phase: Phase,
}

impl DeviceState {
    /// Boot state: neutral pose, counter at zero, nothing enumerated.
    pub fn new() -> (r: Self)
        ensures
            r.report == neutral_report(),
            r.counter == 0,
            r.phase == Phase::Unenumerated,
    {
        DeviceState { report: Report::new(), counter: 0, phase: Phase::Unenumerated }
    }

    /// Hand out the counter for one status-bearing reply and advance it.
    pub fn count(&mut self) -> (r: u8)
        ensures
            r == old(self).counter,
            final(self).counter == wrap3(old(self).counter),
            final(self).report == old(self).report,
            final(self).phase == old(self).phase,
    {
        let value = self.counter;
        self.counter = self.counter.wrapping_add(3);
        value
    }

    /// Advance the counter as if a status-bearing reply had gone out,
    /// without handing it to one.
    pub fn increment_count(&mut self)
        ensures
            final(self).counter == wrap3(old(self).counter),
            final(self).report == old(self).report,
            final(self).phase == old(self).phase,
    {
        self.counter = self.counter.wrapping_add(3);
    }

    /// The button-edge interrupt's effect: L and R flip together.
    pub fn report_toggle(&mut self)
        ensures
            final(self).report.buttons@ == old(self).report.buttons@
                .update(0, old(self).report.buttons[0] ^ 0x80)
                .update(2, old(self).report.buttons[2] ^ 0x80),
            final(self).report.info == old(self).report.info,
            final(self).report.lx == old(self).report.lx,
            final(self).report.ly == old(self).report.ly,
            final(self).report.rx == old(self).report.rx,
            final(self).report.ry == old(self).report.ry,
            final(self).report.vibrator == old(self).report.vibrator,
            final(self).counter == old(self).counter,
            final(self).phase == old(self).phase,
    {
        self.report.toggle_lr();
    }

    /// A USB configuration was picked: the device counts as enumerated.
    pub fn configured(&mut self)
        ensures
            final(self).phase == (if old(self).phase is Unenumerated {
                Phase::Enumerated
            } else {
                old(self).phase
            }),
            final(self).report == old(self).report,
            final(self).counter == old(self).counter,
    {
        if matches!(self.phase, Phase::Unenumerated) {
            self.phase = Phase::Enumerated;
        }
    }

    /// A USB bus reset: back to the start, keeping counter and record, so a
    /// host retry finds the same device.
    pub fn reset(&mut self)
        ensures
            final(self).phase == Phase::Unenumerated,
            final(self).report == old(self).report,
            final(self).counter == old(self).counter,
    {
        self.phase = Phase::Unenumerated;
    }
}

} // verus!
