//! Frequency measurement: the model of a capture-based frequency meter.
//!
//! The hardware meter captures the length of one input period in timer
//! cycles; this module converts such a capture into nanoseconds with exact
//! rational arithmetic (round half away from zero), and tracks whether the
//! meter's capture interrupt is enabled. Reading the capture register and
//! the error flag is the dispatcher's job; the raw capture arrives here as a
//! plain value.

use vstd::prelude::*;

verus! {

/// A measurement error: the hardware reported no valid edge capture, so the
/// reading is meaningless and must be discarded.
#[derive(Clone, Copy, Debug, PartialEq, Eq, Structural)]
pub enum Error {
    Overflow,
}

/// Nanoseconds per timer cycle is the exact rational `num / den`; a capture
/// of `c` cycles is `round(c * num / den)` nanoseconds, rounding half away
/// from zero.
pub open spec fn period_ns_spec(num: int, den: int, cycles: int) -> int
    recommends
        den >= 1,
{
    (2 * num * cycles + den) / (2 * den)
}

/// Model of the capture-based frequency meter: the exact cycle-to-nanosecond
/// ratio fixed by the timer's clock, and whether the capture interrupt is
/// currently enabled.
pub struct FrequencyMeter {
    /// Numerator of the nanoseconds-per-cycle ratio.
    pub ns_per_cycle_num: u32,
    /// Denominator of the nanoseconds-per-cycle ratio.
    pub ns_per_cycle_den: u32,
    /// Whether the capture interrupt is enabled.
    pub interrupt_enabled: bool,
}

impl FrequencyMeter {
    /// The ratio is a genuine fraction and every possible capture (at most
    /// 65535 cycles) converts to a nanosecond count that fits in `u32`.
    pub open spec fn wf(&self) -> bool {
        &&& self.ns_per_cycle_den >= 1
        &&& self.ns_per_cycle_num * 65535 <= u32::MAX * self.ns_per_cycle_den
    }

    /// A meter whose cycle length is `ns_per_cycle_num / ns_per_cycle_den`
    /// nanoseconds, with the capture interrupt disabled.
    pub fn new(ns_per_cycle_num: u32, ns_per_cycle_den: u32) -> (r: Self)
        requires
            ns_per_cycle_den >= 1,
            ns_per_cycle_num * 65535 <= u32::MAX * ns_per_cycle_den,
        ensures
            r == (FrequencyMeter {
                ns_per_cycle_num,
                ns_per_cycle_den,
                interrupt_enabled: false,
            }),
    {
        FrequencyMeter { ns_per_cycle_num, ns_per_cycle_den, interrupt_enabled: false }
    }

    /// Converts a raw capture in timer cycles to nanoseconds, rounded half
    /// away from zero.
    pub fn period_ns(&self, cycles: u16) -> (r: u32)
        requires
            self.wf(),
        ensures
            r == period_ns_spec(
                self.ns_per_cycle_num as int,
                self.ns_per_cycle_den as int,
                cycles as int,
            ),
    {
        let num = self.ns_per_cycle_num as u64;
        let den = self.ns_per_cycle_den as u64;
        let c = cycles as u64;
        proof {
            assert(2 * (num as int) * (c as int) <= 2 * 0xffff_ffff * 0xffff) by (nonlinear_arith)
                requires
                    0 <= num <= 0xffff_ffff,
                    0 <= c <= 0xffff,
            ;
            lemma_period_ns_fits(num as int, den as int, c as int);
        }
        ((2 * num * c + den) / (2 * den)) as u32
    }

    /// Enables the capture interrupt.
    pub fn enable_interrupts(&mut self)
        ensures
            *final(self) == (FrequencyMeter { interrupt_enabled: true, ..*old(self) }),
    {
        self.interrupt_enabled = true;
    }

    /// Disables the capture interrupt.
    pub fn disable_interrupts(&mut self)
        ensures
            *final(self) == (FrequencyMeter { interrupt_enabled: false, ..*old(self) }),
    {
        self.interrupt_enabled = false;
    }
}

/// When every capture fits (the meter is well formed), the rounded
/// conversion fits in `u32` as well.
proof fn lemma_period_ns_fits(num: int, den: int, c: int)
    requires
        den >= 1,
        num * 65535 <= u32::MAX * den,
        0 <= c <= 65535,
        0 <= num,
    ensures
        0 <= period_ns_spec(num, den, c) <= u32::MAX,
{
    assert(num * c <= u32::MAX * den) by (nonlinear_arith)
        requires
            den >= 1,
            num * 65535 <= u32::MAX * den,
            0 <= c <= 65535,
            0 <= num,
    ;
    assert(2 * num * c + den <= (2 * u32::MAX + 1) * den) by (nonlinear_arith)
        requires
            num * c <= u32::MAX * den,
            den >= 1,
    ;
    assert(((2 * u32::MAX + 1) * den) / (2 * den) == u32::MAX) by {
        assert((2 * u32::MAX + 1) * den == (2 * den) * (u32::MAX as int) + den)
            by (nonlinear_arith);
        vstd::arithmetic::div_mod::lemma_fundamental_div_mod_converse(
            (2 * u32::MAX + 1) * den,
            2 * den,
            u32::MAX as int,
            den,
        );
    }
    vstd::arithmetic::div_mod::lemma_div_is_ordered(
        2 * num * c + den,
        (2 * u32::MAX + 1) * den,
        2 * den,
    );
    vstd::arithmetic::div_mod::lemma_div_pos_is_pos(2 * num * c + den, 2 * den);
}

} // verus!
