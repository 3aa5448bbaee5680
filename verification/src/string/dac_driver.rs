//! The waveform buffer pipeline for one string.
//!
//! A [`DacDriver`] owns a pair of fixed-size sample buffers and hands them
//! back and forth with an autonomous hardware transfer engine: at any
//! instant exactly one buffer is hardware-owned (being played) and the other
//! is software-owned (submitted and waiting, or out for refill). `request`
//! reclaims a finished buffer for refill; `submit` hands a refilled buffer
//! back, advancing the phase offset so the waveform stays continuous across
//! buffer boundaries. If no refill arrives in time the hardware pauses
//! gracefully (an underrun) and resumes on the next `submit`.
//!
//! The transfer engine itself is hardware: reading and clearing its
//! transfer-complete flag, and resuming a paused transfer, are the
//! dispatcher's job. The flag arrives here as a plain value, and the two
//! transfer descriptors' valid marks are tracked as part of the pipeline's
//! state.

use vstd::arithmetic::div_mod::lemma_add_mod_noop;
use vstd::arithmetic::div_mod::lemma_mod_twice;
use vstd::arithmetic::div_mod::lemma_small_mod;
use vstd::prelude::*;

use crate::string::DriveTarget;
use crate::string::Driver;

verus! {

/// Samples per buffer.
pub const BUFFER_SIZE: usize = 512;

/// One buffer's worth of samples.
pub type SampleBuffer = Vec<u8>;

/// The per-string sample storage: the two buffers of the double-buffering
/// pair, allocated once and owned by one string's pipeline for the process
/// lifetime.
pub struct DmaResources {
    /// The buffer the pipeline starts playing.
    pub buffer_1: SampleBuffer,
    /// The buffer the pipeline starts with as the submitted spare.
    pub buffer_2: SampleBuffer,
}

/// A zeroed sample buffer of [`BUFFER_SIZE`] samples.
fn zeroed_buffer() -> (r: SampleBuffer)
    ensures
        r@.len() == BUFFER_SIZE,
        forall|i: int| 0 <= i < r@.len() ==> r@[i] == 0u8,
{
    let mut buffer: Vec<u8> = Vec::new();
    let mut i: usize = 0;
    while i < BUFFER_SIZE
        invariant
            i <= BUFFER_SIZE,
            buffer@.len() == i,
            forall|k: int| 0 <= k < buffer@.len() ==> buffer@[k] == 0u8,
        decreases BUFFER_SIZE - i,
    {
        buffer.push(0u8);
        i += 1;
    }
    buffer
}

impl DmaResources {
    /// Fresh storage: two zeroed buffers.
    pub fn new() -> (r: Self)
        ensures
            r.buffer_1@.len() == BUFFER_SIZE,
            r.buffer_2@.len() == BUFFER_SIZE,
            forall|i: int| 0 <= i < r.buffer_1@.len() ==> r.buffer_1@[i] == 0u8,
            forall|i: int| 0 <= i < r.buffer_2@.len() ==> r.buffer_2@[i] == 0u8,
    {
        DmaResources { buffer_1: zeroed_buffer(), buffer_2: zeroed_buffer() }
    }
}

/// The sample at index `i` of a square wave with the given parameters: at
/// time `t = (phase_offset + i * sample_period) mod period`, the wave is at
/// `amplitude` in the half-period selected by `invert` and at zero in the
/// other.
pub open spec fn square_sample(
    period: u32,
    amplitude: u8,
    invert: bool,
    phase_offset: u32,
    sample_period: u32,
    i: int,
) -> u8
    recommends
        period >= 1,
{
    let t = (phase_offset + i * sample_period) % (period as int);
    if (t > period as int / 2) != invert {
        amplitude
    } else {
        0u8
    }
}

/// A reclaimed buffer packaged with the waveform parameters it is to be
/// refilled with, produced by [`DacDriver::request`] and consumed by
/// [`FillableBuffer::fill`].
pub struct FillableBuffer {
    /// Drive period in nanoseconds.
    pub period: u32,
    /// Drive amplitude, already scaled to the output's range.
    pub amplitude: u8,
    /// Whether the waveform polarity is inverted.
    pub invert: bool,
    /// Where in the period the buffer starts, in nanoseconds.
    pub phase_offset: u32,
    /// Nanoseconds between consecutive samples.
    pub sample_period: u32,
    /// The buffer to fill.
    pub buffer: SampleBuffer,
}

impl FillableBuffer {
    /// Fills the buffer with one buffer's worth of square wave, sample `i`
    /// being [`square_sample`] at index `i`. Pure and hardware-free; safe to
    /// run at lower priority than interrupt context.
    pub fn fill(self) -> (r: SampleBuffer)
        requires
            self.period >= 1,
            self.buffer@.len() <= u32::MAX,
        ensures
            r@.len() == self.buffer@.len(),
            forall|i: int|
                0 <= i < r@.len() ==> r@[i] == square_sample(
                    self.period,
                    self.amplitude,
                    self.invert,
                    self.phase_offset,
                    self.sample_period,
                    i,
                ),
    {
        let FillableBuffer { period, amplitude, invert, phase_offset, sample_period, buffer } =
            self;
        let mut buffer = buffer;
        let n = buffer.len();
        let mut i: usize = 0;
        while i < n
            invariant
                i <= n,
                n == buffer@.len(),
                n <= u32::MAX,
                period == self.period,
                amplitude == self.amplitude,
                invert == self.invert,
                phase_offset == self.phase_offset,
                sample_period == self.sample_period,
                n == self.buffer@.len(),
                period >= 1,
                forall|k: int|
                    0 <= k < i ==> buffer@[k] == square_sample(
                        self.period,
                        self.amplitude,
                        self.invert,
                        self.phase_offset,
                        self.sample_period,
                        k,
                    ),
            decreases n - i,
    {
            proof {
                assert((i as int) * (sample_period as int) <= 0xffff_ffff * 0xffff_ffff)
                    by (nonlinear_arith)
                    requires
                        0 <= i <= 0xffff_ffff,
                        0 <= sample_period <= 0xffff_ffff,
                ;
                vstd::arithmetic::div_mod::lemma_mod_division_less_than_divisor(
                    phase_offset as int + (i as int) * (sample_period as int),
                    period as int,
                );
            }
            let t = ((phase_offset as u64 + i as u64 * sample_period as u64) % period as u64)
                as u32;
            let sample = if (t > period / 2) != invert {
                amplitude
            } else {
                0u8
            };
            buffer.set(i, sample);
            i += 1;
        }
        buffer
    }
}

/// The new phase offset after one buffer hand-off: the old offset advanced
/// by the buffer's duration, modulo the period.
pub open spec fn advance_phase(phase_offset: int, sample_period: int, len: int, period: int) -> int
    recommends
        period >= 1,
{
    (phase_offset + sample_period * len) % period
}

/// The phase offset after `n` hand-offs of length-`len` buffers from phase
/// zero, with constant parameters.
pub open spec fn repeated_phase(n: nat, sample_period: int, len: int, period: int) -> int
    decreases n,
{
    if n == 0 {
        0
    } else {
        advance_phase(
            repeated_phase((n - 1) as nat, sample_period, len, period),
            sample_period,
            len,
            period,
        )
    }
}

/// Phase continuity: after `n` buffers of length `len` submitted with
/// constant period, the phase offset is `(n * len * sample_period) mod
/// period` — exactly where continuous synthesis from time zero would be.
pub proof fn lemma_phase_continuity(n: nat, sample_period: int, len: int, period: int)
    requires
        period >= 1,
        sample_period >= 0,
        len >= 0,
    ensures
        repeated_phase(n, sample_period, len, period) == (n * len * sample_period) % period,
    decreases n,
{
    if n == 0 {
        lemma_small_mod(0, period as nat);
    } else {
        lemma_phase_continuity((n - 1) as nat, sample_period, len, period);
        let a = (n - 1) * len * sample_period;
        let b = sample_period * len;
        lemma_add_mod_noop(a, b, period);
        lemma_add_mod_noop(a % period, b, period);
        lemma_mod_twice(a, period);
        assert((n - 1) * len * sample_period + sample_period * len == n * len * sample_period)
            by (nonlinear_arith);
    }
}

/// A buffer synthesized at the phase offset of hand-off `n` matches
/// continuous synthesis from time zero: its sample `i` is the continuous
/// waveform's sample `n * len + i`.
pub proof fn lemma_matches_continuous(
    n: nat,
    i: int,
    amplitude: u8,
    invert: bool,
    sample_period: u32,
    len: int,
    period: u32,
)
    requires
        period >= 1,
        len >= 0,
        0 <= i,
        repeated_phase(n, sample_period as int, len, period as int) <= u32::MAX,
        n * len + i <= u32::MAX,
    ensures
        square_sample(
            period,
            amplitude,
            invert,
            repeated_phase(n, sample_period as int, len, period as int) as u32,
            sample_period,
            i,
        ) == square_sample(period, amplitude, invert, 0u32, sample_period, n * len + i),
{
    let p = period as int;
    let s = sample_period as int;
    lemma_phase_continuity(n, s, len, p);
    let phase = (n * len * s) % p;
    assert((phase + i * s) % p == (n * len * s + i * s) % p) by {
        lemma_add_mod_noop(n * len * s, i * s, p);
        lemma_mod_twice(n * len * s, p);
        lemma_mod_twice(i * s, p);
        lemma_add_mod_noop(phase, (i * s) % p, p);
        lemma_add_mod_noop(phase, i * s, p);
    }
    assert(n * len * s + i * s == (n * len + i) * s) by (nonlinear_arith);
}

/// The double-buffered waveform pipeline for one string: the target waveform
/// parameters, the running phase offset, the hardware-owned buffer, the
/// software-submitted spare, and the ping-pong pair of transfer descriptors
/// as an active-side flag plus two valid marks.
pub struct DacDriver {
    /// Target drive period in nanoseconds, applied to the next buffer
    /// filled.
    pub period: u32,
    /// Target amplitude, already scaled to the output's range.
    pub amplitude: u8,
    /// Target polarity.
    pub invert: bool,
    /// Where in the period the next submitted buffer starts, in nanoseconds.
    pub phase_offset: u32,
    /// Nanoseconds between consecutive samples, fixed by the output
    /// hardware.
    pub sample_period: u32,
    /// The output hardware's maximum amplitude; requested amplitudes are
    /// scaled from full scale 255 down to it.
    pub max_amplitude: u8,
    /// The buffer the hardware is playing.
    pub current_buffer: SampleBuffer,
    /// The refilled buffer submitted for the next hand-off, if any.
    pub filled_buffer: Option<SampleBuffer>,
    /// Which descriptor drives the current buffer.
    pub first_descriptor: bool,
    /// Whether the first transfer descriptor is marked valid.
    pub descriptor_1_valid: bool,
    /// Whether the second transfer descriptor is marked valid.
    pub descriptor_2_valid: bool,
    /// The waveform parameters most recently requested through
    /// [`Driver::set`], before amplitude scaling.
    pub requested: Ghost<Option<DriveTarget>>,
}

impl DacDriver {
    /// The pipeline's invariant: the period is positive so phase arithmetic
    /// is well defined, and both buffers are small enough to synthesize.
    pub open spec fn wf(&self) -> bool {
        &&& self.period >= 1
        &&& self.current_buffer@.len() <= u32::MAX
        &&& match self.filled_buffer {
            Some(b) => b@.len() <= u32::MAX,
            None => true,
        }
    }

    /// A pipeline over the given storage: buffer 1 starts hardware-owned,
    /// buffer 2 starts as the submitted spare, both descriptors valid, a
    /// 400 Hz period, amplitude zero and phase zero.
    pub fn new(sample_period: u32, max_amplitude: u8, resources: DmaResources) -> (r: Self)
        requires
            resources.buffer_1@.len() <= u32::MAX,
            resources.buffer_2@.len() <= u32::MAX,
        ensures
            r.period == 2_500_000,
            r.amplitude == 0,
            r.invert == false,
            r.phase_offset == 0,
            r.sample_period == sample_period,
            r.max_amplitude == max_amplitude,
            r.current_buffer == resources.buffer_1,
            r.filled_buffer == Some(resources.buffer_2),
            r.first_descriptor == true,
            r.descriptor_1_valid == true,
            r.descriptor_2_valid == true,
            r.requested@ is None,
            r.wf(),
    {
        DacDriver {
            period: 2_500_000,  // 400 Hz
            amplitude: 0,
            invert: false,
            phase_offset: 0,
            sample_period,
            max_amplitude,
            current_buffer: resources.buffer_1,
            filled_buffer: Some(resources.buffer_2),
            first_descriptor: true,
            descriptor_1_valid: true,
            descriptor_2_valid: true,
            requested: Ghost(None),
        }
    }

    /// Reclaims a finished buffer for refill. `transfer_complete` is the
    /// hardware's transfer-complete flag, read and cleared by the caller. If
    /// no transfer just completed, nothing happens. Otherwise the descriptor
    /// that just finished is invalidated so the hardware cannot replay stale
    /// data, and — only if a submitted replacement exists — the replacement
    /// becomes current and the just-vacated buffer is returned, packaged
    /// with the target parameters, for refill. With no replacement this is a
    /// benign underrun: nothing is returned and the hardware pauses until
    /// the next submit.
    pub fn request(&mut self, transfer_complete: bool) -> (r: Option<FillableBuffer>)
        requires
            old(self).wf(),
        ensures
            final(self).wf(),
            !transfer_complete ==> r is None && *final(self) == *old(self),
            transfer_complete ==> final(self).descriptor_1_valid == (old(self).descriptor_1_valid
                && !old(self).first_descriptor),
            transfer_complete ==> final(self).descriptor_2_valid == (old(self).descriptor_2_valid
                && old(self).first_descriptor),
            transfer_complete ==> final(self).period == old(self).period && final(self).amplitude
                == old(self).amplitude && final(self).invert == old(self).invert && final(self).phase_offset == old(self).phase_offset && final(self).sample_period == old(self).sample_period && final(self).max_amplitude == old(self).max_amplitude && final(self).requested == old(self).requested,
            transfer_complete && old(self).filled_buffer is None ==> {
                &&& r is None
                &&& final(self).current_buffer == old(self).current_buffer
                &&& final(self).filled_buffer is None
                &&& final(self).first_descriptor == old(self).first_descriptor
            },
            transfer_complete && old(self).filled_buffer is Some ==> {
                &&& r == Some(
                    FillableBuffer {
                        period: old(self).period,
                        amplitude: old(self).amplitude,
                        invert: old(self).invert,
                        phase_offset: old(self).phase_offset,
                        sample_period: old(self).sample_period,
                        buffer: old(self).current_buffer,
                    },
                )
                &&& final(self).current_buffer == old(self).filled_buffer->0
                &&& final(self).filled_buffer is None
                &&& final(self).first_descriptor == !old(self).first_descriptor
            },
    {
        if !transfer_complete {
            // The transfer is still ongoing; no buffer can be reclaimed.
            return None;
        }
        // The finished buffer's descriptor must not be replayed, whether or
        // not a replacement exists yet.
        if self.first_descriptor {
            self.descriptor_1_valid = false;
        } else {
            self.descriptor_2_valid = false;
        }
        let mut filled: Option<SampleBuffer> = None;
        core::mem::swap(&mut filled, &mut self.filled_buffer);
        match filled {
            Some(replacement) => {
                // The replacement starts playing now; reclaim the vacated
                // buffer for refill.
                self.first_descriptor = !self.first_descriptor;
                let mut vacated = replacement;
                core::mem::swap(&mut vacated, &mut self.current_buffer);
                Some(
                    FillableBuffer {
                        period: self.period,
                        amplitude: self.amplitude,
                        invert: self.invert,
                        phase_offset: self.phase_offset,
                        sample_period: self.sample_period,
                        buffer: vacated,
                    },
                )
            },
            None => None,
        }
    }

    /// Submits a refilled buffer as the next hand-off's replacement: the
    /// non-driving descriptor is pointed at it and marked valid (the caller
    /// resumes the hardware transfer, undoing any underrun pause), and the
    /// phase offset advances by the buffer's duration modulo the period, so
    /// the following refill continues the waveform seamlessly.
    pub fn submit(&mut self, new_buffer: SampleBuffer)
        requires
            old(self).wf(),
            new_buffer@.len() <= u32::MAX,
        ensures
            final(self).wf(),
            final(self).phase_offset as int == advance_phase(
                old(self).phase_offset as int,
                old(self).sample_period as int,
                new_buffer@.len() as int,
                old(self).period as int,
            ),
            final(self).filled_buffer == Some(new_buffer),
            final(self).descriptor_1_valid == (old(self).descriptor_1_valid || !old(self).first_descriptor),
            final(self).descriptor_2_valid == (old(self).descriptor_2_valid || old(self).first_descriptor),
            final(self).period == old(self).period,
            final(self).amplitude == old(self).amplitude,
            final(self).invert == old(self).invert,
            final(self).sample_period == old(self).sample_period,
            final(self).max_amplitude == old(self).max_amplitude,
            final(self).current_buffer == old(self).current_buffer,
            final(self).first_descriptor == old(self).first_descriptor,
            final(self).requested == old(self).requested,
    {
        if self.first_descriptor {
            self.descriptor_2_valid = true;
        } else {
            self.descriptor_1_valid = true;
        }
        proof {
            assert((self.sample_period as int) * (new_buffer@.len() as int) <= 0xffff_ffff
                * 0xffff_ffff) by (nonlinear_arith)
                requires
                    0 <= self.sample_period <= 0xffff_ffff,
                    0 <= new_buffer@.len() <= 0xffff_ffff,
            ;
            vstd::arithmetic::div_mod::lemma_mod_division_less_than_divisor(
                self.phase_offset as int + (self.sample_period as int) * (new_buffer@.len() as int),
                self.period as int,
            );
        }
        self.phase_offset = ((self.phase_offset as u64 + self.sample_period as u64
            * new_buffer.len() as u64) % self.period as u64) as u32;
        self.filled_buffer = Some(new_buffer);
    }
}

impl Driver for DacDriver {
    open spec fn last_set(&self) -> Option<DriveTarget> {
        self.requested@
    }

    /// Updates the target parameters applied to the next buffer filled;
    /// never touches a buffer already in flight. The amplitude is scaled
    /// from full scale 255 down to the output hardware's maximum.
    fn set(&mut self, period: u32, amplitude: u8, invert: bool)
        ensures
            final(self).period == period,
            final(self).invert == invert,
            final(self).amplitude as int == amplitude as int * old(self).max_amplitude as int
                / 255,
            final(self).phase_offset == old(self).phase_offset,
            final(self).sample_period == old(self).sample_period,
            final(self).max_amplitude == old(self).max_amplitude,
            final(self).current_buffer == old(self).current_buffer,
            final(self).filled_buffer == old(self).filled_buffer,
            final(self).first_descriptor == old(self).first_descriptor,
            final(self).descriptor_1_valid == old(self).descriptor_1_valid,
            final(self).descriptor_2_valid == old(self).descriptor_2_valid,
    {
        self.period = period;
        proof {
            assert(amplitude as int * self.max_amplitude as int / 255 <= self.max_amplitude as int
                && amplitude as int * self.max_amplitude as int / 255 >= 0) by (nonlinear_arith)
                requires
                    0 <= amplitude <= 255,
                    0 <= self.max_amplitude,
            ;
        }
        self.amplitude = ((amplitude as u32 * self.max_amplitude as u32) / 255) as u8;
        self.invert = invert;
        self.requested = Ghost(Some(DriveTarget { period, amplitude, invert }));
    }
}

} // verus!
