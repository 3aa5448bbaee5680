//! Per-string envelope control.
//!
//! A [`Controller`] owns one string's output driver, its configuration and an
//! optional frequency meter, and turns note-level events (`on`, `off`,
//! periodic `update` wake-ups) into target waveform parameters for the
//! driver. Wake-ups are deadline driven: each event returns the absolute
//! instant at which `update` must next be invoked, if any; a wake-up that
//! arrives before its deadline — or after a newer event superseded it — is
//! absorbed as a no-op.
//!
//! Instants and durations are plain `u64` tick counts supplied by the
//! dispatcher; drive periods are `u32` nanosecond counts.

pub mod dac_driver;

use vstd::arithmetic::div_mod::lemma_div_by_self;
use vstd::arithmetic::div_mod::lemma_div_is_ordered;
use vstd::arithmetic::div_mod::lemma_fundamental_div_mod;
use vstd::arithmetic::div_mod::lemma_fundamental_div_mod_converse;
use vstd::prelude::*;

use crate::ac::Error;
use crate::ac::FrequencyMeter;
use crate::ac::period_ns_spec;

verus! {

/// The largest velocity value; `apply_velocity` scales amplitudes by
/// `velocity / MAX_VELOCITY`.
pub const MAX_VELOCITY: u8 = 127;

/// One set of waveform parameters handed to a [`Driver`].
#[derive(Clone, Copy, Debug, PartialEq, Eq, Structural)]
pub struct DriveTarget {
    /// Drive period in nanoseconds.
    pub period: u32,
    /// Drive amplitude, full scale at 255.
    pub amplitude: u8,
    /// Whether the waveform polarity is inverted.
    pub invert: bool,
}

/// A string's output capability: whatever produces the drive waveform for
/// one physical string accepts target parameters through `set`.
pub trait Driver {
    /// The waveform parameters most recently requested through `set`, if
    /// any.
    spec fn last_set(&self) -> Option<DriveTarget>;

    /// Applies new target waveform parameters. The parameters take effect on
    /// waveform data produced after this call; anything already in flight is
    /// unaffected.
    fn set(&mut self, period: u32, amplitude: u8, invert: bool)
        requires
            period >= 1,
        ensures
            final(self).last_set() == Some(DriveTarget { period, amplitude, invert }),
    ;
}

/// The envelope state of one string.
#[derive(Clone, Copy, Debug, PartialEq, Eq, Structural)]
pub enum State {
    /// A note is rising toward its attack amplitude.
    Attack { velocity: u8, harmonic: u8 },
    /// A note is held at its sustain amplitude.
    Sustain { velocity: u8, harmonic: u8 },
    /// A note is dying away, driven with inverted polarity.
    Release { velocity: u8, harmonic: u8 },
    /// The string is settling after a release, ahead of a frequency
    /// measurement. Only entered on strings with a frequency meter.
    WaitStabilize,
    /// The string's resonant frequency is being measured. Only entered on
    /// strings with a frequency meter.
    SampleFrequency,
    /// No note is playing.
    Off,
}

/// An envelope state together with the deadline at which it ends, if any.
/// A state without a deadline never self-transitions.
#[derive(Clone, Copy, Debug, PartialEq, Eq)]
pub struct ScheduledState {
    /// The instant at which this state ends and `update` must act, or `None`
    /// for a state that only an external event ends.
    pub end: Option<u64>,
    /// The envelope state itself.
    pub state: State,
}

impl State {
    /// Schedules this state to end at `end`.
    pub fn schedule(self, end: u64) -> (r: ScheduledState)
        ensures
            r == (ScheduledState { end: Some(end), state: self }),
    {
        ScheduledState { end: Some(end), state: self }
    }

    /// Schedules this state with no deadline.
    pub fn indefinite(self) -> (r: ScheduledState)
        ensures
            r == (ScheduledState { end: None, state: self }),
    {
        ScheduledState { end: None, state: self }
    }
}

/// One string's configuration. The drive period is the only field ever
/// mutated after construction, and only by frequency calibration.
#[derive(Clone, Copy, Debug, PartialEq, Eq, Structural)]
pub struct Config {
    /// Nominal drive period in nanoseconds.
    pub period: u32,
    /// How long a note attacks before settling to sustain, in ticks.
    pub attack_time: u64,
    /// Amplitude while attacking, before velocity scaling.
    pub attack_amplitude: u8,
    /// Amplitude while sustaining, before velocity scaling.
    pub sustain_amplitude: u8,
    /// How long a note releases, in ticks.
    pub release_time: u64,
    /// Amplitude while releasing, before velocity scaling.
    pub release_amplitude: u8,
    /// How long the string settles before a frequency measurement, in ticks.
    pub stabilize_time: u64,
    /// How long frequency samples are collected, in ticks.
    pub sample_time: u64,
}

impl Default for Config {
    fn default() -> (r: Self)
        ensures
            r == (Config {
                period: 2_000_000,
                attack_time: 100,
                attack_amplitude: 255,
                sustain_amplitude: 100,
                release_time: 0,
                release_amplitude: 0,
                stabilize_time: 50,
                sample_time: 500,
            }),
    {
        Config {
            period: 2_000_000,  // 500 Hz
            attack_time: 100,
            attack_amplitude: 255,
            sustain_amplitude: 100,
            release_time: 0,
            release_amplitude: 0,
            stabilize_time: 50,
            sample_time: 500,
        }
    }
}

/// `amplitude` scaled by `velocity / MAX_VELOCITY` with integer truncation:
/// identity at velocity 127, zero at velocity 0, monotonic in velocity.
pub open spec fn apply_velocity_spec(amplitude: u8, velocity: u8) -> int {
    amplitude as int * (if velocity > 127 {
        127
    } else {
        velocity as int
    }) / 127
}

/// Scales an amplitude by a velocity: `amplitude * min(velocity, 127) / 127`.
pub fn apply_velocity(amplitude: u8, velocity: u8) -> (r: u8)
    ensures
        r as int == apply_velocity_spec(amplitude, velocity),
        r <= amplitude,
{
    let v: u32 = if velocity < MAX_VELOCITY {
        velocity as u32
    } else {
        MAX_VELOCITY as u32
    };
    proof {
        assert(amplitude as int * v as int / 127 <= amplitude as int && amplitude as int * v as int
            / 127 >= 0) by (nonlinear_arith)
            requires
                0 <= v <= 127,
                0 <= amplitude,
        ;
    }
    ((amplitude as u32 * v) / 127) as u8
}

/// Velocity scaling is the identity at full velocity, zero at velocity zero,
/// and monotonically non-decreasing in velocity.
pub proof fn lemma_apply_velocity(amplitude: u8, v1: u8, v2: u8)
    ensures
        apply_velocity_spec(amplitude, 127) == amplitude,
        apply_velocity_spec(amplitude, 0) == 0,
        v1 <= v2 ==> apply_velocity_spec(amplitude, v1) <= apply_velocity_spec(amplitude, v2),
{
    assert(amplitude as int * 127 / 127 == amplitude) by (nonlinear_arith);
    assert(amplitude as int * 0 / 127 == 0);
    if v1 <= v2 {
        let m1: int = if v1 > 127 { 127 } else { v1 as int };
        let m2: int = if v2 > 127 { 127 } else { v2 as int };
        assert(amplitude as int * m1 <= amplitude as int * m2) by (nonlinear_arith)
            requires
                0 <= m1 <= m2,
                0 <= amplitude,
        ;
        lemma_div_is_ordered(amplitude as int * m1, amplitude as int * m2, 127);
    }
}

/// One step of the calibration filter: nine parts the current period to one
/// part the new sample, rounded half up to the nearest whole nanosecond.
pub open spec fn blend_spec(old_period: int, sample: int) -> int {
    (9 * old_period + sample + 5) / 10
}

/// The distance between two integers.
pub open spec fn dist(a: int, b: int) -> int {
    if a >= b {
        a - b
    } else {
        b - a
    }
}

/// Blends a new period sample into the current period with exact integer
/// arithmetic: `round(period * 9/10 + sample * 1/10)`, rounding half up.
pub fn blend_period(period: u32, sample: u32) -> (r: u32)
    ensures
        r as int == blend_spec(period as int, sample as int),
{
    proof {
        lemma_fundamental_div_mod_converse(
            10 * (u32::MAX as int) + 5,
            10,
            u32::MAX as int,
            5,
        );
        lemma_div_is_ordered(
            9 * (period as int) + sample as int + 5,
            10 * (u32::MAX as int) + 5,
            10,
        );
        vstd::arithmetic::div_mod::lemma_div_pos_is_pos(
            9 * (period as int) + sample as int + 5,
            10,
        );
    }
    ((9 * period as u64 + sample as u64 + 5) / 10) as u32
}

/// Blending is a contraction toward the sample: the distance from the sample
/// never grows, and shrinks strictly while it is more than five (below that,
/// rounding to whole nanoseconds can hold the period in place).
pub proof fn lemma_blend_contraction(period: int, sample: int)
    requires
        0 <= period,
        0 <= sample,
    ensures
        dist(blend_spec(period, sample), sample) <= dist(period, sample),
        dist(period, sample) > 5 ==> dist(blend_spec(period, sample), sample) < dist(
            period,
            sample,
        ),
{
    let b = blend_spec(period, sample);
    lemma_fundamental_div_mod(9 * period + sample + 5, 10);
    assert(9 * period + sample + 5 == 10 * b + (9 * period + sample + 5) % 10);
    assert(0 <= (9 * period + sample + 5) % 10 < 10);
}

/// The configured period after `n` calibration steps, each accepting the
/// same sample.
pub open spec fn repeated_blend(n: nat, period: int, sample: int) -> int
    decreases n,
{
    if n == 0 {
        period
    } else {
        blend_spec(repeated_blend((n - 1) as nat, period, sample), sample)
    }
}

/// Repeated identical accepted samples drive the period toward the sample:
/// after `n` steps the distance is no more than the starting distance, and
/// has shrunk by at least one per step until it reaches the rounding floor
/// of five nanoseconds.
pub proof fn lemma_blend_convergence(n: nat, period: int, sample: int)
    requires
        0 <= period,
        0 <= sample,
    ensures
        0 <= repeated_blend(n, period, sample),
        dist(repeated_blend(n, period, sample), sample) <= dist(period, sample),
        dist(repeated_blend(n, period, sample), sample) <= if dist(period, sample) - n >= 5 {
            dist(period, sample) - n
        } else {
            5
        },
    decreases n,
{
    if n > 0 {
        lemma_blend_convergence((n - 1) as nat, period, sample);
        let prev = repeated_blend((n - 1) as nat, period, sample);
        lemma_blend_contraction(prev, sample);
        vstd::arithmetic::div_mod::lemma_div_pos_is_pos(9 * prev + sample + 5, 10);
    }
}

/// Blending two equal values gives that value back.
pub proof fn lemma_blend_fixed_point(period: int)
    requires
        0 <= period,
    ensures
        blend_spec(period, period) == period,
{
    lemma_fundamental_div_mod_converse(10 * period + 5, 10, period, 5);
}

/// Maps a MIDI note number to the string that plays it: the eight strings
/// cover G4 through G5 (MIDI 67 to 79) on the G major scale.
pub open spec fn note_to_string_spec(note: u8) -> Option<u8> {
    match note {
        67u8 => Some(0u8),
        69u8 => Some(1u8),
        71u8 => Some(2u8),
        72u8 => Some(3u8),
        74u8 => Some(4u8),
        76u8 => Some(5u8),
        77u8 => Some(6u8),
        79u8 => Some(7u8),
        _ => None,
    }
}

/// Maps a MIDI note number to the index of the string that plays it, or
/// `None` when no string does.
pub fn note_to_string(note: u8) -> (r: Option<u8>)
    ensures
        r == note_to_string_spec(note),
{
    match note {
        67u8 => Some(0u8),
        69u8 => Some(1u8),
        71u8 => Some(2u8),
        72u8 => Some(3u8),
        74u8 => Some(4u8),
        76u8 => Some(5u8),
        77u8 => Some(6u8),
        79u8 => Some(7u8),
        _ => None,
    }
}

/// Whether an `on` event acts in state `s`.
pub open spec fn on_allowed(s: State) -> bool {
    s is Off || s is Release || s is WaitStabilize || s is SampleFrequency
}

/// Whether an `off` event acts in state `s`.
pub open spec fn off_allowed(s: State) -> bool {
    s is Attack || s is Sustain
}

/// The velocity and harmonic of the note playing in state `s`.
pub open spec fn prior_note(s: State) -> (u8, u8)
    recommends
        off_allowed(s),
{
    match s {
        State::Attack { velocity, harmonic } => (velocity, harmonic),
        State::Sustain { velocity, harmonic } => (velocity, harmonic),
        State::Release { velocity, harmonic } => (velocity, harmonic),
        _ => (0, 0),
    }
}

/// Whether a scheduled state's deadline has been reached at `now`. A state
/// without a deadline is always due.
pub open spec fn due(s: ScheduledState, now: u64) -> bool {
    match s.end {
        Some(end) => now >= end,
        None => true,
    }
}

/// The instant a state ends: its deadline, or `now` for a state without
/// one.
pub open spec fn start_of(s: ScheduledState, now: u64) -> u64 {
    match s.end {
        Some(end) => end,
        None => now,
    }
}

/// The waveform parameters driven in state `s` under configuration `cfg`:
/// the state's base amplitude scaled by the note's velocity, the configured
/// period divided by the note's harmonic, and inverted polarity exactly in
/// release. States without an active note drive amplitude 0 at harmonic 1.
pub open spec fn drive_target(cfg: Config, s: State) -> DriveTarget {
    match s {
        State::Attack { velocity, harmonic } => DriveTarget {
            period: (cfg.period as int / harmonic as int) as u32,
            amplitude: apply_velocity_spec(cfg.attack_amplitude, velocity) as u8,
            invert: false,
        },
        State::Sustain { velocity, harmonic } => DriveTarget {
            period: (cfg.period as int / harmonic as int) as u32,
            amplitude: apply_velocity_spec(cfg.sustain_amplitude, velocity) as u8,
            invert: false,
        },
        State::Release { velocity, harmonic } => DriveTarget {
            period: (cfg.period as int / harmonic as int) as u32,
            amplitude: apply_velocity_spec(cfg.release_amplitude, velocity) as u8,
            invert: true,
        },
        _ => DriveTarget { period: cfg.period, amplitude: 0, invert: false },
    }
}

/// The frequency meter after a transition into state `s`: its capture
/// interrupt is enabled exactly while frequency sampling is under way.
pub open spec fn meter_after(m: Option<FrequencyMeter>, s: State) -> Option<FrequencyMeter> {
    match m {
        Some(meter) => Some(
            FrequencyMeter { interrupt_enabled: s is SampleFrequency, ..meter },
        ),
        None => None,
    }
}

/// The transition table for `update`, §4.3's deadline-reached rows: given
/// the current scheduled state, whether a frequency meter is present, the
/// configuration and the current instant, the scheduled state `update` moves
/// to, or `None` when `update` is a no-op (deadline not yet reached, or a
/// state that never self-transitions).
pub open spec fn update_next(s: ScheduledState, has_meter: bool, cfg: Config, now: u64) -> Option<
    ScheduledState,
> {
    if !due(s, now) {
        None
    } else {
        let start = start_of(s, now);
        match s.state {
            State::Attack { velocity, harmonic } => Some(
                ScheduledState { end: None, state: State::Sustain { velocity, harmonic } },
            ),
            State::Release { .. } => if has_meter {
                Some(
                    ScheduledState {
                        end: Some((start + cfg.stabilize_time) as u64),
                        state: State::WaitStabilize,
                    },
                )
            } else {
                Some(ScheduledState { end: None, state: State::Off })
            },
            State::WaitStabilize => Some(
                ScheduledState {
                    end: Some((start + cfg.sample_time) as u64),
                    state: State::SampleFrequency,
                },
            ),
            State::SampleFrequency => Some(ScheduledState { end: None, state: State::Off }),
            State::Sustain { .. } => None,
            State::Off => None,
        }
    }
}

/// The envelope controller for one string: exclusive owner of the string's
/// output driver, optional frequency meter, configuration and current
/// scheduled state.
pub struct Controller<D: Driver> {
    /// The string's output driver.
    pub driver: D,
    /// The string's frequency meter, if it has one.
    pub freq_meter: Option<FrequencyMeter>,
    /// The string's configuration.
    pub config: Config,
    /// The current scheduled state.
    pub state: ScheduledState,
}

impl<D: Driver> Controller<D> {
    /// The controller's invariant: the period is positive so the waveform is
    /// well defined, any playing note's harmonic divides it to a positive
    /// drive period, and the meter's ratio is well formed.
    pub open spec fn wf(&self) -> bool {
        &&& self.config.period >= 1
        &&& match self.state.state {
            State::Attack { harmonic, .. } => 1 <= harmonic && harmonic <= self.config.period,
            State::Sustain { harmonic, .. } => 1 <= harmonic && harmonic <= self.config.period,
            State::Release { harmonic, .. } => 1 <= harmonic && harmonic <= self.config.period,
            _ => true,
        }
        &&& match self.freq_meter {
            Some(m) => m.wf(),
            None => true,
        }
    }

    /// A controller for one string, initially off with no deadline.
    pub fn new(driver: D, freq_meter: Option<FrequencyMeter>, config: Config) -> (r: Self)
        requires
            config.period >= 1,
            freq_meter matches Some(m) ==> m.wf(),
        ensures
            r == (Controller {
                driver,
                freq_meter,
                config,
                state: ScheduledState { end: None, state: State::Off },
            }),
            r.wf(),
    {
        Controller { driver, freq_meter, config, state: State::Off.indefinite() }
    }

    /// Pushes the parameters for the current state to the driver and brings
    /// the meter's capture interrupt in line with the state.
    fn update_driver(&mut self)
        requires
            old(self).wf(),
        ensures
            final(self).wf(),
            final(self).state == old(self).state,
            final(self).config == old(self).config,
            final(self).driver.last_set() == Some(
                drive_target(old(self).config, old(self).state.state),
            ),
            final(self).freq_meter == meter_after(old(self).freq_meter, old(self).state.state),
    {
        let mut invert = false;
        let (amplitude, harmonic) = match self.state.state {
            State::Attack { velocity, harmonic } => (
                apply_velocity(self.config.attack_amplitude, velocity),
                harmonic,
            ),
            State::Sustain { velocity, harmonic } => (
                apply_velocity(self.config.sustain_amplitude, velocity),
                harmonic,
            ),
            State::Release { velocity, harmonic } => {
                invert = true;
                (apply_velocity(self.config.release_amplitude, velocity), harmonic)
            },
            _ => (0, 1),
        };
        proof {
            lemma_div_is_ordered(harmonic as int, self.config.period as int, harmonic as int);
            lemma_div_by_self(harmonic as int);
        }
        self.driver.set(self.config.period / (harmonic as u32), amplitude, invert);
        match &mut self.freq_meter {
            Some(m) => {
                match self.state.state {
                    State::SampleFrequency => m.enable_interrupts(),
                    _ => m.disable_interrupts(),
                }
            },
            None => {},
        }
    }

    /// Exposes the string's output driver, e.g. to hand buffers to and from
    /// its waveform pipeline.
    pub fn driver_mut(&mut self) -> (r: &mut D)
        ensures
            *r == old(self).driver,
            final(self).driver == *final(r),
            final(self).freq_meter == old(self).freq_meter,
            final(self).config == old(self).config,
            final(self).state == old(self).state,
    {
        &mut self.driver
    }

    /// Starts a note: from `Off`, `Release`, `WaitStabilize` or
    /// `SampleFrequency` the string moves to `Attack` with the given
    /// velocity and harmonic, the driver is set to the attack parameters,
    /// and the attack's end instant is returned so `update` can be invoked
    /// then. In any other state nothing happens and nothing is returned.
    pub fn on(&mut self, velocity: u8, harmonic: u8, now: u64) -> (r: Option<u64>)
        requires
            old(self).wf(),
            1 <= harmonic,
            harmonic <= old(self).config.period,
            now + old(self).config.attack_time <= u64::MAX,
        ensures
            final(self).wf(),
            final(self).config == old(self).config,
            on_allowed(old(self).state.state) ==> {
                let next = ScheduledState {
                    end: Some((now + old(self).config.attack_time) as u64),
                    state: State::Attack { velocity, harmonic },
                };
                &&& final(self).state == next
                &&& r == next.end
                &&& final(self).driver.last_set() == Some(
                    drive_target(old(self).config, next.state),
                )
                &&& final(self).freq_meter == meter_after(old(self).freq_meter, next.state)
            },
            !on_allowed(old(self).state.state) ==> r is None && *final(self) == *old(self),
    {
        match self.state.state {
            State::Off | State::Release { .. } | State::WaitStabilize
            | State::SampleFrequency => {
                let end = now + self.config.attack_time;
                self.state = State::Attack { velocity, harmonic }.schedule(end);
                self.update_driver();
                Some(end)
            },
            _ => None,
        }
    }

    /// Ends a note: from `Attack` or `Sustain` the string moves to `Release`
    /// keeping the note's original velocity and harmonic, the driver is set
    /// to the release parameters (inverted polarity), and the release's end
    /// instant is returned. In any other state nothing happens and nothing
    /// is returned.
    pub fn off(&mut self, _velocity: u8, now: u64) -> (r: Option<u64>)
        requires
            old(self).wf(),
            now + old(self).config.release_time <= u64::MAX,
        ensures
            final(self).wf(),
            final(self).config == old(self).config,
            off_allowed(old(self).state.state) ==> {
                let next = ScheduledState {
                    end: Some((now + old(self).config.release_time) as u64),
                    state: State::Release {
                        velocity: prior_note(old(self).state.state).0,
                        harmonic: prior_note(old(self).state.state).1,
                    },
                };
                &&& final(self).state == next
                &&& r == next.end
                &&& final(self).driver.last_set() == Some(
                    drive_target(old(self).config, next.state),
                )
                &&& final(self).freq_meter == meter_after(old(self).freq_meter, next.state)
            },
            !off_allowed(old(self).state.state) ==> r is None && *final(self) == *old(self),
    {
        match self.state.state {
            State::Attack { velocity, harmonic } | State::Sustain { velocity, harmonic } => {
                let end = now + self.config.release_time;
                self.state = State::Release { velocity, harmonic }.schedule(end);
                self.update_driver();
                Some(end)
            },
            _ => None,
        }
    }

    /// Acts on a reached deadline, following the transition table
    /// [`update_next`]: `Attack` settles to `Sustain`; `Release` moves to
    /// `WaitStabilize` (meter present) or `Off`; `WaitStabilize` moves to
    /// `SampleFrequency`; `SampleFrequency` moves to `Off`. Scheduled
    /// deadlines chain from the prior deadline, not from `now`. Invoked
    /// before the stored deadline — including when a newer event superseded
    /// the wake-up — or in a state without a deadline, it is a no-op; this
    /// staleness check is the sole cancellation mechanism.
    pub fn update(&mut self, now: u64) -> (r: Option<u64>)
        requires
            old(self).wf(),
            old(self).state.state is Release && old(self).freq_meter is Some ==> start_of(
                old(self).state,
                now,
            ) + old(self).config.stabilize_time <= u64::MAX,
            old(self).state.state is WaitStabilize ==> start_of(old(self).state, now) + old(
                self,
            ).config.sample_time <= u64::MAX,
        ensures
            final(self).wf(),
            final(self).config == old(self).config,
            !due(old(self).state, now) ==> r is None && *final(self) == *old(self),
            match update_next(
                old(self).state,
                old(self).freq_meter is Some,
                old(self).config,
                now,
            ) {
                Some(next) => {
                    &&& final(self).state == next
                    &&& r == next.end
                    &&& final(self).driver.last_set() == Some(
                        drive_target(old(self).config, next.state),
                    )
                    &&& final(self).freq_meter == meter_after(old(self).freq_meter, next.state)
                },
                None => r is None && *final(self) == *old(self),
            },
    {
        // When new events come in, old wake-ups remain scheduled but are no
        // longer valid, so check whether the current state is really
        // supposed to end now.
        if let Some(end) = self.state.end {
            if now < end {
                return None;
            }
        }
        let start = match self.state.end {
            Some(end) => end,
            None => now,
        };
        match self.state.state {
            State::Attack { velocity, harmonic } => {
                self.state = State::Sustain { velocity, harmonic }.indefinite();
                self.update_driver();
                None
            },
            State::Release { .. } => {
                if self.freq_meter.is_some() {
                    let end = start + self.config.stabilize_time;
                    self.state = State::WaitStabilize.schedule(end);
                    self.update_driver();
                    Some(end)
                } else {
                    self.state = State::Off.indefinite();
                    self.update_driver();
                    None
                }
            },
            State::WaitStabilize => {
                let end = start + self.config.sample_time;
                self.state = State::SampleFrequency.schedule(end);
                self.update_driver();
                Some(end)
            },
            State::SampleFrequency => {
                self.state = State::Off.indefinite();
                self.update_driver();
                None
            },
            _ => None,
        }
    }

    /// Consumes one frequency capture, delivered on the meter's capture
    /// interrupt as the raw cycle count or the hardware's measurement error.
    /// Outside `SampleFrequency`, without a meter, on a measurement error,
    /// or when the sample deviates from the configured period by more than
    /// 10% (comparator noise, spurious harmonics), the capture is discarded
    /// and nothing changes. Otherwise the configured period moves toward the
    /// sample by one [`blend_spec`] step; the driver is not touched — the
    /// new period applies from the next note.
    pub fn sample_frequency(&mut self, capture: Result<u16, Error>)
        requires
            old(self).wf(),
        ensures
            final(self).wf(),
            !(old(self).state.state is SampleFrequency) ==> *final(self) == *old(self),
            old(self).state.state is SampleFrequency ==> match (old(self).freq_meter, capture) {
                (None, _) => *final(self) == *old(self),
                (Some(_), Err(_)) => *final(self) == *old(self),
                (Some(m), Ok(cycles)) => {
                    let sample = period_ns_spec(
                        m.ns_per_cycle_num as int,
                        m.ns_per_cycle_den as int,
                        cycles as int,
                    );
                    let period = old(self).config.period as int;
                    if dist(period, sample) > period / 10 {
                        *final(self) == *old(self)
                    } else {
                        &&& final(self).config == (Config {
                            period: blend_spec(period, sample) as u32,
                            ..old(self).config
                        })
                        &&& final(self).state == old(self).state
                        &&& final(self).driver == old(self).driver
                        &&& final(self).freq_meter == old(self).freq_meter
                    }
                },
            },
    {
        match self.state.state {
            State::SampleFrequency => {},
            _ => {
                return ;
            },
        }
        let sample = match (&self.freq_meter, capture) {
            (Some(m), Ok(cycles)) => m.period_ns(cycles),
            _ => {
                return ;
            },
        };
        let period = self.config.period;
        let deviation = if period >= sample {
            period - sample
        } else {
            sample - period
        };
        if deviation > period / 10 {
            return ;
        }
        proof {
            lemma_blend_in_window(period as int, sample as int);
        }
        self.config.period = blend_period(period, sample);
    }
}

/// Blending a positive period with any sample in range gives a positive
/// period in range, so calibration preserves the controller's invariant.
proof fn lemma_blend_in_window(period: int, sample: int)
    requires
        1 <= period <= u32::MAX,
        0 <= sample <= u32::MAX,
    ensures
        1 <= blend_spec(period, sample) <= u32::MAX,
{
    lemma_fundamental_div_mod(9 * period + sample + 5, 10);
    lemma_fundamental_div_mod_converse(10 * (u32::MAX as int) + 5, 10, u32::MAX as int, 5);
    lemma_div_is_ordered(9 * period + sample + 5, 10 * (u32::MAX as int) + 5, 10);
}

} // verus!
