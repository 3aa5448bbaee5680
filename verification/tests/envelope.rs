//! Tests of the envelope state machine: the transition table, deadline
//! staleness, velocity scaling and the note map.

use zither::string::dac_driver::DacDriver;
use zither::string::dac_driver::DmaResources;
use zither::string::apply_velocity;
use zither::string::note_to_string;
use zither::string::Config;
use zither::string::Controller;
use zither::string::State;

fn test_config() -> Config {
    Config {
        period: 2_000_000,
        attack_time: 200,
        attack_amplitude: 255,
        sustain_amplitude: 100,
        release_time: 20,
        release_amplitude: 40,
        stabilize_time: 50,
        sample_time: 500,
    }
}

fn controller() -> Controller<DacDriver> {
    Controller::new(
        DacDriver::new(40_000, 255, DmaResources::new()),
        None,
        test_config(),
    )
}

#[test]
fn default_config_matches_construction_defaults() {
    let c = Config::default();
    assert_eq!(c.period, 2_000_000);
    assert_eq!(c.attack_time, 100);
    assert_eq!(c.attack_amplitude, 255);
    assert_eq!(c.sustain_amplitude, 100);
    assert_eq!(c.release_time, 0);
    assert_eq!(c.release_amplitude, 0);
    assert_eq!(c.stabilize_time, 50);
    assert_eq!(c.sample_time, 500);
}

#[test]
fn new_controller_starts_off_with_no_deadline() {
    let c = controller();
    assert_eq!(c.state.state, State::Off);
    assert_eq!(c.state.end, None);
    assert_eq!(c.config, test_config());
}

#[test]
fn scenario_a_on_then_update_reaches_sustain() {
    let mut c = controller();
    // channel Off at t=0; on(127, 1) with attack_time 200 returns Some(200)
    let r = c.on(127, 1, 0);
    assert_eq!(r, Some(200));
    assert_eq!(c.state.state, State::Attack { velocity: 127, harmonic: 1 });
    assert_eq!(c.state.end, Some(200));
    // output set to (period, attack_amplitude, invert = false)
    assert_eq!(c.driver.period, 2_000_000);
    assert_eq!(c.driver.amplitude, 255);
    assert!(!c.driver.invert);
    // at t=200, update returns nothing and settles to Sustain
    let r = c.update(200);
    assert_eq!(r, None);
    assert_eq!(c.state.state, State::Sustain { velocity: 127, harmonic: 1 });
    assert_eq!(c.state.end, None);
    assert_eq!(c.driver.period, 2_000_000);
    assert_eq!(c.driver.amplitude, 100);
    assert!(!c.driver.invert);
}

#[test]
fn scenario_b_off_then_update_reaches_off() {
    let mut c = controller();
    c.on(127, 1, 0);
    c.update(200);
    // off(0) at t=250 with release_time 20 returns Some(270)
    let r = c.off(0, 250);
    assert_eq!(r, Some(270));
    assert_eq!(c.state.state, State::Release { velocity: 127, harmonic: 1 });
    assert_eq!(c.state.end, Some(270));
    // output (period, release_amplitude scaled by the note's velocity, invert = true)
    assert_eq!(c.driver.period, 2_000_000);
    assert_eq!(c.driver.amplitude, 40);
    assert!(c.driver.invert);
    // no frequency meter: update at t=270 returns nothing, state Off, amplitude 0
    let r = c.update(270);
    assert_eq!(r, None);
    assert_eq!(c.state.state, State::Off);
    assert_eq!(c.state.end, None);
    assert_eq!(c.driver.amplitude, 0);
    assert!(!c.driver.invert);
}

#[test]
fn update_before_deadline_is_noop() {
    let mut c = controller();
    c.on(127, 1, 0);
    for t in [0u64, 1, 100, 199] {
        let r = c.update(t);
        assert_eq!(r, None);
        assert_eq!(c.state.state, State::Attack { velocity: 127, harmonic: 1 });
        assert_eq!(c.state.end, Some(200));
    }
}

#[test]
fn stale_update_after_newer_event_is_noop() {
    let mut c = controller();
    // on at t=0 schedules a wake-up at t=200
    c.on(127, 1, 0);
    // off at t=50 supersedes it: release ends at t=70
    assert_eq!(c.off(0, 50), Some(70));
    // a new note at t=60 supersedes that in turn: attack ends at t=260
    assert_eq!(c.on(64, 1, 60), Some(260));
    // the stale wake-ups fire at t=70 and t=200, before the new deadline:
    // both are no-ops
    assert_eq!(c.update(70), None);
    assert_eq!(c.update(200), None);
    assert_eq!(c.state.state, State::Attack { velocity: 64, harmonic: 1 });
    assert_eq!(c.state.end, Some(260));
    // the fresh wake-up acts
    assert_eq!(c.update(260), None);
    assert_eq!(c.state.state, State::Sustain { velocity: 64, harmonic: 1 });
}

#[test]
fn on_is_noop_in_attack_and_sustain() {
    let mut c = controller();
    c.on(127, 1, 0);
    assert_eq!(c.on(64, 1, 50), None);
    assert_eq!(c.state.state, State::Attack { velocity: 127, harmonic: 1 });
    assert_eq!(c.state.end, Some(200));
    c.update(200);
    assert_eq!(c.on(64, 1, 250), None);
    assert_eq!(c.state.state, State::Sustain { velocity: 127, harmonic: 1 });
}

#[test]
fn on_acts_in_release() {
    let mut c = controller();
    c.on(127, 1, 0);
    c.update(200);
    c.off(0, 250);
    let r = c.on(90, 2, 260);
    assert_eq!(r, Some(460));
    assert_eq!(c.state.state, State::Attack { velocity: 90, harmonic: 2 });
    // harmonic 2 halves the drive period
    assert_eq!(c.driver.period, 1_000_000);
    // attack amplitude scaled by velocity 90: 255 * 90 / 127 = 180
    assert_eq!(c.driver.amplitude, 180);
    assert!(!c.driver.invert);
}

#[test]
fn off_is_noop_outside_attack_and_sustain() {
    let mut c = controller();
    assert_eq!(c.off(0, 10), None);
    assert_eq!(c.state.state, State::Off);
    assert_eq!(c.state.end, None);
    c.on(127, 1, 0);
    c.update(200);
    c.off(0, 250);
    // off during release changes nothing
    assert_eq!(c.off(0, 260), None);
    assert_eq!(c.state.state, State::Release { velocity: 127, harmonic: 1 });
    assert_eq!(c.state.end, Some(270));
}

#[test]
fn off_keeps_the_notes_velocity_and_harmonic() {
    let mut c = controller();
    c.on(90, 2, 0);
    let r = c.off(33, 100);
    assert_eq!(r, Some(120));
    assert_eq!(c.state.state, State::Release { velocity: 90, harmonic: 2 });
    // release amplitude scaled by the note's velocity 90: 40 * 90 / 127 = 28
    assert_eq!(c.driver.amplitude, 28);
    assert_eq!(c.driver.period, 1_000_000);
    assert!(c.driver.invert);
}

#[test]
fn update_is_noop_in_off_and_sustain() {
    let mut c = controller();
    assert_eq!(c.update(1_000), None);
    assert_eq!(c.state.state, State::Off);
    c.on(127, 1, 0);
    c.update(200);
    assert_eq!(c.update(5_000), None);
    assert_eq!(c.state.state, State::Sustain { velocity: 127, harmonic: 1 });
    assert_eq!(c.state.end, None);
}

#[test]
fn release_deadline_chains_from_prior_deadline_with_meter() {
    let meter = zither::ac::FrequencyMeter::new(125, 3);
    let mut c = Controller::new(
        DacDriver::new(40_000, 255, DmaResources::new()),
        Some(meter),
        test_config(),
    );
    c.on(127, 1, 0);
    c.off(0, 250);
    // update arrives late, at t=300; the stabilize window still starts at the
    // stored deadline 270, so the next deadline is 270 + 50
    let r = c.update(300);
    assert_eq!(r, Some(320));
    assert_eq!(c.state.state, State::WaitStabilize);
}

#[test]
fn transition_table_in_the_meter_states() {
    let meter = zither::ac::FrequencyMeter::new(125, 3);
    let mut c = Controller::new(
        DacDriver::new(40_000, 255, DmaResources::new()),
        Some(meter),
        test_config(),
    );
    c.on(127, 1, 0);
    c.off(0, 250);
    c.update(270);
    assert_eq!(c.state.state, State::WaitStabilize);
    // off is a no-op while stabilizing; so is an early update
    assert_eq!(c.off(0, 280), None);
    assert_eq!(c.update(280), None);
    assert_eq!(c.state.state, State::WaitStabilize);
    assert_eq!(c.state.end, Some(320));
    // on interrupts the stabilize wait
    assert_eq!(c.on(100, 1, 290), Some(490));
    assert_eq!(c.state.state, State::Attack { velocity: 100, harmonic: 1 });
    // walk into SampleFrequency and check the same no-ops there
    c.off(0, 500);
    c.update(520);
    c.update(570);
    assert_eq!(c.state.state, State::SampleFrequency);
    assert_eq!(c.state.end, Some(1070));
    assert_eq!(c.off(0, 600), None);
    assert_eq!(c.update(600), None);
    assert_eq!(c.state.state, State::SampleFrequency);
    // on interrupts sampling, and the capture interrupt is disabled again
    assert_eq!(c.on(80, 1, 700), Some(900));
    assert_eq!(c.state.state, State::Attack { velocity: 80, harmonic: 1 });
    assert!(!c.freq_meter.as_ref().unwrap().interrupt_enabled);
}

#[test]
fn velocities_above_the_maximum_clamp() {
    let mut c = controller();
    let r = c.on(200, 1, 0);
    assert_eq!(r, Some(200));
    // velocity clamps to 127, which scales by 127/127: full amplitude
    assert_eq!(c.driver.amplitude, 255);
}

#[test]
fn apply_velocity_identity_zero_and_exact_values() {
    for a in [0u8, 1, 40, 100, 127, 200, 255] {
        assert_eq!(apply_velocity(a, 127), a);
        assert_eq!(apply_velocity(a, 0), 0);
        // velocities above 127 clamp to 127
        assert_eq!(apply_velocity(a, 200), a);
        assert_eq!(apply_velocity(a, 255), a);
    }
    assert_eq!(apply_velocity(200, 64), 100);  // 200 * 64 / 127
    assert_eq!(apply_velocity(255, 1), 2);  // 255 * 1 / 127
    assert_eq!(apply_velocity(100, 63), 49);  // 100 * 63 / 127
}

#[test]
fn apply_velocity_is_monotonic_in_velocity() {
    for a in [0u8, 7, 100, 255] {
        let mut prev = 0u8;
        for v in 0u16..=255 {
            let r = apply_velocity(a, v as u8);
            assert!(r >= prev);
            prev = r;
        }
        assert_eq!(prev, a);
    }
}

#[test]
fn note_map_covers_the_eight_strings() {
    assert_eq!(note_to_string(67), Some(0));  // G4
    assert_eq!(note_to_string(69), Some(1));  // A4
    assert_eq!(note_to_string(71), Some(2));  // B4
    assert_eq!(note_to_string(72), Some(3));  // C5
    assert_eq!(note_to_string(74), Some(4));  // D5
    assert_eq!(note_to_string(76), Some(5));  // E5
    assert_eq!(note_to_string(77), Some(6));  // F5
    assert_eq!(note_to_string(79), Some(7));  // G5
    assert_eq!(note_to_string(68), None);
    assert_eq!(note_to_string(0), None);
    assert_eq!(note_to_string(127), None);
}

#[test]
fn schedule_and_indefinite_build_scheduled_states() {
    let s = State::WaitStabilize.schedule(42);
    assert_eq!(s.state, State::WaitStabilize);
    assert_eq!(s.end, Some(42));
    let s = State::Off.indefinite();
    assert_eq!(s.state, State::Off);
    assert_eq!(s.end, None);
}
