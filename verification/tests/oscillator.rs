use fm_voice::oscillator::{phase_step_of, wrap_phase, Oscillator, CONCERT_PITCH};
use fm_voice::wave::{sine_of, TURN};

const UNITY: i32 = 65536;

#[test]
fn new_oscillator_rests_on_concert_pitch() {
    let osc = Oscillator::new(48_000);
    assert_eq!(osc.phase(), 0);
    assert_eq!(osc.frequency().current(), 440 * UNITY);
    assert_eq!(osc.frequency().target(), CONCERT_PITCH);
    assert_eq!(osc.detune().current(), 0);
    assert_eq!(osc.detune().target(), 0);
}

#[test]
fn render_emits_the_sine_of_the_phase_and_moves_on() {
    let mut osc = Oscillator::new(48_000);
    let mut samples = Vec::new();
    for t in 0..5 {
        samples.push(osc.render(t));
    }
    assert_eq!(samples, vec![0, 3837, 7638, 11_396, 15_101]);
    assert_eq!(osc.phase(), 5 * 39_460_012);
}

#[test]
fn render_ignores_the_sample_index() {
    let mut a = Oscillator::new(48_000);
    let mut b = Oscillator::new(48_000);
    for t in 0..100 {
        assert_eq!(a.render(t), b.render(1_000_000 - t));
    }
    assert_eq!(a.phase(), b.phase());
}

#[test]
fn effective_frequency_is_the_frequency_plus_the_detune_ratio() {
    let mut osc = Oscillator::new(48_000);
    osc.set_frequency_no_smooth(0);
    osc.render(0);
    assert_eq!(osc.phase(), 89_478);
    assert_eq!(phase_step_of(65_536, 48_000), 89_478);
}

#[test]
fn detune_of_an_octave_adds_one_more_hertz() {
    let mut osc = Oscillator::new(48_000);
    osc.set_detune(1200 * UNITY);
    assert_eq!(osc.detune().target(), 1200 * UNITY);
    for t in 0..1000 {
        osc.render(t);
    }
    assert_eq!(osc.detune().current(), 1200 * UNITY);
    let before = osc.phase();
    osc.render(1000);
    let step = phase_step_of(442 * 65_536, 48_000) as u64;
    assert_eq!(step, 39_549_490);
    assert_eq!(osc.phase(), (before + step) % TURN);
}

#[test]
fn frequency_glides_to_a_smoothed_target() {
    let mut osc = Oscillator::new(48_000);
    osc.set_frequency(220 * UNITY);
    assert_eq!(osc.frequency().target(), 220 * UNITY);
    assert_eq!(osc.frequency().current(), 440 * UNITY);
    osc.render(0);
    assert_eq!(osc.frequency().current(), 28_821_423);
    assert_eq!(osc.phase(), 39_440_328);
    for t in 1..1000 {
        osc.render(t);
    }
    assert_eq!(osc.frequency().current(), 220 * UNITY);
}

#[test]
fn unsmoothed_frequency_takes_effect_on_the_next_sample() {
    let mut osc = Oscillator::new(48_000);
    osc.set_frequency_no_smooth(23_999 * UNITY);
    assert_eq!(osc.frequency().current(), 23_999 * UNITY);
    let mut phases = Vec::new();
    for t in 0..4 {
        osc.render(t);
        phases.push(osc.phase());
    }
    assert_eq!(phases, vec![TURN / 2, 0, TURN / 2, 0]);
}

#[test]
fn phase_stays_in_its_turn_at_zero_frequency() {
    let mut osc = Oscillator::new(48_000);
    osc.set_frequency_no_smooth(-UNITY);
    osc.set_phase(12_345);
    for t in 0..10 {
        osc.render(t);
        assert_eq!(osc.phase(), 12_345);
    }
}

#[test]
fn phase_stays_in_its_turn_at_negative_frequency() {
    let mut osc = Oscillator::new(48_000);
    osc.set_frequency_no_smooth(-2 * UNITY);
    osc.set_phase(100_000);
    osc.render(0);
    assert_eq!(osc.phase(), 10_522);
    osc.render(1);
    assert_eq!(osc.phase(), 0);
    for t in 2..100 {
        osc.render(t);
        assert!(osc.phase() < TURN);
    }
}

#[test]
fn phase_stays_in_its_turn_at_the_ends_of_the_frequency_range() {
    for frequency in [i32::MAX, i32::MIN, 0, -1, 1] {
        for detune in [0, i32::MAX, i32::MIN, 1200 * UNITY, -1200 * UNITY] {
            let mut osc = Oscillator::new(48_000);
            osc.set_frequency_no_smooth(frequency);
            osc.set_detune(detune);
            for t in 0..2000 {
                let sample = osc.render(t);
                assert!(osc.phase() < TURN);
                assert!(-UNITY <= sample && sample <= UNITY);
            }
        }
    }
}

#[test]
fn phase_stays_in_its_turn_while_parameters_change() {
    let mut osc = Oscillator::new(44_100);
    let mut frequency: i32 = 1;
    for t in 0..5000u64 {
        if t % 7 == 0 {
            frequency = frequency.wrapping_mul(-31).wrapping_add(t as i32);
            osc.set_frequency(frequency);
        }
        if t % 11 == 0 {
            osc.set_detune(frequency.wrapping_mul(17));
        }
        if t % 13 == 0 {
            osc.set_frequency_no_smooth(frequency.wrapping_add(12_345_678));
        }
        osc.render(t);
        assert!(osc.phase() < TURN);
    }
}

#[test]
fn frequency_beyond_the_sample_rate_starts_the_phase_again() {
    let mut osc = Oscillator::new(1);
    osc.set_frequency_no_smooth(UNITY / 2);
    osc.render(0);
    assert_eq!(osc.phase(), TURN / 2);
    let mut osc = Oscillator::new(1);
    osc.set_frequency_no_smooth(UNITY);
    osc.set_phase(5);
    osc.render(0);
    assert_eq!(osc.phase(), 0);
    let mut osc = Oscillator::new(48_000);
    osc.set_frequency_no_smooth(i32::MAX);
    osc.render(0);
    assert_eq!(osc.phase(), 2_932_120_484);
}

#[test]
fn phase_set_outside_the_turn_sounds_as_within_it() {
    let mut osc = Oscillator::new(48_000);
    osc.set_phase(TURN + 5);
    assert_eq!(osc.phase(), TURN + 5);
    assert_eq!(osc.render(0), 0);
    assert_eq!(osc.phase(), 39_460_017);
    osc.set_phase(2 * TURN + TURN / 4);
    assert_eq!(osc.render(1), UNITY);
    assert_eq!(osc.phase(), 0);
    osc.set_phase(u64::MAX);
    assert_eq!(osc.render(2), -6);
    assert_eq!(osc.phase(), 0);
}

#[test]
fn phase_wraps_by_one_turn() {
    let mut osc = Oscillator::new(48_000);
    osc.set_phase(TURN - 1);
    assert_eq!(osc.render(0), -6);
    assert_eq!(osc.phase(), 39_460_011);
}

#[test]
fn phase_step_is_rounded_towards_zero() {
    assert_eq!(phase_step_of(441 * 65_536, 48_000), 39_460_012);
    assert_eq!(phase_step_of(-441 * 65_536, 48_000), -39_460_012);
    assert_eq!(phase_step_of(0, 48_000), 0);
    assert_eq!(phase_step_of(65_536, 1), TURN as i64);
    assert_eq!(phase_step_of(48_000 * 65_536, 48_000), TURN as i64);
    assert_eq!(phase_step_of(1, u32::MAX), 0);
    assert_eq!(phase_step_of(-1, u32::MAX), 0);
    assert_eq!(phase_step_of(0x4000_0000_0000, 1), 0x4000_0000_0000_0000);
}

#[test]
fn wrapping_brings_every_phase_into_the_turn() {
    assert_eq!(wrap_phase(0, 0), 0);
    assert_eq!(wrap_phase(10, 5), 15);
    assert_eq!(wrap_phase(TURN - 1, 1), 0);
    assert_eq!(wrap_phase(TURN - 1, TURN as i64), TURN - 1);
    assert_eq!(wrap_phase(TURN - 1, TURN as i64 + 1), 0);
    assert_eq!(wrap_phase(0, 2 * TURN as i64), 0);
    assert_eq!(wrap_phase(5, -5), 0);
    assert_eq!(wrap_phase(5, -6), 0);
    assert_eq!(wrap_phase(TURN + 7, -7), 0);
    assert_eq!(wrap_phase(TURN + 7, -8), TURN - 1);
    assert_eq!(wrap_phase(u64::MAX, i64::MAX), 0);
    assert_eq!(wrap_phase(u64::MAX, i64::MIN), 0);
    assert_eq!(wrap_phase(0, i64::MIN), 0);
}

#[test]
fn samples_follow_the_sine_table_of_the_phase() {
    let mut osc = Oscillator::new(48_000);
    for t in 0..500 {
        let phase = osc.phase();
        assert_eq!(osc.render(t), sine_of(phase));
    }
}
