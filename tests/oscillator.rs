use audio_synth::command::Message;
use audio_synth::fixed::{mul_fixed, UNIT};
use audio_synth::oscillator::{Oscillator, DEFAULT_AMPLITUDE, DEFAULT_FREQUENCY, PHASE_ONE};

fn sine_of(phase: u64) -> i32 {
    let x = 2.0 * std::f64::consts::PI * (phase as f64) / (PHASE_ONE as f64);
    (x.sin() * UNIT as f64).round() as i32
}

#[test]
fn starts_with_defaults() {
    let o = Oscillator::new();
    assert_eq!(o.phase, 0);
    assert_eq!(o.frequency, 440_000);
    assert_eq!(o.frequency, DEFAULT_FREQUENCY);
    assert_eq!(o.amplitude, DEFAULT_AMPLITUDE);
    assert_eq!(o.gate, 0);
}

#[test]
fn phase_stays_within_one_cycle() {
    let mut o = Oscillator::new();
    let freqs: [u32; 5] = [0, 440_000, 19_999_000, 47_999_999, u32::MAX];
    for f in freqs {
        o.apply(Message::Frequency(f));
        for _ in 0..1000 {
            o.advance(48_000);
            assert!(o.phase < PHASE_ONE);
        }
    }
}

#[test]
fn phase_wraps_rather_than_clamps() {
    let mut o = Oscillator::new();
    // a quarter of the sample rate: four frames make a whole cycle
    o.apply(Message::Frequency(12_000_000));
    o.advance(48_000);
    assert_eq!(o.phase, PHASE_ONE / 4);
    o.advance(48_000);
    o.advance(48_000);
    assert_eq!(o.phase, 3 * PHASE_ONE / 4);
    o.advance(48_000);
    assert_eq!(o.phase, 0);
    o.advance(48_000);
    assert_eq!(o.phase, PHASE_ONE / 4);
}

#[test]
fn zero_frequency_freezes_phase() {
    let mut o = Oscillator::new();
    o.advance(48_000);
    let p = o.phase;
    o.apply(Message::Frequency(0));
    o.apply(Message::Note(UNIT as i32));
    for _ in 0..10 {
        o.advance(48_000);
    }
    assert_eq!(o.phase, p);
    assert_ne!(o.sample(sine_of(o.phase)), 0);
}

#[test]
fn gate_closed_is_silent() {
    let mut o = Oscillator::new();
    o.apply(Message::Amplitude(7 * UNIT as i32));
    o.apply(Message::Frequency(1_000_000));
    for _ in 0..100 {
        o.advance(44_100);
        assert_eq!(o.sample(sine_of(o.phase)), 0);
    }
    assert_eq!(o.sample(UNIT as i32), 0);
    assert_eq!(o.sample(-(UNIT as i32)), 0);
}

#[test]
fn sample_is_bounded_by_amplitude() {
    let mut o = Oscillator::new();
    o.apply(Message::Note(UNIT as i32));
    for a in [0i32, 1, 6554, 65536, -65536, 40_000, i32::MAX, i32::MIN] {
        o.apply(Message::Amplitude(a));
        for s in [-(UNIT as i32), -1, 0, 1, 12_345, UNIT as i32] {
            let v = o.sample(s);
            assert!(v.abs() <= (a as i64).abs());
        }
    }
    o.apply(Message::Amplitude(UNIT as i32));
    assert_eq!(o.sample(UNIT as i32), UNIT);
    assert_eq!(o.sample(-(UNIT as i32)), -UNIT);
}

#[test]
fn gate_is_a_continuous_multiplier() {
    let mut o = Oscillator::new();
    o.apply(Message::Amplitude(UNIT as i32));
    o.apply(Message::Note((UNIT / 2) as i32));
    assert_eq!(o.sample(UNIT as i32), UNIT / 2);
    o.apply(Message::Note(-(UNIT as i32)));
    assert_eq!(o.sample(UNIT as i32), -UNIT);
}

#[test]
fn last_frequency_wins() {
    let mut o = Oscillator::new();
    o.apply_all(&vec![Message::Frequency(100_000), Message::Frequency(200_000)]);
    assert_eq!(o.frequency, 200_000);
}

#[test]
fn drained_commands_apply_in_order() {
    let mut o = Oscillator::new();
    o.apply_all(&vec![
        Message::Amplitude(100),
        Message::Note(UNIT as i32),
        Message::Frequency(1),
        Message::Amplitude(200),
        Message::Note(0),
    ]);
    assert_eq!(o.amplitude, 200);
    assert_eq!(o.gate, 0);
    assert_eq!(o.frequency, 1);
    assert_eq!(o.phase, 0);
    o.apply_all(&vec![]);
    assert_eq!(o.amplitude, 200);
}

#[test]
fn gate_toggling_keeps_phase() {
    let mut toggled = Oscillator::new();
    let mut steady = Oscillator::new();
    toggled.apply(Message::Note(UNIT as i32));
    steady.apply(Message::Note(UNIT as i32));
    for n in 0..500 {
        if n == 100 {
            toggled.apply(Message::Note(0));
        }
        if n == 300 {
            toggled.apply(Message::Note(UNIT as i32));
        }
        toggled.advance(48_000);
        steady.advance(48_000);
        assert_eq!(toggled.phase, steady.phase);
    }
    assert_eq!(toggled, steady);
}

#[test]
fn one_frame_after_note_on() {
    let mut o = Oscillator::new();
    o.apply(Message::Note(UNIT as i32));
    o.advance(48_000);
    // 440 / 48000 of a cycle, rounded down
    assert_eq!(o.phase, 39_370_533);
    let phase = o.phase as f64 / PHASE_ONE as f64;
    assert!((phase - 0.009167).abs() < 1e-6);
    let s = o.sample(sine_of(o.phase)) as f64 / UNIT as f64;
    assert!((s - 0.00575).abs() < 1e-4);
}

#[test]
fn fixed_product_rounds_toward_zero() {
    assert_eq!(mul_fixed(UNIT, UNIT), UNIT);
    assert_eq!(mul_fixed(3, UNIT / 2), 1);
    assert_eq!(mul_fixed(-3, UNIT / 2), -1);
    assert_eq!(mul_fixed(3, -(UNIT / 2)), -1);
    assert_eq!(mul_fixed(-3, -(UNIT / 2)), 1);
    assert_eq!(mul_fixed(2 * UNIT, 3 * UNIT), 6 * UNIT);
    assert_eq!(mul_fixed(0, 5), 0);
}
