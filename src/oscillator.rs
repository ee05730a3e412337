//! The oscillator state owned by the audio side, and the per-frame algorithm
//! that advances it.
use vstd::prelude::*;
use crate::command::Message;
use crate::fixed::{abs, mul_fixed, mul_unit, UNIT};

verus! {

/// One whole cycle of phase: a phase is a fraction `p / PHASE_ONE` of a cycle.
pub const PHASE_ONE: u64 = 0x1_0000_0000;

/// The frequency at start, in millihertz (440 Hz).
pub const DEFAULT_FREQUENCY: u32 = 440_000;

/// The amplitude at start, in fixed point: 0.1, rounded to the nearest step.
pub const DEFAULT_AMPLITUDE: i32 = 6554;

/// The phase step of one frame: `frequency / sample_rate` of a cycle,
/// with the frequency in millihertz, rounded down.
pub open spec fn phase_increment(frequency: nat, sample_rate: nat) -> nat
    recommends
        sample_rate > 0,
{
    (frequency * (PHASE_ONE as nat) / (sample_rate * 1000)) as nat
}

/// The normalized sample `amplitude * gate * sine`, each product in fixed
/// point rounded toward zero.
pub open spec fn normalized_sample(amplitude: int, gate: int, sine: int) -> int {
    mul_unit(mul_unit(amplitude, gate), sine)
}

/// The state of the oscillator.
#[derive(Clone, Copy, Debug, PartialEq, Eq, Structural)]
pub struct Oscillator {
    /// Position in the current cycle, below `PHASE_ONE`.
    pub phase: u64,
    /// Frequency in millihertz.
    pub frequency: u32,
    /// Linear gain in fixed point.
    pub amplitude: i32,
    /// Gate multiplier in fixed point.
    pub gate: i32,
}

impl Oscillator {
    /// The phase lies within one cycle.
    pub open spec fn wf(self) -> bool {
        self.phase < PHASE_ONE
    }

    /// The state after one command: the command's own field takes its value.
    pub open spec fn applied(self, m: Message) -> Oscillator {
        match m {
            Message::Frequency(f) => Oscillator { frequency: f, ..self },
            Message::Amplitude(a) => Oscillator { amplitude: a, ..self },
            Message::Note(g) => Oscillator { gate: g, ..self },
        }
    }

    /// The state after the commands, applied in order.
    pub open spec fn applied_all(self, ms: Seq<Message>) -> Oscillator
        decreases ms.len(),
    {
        if ms.len() == 0 {
            self
        } else {
            self.applied_all(ms.drop_last()).applied(ms.last())
        }
    }

    /// The state after the phase moves on by one frame, wrapped into one cycle.
    pub open spec fn advanced(self, sample_rate: nat) -> Oscillator
        recommends
            sample_rate > 0,
    {
        Oscillator {
            phase: ((self.phase + phase_increment(self.frequency as nat, sample_rate)) % (
            PHASE_ONE as int)) as u64,
            ..self
        }
    }

    /// One frame: the commands drained for it, then the phase step.
    pub open spec fn stepped(self, ms: Seq<Message>, sample_rate: nat) -> Oscillator {
        self.applied_all(ms).advanced(sample_rate)
    }

    /// A run of frames, each with the commands drained for it.
    pub open spec fn run(self, frames: Seq<Seq<Message>>, sample_rate: nat) -> Oscillator
        decreases frames.len(),
    {
        if frames.len() == 0 {
            self
        } else {
            self.run(frames.drop_last(), sample_rate).stepped(frames.last(), sample_rate)
        }
    }

    /// The normalized sample of this state for the sine of its phase.
    pub open spec fn sample_of(self, sine: int) -> int {
        normalized_sample(self.amplitude as int, self.gate as int, sine)
    }

    /// The state at start: phase 0, 440 Hz, amplitude 0.1, gate closed.
    pub fn new() -> (r: Oscillator)
        ensures
            r.wf(),
            r == (Oscillator {
                phase: 0,
                frequency: DEFAULT_FREQUENCY,
                amplitude: DEFAULT_AMPLITUDE,
                gate: 0,
            }),
    {
        Oscillator { phase: 0, frequency: DEFAULT_FREQUENCY, amplitude: DEFAULT_AMPLITUDE, gate: 0 }
    }

    /// Applies one command: a hard step to the new value, no smoothing.
    pub fn apply(&mut self, m: Message)
        ensures
            *final(self) == old(self).applied(m),
    {
        match m {
            Message::Frequency(f) => self.frequency = f,
            Message::Amplitude(a) => self.amplitude = a,
            Message::Note(g) => self.gate = g,
        }
    }

    /// Applies the commands in order: of each kind, the last one wins.
    pub fn apply_all(&mut self, ms: &Vec<Message>)
        ensures
            *final(self) == old(self).applied_all(ms@),
    {
        let mut i: usize = 0;
        while i < ms.len()
            invariant
                i <= ms.len(),
                *self == old(self).applied_all(ms@.take(i as int)),
            decreases ms.len() - i,
        {
            proof {
                assert(ms@.take(i + 1).drop_last() == ms@.take(i as int));
            }
            self.apply(ms[i]);
            i = i + 1;
        }
        proof {
            assert(ms@.take(ms.len() as int) == ms@);
        }
    }

    /// Moves the phase on by one frame at the given sample rate.
    pub fn advance(&mut self, sample_rate: u32)
        requires
            old(self).wf(),
            sample_rate > 0,
        ensures
            final(self).wf(),
            *final(self) == old(self).advanced(sample_rate as nat),
    {
        let f: u64 = self.frequency as u64;
        let den: u64 = sample_rate as u64 * 1000;
        assert(f * PHASE_ONE <= 0xffff_ffff * PHASE_ONE) by (nonlinear_arith)
            requires
                f <= 0xffff_ffff,
        ;
        assert(f * PHASE_ONE / (den as int) <= f * PHASE_ONE / 1000) by (nonlinear_arith)
            requires
                den >= 1000,
                f * PHASE_ONE >= 0,
        ;
        let inc: u64 = f * PHASE_ONE / den;
        self.phase = (self.phase + inc) % PHASE_ONE;
    }

    /// The normalized sample for `sine`, the sine of `2π · phase` in fixed point.
    pub fn sample(&self, sine: i32) -> (r: i64)
        requires
            abs(sine as int) <= UNIT,
        ensures
            r == self.sample_of(sine as int),
            sine == 0 || self.gate == 0 || self.amplitude == 0 ==> r == 0,
            abs(self.gate as int) <= UNIT ==> abs(r as int) <= abs(
                self.amplitude as int,
            ),
    {
        let a: i64 = self.amplitude as i64;
        let g: i64 = self.gate as i64;
        let s: i64 = sine as i64;
        assert(abs(a as int) * abs(g as int) <= 0x8000_0000 * 0x8000_0000) by (nonlinear_arith)
            requires
                abs(a as int) <= 0x8000_0000,
                abs(g as int) <= 0x8000_0000,
        ;
        let t: i64 = mul_fixed(a, g);
        assert(abs(t as int) <= 0x4000_0000_0000) by (nonlinear_arith)
            requires
                abs(t as int) == abs(a as int) * abs(g as int) / (UNIT as int),
                abs(a as int) * abs(g as int) <= 0x8000_0000 * 0x8000_0000,
        ;
        assert(abs(t as int) * abs(s as int) <= 0x4000_0000_0000 * UNIT) by (
        nonlinear_arith)
            requires
                abs(t as int) <= 0x4000_0000_0000,
                abs(s as int) <= UNIT,
        ;
        proof {
            crate::fixed::lemma_mul_unit_le(t as int, s as int);
            if g == 0 || a == 0 {
                crate::fixed::lemma_mul_unit_zero(a as int, g as int);
                crate::fixed::lemma_mul_unit_zero(t as int, s as int);
            }
            if s == 0 {
                crate::fixed::lemma_mul_unit_zero(t as int, s as int);
            }
            if abs(g as int) <= UNIT {
                crate::fixed::lemma_mul_unit_le(a as int, g as int);
            }
        }
        mul_fixed(t, s)
    }
}

} // verus!
