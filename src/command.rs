//! The control changes that travel from the control side to the audio side.
use vstd::prelude::*;
use crate::fixed::UNIT;

verus! {

/// One control change for the oscillator.
#[derive(Clone, Copy, Debug, PartialEq, Eq, Structural)]
pub enum Message {
    /// Target frequency, in millihertz.
    Frequency(u32),
    /// Target linear gain, in fixed point (`UNIT` is 1.0); stored as sent.
    Amplitude(i32),
    /// Gate value, in fixed point: conventionally 0 (silent) or `UNIT` (sounding).
    Note(i32),
}

/// A change of one of the two knobs of the control panel, as a knob
/// position in fixed point (0 is the low end, `UNIT` the high end).
#[derive(Clone, Copy, Debug, PartialEq, Eq, Structural)]
pub enum AppEvent {
    SetAmplitude(i32),
    SetFrequency(u32),
}

/// The lowest frequency the frequency knob reaches, in millihertz.
pub const KNOB_LOW_MILLIHERTZ: u32 = 440_000;

/// The highest frequency the frequency knob reaches, in millihertz.
pub const KNOB_HIGH_MILLIHERTZ: u32 = 2_000_000;

/// The frequency that a frequency-knob position selects: the knob's range
/// mapped linearly onto the low..high frequency span, rounded down, with
/// positions past the high end held there.
pub open spec fn knob_frequency(knob: nat) -> int {
    let k = if knob > UNIT {
        UNIT as int
    } else {
        knob as int
    };
    KNOB_LOW_MILLIHERTZ + k * (KNOB_HIGH_MILLIHERTZ - KNOB_LOW_MILLIHERTZ) / (UNIT as int)
}

/// The frequency, in millihertz, that a frequency-knob position selects.
pub fn frequency_for_knob(knob: u32) -> (r: u32)
    ensures
        r == knob_frequency(knob as nat),
        KNOB_LOW_MILLIHERTZ <= r <= KNOB_HIGH_MILLIHERTZ,
{
    let k: u64 = if knob as u64 > UNIT as u64 {
        UNIT as u64
    } else {
        knob as u64
    };
    let span: u64 = (KNOB_HIGH_MILLIHERTZ - KNOB_LOW_MILLIHERTZ) as u64;
    assert(k * span <= (UNIT as int) * span) by (nonlinear_arith)
        requires
            k <= UNIT,
            0 <= span,
    ;
    assert(k * span / (UNIT as int) <= span) by (nonlinear_arith)
        requires
            0 <= k * span <= (UNIT as int) * span,
    ;
    assert(0 <= k * span / (UNIT as int)) by (nonlinear_arith)
        requires
            0 <= k,
            0 <= span,
    ;
    let step: u64 = k * span / (UNIT as u64);
    KNOB_LOW_MILLIHERTZ + step as u32
}

/// The command that a press (`true`) or release (`false`) of the note key sends.
pub fn note_for_key(pressed: bool) -> (r: Message)
    ensures
        r == (if pressed {
            Message::Note(UNIT as i32)
        } else {
            Message::Note(0)
        }),
{
    if pressed {
        Message::Note(UNIT as i32)
    } else {
        Message::Note(0)
    }
}

} // verus!
