//! What holds of every run of the oscillator.
use vstd::prelude::*;
use crate::command::Message;
use crate::fixed::{abs, lemma_mul_unit_le, lemma_mul_unit_zero, UNIT};
use crate::oscillator::Oscillator;

verus! {

/// A run of `n` frames with no command drained in any of them.
pub open spec fn quiet_frames(n: nat) -> Seq<Seq<Message>> {
    Seq::new(n, |i: int| Seq::<Message>::empty())
}

/// Commands never move the phase; a kind of command that does not occur
/// leaves its field as it was.
pub proof fn lemma_applied_all_fields(s: Oscillator, ms: Seq<Message>)
    ensures
        s.applied_all(ms).phase == s.phase,
        (forall|i: int| 0 <= i < ms.len() ==> !(ms[i] is Frequency)) ==> s.applied_all(
            ms,
        ).frequency == s.frequency,
        (forall|i: int| 0 <= i < ms.len() ==> !(ms[i] is Amplitude)) ==> s.applied_all(
            ms,
        ).amplitude == s.amplitude,
    decreases ms.len(),
{
    if ms.len() > 0 {
        lemma_applied_all_fields(s, ms.drop_last());
        assert(forall|i: int| 0 <= i < ms.len() - 1 ==> ms.drop_last()[i] == ms[i]);
    }
}

/// Applying two runs of commands one after the other is applying their
/// concatenation.
pub proof fn lemma_applied_all_concat(s: Oscillator, a: Seq<Message>, b: Seq<Message>)
    ensures
        s.applied_all(a + b) == s.applied_all(a).applied_all(b),
    decreases b.len(),
{
    if b.len() == 0 {
        assert(a + b == a);
    } else {
        assert((a + b).drop_last() == a + b.drop_last());
        lemma_applied_all_concat(s, a, b.drop_last());
    }
}

/// The phase stays within one cycle after every frame, whatever the
/// commands and however many frames.
pub proof fn lemma_phase_stays_in_cycle(s: Oscillator, frames: Seq<Seq<Message>>, sample_rate: nat)
    requires
        s.wf(),
        sample_rate > 0,
    ensures
        s.run(frames, sample_rate).wf(),
    decreases frames.len(),
{
    if frames.len() > 0 {
        lemma_phase_stays_in_cycle(s, frames.drop_last(), sample_rate);
    }
}

/// A closed gate silences the oscillator: its output is zero for every
/// frequency, amplitude and phase.
pub proof fn lemma_gate_silence(s: Oscillator, sine: int)
    requires
        s.gate == 0,
    ensures
        s.sample_of(sine) == 0,
{
    lemma_mul_unit_zero(s.amplitude as int, 0);
    lemma_mul_unit_zero(0, sine);
}

/// For a gate and a sine in `[-1, 1]`, the output is no larger in
/// magnitude than the amplitude.
pub proof fn lemma_amplitude_bound(s: Oscillator, sine: int)
    requires
        abs(s.gate as int) <= UNIT,
        abs(sine) <= UNIT,
    ensures
        abs(s.sample_of(sine)) <= abs(s.amplitude as int),
{
    lemma_mul_unit_le(s.amplitude as int, s.gate as int);
    lemma_mul_unit_le(crate::fixed::mul_unit(s.amplitude as int, s.gate as int), sine);
}

/// Of several frequency commands drained together, the last one wins: a
/// frequency command followed only by commands of other kinds sets the
/// frequency to its own value.
pub proof fn lemma_last_frequency_wins(
    s: Oscillator,
    before: Seq<Message>,
    f: u32,
    after: Seq<Message>,
)
    requires
        forall|i: int| 0 <= i < after.len() ==> !(after[i] is Frequency),
    ensures
        s.applied_all(before.push(Message::Frequency(f)) + after).frequency == f,
{
    let ms = before.push(Message::Frequency(f));
    lemma_applied_all_concat(s, ms, after);
    assert(ms.drop_last() == before);
    lemma_applied_all_fields(s.applied_all(ms), after);
}

/// Gate changes do not touch the phase: a run of frames whose only commands
/// are note commands leaves the phase, frequency and amplitude where a run
/// of as many frames with no commands at all leaves them.
pub proof fn lemma_gate_keeps_phase(s: Oscillator, frames: Seq<Seq<Message>>, sample_rate: nat)
    requires
        forall|i: int, j: int|
            0 <= i < frames.len() && 0 <= j < frames[i].len() ==> frames[i][j] is Note,
    ensures
        s.run(frames, sample_rate).phase == s.run(quiet_frames(frames.len()), sample_rate).phase,
        s.run(frames, sample_rate).frequency == s.run(
            quiet_frames(frames.len()),
            sample_rate,
        ).frequency,
        s.run(frames, sample_rate).amplitude == s.run(
            quiet_frames(frames.len()),
            sample_rate,
        ).amplitude,
    decreases frames.len(),
{
    let n = frames.len();
    if n > 0 {
        let q = quiet_frames(n);
        assert(q.drop_last() == quiet_frames((n - 1) as nat));
        let rest = frames.drop_last();
        assert forall|i: int, j: int|
            0 <= i < rest.len() && 0 <= j < rest[i].len() implies rest[i][j] is Note by {
            assert(rest[i] == frames[i]);
        }
        lemma_gate_keeps_phase(s, rest, sample_rate);
        let last = frames.last();
        assert(forall|j: int| 0 <= j < last.len() ==> last[j] is Note) by {
            assert forall|j: int| 0 <= j < last.len() implies last[j] is Note by {
                assert(frames[n - 1][j] is Note);
            }
        }
        lemma_applied_all_fields(s.run(rest, sample_rate), last);
        let empty = q.last();
        assert(empty.len() == 0);
    }
}

} // verus!
