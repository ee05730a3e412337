//! Conversion of a normalized sample into the output stream's own sample
//! representation, and the broadcast of one value into every channel slot.
use vstd::prelude::*;
use crate::fixed::UNIT;

verus! {

/// The sample representations an output stream can ask for.
#[derive(Clone, Copy, Debug, PartialEq, Eq, Structural)]
pub enum SampleFormat {
    Float32,
    Int16,
    UInt16,
}

/// One output sample in the stream's representation. A floating sample is
/// carried as the normalized fixed-point value itself.
#[derive(Clone, Copy, Debug, PartialEq, Eq, Structural)]
pub enum OutputSample {
    Float32(i64),
    Int16(i16),
    UInt16(u16),
}

/// The normalized sample held to the range `[-UNIT, UNIT]`.
pub open spec fn held(s: int) -> int {
    if s > UNIT {
        UNIT as int
    } else if s < -UNIT {
        -UNIT
    } else {
        s
    }
}

/// The signed 16-bit sample: 1.0 maps to `i16::MAX`, -1.0 to `i16::MIN`,
/// each side scaled by its own bound and rounded toward zero.
pub open spec fn i16_of(s: int) -> int {
    let c = held(s);
    if c >= 0 {
        c * 32767 / (UNIT as int)
    } else {
        -((-c) * 32768 / (UNIT as int))
    }
}

/// The unsigned 16-bit sample: `[-1.0, 1.0]` mapped linearly onto
/// `[0, u16::MAX]`, rounded to the nearest value (halves up).
pub open spec fn u16_of(s: int) -> int {
    ((held(s) + UNIT) * 65535 + UNIT) / (2 * UNIT as int)
}

/// The output sample of a normalized sample in a given representation.
pub open spec fn output_of(format: SampleFormat, s: int) -> OutputSample {
    match format {
        SampleFormat::Float32 => OutputSample::Float32(s as i64),
        SampleFormat::Int16 => OutputSample::Int16(i16_of(s) as i16),
        SampleFormat::UInt16 => OutputSample::UInt16(u16_of(s) as u16),
    }
}

fn hold(s: i64) -> (r: i64)
    ensures
        r == held(s as int),
{
    if s > UNIT {
        UNIT
    } else if s < -UNIT {
        -UNIT
    } else {
        s
    }
}

/// Converts a normalized sample to a signed 16-bit sample.
pub fn to_i16(s: i64) -> (r: i16)
    ensures
        r == i16_of(s as int),
        s == UNIT ==> r == i16::MAX,
        s == -UNIT ==> r == i16::MIN,
        s == 0 ==> r == 0,
{
    let c: i64 = hold(s);
    if c >= 0 {
        assert(c * 32767 / (UNIT as int) <= 32767) by (nonlinear_arith)
            requires
                0 <= c <= UNIT,
        ;
        assert(0 <= c * 32767 / (UNIT as int)) by (nonlinear_arith)
            requires
                0 <= c,
        ;
        (c * 32767 / UNIT) as i16
    } else {
        assert((-c) * 32768 / (UNIT as int) <= 32768) by (nonlinear_arith)
            requires
                0 <= -c <= UNIT,
        ;
        assert(0 <= (-c) * 32768 / (UNIT as int)) by (nonlinear_arith)
            requires
                0 <= -c,
        ;
        (-((-c) * 32768 / UNIT)) as i16
    }
}

/// Converts a normalized sample to an unsigned 16-bit sample.
pub fn to_u16(s: i64) -> (r: u16)
    ensures
        r == u16_of(s as int),
        s == UNIT ==> r == u16::MAX,
        s == -UNIT ==> r == 0,
        s == 0 ==> r == 32768,
{
    let c: i64 = hold(s);
    let n: i64 = (c + UNIT) * 65535 + UNIT;
    assert((n as int) / (2 * UNIT as int) <= 65535) by (nonlinear_arith)
        requires
            n == (c + UNIT) * 65535 + UNIT,
            -UNIT <= c <= UNIT,
    ;
    assert(0 <= (n as int) / (2 * UNIT as int)) by (nonlinear_arith)
        requires
            n == (c + UNIT) * 65535 + UNIT,
            -UNIT <= c <= UNIT,
    ;
    (n / (2 * UNIT)) as u16
}

/// Converts a normalized sample to the given representation. A floating
/// sample is the normalized sample itself, with no scaling.
pub fn convert(format: SampleFormat, s: i64) -> (r: OutputSample)
    ensures
        r == output_of(format, s as int),
        format == SampleFormat::Float32 ==> r == OutputSample::Float32(s),
{
    match format {
        SampleFormat::Float32 => OutputSample::Float32(s),
        SampleFormat::Int16 => OutputSample::Int16(to_i16(s)),
        SampleFormat::UInt16 => OutputSample::UInt16(to_u16(s)),
    }
}

/// Writes one value into every channel slot of a frame.
pub fn fill_frame<T: Copy>(frame: &mut [T], value: T)
    ensures
        final(frame)@.len() == old(frame)@.len(),
        forall|i: int| 0 <= i < final(frame)@.len() ==> final(frame)@[i] == value,
{
    let n: usize = frame.len();
    let mut i: usize = 0;
    while i < n
        invariant
            n == frame@.len(),
            n == old(frame)@.len(),
            i <= n,
            forall|j: int| 0 <= j < i ==> frame@[j] == value,
        decreases n - i,
    {
        frame[i] = value;
        i = i + 1;
    }
}

} // verus!
