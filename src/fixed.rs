//! Fixed-point arithmetic with [`UNIT`] standing for 1.0.
use vstd::prelude::*;

verus! {

/// The fixed-point value of 1.0.
pub const UNIT: i64 = 65536;

pub open spec fn abs(x: int) -> int {
    if x < 0 {
        -x
    } else {
        x
    }
}

/// The product of two fixed-point values, rounded toward zero.
pub open spec fn mul_unit(x: int, y: int) -> int {
    let m = abs(x) * abs(y) / (UNIT as int);
    if (x < 0) != (y < 0) {
        -m
    } else {
        m
    }
}

pub proof fn lemma_mul_unit_le(x: int, y: int)
    requires
        abs(y) <= UNIT,
    ensures
        abs(mul_unit(x, y)) <= abs(x),
{
    let ax = abs(x);
    let ay = abs(y);
    assert(ax * ay <= ax * (UNIT as int)) by (nonlinear_arith)
        requires
            0 <= ax,
            0 <= ay <= UNIT,
    ;
    assert(ax * ay / (UNIT as int) <= ax) by (nonlinear_arith)
        requires
            0 <= ax * ay <= ax * (UNIT as int),
    ;
    assert(0 <= ax * ay) by (nonlinear_arith)
        requires
            0 <= ax,
            0 <= ay,
    ;
}

/// A product with a zero factor is zero.
pub proof fn lemma_mul_unit_zero(x: int, y: int)
    requires
        x == 0 || y == 0,
    ensures
        mul_unit(x, y) == 0,
{
    assert(abs(x) * abs(y) == 0) by (nonlinear_arith)
        requires
            abs(x) == 0 || abs(y) == 0,
    ;
}

/// Multiplies two fixed-point values, rounding toward zero.
pub fn mul_fixed(x: i64, y: i64) -> (r: i64)
    requires
        abs(x as int) * abs(y as int) <= 0x7fff_ffff_ffff_ffff,
    ensures
        r == mul_unit(x as int, y as int),
        abs(r as int) == abs(x as int) * abs(y as int) / (UNIT as int),
        abs(y as int) <= UNIT ==> abs(r as int) <= abs(x as int),
{
    proof {
        if abs(y as int) <= UNIT {
            lemma_mul_unit_le(x as int, y as int);
        }
        assert(0 <= abs(x as int) * abs(y as int)) by (nonlinear_arith);
    }
    let ax: u64 = if x < 0 {
        (0i128 - x as i128) as u64
    } else {
        x as u64
    };
    let ay: u64 = if y < 0 {
        (0i128 - y as i128) as u64
    } else {
        y as u64
    };
    let m: u64 = ax * ay / (UNIT as u64);
    if (x < 0) != (y < 0) {
        -(m as i64)
    } else {
        m as i64
    }
}

} // verus!
