//! Scalars as counts of millionths.
//!
//! `1_500_000` stands for one and a half, `-250_000` for minus a quarter.
//! Quantities that one frame brings (a pointer delta, a time step, a speed, a
//! noise sample) are 32 bits wide; what accumulates over frames (an angle, a
//! position) is 64 bits wide. Divisions round toward zero, so that a quantity
//! and its negative are treated alike.

use vstd::prelude::*;

verus! {

/// One whole, in millionths.
pub const UNIT: i32 = 1_000_000;

/// The quotient of `n` by a positive `d`, rounded toward zero.
pub open spec fn toward_zero(n: int, d: int) -> int {
    if n >= 0 {
        n / d
    } else {
        -((-n) / d)
    }
}

/// The product of two scalars, in millionths again.
pub open spec fn product(a: int, b: int) -> int {
    toward_zero(a * b, UNIT as int)
}

/// The product of three scalars, in millionths again, rounded once.
pub open spec fn product3(a: int, b: int, c: int) -> int {
    toward_zero(a * b * c, UNIT as int * UNIT as int)
}

/// Multiplies two scalars.
pub fn times(a: i32, b: i32) -> (p: i64)
    ensures
        p == product(a as int, b as int),
{
    assert(-0x4000_0000_0000_0000 <= (a as int) * (b as int) <= 0x4000_0000_0000_0000)
        by (nonlinear_arith)
        requires
            -0x8000_0000 <= a as int <= 0x8000_0000,
            -0x8000_0000 <= b as int <= 0x8000_0000,
    ;
    let wide: i64 = (a as i64) * (b as i64);
    wide / (UNIT as i64)
}

/// Multiplies a 64-bit scalar by two 32-bit ones.
pub fn times3(a: i64, b: i32, c: i32) -> (p: i128)
    ensures
        p == product3(a as int, b as int, c as int),
{
    assert(-0x4000_0000_0000_0000_0000_0000 <= (a as int) * (b as int)
        <= 0x4000_0000_0000_0000_0000_0000) by (nonlinear_arith)
        requires
            -0x8000_0000_0000_0000 <= a as int <= 0x8000_0000_0000_0000,
            -0x8000_0000 <= b as int <= 0x8000_0000,
    ;
    let ab: i128 = (a as i128) * (b as i128);
    assert(-0x2000_0000_0000_0000_0000_0000_0000_0000 <= (ab as int) * (c as int)
        <= 0x2000_0000_0000_0000_0000_0000_0000_0000) by (nonlinear_arith)
        requires
            -0x4000_0000_0000_0000_0000_0000 <= ab as int <= 0x4000_0000_0000_0000_0000_0000,
            -0x8000_0000 <= c as int <= 0x8000_0000,
    ;
    let abc: i128 = ab * (c as i128);
    abc / 1_000_000_000_000
}

} // verus!
