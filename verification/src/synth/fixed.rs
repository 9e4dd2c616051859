//! Powers of fixed-point levels.
//!
//! Each power is the exact power of the real number that the level stands
//! for, rounded toward zero to the next level.

use crate::synth::params::ONE;
use vstd::prelude::*;

verus! {

/// Whether `x` is a level of [0, span).
pub open spec fn within(x: i32, span: int) -> bool {
    0 <= x < span
}

/// Whether `x` is a level of [-1, 1).
pub open spec fn signed_unit(x: i32) -> bool {
    -ONE <= x < ONE
}

/// Computes `within`.
pub fn is_within(x: i32, span: i32) -> (ok: bool)
    ensures
        ok == within(x, span as int),
{
    0 <= x && x < span
}

/// Computes `signed_unit`.
pub fn is_signed_unit(x: i32) -> (ok: bool)
    ensures
        ok == signed_unit(x),
{
    -ONE <= x && x < ONE
}

/// Whether a draw that was made lies in [0, span).
pub fn is_within_if_drawn(draw: Option<i32>, span: i32) -> (ok: bool)
    ensures
        ok == (draw matches Some(v) ==> within(v, span as int)),
{
    match draw {
        Some(v) => is_within(v, span),
        None => true,
    }
}

/// Whether two draws that were made lie in [0, first) and [0, second).
pub fn are_within_if_drawn(draws: Option<(i32, i32)>, first: i32, second: i32) -> (ok: bool)
    ensures
        ok == (draws matches Some(v) ==> within(v.0, first as int) && within(v.1, second as int)),
{
    match draws {
        Some(v) => is_within(v.0, first) && is_within(v.1, second),
        None => true,
    }
}

/// The square of `x`.
pub open spec fn squared(x: int) -> int {
    x * x / (ONE as int)
}

/// The cube of a non-negative `x`.
pub open spec fn cube_of(x: int) -> int {
    x * x * x / 1_000_000_000_000int
}

/// The cube of `x`.
pub open spec fn cubed(x: int) -> int {
    if x < 0 {
        -cube_of(-x)
    } else {
        cube_of(x)
    }
}

/// The fifth power of a non-negative `x`.
pub open spec fn fifth_of(x: int) -> int {
    x * x * x * x * x / 1_000_000_000_000_000_000_000_000int
}

/// The fifth power of `x`.
pub open spec fn fifth(x: int) -> int {
    if x < 0 {
        -fifth_of(-x)
    } else {
        fifth_of(x)
    }
}

/// The magnitude of a level of [-1, 1].
fn span_of(x: i32) -> (m: u128)
    requires
        -ONE <= x <= ONE,
    ensures
        m <= ONE,
        x < 0 ==> m == -x,
        x >= 0 ==> m == x,
{
    if x < 0 {
        (-x) as u128
    } else {
        x as u128
    }
}

/// Computes `squared` on [-1, 1]; the result lies in [0, 1].
pub(crate) fn square_level(x: i32) -> (y: i32)
    requires
        -ONE <= x <= ONE,
    ensures
        y == squared(x as int),
        0 <= y <= ONE,
{
    let m = span_of(x);
    assert(m * m == x * x && m * m <= 1_000_000_000_000) by (nonlinear_arith)
        requires
            m == x || m == -x,
            m <= 1_000_000,
    ;
    (m * m / 1_000_000) as i32
}

/// Computes `cubed` on [-1, 1]; the result lies in [-1, 1] and has the
/// sign of `x` or is 0.
pub(crate) fn cube_level(x: i32) -> (y: i32)
    requires
        -ONE <= x <= ONE,
    ensures
        y == cubed(x as int),
        -ONE <= y <= ONE,
        x >= 0 ==> 0 <= y <= x,
        x < 0 ==> x <= y <= 0,
        x < ONE ==> y < ONE,
{
    let m = span_of(x);
    assert(m * m <= 1_000_000 * m && m * m * m <= 1_000_000_000_000 * m) by (nonlinear_arith)
        requires
            m <= 1_000_000,
    ;
    let cube: u128 = m * m * m / 1_000_000_000_000;
    assert(cube <= m) by (nonlinear_arith)
        requires
            m * m * m <= 1_000_000_000_000 * m,
            cube == (m * m * m) / 1_000_000_000_000,
    ;
    if x < 0 {
        assert(m * m * m == (-x) * (-x) * (-x)) by (nonlinear_arith)
            requires
                m == -x,
        ;
        -(cube as i32)
    } else {
        assert(m * m * m == x * x * x) by (nonlinear_arith)
            requires
                m == x,
        ;
        cube as i32
    }
}

/// Computes `fifth` on [-1, 1]; the result lies in [-1, 1] and has the
/// sign of `x` or is 0.
pub(crate) fn fifth_level(x: i32) -> (y: i32)
    requires
        -ONE <= x <= ONE,
    ensures
        y == fifth(x as int),
        -ONE <= y <= ONE,
        x >= 0 ==> 0 <= y <= x,
        x < 0 ==> x <= y <= 0,
        x < ONE ==> y < ONE,
{
    let m = span_of(x);
    assert(m * m <= 1_000_000 * m && m * m * m <= 1_000_000_000_000 * m && m * m * m * m
        <= 1_000_000_000_000_000_000 * m && m * m * m * m * m
        <= 1_000_000_000_000_000_000_000_000 * m) by (nonlinear_arith)
        requires
            m <= 1_000_000,
    ;
    let power: u128 = m * m * m * m * m / 1_000_000_000_000_000_000_000_000;
    assert(power <= m) by (nonlinear_arith)
        requires
            m * m * m * m * m <= 1_000_000_000_000_000_000_000_000 * m,
            power == (m * m * m * m * m) / 1_000_000_000_000_000_000_000_000,
    ;
    if x < 0 {
        assert(m * m * m * m * m == (-x) * (-x) * (-x) * (-x) * (-x)) by (nonlinear_arith)
            requires
                m == -x,
        ;
        -(power as i32)
    } else {
        assert(m * m * m * m * m == x * x * x * x * x) by (nonlinear_arith)
            requires
                m == x,
        ;
        power as i32
    }
}

/// Powers of a level of [-1, 1] stay in [-1, 1]: a square lies between 0
/// and 1, a cube or fifth power between 0 and the level itself.
pub proof fn lemma_power_bounds(x: int)
    requires
        -ONE <= x <= ONE,
    ensures
        0 <= squared(x) <= ONE,
        x < ONE ==> squared(-x) == squared(x),
        x >= 0 ==> 0 <= cubed(x) <= x,
        x < 0 ==> x <= cubed(x) <= 0,
        x >= 0 ==> 0 <= fifth(x) <= x,
        x < 0 ==> x <= fifth(x) <= 0,
{
    let m = if x < 0 {
        -x
    } else {
        x
    };
    assert(m * m == x * x && (-x) * (-x) == x * x && 0 <= m * m <= 1_000_000 * m && 0 <= m * m
        * m <= 1_000_000_000_000 * m && 0 <= m * m * m * m * m
        <= 1_000_000_000_000_000_000_000_000 * m) by (nonlinear_arith)
        requires
            0 <= m <= 1_000_000,
            m == x || m == -x,
    ;
    assert(0 <= cube_of(m) <= m) by (nonlinear_arith)
        requires
            0 <= m * m * m <= 1_000_000_000_000 * m,
            cube_of(m) == (m * m * m) / 1_000_000_000_000int,
    ;
    assert(0 <= fifth_of(m) <= m) by (nonlinear_arith)
        requires
            0 <= m * m * m * m * m <= 1_000_000_000_000_000_000_000_000 * m,
            fifth_of(m) == (m * m * m * m * m) / 1_000_000_000_000_000_000_000_000int,
    ;
}

} // verus!
