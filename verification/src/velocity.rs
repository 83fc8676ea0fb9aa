//! The discrete velocity model of the ball.
//!
//! Velocities are not continuous values but small signed classes indexing a
//! lookup table of screen fractions per second. Vertical classes range over
//! -3..=3; the table is slightly asymmetric, as the original diode matrix
//! was. The horizontal class magnitude is a step function of the hit
//! counter, so rallies speed up. Speeds are stated in per-mille of the
//! viewport dimension per second, which makes them exact integers.

use vstd::prelude::*;

use vstd::arithmetic::mul::lemma_mul_inequality;
use vstd::arithmetic::mul::lemma_mul_upper_bound;
use vstd::arithmetic::div_mod::lemma_div_is_ordered;
use vstd::arithmetic::div_mod::lemma_div_pos_is_pos;

verus! {

/// Vertical speed, in per-mille screen heights per second, of a vertical
/// velocity class. Positive classes move down the screen. A class outside
/// -3..=3 has no table entry and defensively maps to standstill.
pub open spec fn yclass_permille_spec(c: int) -> int {
    if c == -3 {
        -695
    } else if c == -2 {
        -462
    } else if c == -1 {
        -226
    } else if c == 1 {
        228
    } else if c == 2 {
        455
    } else if c == 3 {
        680
    } else {
        0
    }
}

/// Vertical speed of a velocity class, per-mille screen heights per second.
pub fn yclass_permille(c: i8) -> (p: i32)
    ensures
        p == yclass_permille_spec(c as int),
        -695 <= p <= 695,
{
    match c {
        -3 => -695,
        -2 => -462,
        -1 => -226,
        1 => 228,
        2 => 455,
        3 => 680,
        _ => 0,
    }
}

/// Horizontal velocity class magnitude for a hit count: rallies start at
/// magnitude 1, speed up after the fourth hit and again after the twelfth.
pub open spec fn xmag_spec(hits: int) -> int {
    if hits < 4 {
        1
    } else if hits < 12 {
        2
    } else {
        3
    }
}

/// Horizontal velocity class magnitude for a hit count.
pub fn xmag_for_hits(hits: u64) -> (m: u32)
    ensures
        m == xmag_spec(hits as int),
        1 <= m <= 3,
{
    if hits < 4 {
        1
    } else if hits < 12 {
        2
    } else {
        3
    }
}

/// Horizontal speed, in per-mille screen widths per second, of a horizontal
/// velocity class magnitude. Magnitudes outside the table map to standstill.
pub open spec fn xmag_permille_spec(m: int) -> int {
    if m == 1 {
        260
    } else if m == 2 {
        390
    } else if m == 3 {
        530
    } else {
        0
    }
}

/// Horizontal speed of a velocity class magnitude, per-mille screen widths
/// per second.
pub fn xmag_permille(m: u32) -> (p: u32)
    ensures
        p == xmag_permille_spec(m as int),
        p <= 530,
{
    match m {
        1 => 260,
        2 => 390,
        3 => 530,
        _ => 0,
    }
}

/// Distance covered in one frame, in milli-pixels: the per-mille speed times
/// the viewport dimension gives milli-pixels per second, which over a frame
/// of `delta_ms` milliseconds is `permille * dim_px * delta_ms / 1000`,
/// truncated.
pub open spec fn frame_delta_mp_spec(permille: int, dim_px: int, delta_ms: int) -> int {
    (permille * dim_px * delta_ms) / 1000
}

/// Distance covered in one frame, in milli-pixels, of a body moving at
/// `permille` thousandths of the viewport dimension per second.
pub fn frame_delta_mp(permille: u32, dim_px: u32, delta_ms: u32) -> (d: u64)
    requires
        permille <= 1000,
        dim_px <= 1000,
    ensures
        d == frame_delta_mp_spec(permille as int, dim_px as int, delta_ms as int),
        d <= (permille as int) * (dim_px as int) * (delta_ms as int),
        d <= 1000 * (delta_ms as int),
{
    proof {
        lemma_mul_upper_bound(permille as int, 1000, dim_px as int, 1000);
        lemma_mul_inequality(
            (permille as int) * (dim_px as int),
            1_000_000,
            delta_ms as int,
        );
        let product = (permille as int) * (dim_px as int) * (delta_ms as int);
        vstd::arithmetic::mul::lemma_mul_nonnegative(permille as int, dim_px as int);
        vstd::arithmetic::mul::lemma_mul_nonnegative(
            (permille as int) * (dim_px as int),
            delta_ms as int,
        );
        lemma_div_pos_is_pos(product, 1000);
        vstd::arithmetic::div_mod::lemma_div_nonincreasing(product, 1000);
        lemma_div_is_ordered(product, 1_000_000 * (delta_ms as int), 1000);
        assert(1_000_000 * (delta_ms as int) / 1000 == 1000 * (delta_ms as int)) by {
            vstd::arithmetic::div_mod::lemma_div_by_multiple(
                1000 * (delta_ms as int),
                1000,
            );
            assert(1_000_000 * (delta_ms as int) == (1000 * (delta_ms as int)) * 1000)
                by (nonlinear_arith);
        }
    }
    let product: u64 = permille as u64 * dim_px as u64 * delta_ms as u64;
    product / 1000
}

/// The horizontal speed of the ball never drops as the rally goes on: both
/// the velocity class magnitude and its per-mille speed are non-decreasing
/// step functions of the hit counter.
pub proof fn lemma_speed_monotonic_in_hits(h1: int, h2: int)
    requires
        h1 <= h2,
    ensures
        xmag_spec(h1) <= xmag_spec(h2),
        xmag_permille_spec(xmag_spec(h1)) <= xmag_permille_spec(xmag_spec(h2)),
{
}

} // verus!
