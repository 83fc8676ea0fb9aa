//! Conversion from the timing-clock coordinates of the original video signal
//! to the pixel grid.
//!
//! The video signal measured 455x262 clocks per frame; after the blanking
//! intervals the active area maps onto 640x480 pixels, which gives 1.68
//! pixels per horizontal clock and 1.95 pixels per vertical clock. In
//! milli-pixels those factors are the exact integers 1680 and 1950, so every
//! conversion below is integer arithmetic; a pixel value is the milli-pixel
//! value divided by 1000, truncated toward zero, exactly as the hardware's
//! pixel alignment falls out.

use vstd::prelude::*;

use vstd::arithmetic::div_mod::lemma_div_is_ordered;
use vstd::arithmetic::div_mod::lemma_div_pos_is_pos;
use vstd::arithmetic::div_mod::lemma_fundamental_div_mod;
use vstd::arithmetic::mul::lemma_mul_inequality;

verus! {

/// Width of the active picture area in pixels.
pub const VIEWPORT_WIDTH_PX: i32 = 640;

/// Height of the active picture area in pixels.
pub const VIEWPORT_HEIGHT_PX: i32 = 480;

/// Milli-pixels per horizontal clock (1.68 px).
pub const MP_PER_HCLK: i32 = 1680;

/// Milli-pixels per vertical clock (1.95 px).
pub const MP_PER_VCLK: i32 = 1950;

/// Length of the horizontal blanking interval in horizontal clocks.
pub const HBLANK: i32 = 81;

/// Length of the vertical blanking interval in vertical clocks.
pub const VBLANK: i32 = 16;

/// The original circuitry left the picture shifted; adding this many
/// horizontal clocks recenters it.
pub const HSHIFT: i32 = 16;

/// Milli-pixels per pixel.
pub const MP_PER_PX: i32 = 1000;

/// Milli-pixels truncated toward zero to whole pixels.
pub open spec fn mp_to_px_spec(mp: int) -> int {
    if mp >= 0 {
        mp / (MP_PER_PX as int)
    } else {
        -((-mp) / (MP_PER_PX as int))
    }
}

/// Horizontal position, in milli-pixels, of a horizontal clock count,
/// measured from the end of the blanking interval and recentered.
pub open spec fn xpos_mp_spec(hclk: int) -> int {
    (hclk - HBLANK + HSHIFT) * MP_PER_HCLK
}

/// Horizontal position in whole pixels.
pub open spec fn xpos_px_spec(hclk: int) -> int {
    mp_to_px_spec(xpos_mp_spec(hclk))
}

/// Width, in milli-pixels, of a span of horizontal clocks (no blanking or
/// shift offset: a duration, not a position).
pub open spec fn hspan_mp_spec(hclk: int) -> int {
    hclk * MP_PER_HCLK
}

/// Width of a span of horizontal clocks in whole pixels.
pub open spec fn hspan_px_spec(hclk: int) -> int {
    mp_to_px_spec(hspan_mp_spec(hclk))
}

/// Vertical position, in milli-pixels, of a vertical clock count, measured
/// from the end of the vertical blanking interval.
pub open spec fn ypos_mp_spec(vclk: int) -> int {
    (vclk - VBLANK) * MP_PER_VCLK
}

/// Vertical position in whole pixels.
pub open spec fn ypos_px_spec(vclk: int) -> int {
    mp_to_px_spec(ypos_mp_spec(vclk))
}

/// Height, in milli-pixels, of a span of vertical clocks.
pub open spec fn vspan_mp_spec(vclk: int) -> int {
    vclk * MP_PER_VCLK
}

/// Height of a span of vertical clocks in whole pixels.
pub open spec fn vspan_px_spec(vclk: int) -> int {
    mp_to_px_spec(vspan_mp_spec(vclk))
}

/// A product with a nonnegative factor keeps the bounds of the other factor.
pub proof fn lemma_scale_bounds(a: int, lo: int, hi: int, c: int)
    requires
        lo <= a <= hi,
        c >= 0,
    ensures
        lo * c <= a * c <= hi * c,
{
    lemma_mul_inequality(lo, a, c);
    lemma_mul_inequality(a, hi, c);
}

/// Truncates a milli-pixel count toward zero to whole pixels.
pub fn mp_to_px(mp: i64) -> (px: i64)
    requires
        mp > i64::MIN,
    ensures
        px == mp_to_px_spec(mp as int),
        mp >= 0 ==> 0 <= px && 1000 * px <= mp < 1000 * px + 1000,
        mp < 0 ==> px <= 0 && 1000 * px - 1000 < mp <= 1000 * px,
{
    proof {
        if mp >= 0 {
            lemma_div_pos_is_pos(mp as int, 1000);
            lemma_fundamental_div_mod(mp as int, 1000);
        } else {
            lemma_div_pos_is_pos(-(mp as int), 1000);
            lemma_fundamental_div_mod(-(mp as int), 1000);
        }
    }
    if mp >= 0 {
        ((mp as u64) / 1000) as i64
    } else {
        let mag: u64 = (-mp) as u64;
        -((mag / 1000) as i64)
    }
}

/// Pixel column at which a horizontal clock count falls, truncated toward
/// zero. The blanking offset is subtracted and the recentering shift added
/// before scaling.
pub fn hclk_to_xpos(hclk: i32) -> (px: i32)
    requires
        -1_000_000_000 <= hclk <= 1_000_000_000,
    ensures
        px == xpos_px_spec(hclk as int),
{
    let base: i64 = hclk as i64 - HBLANK as i64 + HSHIFT as i64;
    proof {
        lemma_scale_bounds(base as int, -1_000_000_065, 1_000_000_065, MP_PER_HCLK as int);
    }
    let mp: i64 = base * MP_PER_HCLK as i64;
    mp_to_px(mp) as i32
}

/// Pixel width of a span of horizontal clocks, truncated toward zero.
pub fn hclk_to_px(hclk: i32) -> (px: i32)
    requires
        -1_000_000_000 <= hclk <= 1_000_000_000,
    ensures
        px == hspan_px_spec(hclk as int),
{
    proof {
        lemma_scale_bounds(hclk as int, -1_000_000_000, 1_000_000_000, MP_PER_HCLK as int);
    }
    let mp: i64 = hclk as i64 * MP_PER_HCLK as i64;
    mp_to_px(mp) as i32
}

/// Pixel row at which a vertical clock count falls, truncated toward zero.
pub fn vclk_to_ypos(vclk: i32) -> (px: i32)
    requires
        -1_000_000_000 <= vclk <= 1_000_000_000,
    ensures
        px == ypos_px_spec(vclk as int),
{
    let base: i64 = vclk as i64 - VBLANK as i64;
    proof {
        lemma_scale_bounds(base as int, -1_000_000_016, 1_000_000_016, MP_PER_VCLK as int);
    }
    let mp: i64 = base * MP_PER_VCLK as i64;
    mp_to_px(mp) as i32
}

/// Pixel height of a span of vertical clocks, truncated toward zero.
pub fn vclk_to_px(vclk: i32) -> (px: i32)
    requires
        -1_000_000_000 <= vclk <= 1_000_000_000,
    ensures
        px == vspan_px_spec(vclk as int),
{
    proof {
        lemma_scale_bounds(vclk as int, -1_000_000_000, 1_000_000_000, MP_PER_VCLK as int);
    }
    let mp: i64 = vclk as i64 * MP_PER_VCLK as i64;
    mp_to_px(mp) as i32
}

/// Truncation toward zero is monotonic: a larger milli-pixel count never
/// lands on a smaller pixel.
pub proof fn lemma_mp_to_px_monotonic(a: int, b: int)
    requires
        a <= b,
    ensures
        mp_to_px_spec(a) <= mp_to_px_spec(b),
{
    if a >= 0 {
        lemma_div_is_ordered(a, b, 1000);
    } else if b >= 0 {
        lemma_div_pos_is_pos(-a, 1000);
        lemma_div_pos_is_pos(b, 1000);
    } else {
        lemma_div_is_ordered(-b, -a, 1000);
    }
}

/// The horizontal position mapping never decreases as the clock count grows:
/// what is later in the scan line is never drawn further left.
pub proof fn lemma_hclk_to_xpos_monotonic(h1: int, h2: int)
    requires
        h1 <= h2,
    ensures
        xpos_px_spec(h1) <= xpos_px_spec(h2),
{
    lemma_mul_inequality(h1 - HBLANK + HSHIFT, h2 - HBLANK + HSHIFT, MP_PER_HCLK as int);
    lemma_mp_to_px_monotonic(xpos_mp_spec(h1), xpos_mp_spec(h2));
}

/// The horizontal span mapping never decreases as the clock count grows: a
/// longer duration is never narrower on screen.
pub proof fn lemma_hclk_to_px_monotonic(h1: int, h2: int)
    requires
        h1 <= h2,
    ensures
        hspan_px_spec(h1) <= hspan_px_spec(h2),
{
    lemma_mul_inequality(h1, h2, MP_PER_HCLK as int);
    lemma_mp_to_px_monotonic(hspan_mp_spec(h1), hspan_mp_spec(h2));
}

} // verus!
