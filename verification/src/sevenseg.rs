//! The seven-segment score display.
//!
//! Each digit is drawn from up to seven bar segments, named and ordered
//! `[a, b, c, d, e, f, g]`:
//!
//! ```text
//!    _a_
//! f |_g_| b
//! e |___| c
//!     d
//! ```
//!
//! The digit-to-segment table is bit-exact: each decimal digit maps to a
//! fixed on/off pattern. The score windows sit 32 vertical clocks from the
//! top; the left player's ones digit starts at 175 horizontal clocks, the
//! right player's at 367, and a tens digit sits 32 clocks left of its ones
//! digit. It is drawn only when nonzero.

use vstd::prelude::*;

use crate::geom::Rect;

verus! {

/// Horizontal clock of the left player's ones digit.
pub const LEFT_ONES_HCLK: i32 = 175;

/// Horizontal clock of the right player's ones digit.
pub const RIGHT_ONES_HCLK: i32 = 367;

/// Vertical clock of the top of the score windows.
pub const SCORE_VCLK: i32 = 32;

/// The on/off pattern `[a, b, c, d, e, f, g]` of a decimal digit.
pub open spec fn digit_pattern_spec(n: int) -> Seq<i8> {
    if n == 0 {
        seq![1i8, 1i8, 1i8, 1i8, 1i8, 1i8, 0i8]
    } else if n == 1 {
        seq![0i8, 1i8, 1i8, 0i8, 0i8, 0i8, 0i8]
    } else if n == 2 {
        seq![1i8, 1i8, 0i8, 1i8, 1i8, 0i8, 1i8]
    } else if n == 3 {
        seq![1i8, 1i8, 1i8, 1i8, 0i8, 0i8, 1i8]
    } else if n == 4 {
        seq![0i8, 1i8, 1i8, 0i8, 0i8, 1i8, 1i8]
    } else if n == 5 {
        seq![1i8, 0i8, 1i8, 1i8, 0i8, 1i8, 1i8]
    } else if n == 6 {
        seq![1i8, 0i8, 1i8, 1i8, 1i8, 1i8, 1i8]
    } else if n == 7 {
        seq![1i8, 1i8, 1i8, 0i8, 0i8, 0i8, 0i8]
    } else if n == 8 {
        seq![1i8, 1i8, 1i8, 1i8, 1i8, 1i8, 1i8]
    } else {
        seq![1i8, 1i8, 1i8, 0i8, 0i8, 1i8, 1i8]
    }
}

/// The segment pattern `[a, b, c, d, e, f, g]` of a decimal digit, or
/// nothing for a value that is not a decimal digit.
pub fn n_to_seven_segment(n: i32) -> (r: Option<[i8; 7]>)
    ensures
        (0 <= n <= 9) <==> r is Some,
        r matches Some(p) ==> p@ == digit_pattern_spec(n as int),
{
    let r: Option<[i8; 7]> = match n {
        0 => Some([1, 1, 1, 1, 1, 1, 0]),
        1 => Some([0, 1, 1, 0, 0, 0, 0]),
        2 => Some([1, 1, 0, 1, 1, 0, 1]),
        3 => Some([1, 1, 1, 1, 0, 0, 1]),
        4 => Some([0, 1, 1, 0, 0, 1, 1]),
        5 => Some([1, 0, 1, 1, 0, 1, 1]),
        6 => Some([1, 0, 1, 1, 1, 1, 1]),
        7 => Some([1, 1, 1, 0, 0, 0, 0]),
        8 => Some([1, 1, 1, 1, 1, 1, 1]),
        9 => Some([1, 1, 1, 0, 0, 1, 1]),
        _ => None,
    };
    proof {
        if 0 <= n <= 9 {
            assert(r matches Some(p) && p@ =~= digit_pattern_spec(n as int));
        }
    }
    r
}

/// Offset and span, in timing clocks, of segment `i` of a digit whose
/// top-left corner is at `(hclk, SCORE_VCLK)`.
pub open spec fn seg_rect_spec(hclk: int, i: int) -> Rect {
    if i == 0 {
        Rect::from_clk_spec(hclk, 32, 16, 4)
    } else if i == 1 {
        Rect::from_clk_spec(hclk + 12, 32, 4, 16)
    } else if i == 2 {
        Rect::from_clk_spec(hclk + 12, 32int + 16, 4, 16)
    } else if i == 3 {
        Rect::from_clk_spec(hclk, 32int + 29, 16, 4)
    } else if i == 4 {
        Rect::from_clk_spec(hclk, 32int + 16, 4, 16)
    } else if i == 5 {
        Rect::from_clk_spec(hclk, 32, 4, 16)
    } else {
        Rect::from_clk_spec(hclk, 32int + 13, 16, 4)
    }
}

/// The rectangles of the lit segments of one digit at `hclk`, in segment
/// order `a` through `g`.
pub open spec fn digit_rects_spec(hclk: int, n: int) -> Seq<Rect> {
    let p = digit_pattern_spec(n);
    (if p[0] == 1 {
        seq![seg_rect_spec(hclk, 0)]
    } else {
        Seq::<Rect>::empty()
    }) + (if p[1] == 1 {
        seq![seg_rect_spec(hclk, 1)]
    } else {
        Seq::<Rect>::empty()
    }) + (if p[2] == 1 {
        seq![seg_rect_spec(hclk, 2)]
    } else {
        Seq::<Rect>::empty()
    }) + (if p[3] == 1 {
        seq![seg_rect_spec(hclk, 3)]
    } else {
        Seq::<Rect>::empty()
    }) + (if p[4] == 1 {
        seq![seg_rect_spec(hclk, 4)]
    } else {
        Seq::<Rect>::empty()
    }) + (if p[5] == 1 {
        seq![seg_rect_spec(hclk, 5)]
    } else {
        Seq::<Rect>::empty()
    }) + (if p[6] == 1 {
        seq![seg_rect_spec(hclk, 6)]
    } else {
        Seq::<Rect>::empty()
    })
}

/// Appends the rectangles of the lit segments of the digit `n` drawn at
/// `hclk`, in segment order.
#[verifier::rlimit(50)]
pub fn push_digit_rects(out: &mut Vec<Rect>, hclk: i32, n: u32)
    requires
        n <= 9,
        0 <= hclk <= 100_000,
    ensures
        final(out)@ == old(out)@ + digit_rects_spec(hclk as int, n as int),
{
    let pattern: [i8; 7] = match n_to_seven_segment(n as i32) {
        Some(p) => p,
        None => vstd::pervasive::unreached(),
    };
    if pattern[0] == 1 {
        out.push(Rect::from_clk(hclk, SCORE_VCLK, 16, 4));
    }
    if pattern[1] == 1 {
        out.push(Rect::from_clk(hclk + 12, SCORE_VCLK, 4, 16));
    }
    if pattern[2] == 1 {
        out.push(Rect::from_clk(hclk + 12, SCORE_VCLK + 16, 4, 16));
    }
    if pattern[3] == 1 {
        out.push(Rect::from_clk(hclk, SCORE_VCLK + 29, 16, 4));
    }
    if pattern[4] == 1 {
        out.push(Rect::from_clk(hclk, SCORE_VCLK + 16, 4, 16));
    }
    if pattern[5] == 1 {
        out.push(Rect::from_clk(hclk, SCORE_VCLK, 4, 16));
    }
    if pattern[6] == 1 {
        out.push(Rect::from_clk(hclk, SCORE_VCLK + 13, 16, 4));
    }
    proof {
        assert(out@ =~= old(out)@ + digit_rects_spec(hclk as int, n as int));
    }
}

/// The rectangles of one player's score: the tens digit (only when nonzero)
/// 32 clocks left of the ones digit, then the ones digit.
pub open spec fn player_rects_spec(ones_hclk: int, score: int) -> Seq<Rect> {
    (if score / 10 != 0 {
        digit_rects_spec(ones_hclk - 32, score / 10)
    } else {
        Seq::<Rect>::empty()
    }) + digit_rects_spec(ones_hclk, score % 10)
}

/// Appends the rectangles of one player's score digits.
pub fn push_player_rects(out: &mut Vec<Rect>, ones_hclk: i32, score: u32)
    requires
        score <= 99,
        32 <= ones_hclk <= 100_000,
    ensures
        final(out)@ == old(out)@ + player_rects_spec(ones_hclk as int, score as int),
{
    let tens: u32 = score / 10;
    let ones: u32 = score % 10;
    if tens != 0 {
        push_digit_rects(out, ones_hclk - 32, tens);
    }
    push_digit_rects(out, ones_hclk, ones);
    proof {
        assert(out@ =~= old(out)@ + player_rects_spec(ones_hclk as int, score as int));
    }
}

/// The rectangles of the whole score display, left player first.
pub open spec fn score_rects_spec(left_score: int, right_score: int) -> Seq<Rect> {
    player_rects_spec(LEFT_ONES_HCLK as int, left_score)
        + player_rects_spec(RIGHT_ONES_HCLK as int, right_score)
}

/// The rectangles of the whole score display: the left player's digits at
/// their window, then the right player's at theirs.
pub fn score_rects(left_score: u32, right_score: u32) -> (r: Vec<Rect>)
    requires
        left_score <= 99,
        right_score <= 99,
    ensures
        r@ == score_rects_spec(left_score as int, right_score as int),
{
    let mut r: Vec<Rect> = Vec::new();
    push_player_rects(&mut r, LEFT_ONES_HCLK, left_score);
    push_player_rects(&mut r, RIGHT_ONES_HCLK, right_score);
    proof {
        assert(r@ =~= score_rects_spec(left_score as int, right_score as int));
    }
    r
}

} // verus!
