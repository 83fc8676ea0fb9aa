//! The paddle: a vertically clamped bat with a seven-segment collision face.
//!
//! A paddle is four horizontal clocks wide and sixteen vertical clocks tall,
//! fixed at its side's column. Its face is divided into seven vertical
//! segments; the segment the ball strikes decides the ball's outgoing
//! vertical velocity class, from -3 at the top edge through 0 in the wide
//! middle band to 3 at the bottom edge. Movement is rate-based - one screen
//! height per second while the input is held - and clamped so the paddle
//! stays between the score line and the bottom margin.

use vstd::prelude::*;

use crate::coord::MP_PER_VCLK;
use crate::coord::VIEWPORT_HEIGHT_PX;
use crate::coord::vspan_px_spec;
use crate::coord::xpos_mp_spec;
use crate::coord::ypos_mp_spec;
use crate::Side;

verus! {

/// Top clamp of a paddle in milli-pixels: the score line at 32 vertical
/// clocks, 16 of them after the blanking interval, at 1950 milli-pixels each.
pub const PADDLE_MIN_Y_MP: i64 = 16 * 1950;

/// Bottom clamp of a paddle in milli-pixels: a paddle height and a
/// sixteen-clock margin (each 31 whole pixels) above the bottom edge.
pub const PADDLE_MAX_Y_MP: i64 = (480 - 31 - 31) * 1000;

/// Starting row of a paddle in milli-pixels: 120 vertical clocks, 104 of
/// them after the blanking interval.
pub const PADDLE_START_Y_MP: i64 = 104 * 1950;

/// Column of the left paddle in milli-pixels: 128 horizontal clocks, 63 of
/// them after blanking and recentering, at 1680 milli-pixels each.
pub const PADDLE_X_LEFT_MP: i64 = 63 * 1680;

/// Column of the right paddle in milli-pixels: 384 horizontal clocks, 319
/// of them after blanking and recentering.
pub const PADDLE_X_RIGHT_MP: i64 = 319 * 1680;

/// Width of a paddle in milli-pixels: four horizontal clocks.
pub const PADDLE_W_MP: i64 = 4 * 1680;

/// Height of a paddle in milli-pixels: sixteen vertical clocks.
pub const PADDLE_H_MP: i64 = 16 * 1950;

/// The paddle constants are the timing-clock landmarks in milli-pixels: the
/// clamps are the score line and a sixteen-clock bottom margin, the start row
/// is mid-screen, and the columns are the paddle trigger clocks of each side.
pub proof fn lemma_paddle_consts()
    ensures
        PADDLE_MIN_Y_MP == ypos_mp_spec(32),
        PADDLE_MAX_Y_MP == (VIEWPORT_HEIGHT_PX - vspan_px_spec(16) - vspan_px_spec(16)) * 1000,
        PADDLE_START_Y_MP == ypos_mp_spec(120),
        PADDLE_X_LEFT_MP == xpos_mp_spec(128),
        PADDLE_X_RIGHT_MP == xpos_mp_spec(128int + 256),
        PADDLE_H_MP == 16 * MP_PER_VCLK,
        PADDLE_W_MP == 4 * crate::coord::MP_PER_HCLK,
{
}

/// A player's paddle: its side and its vertical position in milli-pixels.
#[derive(Clone, Copy, PartialEq, Eq, Structural, Debug)]
pub struct Paddle {
    pub side: Side,
    pub y_mp: i64,
}

/// One movement intent, with the frame time in milliseconds over which the
/// input was held.
#[derive(Clone, Copy, PartialEq, Eq, Structural, Debug)]
pub enum PaddleMove {
    Up(u32),
    Down(u32),
}

impl Paddle {
    /// A paddle is well formed when its position sits between the clamps.
    pub open spec fn wf(self) -> bool {
        PADDLE_MIN_Y_MP <= self.y_mp <= PADDLE_MAX_Y_MP
    }

    /// A new paddle for the given side, at the starting row.
    pub fn new(side: Side) -> (p: Paddle)
        ensures
            p == (Paddle { side, y_mp: PADDLE_START_Y_MP }),
            p.wf(),
    {
        Paddle { side, y_mp: PADDLE_START_Y_MP }
    }

    /// The fixed column of this paddle, by its side.
    pub open spec fn x_mp_spec(self) -> i64 {
        match self.side {
            Side::Left => PADDLE_X_LEFT_MP,
            Side::Right => PADDLE_X_RIGHT_MP,
        }
    }

    /// The fixed column of this paddle in milli-pixels.
    pub fn x_mp(&self) -> (x: i64)
        ensures
            x == self.x_mp_spec(),
    {
        match self.side {
            Side::Left => PADDLE_X_LEFT_MP,
            Side::Right => PADDLE_X_RIGHT_MP,
        }
    }

    /// Where an upward move over `delta_ms` milliseconds puts the paddle:
    /// one screen height per second, clamped at the score line.
    pub open spec fn moved_up_spec(self, delta_ms: int) -> Paddle {
        let target = self.y_mp - (VIEWPORT_HEIGHT_PX as int) * delta_ms;
        Paddle {
            y_mp: if target >= PADDLE_MIN_Y_MP {
                target as i64
            } else {
                PADDLE_MIN_Y_MP
            },
            ..self
        }
    }

    /// Where a downward move over `delta_ms` milliseconds puts the paddle:
    /// one screen height per second, clamped at the bottom margin.
    pub open spec fn moved_down_spec(self, delta_ms: int) -> Paddle {
        let target = self.y_mp + (VIEWPORT_HEIGHT_PX as int) * delta_ms;
        Paddle {
            y_mp: if target <= PADDLE_MAX_Y_MP {
                target as i64
            } else {
                PADDLE_MAX_Y_MP
            },
            ..self
        }
    }

    /// Moves the paddle up at one screen height per second, clamped at the
    /// score line.
    pub fn move_up(&mut self, delta_ms: u32)
        requires
            old(self).wf(),
        ensures
            *final(self) == old(self).moved_up_spec(delta_ms as int),
            final(self).wf(),
            final(self).y_mp <= old(self).y_mp,
    {
        let dy: i64 = (VIEWPORT_HEIGHT_PX as i64) * (delta_ms as i64);
        let target: i64 = self.y_mp - dy;
        if target >= PADDLE_MIN_Y_MP {
            self.y_mp = target;
        } else {
            self.y_mp = PADDLE_MIN_Y_MP;
        }
    }

    /// Moves the paddle down at one screen height per second, clamped at
    /// the bottom margin.
    pub fn move_down(&mut self, delta_ms: u32)
        requires
            old(self).wf(),
        ensures
            *final(self) == old(self).moved_down_spec(delta_ms as int),
            final(self).wf(),
            final(self).y_mp >= old(self).y_mp,
    {
        let dy: i64 = (VIEWPORT_HEIGHT_PX as i64) * (delta_ms as i64);
        let target: i64 = self.y_mp + dy;
        if target <= PADDLE_MAX_Y_MP {
            self.y_mp = target;
        } else {
            self.y_mp = PADDLE_MAX_Y_MP;
        }
    }

    /// Where one movement intent puts the paddle.
    pub open spec fn moved_spec(self, m: PaddleMove) -> Paddle {
        match m {
            PaddleMove::Up(delta_ms) => self.moved_up_spec(delta_ms as int),
            PaddleMove::Down(delta_ms) => self.moved_down_spec(delta_ms as int),
        }
    }

    /// Where a whole sequence of movement intents puts the paddle, applied
    /// front to back.
    pub open spec fn moved_all_spec(self, moves: Seq<PaddleMove>) -> Paddle
        decreases moves.len(),
    {
        if moves.len() == 0 {
            self
        } else {
            self.moved_spec(moves[0]).moved_all_spec(moves.drop_first())
        }
    }
}

/// However a paddle is driven, it never leaves the clamp band: every
/// sequence of up and down moves keeps a well-formed paddle between the
/// score line and the bottom margin.
pub proof fn lemma_moves_stay_clamped(p: Paddle, moves: Seq<PaddleMove>)
    requires
        p.wf(),
    ensures
        p.moved_all_spec(moves).wf(),
    decreases moves.len(),
{
    if moves.len() > 0 {
        lemma_moves_stay_clamped(p.moved_spec(moves[0]), moves.drop_first());
    }
}

/// Index of the paddle segment a contact at `rel_mp` milli-pixels below the
/// paddle's top edge falls in. The segments span vertical clock offsets 0,
/// 2, 4, 6, 10, 12 and 14, with the wide middle segment four clocks tall
/// and every other segment two.
pub open spec fn segment_index_spec(rel_mp: int) -> int {
    if rel_mp < 2 * MP_PER_VCLK {
        0
    } else if rel_mp < 4 * MP_PER_VCLK {
        1
    } else if rel_mp < 6 * MP_PER_VCLK {
        2
    } else if rel_mp < 10 * MP_PER_VCLK {
        3
    } else if rel_mp < 12 * MP_PER_VCLK {
        4
    } else if rel_mp < 14 * MP_PER_VCLK {
        5
    } else {
        6
    }
}

/// Index of the paddle segment struck by a contact `rel_mp` milli-pixels
/// below the paddle's top edge.
pub fn segment_index(rel_mp: i64) -> (i: usize)
    requires
        0 <= rel_mp < PADDLE_H_MP,
    ensures
        i == segment_index_spec(rel_mp as int),
        i <= 6,
{
    if rel_mp < 2 * 1950 {
        0
    } else if rel_mp < 4 * 1950 {
        1
    } else if rel_mp < 6 * 1950 {
        2
    } else if rel_mp < 10 * 1950 {
        3
    } else if rel_mp < 12 * 1950 {
        4
    } else if rel_mp < 14 * 1950 {
        5
    } else {
        6
    }
}

/// Vertical velocity class handed to the ball by segment `i`: -3 through 3
/// from top to bottom, with the middle segment returning the ball flat. An
/// index outside the face defensively maps to flat.
pub open spec fn segment_yclass_spec(i: int) -> int {
    if 0 <= i <= 6 {
        i - 3
    } else {
        0
    }
}

/// Vertical velocity class handed to the ball by segment `i`.
pub fn segment_yclass(i: usize) -> (c: i8)
    ensures
        c == segment_yclass_spec(i as int),
        -3 <= c <= 3,
{
    match i {
        0 => -3,
        1 => -2,
        2 => -1,
        3 => 0,
        4 => 1,
        5 => 2,
        6 => 3,
        _ => 0,
    }
}

/// Top offset and height, in vertical clocks, of segment `i` of the paddle
/// face.
pub open spec fn segment_span_vclk_spec(i: int) -> (i32, i32) {
    if i == 0 {
        (0i32, 2i32)
    } else if i == 1 {
        (2i32, 2i32)
    } else if i == 2 {
        (4i32, 2i32)
    } else if i == 3 {
        (6i32, 4i32)
    } else if i == 4 {
        (10i32, 2i32)
    } else if i == 5 {
        (12i32, 2i32)
    } else {
        (14i32, 2i32)
    }
}

/// The segment map agrees with the face layout: a contact anywhere within
/// segment `i`'s span lands on index `i`.
pub proof fn lemma_segment_index_matches_span(i: int, rel_mp: int)
    requires
        0 <= i <= 6,
        (segment_span_vclk_spec(i).0 as int) * (MP_PER_VCLK as int) <= rel_mp,
        rel_mp < (segment_span_vclk_spec(i).0 + segment_span_vclk_spec(i).1) * (
        MP_PER_VCLK as int),
    ensures
        segment_index_spec(rel_mp) == i,
{
}

/// Top offset and height, in vertical clocks, of segment `i`, for building
/// the collision shapes of the paddle face.
pub fn segment_span_vclk(i: usize) -> (s: (i32, i32))
    requires
        i <= 6,
    ensures
        s == segment_span_vclk_spec(i as int),
{
    match i {
        0 => (0, 2),
        1 => (2, 2),
        2 => (4, 2),
        3 => (6, 4),
        4 => (10, 2),
        5 => (12, 2),
        _ => (14, 2),
    }
}

} // verus!
