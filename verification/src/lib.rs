//! Core of a classic arcade paddle-and-ball game.
//!
//! The playfield is modelled after the timing circuitry of the original
//! arcade hardware: positions are given in horizontal and vertical timing
//! clocks (`hclk` / `vclk`) and converted to a 640x480 pixel grid. All
//! geometry and motion is computed in milli-pixels (thousandths of a pixel,
//! `mp` for short), which makes the calibration factors of 1.68 px per
//! horizontal clock and 1.95 px per vertical clock exact integers.
//!
//! The modules, from the bottom up:
//! - `coord`: timing-clock to pixel conversion,
//! - `geom`: rectangle geometry for the net, walls and polygon buffers,
//! - `velocity`: the discrete speed tables of the ball,
//! - `sevenseg`: the seven-segment score digits and their layout,
//! - `paddle`: the clamped paddle with its collision segment map,
//! - `ball`: ball motion, collision response, serving,
//! - `score`: the per-side point counters and the win condition,
//! - `game`: the match state machine tying everything together.
//!
//! A host (rendering engine, input layer, timer facility) drives the core:
//! it calls `game::Match::tick` once per frame, forwards input intents, and
//! schedules the delayed serve callback that `game::Match::serve_timer_fired`
//! consumes.

pub mod ball;
pub mod coord;
pub mod game;
pub mod geom;
pub mod paddle;
pub mod score;
pub mod sevenseg;
pub mod velocity;

use vstd::prelude::*;

verus! {

/// The two players, named for the half of the screen their paddle guards.
#[derive(Clone, Copy, PartialEq, Eq, Structural, Debug)]
pub enum Side {
    Left,
    Right,
}

impl Side {
    /// The other player.
    pub open spec fn opposite_spec(self) -> Side {
        match self {
            Side::Left => Side::Right,
            Side::Right => Side::Left,
        }
    }

    /// The other player.
    pub fn opposite(self) -> (s: Side)
        ensures
            s == self.opposite_spec(),
    {
        match self {
            Side::Left => Side::Right,
            Side::Right => Side::Left,
        }
    }
}

} // verus!
