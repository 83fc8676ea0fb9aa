//! The match state machine.
//!
//! A match owns two paddles, the ball and the score, and runs in one of two
//! modes. In `Playing` the host feeds one `tick` per frame with the paddle
//! input intents; crossings score points, and the eleventh point for a side
//! ends the game. Game over removes both paddles, makes the side walls
//! reflecting, and serves the ball into `Attract` mode, where it plays
//! itself until a restart input starts a new game.
//!
//! The delayed serve works by token: a scoring tick reports a score update,
//! and the host is expected to schedule, a second and a half later, a call
//! to `serve_timer_fired` with the token `serve_token` gave at scoring
//! time. A fired timer whose token is stale - a new game or a newer score
//! has moved the epoch on - or whose ball is no longer waiting is a no-op,
//! so late or duplicate callbacks are harmless.

use vstd::prelude::*;

use crate::ball::Ball;
use crate::ball::BallPhase;
use crate::ball::BALL_SPAWN_X_MP;
use crate::ball::BALL_SPAWN_Y_MP;
use crate::paddle::Paddle;
use crate::paddle::PADDLE_START_Y_MP;
use crate::score::ScoreEvent;
use crate::score::ScoreTracker;
use crate::score::WIN_SCORE;
use crate::Side;

verus! {

/// How long after a score the host should wait before firing the serve
/// callback, in milliseconds.
pub const SERVE_DELAY_MS: u32 = 1500;

/// Whether the match is being played or showing itself off.
#[derive(Clone, Copy, PartialEq, Eq, Structural, Debug)]
pub enum Mode {
    Playing,
    Attract,
}

/// One frame of input intent for one paddle. Both flags may be held at
/// once; the up move is applied first.
#[derive(Clone, Copy, PartialEq, Eq, Structural, Debug)]
pub struct PaddleInput {
    pub up: bool,
    pub down: bool,
}

/// What one frame of the match reported: a paddle strike, a scored point
/// (by the side that won it), and the game's end (by the side that won it).
#[derive(Clone, Copy, PartialEq, Eq, Structural, Debug)]
pub struct TickEvents {
    pub ball_hit_paddle: bool,
    pub score_updated: Option<Side>,
    pub game_over: Option<Side>,
}

/// A match: the mode, the paddles (present exactly while playing), the
/// ball, the score, and the epoch of the serve timer tokens.
#[derive(Clone, Copy, PartialEq, Eq, Structural, Debug)]
pub struct Match {
    pub mode: Mode,
    pub paddle_l: Option<Paddle>,
    pub paddle_r: Option<Paddle>,
    pub ball: Ball,
    pub score: ScoreTracker,
    pub serve_epoch: u64,
}

/// Where one frame of input intent puts a paddle: the up move first, then
/// the down move, each clamped.
pub open spec fn moved_paddle_spec(p: Paddle, input: PaddleInput, delta_ms: int) -> Paddle {
    let up = if input.up {
        p.moved_up_spec(delta_ms)
    } else {
        p
    };
    if input.down {
        up.moved_down_spec(delta_ms)
    } else {
        up
    }
}

/// Applies one frame of input intent to a paddle.
pub fn apply_input(p: &mut Paddle, input: PaddleInput, delta_ms: u32)
    requires
        old(p).wf(),
    ensures
        *final(p) == moved_paddle_spec(*old(p), input, delta_ms as int),
        final(p).wf(),
        final(p).side == old(p).side,
{
    if input.up {
        p.move_up(delta_ms);
    }
    if input.down {
        p.move_down(delta_ms);
    }
}

/// The epoch moved on by one notch (held at the type's maximum should it
/// ever get there), so tokens handed out earlier go stale.
pub open spec fn bumped_epoch_spec(epoch: u64) -> u64 {
    if epoch < u64::MAX {
        (epoch + 1) as u64
    } else {
        epoch
    }
}

impl Match {
    /// A well-formed match: while playing, both paddles are present, well
    /// formed and on their own sides; in attract mode there are none and
    /// the ball plays itself.
    pub open spec fn wf(self) -> bool {
        &&& self.ball.wf()
        &&& (self.mode is Playing ==> {
            &&& self.paddle_l matches Some(l) && l.wf() && l.side == Side::Left
            &&& self.paddle_r matches Some(r) && r.wf() && r.side == Side::Right
        })
        &&& (self.mode is Attract ==> {
            &&& self.paddle_l is None
            &&& self.paddle_r is None
            &&& self.ball.phase is InPlay
        })
    }

    /// The fresh play state a new game sets up, at the given timer epoch:
    /// paddles at their start rows, the ball at the spawn point, love all.
    pub open spec fn fresh_spec(epoch: u64) -> Match {
        Match {
            mode: Mode::Playing,
            paddle_l: Some(Paddle { side: Side::Left, y_mp: PADDLE_START_Y_MP }),
            paddle_r: Some(Paddle { side: Side::Right, y_mp: PADDLE_START_Y_MP }),
            ball: Ball {
                x_mp: BALL_SPAWN_X_MP,
                y_mp: BALL_SPAWN_Y_MP,
                moving_right: false,
                yclass: 0i8,
                hits: 0u64,
                has_collided: false,
                phase: BallPhase::InPlay,
            },
            score: ScoreTracker { left: 0u32, right: 0u32 },
            serve_epoch: epoch,
        }
    }

    /// A new match, set up and playing.
    pub fn new() -> (m: Match)
        ensures
            m == Match::fresh_spec(0),
            m.wf(),
    {
        Match {
            mode: Mode::Playing,
            paddle_l: Some(Paddle::new(Side::Left)),
            paddle_r: Some(Paddle::new(Side::Right)),
            ball: Ball::new(),
            score: ScoreTracker::new(),
            serve_epoch: 0,
        }
    }

    /// Tears the match down and sets up a new game. The timer epoch moves
    /// on, so a serve still pending from the torn-down game can never act
    /// on the new one.
    pub fn new_game(&mut self)
        ensures
            *final(self) == Match::fresh_spec(bumped_epoch_spec(old(self).serve_epoch)),
            final(self).wf(),
    {
        let epoch: u64 = if self.serve_epoch < u64::MAX {
            self.serve_epoch + 1
        } else {
            self.serve_epoch
        };
        self.mode = Mode::Playing;
        self.paddle_l = Some(Paddle::new(Side::Left));
        self.paddle_r = Some(Paddle::new(Side::Right));
        self.ball = Ball::new();
        self.score = ScoreTracker::new();
        self.serve_epoch = epoch;
    }

    /// The restart input: in attract mode it starts a new game; during play
    /// it does nothing.
    pub fn restart(&mut self)
        ensures
            old(self).mode is Attract ==> *final(self) == Match::fresh_spec(
                bumped_epoch_spec(old(self).serve_epoch),
            ),
            old(self).mode is Playing ==> *final(self) == *old(self),
            old(self).wf() ==> final(self).wf(),
    {
        match self.mode {
            Mode::Attract => self.new_game(),
            Mode::Playing => {},
        }
    }

    /// The token a serve scheduled now must carry to be honored.
    pub fn serve_token(&self) -> (t: u64)
        ensures
            t == self.serve_epoch,
    {
        self.serve_epoch
    }

    /// The delayed serve callback: serves the waiting ball, but only when
    /// the token is current and the ball still waits. A stale or duplicate
    /// callback - after a new game, a newer score, or an earlier serve -
    /// changes nothing.
    pub fn serve_timer_fired(&mut self, token: u64)
        requires
            old(self).wf(),
        ensures
            (token == old(self).serve_epoch && old(self).ball.phase is AwaitingServe)
                ==> *final(self) == (Match { ball: old(self).ball.served_spec(), ..*old(self) }),
            !(token == old(self).serve_epoch && old(self).ball.phase is AwaitingServe)
                ==> *final(self) == *old(self),
            final(self).wf(),
    {
        if token == self.serve_epoch {
            match self.ball.phase {
                BallPhase::AwaitingServe => self.ball.serve(),
                BallPhase::InPlay => {},
            }
        }
    }

    /// Where one frame leaves the match and what it reports.
    ///
    /// In attract mode the ball steps alone against reflecting walls and
    /// nothing is reported. During play the paddles follow their inputs and
    /// the ball steps against them; a crossing scores for the opposite
    /// side. An ordinary point is reported as a score update and moves the
    /// timer epoch on for the serve to come; the winning point instead ends
    /// the game - the paddles leave, the walls turn reflecting, and the
    /// ball serves itself into attract mode.
    pub open spec fn ticked_spec(self, delta_ms: int, il: PaddleInput, ir: PaddleInput) -> (
        Match,
        TickEvents,
    ) {
        match self.mode {
            Mode::Attract => (
                Match { ball: self.ball.stepped_spec(None, true, delta_ms), ..self },
                TickEvents { ball_hit_paddle: false, score_updated: None, game_over: None },
            ),
            Mode::Playing => {
                let pl = moved_paddle_spec(self.paddle_l.unwrap(), il, delta_ms);
                let pr = moved_paddle_spec(self.paddle_r.unwrap(), ir, delta_ms);
                let stepped = self.ball.stepped_spec(Some((pl, pr)), false, delta_ms);
                let ev = self.ball.step_events_spec(Some((pl, pr)), false, delta_ms);
                match ev.crossed {
                    None => (
                        Match {
                            paddle_l: Some(pl),
                            paddle_r: Some(pr),
                            ball: stepped,
                            ..self
                        },
                        TickEvents {
                            ball_hit_paddle: ev.hit_paddle,
                            score_updated: None,
                            game_over: None,
                        },
                    ),
                    Some(wall) => {
                        let scorer = wall.opposite_spec();
                        if self.score.point_wins_spec(scorer) {
                            (
                                Match {
                                    mode: Mode::Attract,
                                    paddle_l: None,
                                    paddle_r: None,
                                    ball: stepped.served_spec(),
                                    score: self.score.recorded_spec(scorer),
                                    ..self
                                },
                                TickEvents {
                                    ball_hit_paddle: ev.hit_paddle,
                                    score_updated: None,
                                    game_over: Some(scorer),
                                },
                            )
                        } else {
                            (
                                Match {
                                    paddle_l: Some(pl),
                                    paddle_r: Some(pr),
                                    ball: stepped,
                                    score: self.score.recorded_spec(scorer),
                                    serve_epoch: bumped_epoch_spec(self.serve_epoch),
                                    ..self
                                },
                                TickEvents {
                                    ball_hit_paddle: ev.hit_paddle,
                                    score_updated: Some(scorer),
                                    game_over: None,
                                },
                            )
                        }
                    },
                }
            },
        }
    }

    /// What one frame can do to the score and the mode: the score never
    /// decreases; a reported point leaves the ball waiting for the serve;
    /// the game ends exactly on the winning side's tenth-to-eleventh point
    /// transition, and ending it removes both paddles and serves the ball
    /// into attract mode.
    pub proof fn lemma_tick_scoring(self, delta_ms: int, il: PaddleInput, ir: PaddleInput)
        requires
            self.wf(),
        ensures
            ({
                let (m2, ev) = self.ticked_spec(delta_ms, il, ir);
                &&& forall|s: Side| m2.score.of_spec(s) >= self.score.of_spec(s)
                &&& (ev.score_updated matches Some(s) ==> {
                    &&& m2.score == self.score.recorded_spec(s)
                    &&& m2.score.of_spec(s) != WIN_SCORE
                    &&& m2.ball.phase is AwaitingServe
                })
                &&& (ev.game_over matches Some(s) ==> {
                    &&& self.score.of_spec(s) == WIN_SCORE - 1
                    &&& m2.score.of_spec(s) == WIN_SCORE
                    &&& m2.mode is Attract
                    &&& m2.paddle_l is None && m2.paddle_r is None
                    &&& m2.ball.phase is InPlay
                })
            }),
    {
    }

    /// One frame of the match, as `ticked_spec` lays it out.
    pub fn tick(&mut self, delta_ms: u32, input_l: PaddleInput, input_r: PaddleInput) -> (ev:
        TickEvents)
        requires
            old(self).wf(),
        ensures
            *final(self) == old(self).ticked_spec(delta_ms as int, input_l, input_r).0,
            ev == old(self).ticked_spec(delta_ms as int, input_l, input_r).1,
            final(self).wf(),
    {
        match self.mode {
            Mode::Attract => {
                let _ = self.ball.step(delta_ms, None, true);
                TickEvents { ball_hit_paddle: false, score_updated: None, game_over: None }
            },
            Mode::Playing => {
                let mut pl: Paddle = match self.paddle_l {
                    Some(p) => p,
                    None => vstd::pervasive::unreached(),
                };
                let mut pr: Paddle = match self.paddle_r {
                    Some(p) => p,
                    None => vstd::pervasive::unreached(),
                };
                apply_input(&mut pl, input_l, delta_ms);
                apply_input(&mut pr, input_r, delta_ms);
                self.paddle_l = Some(pl);
                self.paddle_r = Some(pr);
                let ev = self.ball.step(delta_ms, Some((&pl, &pr)), false);
                match ev.crossed {
                    None => TickEvents {
                        ball_hit_paddle: ev.hit_paddle,
                        score_updated: None,
                        game_over: None,
                    },
                    Some(wall) => {
                        let scorer: Side = wall.opposite();
                        let sev: ScoreEvent = self.score.record_point(scorer);
                        match sev {
                            ScoreEvent::GameOver => {
                                self.mode = Mode::Attract;
                                self.paddle_l = None;
                                self.paddle_r = None;
                                self.ball.serve();
                                TickEvents {
                                    ball_hit_paddle: ev.hit_paddle,
                                    score_updated: None,
                                    game_over: Some(scorer),
                                }
                            },
                            ScoreEvent::Updated => {
                                if self.serve_epoch < u64::MAX {
                                    self.serve_epoch = self.serve_epoch + 1;
                                }
                                TickEvents {
                                    ball_hit_paddle: ev.hit_paddle,
                                    score_updated: Some(scorer),
                                    game_over: None,
                                }
                            },
                        }
                    },
                }
            },
        }
    }
}

} // verus!
