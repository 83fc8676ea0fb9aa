//! The ball: integration, collision response and serving.
//!
//! The ball carries a horizontal direction whose speed is looked up from the
//! hit counter, and a vertical velocity class set by the paddle segment it
//! last struck. Each frame while in play it moves, then tests the three
//! collision classes in turn: a debounced paddle contact (which reflects it
//! horizontally, picks its new vertical class and counts the hit), the
//! ceiling and floor (which reflect the vertical class only while it still
//! moves toward them), and the side walls (which score against the side it
//! crossed, or merely reflect it in attract mode). After a score the ball
//! waits, off the field, for the delayed serve that puts it back at the
//! spawn point.

use vstd::prelude::*;

use crate::coord::VIEWPORT_HEIGHT_PX;
use crate::coord::VIEWPORT_WIDTH_PX;
use crate::coord::xpos_mp_spec;
use crate::coord::ypos_mp_spec;
use crate::paddle::Paddle;
use crate::paddle::PADDLE_H_MP;
use crate::paddle::PADDLE_W_MP;
use crate::paddle::segment_index;
use crate::paddle::segment_index_spec;
use crate::paddle::segment_yclass;
use crate::paddle::segment_yclass_spec;
use crate::velocity::frame_delta_mp;
use crate::velocity::frame_delta_mp_spec;
use crate::velocity::xmag_for_hits;
use crate::velocity::xmag_permille;
use crate::velocity::xmag_permille_spec;
use crate::velocity::xmag_spec;
use crate::velocity::yclass_permille;
use crate::velocity::yclass_permille_spec;
use crate::Side;

verus! {

/// Width of the ball in milli-pixels: four horizontal clocks.
pub const BALL_W_MP: i64 = 4 * 1680;

/// Height of the ball in milli-pixels: four vertical clocks.
pub const BALL_H_MP: i64 = 4 * 1950;

/// Spawn column in milli-pixels: the net column at 256 horizontal clocks,
/// 191 of them after blanking and recentering.
pub const BALL_SPAWN_X_MP: i64 = 191 * 1680;

/// Spawn row in milli-pixels: mid-screen at 128 vertical clocks, 112 of
/// them after the blanking interval.
pub const BALL_SPAWN_Y_MP: i64 = 112 * 1950;

/// Left edge of the zone that rearms the paddle-contact debounce, at 144
/// horizontal clocks: between the paddles, clear of both collision boxes.
pub const CLEAR_LO_MP: i64 = 79 * 1680;

/// Right edge of the debounce-rearming zone, at 368 horizontal clocks.
pub const CLEAR_HI_MP: i64 = 303 * 1680;

/// Width of the playfield in milli-pixels.
pub const FIELD_W_MP: i64 = 640 * 1000;

/// Height of the playfield in milli-pixels.
pub const FIELD_H_MP: i64 = 480 * 1000;

/// How far, in milli-pixels, the ball can travel in one frame at most: the
/// top speed of one viewport per second over the longest representable
/// frame. Positions stay within the field widened by this drift.
pub const BALL_DRIFT_MP: i64 = 4_400_000_000_000;

/// The ball's landmark constants are timing-clock positions in milli-pixels:
/// the spawn point is the net column at mid-screen and the debounce zone
/// spans the clocks between the two paddle columns.
pub proof fn lemma_ball_consts()
    ensures
        BALL_SPAWN_X_MP == xpos_mp_spec(256),
        BALL_SPAWN_Y_MP == ypos_mp_spec(128),
        CLEAR_LO_MP == xpos_mp_spec(144),
        CLEAR_HI_MP == xpos_mp_spec(368),
        BALL_W_MP == 4 * crate::coord::MP_PER_HCLK,
        BALL_H_MP == 4 * crate::coord::MP_PER_VCLK,
        FIELD_W_MP == VIEWPORT_WIDTH_PX * 1000,
        FIELD_H_MP == VIEWPORT_HEIGHT_PX * 1000,
{
}

/// Whether the ball is flying or waiting, after a score, for the delayed
/// serve.
#[derive(Clone, Copy, PartialEq, Eq, Structural, Debug)]
pub enum BallPhase {
    InPlay,
    AwaitingServe,
}

/// What one frame of ball motion reported: whether a paddle was struck, and
/// the wall the ball left the field through when that ended the rally.
#[derive(Clone, Copy, PartialEq, Eq, Structural, Debug)]
pub struct StepEvents {
    pub hit_paddle: bool,
    pub crossed: Option<Side>,
}

/// The ball: position of its top-left corner in milli-pixels, horizontal
/// direction, vertical velocity class, rally hit counter, contact debounce
/// flag and phase.
#[derive(Clone, Copy, PartialEq, Eq, Structural, Debug)]
pub struct Ball {
    pub x_mp: i64,
    pub y_mp: i64,
    pub moving_right: bool,
    pub yclass: i8,
    pub hits: u64,
    pub has_collided: bool,
    pub phase: BallPhase,
}

impl Ball {
    /// A well-formed ball: its vertical class is in the table, its position
    /// has not drifted further than one frame past the field, while in play
    /// it moves back toward the field once past a side edge, and at the
    /// ceiling or floor it is not still headed out.
    pub open spec fn wf(self) -> bool {
        &&& -3 <= self.yclass <= 3
        &&& -BALL_DRIFT_MP <= self.x_mp <= FIELD_W_MP + BALL_DRIFT_MP
        &&& -BALL_DRIFT_MP <= self.y_mp <= FIELD_H_MP + BALL_DRIFT_MP
        &&& (self.phase is InPlay ==> {
            &&& (self.x_mp + BALL_W_MP >= FIELD_W_MP ==> !self.moving_right)
            &&& (self.x_mp <= 0 ==> self.moving_right)
        })
        &&& (self.y_mp <= 0 ==> self.yclass >= 0)
        &&& (self.y_mp + BALL_H_MP >= FIELD_H_MP ==> self.yclass <= 0)
    }

    /// A new ball at the spawn point, flat, with a fresh rally: the state
    /// the first serve of a game puts it in, so a match is live as soon as
    /// it is set up. It first travels toward the left: the hardware's
    /// horizontal class started at rest, which the speed lookup reads as
    /// not-rightward.
    pub fn new() -> (b: Ball)
        ensures
            b == (Ball {
                x_mp: BALL_SPAWN_X_MP,
                y_mp: BALL_SPAWN_Y_MP,
                moving_right: false,
                yclass: 0i8,
                hits: 0u64,
                has_collided: false,
                phase: BallPhase::InPlay,
            }),
            b.wf(),
    {
        Ball {
            x_mp: BALL_SPAWN_X_MP,
            y_mp: BALL_SPAWN_Y_MP,
            moving_right: false,
            yclass: 0,
            hits: 0,
            has_collided: false,
            phase: BallPhase::InPlay,
        }
    }

    /// The ball as a serve leaves it: a fresh rally at the spawn point,
    /// flat, in play; only the horizontal direction and the debounce flag
    /// carry over.
    pub open spec fn served_spec(self) -> Ball {
        Ball {
            x_mp: BALL_SPAWN_X_MP,
            y_mp: BALL_SPAWN_Y_MP,
            moving_right: self.moving_right,
            yclass: 0i8,
            hits: 0u64,
            has_collided: self.has_collided,
            phase: BallPhase::InPlay,
        }
    }

    /// Serves the ball: the rally counter returns to zero, the ball to the
    /// spawn point, the vertical class to flat, and play resumes. The
    /// horizontal direction stays whatever it was before the serve, so the
    /// ball is served toward the side that last sent it out.
    pub fn serve(&mut self)
        ensures
            *final(self) == old(self).served_spec(),
            final(self).hits == 0,
            final(self).yclass == 0,
            final(self).x_mp == BALL_SPAWN_X_MP && final(self).y_mp == BALL_SPAWN_Y_MP,
            final(self).wf(),
    {
        self.hits = 0;
        self.yclass = 0;
        self.x_mp = BALL_SPAWN_X_MP;
        self.y_mp = BALL_SPAWN_Y_MP;
        self.phase = BallPhase::InPlay;
    }

    /// The ball with its debounce flag rearmed if it sits in the clear zone
    /// between the paddle columns.
    pub open spec fn debounce_cleared_spec(self) -> Ball {
        if self.has_collided && CLEAR_LO_MP <= self.x_mp < CLEAR_HI_MP {
            Ball { has_collided: false, ..self }
        } else {
            self
        }
    }

    /// How far the ball moves horizontally this frame, in milli-pixels: its
    /// speed class magnitude comes from the hit counter.
    pub open spec fn dx_mp_spec(self, delta_ms: int) -> int {
        frame_delta_mp_spec(
            xmag_permille_spec(xmag_spec(self.hits as int)),
            VIEWPORT_WIDTH_PX as int,
            delta_ms,
        )
    }

    /// How far the ball moves vertically this frame, in milli-pixels,
    /// negative upward: the signed speed comes from the vertical class.
    pub open spec fn dy_mp_spec(self, delta_ms: int) -> int {
        let p = yclass_permille_spec(self.yclass as int);
        if p >= 0 {
            frame_delta_mp_spec(p, VIEWPORT_HEIGHT_PX as int, delta_ms)
        } else {
            -frame_delta_mp_spec(-p, VIEWPORT_HEIGHT_PX as int, delta_ms)
        }
    }

    /// The ball after one frame of free motion.
    pub open spec fn moved_spec(self, delta_ms: int) -> Ball {
        Ball {
            x_mp: if self.moving_right {
                (self.x_mp + self.dx_mp_spec(delta_ms)) as i64
            } else {
                (self.x_mp - self.dx_mp_spec(delta_ms)) as i64
            },
            y_mp: (self.y_mp + self.dy_mp_spec(delta_ms)) as i64,
            ..self
        }
    }

    /// Whether the ball's box overlaps the paddle's box and its contact
    /// line - its top edge - lies on the paddle's face.
    pub open spec fn overlaps_spec(self, p: Paddle) -> bool {
        &&& p.x_mp_spec() < self.x_mp + BALL_W_MP
        &&& self.x_mp < p.x_mp_spec() + PADDLE_W_MP
        &&& p.y_mp <= self.y_mp < p.y_mp + PADDLE_H_MP
    }

    /// Whether the paddle registers a contact: an overlap while the
    /// debounce flag is rearmed.
    pub open spec fn contact_spec(self, p: Paddle) -> bool {
        !self.has_collided && self.overlaps_spec(p)
    }

    /// The ball as a paddle contact leaves it: debounce set, vertical class
    /// taken from the struck segment, horizontal direction reflected, hit
    /// counted (the counter holds at the type's maximum should it ever get
    /// there).
    pub open spec fn struck_spec(self, p: Paddle) -> Ball {
        Ball {
            has_collided: true,
            yclass: segment_yclass_spec(segment_index_spec(self.y_mp - p.y_mp)) as i8,
            moving_right: !self.moving_right,
            hits: if self.hits < u64::MAX {
                (self.hits + 1) as u64
            } else {
                self.hits
            },
            ..self
        }
    }

    /// Whether this frame registers a paddle contact, on either paddle.
    pub open spec fn hit_happened_spec(self, paddles: Option<(Paddle, Paddle)>) -> bool {
        match paddles {
            Some((l, r)) => self.contact_spec(l) || self.contact_spec(r),
            None => false,
        }
    }

    /// The ball after the paddle-contact test: struck by the left paddle
    /// first, else the right, else untouched.
    pub open spec fn after_contacts_spec(self, paddles: Option<(Paddle, Paddle)>) -> Ball {
        match paddles {
            Some((l, r)) => if self.contact_spec(l) {
                self.struck_spec(l)
            } else if self.contact_spec(r) {
                self.struck_spec(r)
            } else {
                self
            },
            None => self,
        }
    }

    /// The ball after the ceiling and floor test: the vertical class is
    /// reflected only while the ball still moves toward the bound it
    /// touches, so an overlap never reflects it twice.
    pub open spec fn bounced_spec(self) -> Ball {
        if self.y_mp <= 0 && self.yclass < 0 {
            Ball { yclass: (-self.yclass) as i8, ..self }
        } else if self.y_mp + BALL_H_MP >= FIELD_H_MP && self.yclass > 0 {
            Ball { yclass: (-self.yclass) as i8, ..self }
        } else {
            self
        }
    }

    /// The side wall the ball is leaving the field through, if any: a wall
    /// counts only while the ball still moves toward it.
    pub open spec fn crossing_spec(self) -> Option<Side> {
        if self.x_mp + BALL_W_MP >= FIELD_W_MP && self.moving_right {
            Some(Side::Right)
        } else if self.x_mp <= 0 && !self.moving_right {
            Some(Side::Left)
        } else {
            None
        }
    }

    /// The ball after the side-wall test: in attract mode a crossing merely
    /// reflects it, otherwise it ends the rally and the ball waits for the
    /// serve.
    pub open spec fn walled_spec(self, attract: bool) -> Ball {
        match self.crossing_spec() {
            Some(side) => if attract {
                Ball { moving_right: side is Left, ..self }
            } else {
                Ball { phase: BallPhase::AwaitingServe, ..self }
            },
            None => self,
        }
    }

    /// The ball after one whole frame: nothing while it waits for the
    /// serve; in play, the debounce rearm, the motion, then the three
    /// collision tests in order.
    pub open spec fn stepped_spec(
        self,
        paddles: Option<(Paddle, Paddle)>,
        attract: bool,
        delta_ms: int,
    ) -> Ball {
        if self.phase is AwaitingServe {
            self
        } else {
            self.debounce_cleared_spec().moved_spec(delta_ms).after_contacts_spec(
                paddles,
            ).bounced_spec().walled_spec(attract)
        }
    }

    /// What one whole frame reports: no events while the ball waits; in
    /// play, whether a paddle was struck, and the wall crossed when the
    /// crossing ends the rally (attract mode reports no crossing).
    pub open spec fn step_events_spec(
        self,
        paddles: Option<(Paddle, Paddle)>,
        attract: bool,
        delta_ms: int,
    ) -> StepEvents {
        if self.phase is AwaitingServe {
            StepEvents { hit_paddle: false, crossed: None }
        } else {
            let moved = self.debounce_cleared_spec().moved_spec(delta_ms);
            let bounced = moved.after_contacts_spec(paddles).bounced_spec();
            StepEvents {
                hit_paddle: moved.hit_happened_spec(paddles),
                crossed: if attract {
                    None
                } else {
                    bounced.crossing_spec()
                },
            }
        }
    }

    /// Applies a registered paddle contact: the debounce flag arms, the
    /// struck segment picks the new vertical class, the horizontal
    /// direction reflects, and the hit counts.
    pub fn apply_contact(&mut self, p: &Paddle)
        requires
            old(self).contact_spec(*p),
            p.wf(),
        ensures
            *final(self) == old(self).struck_spec(*p),
    {
        let rel: i64 = self.y_mp - p.y_mp;
        let idx: usize = segment_index(rel);
        self.yclass = segment_yclass(idx);
        self.moving_right = !self.moving_right;
        self.has_collided = true;
        if self.hits < u64::MAX {
            self.hits = self.hits + 1;
        }
    }

    /// One frame of ball motion: free motion, then the paddle, bound and
    /// wall collision tests, as `stepped_spec` lays them out.
    #[verifier::rlimit(50)]
    pub fn step(
        &mut self,
        delta_ms: u32,
        paddles: Option<(&Paddle, &Paddle)>,
        attract: bool,
    ) -> (ev: StepEvents)
        requires
            old(self).wf(),
            (match paddles {
                Some((l, r)) => l.wf() && r.wf(),
                None => true,
            }),
        ensures
            *final(self) == old(self).stepped_spec(
                deref_paddles_spec(paddles),
                attract,
                delta_ms as int,
            ),
            ev == old(self).step_events_spec(deref_paddles_spec(paddles), attract, delta_ms as int),
            final(self).wf(),
    {
        match self.phase {
            BallPhase::AwaitingServe => {
                return StepEvents { hit_paddle: false, crossed: None };
            },
            BallPhase::InPlay => {},
        }

        // Rearm the debounce once the ball is clear of both paddle columns.
        if self.has_collided && CLEAR_LO_MP <= self.x_mp && self.x_mp < CLEAR_HI_MP {
            self.has_collided = false;
        }
        proof {
            assert(*self == old(self).debounce_cleared_spec());
        }
        let ghost cleared = *self;

        // Free motion: the horizontal speed follows the hit counter, the
        // vertical speed the velocity class.
        let xperm: u32 = xmag_permille(xmag_for_hits(self.hits));
        let dx: i64 = frame_delta_mp(xperm, VIEWPORT_WIDTH_PX as u32, delta_ms) as i64;
        if self.moving_right {
            self.x_mp = self.x_mp + dx;
        } else {
            self.x_mp = self.x_mp - dx;
        }
        let yperm: i32 = yclass_permille(self.yclass);
        if yperm >= 0 {
            let dy: i64 = frame_delta_mp(yperm as u32, VIEWPORT_HEIGHT_PX as u32, delta_ms) as i64;
            self.y_mp = self.y_mp + dy;
        } else {
            let dy: i64 = frame_delta_mp(
                (-yperm) as u32,
                VIEWPORT_HEIGHT_PX as u32,
                delta_ms,
            ) as i64;
            self.y_mp = self.y_mp - dy;
        }
        proof {
            assert(*self == cleared.moved_spec(delta_ms as int));
            assert(dx <= 1000 * (delta_ms as int) <= BALL_DRIFT_MP);
            assert(-BALL_DRIFT_MP <= self.x_mp <= FIELD_W_MP + BALL_DRIFT_MP);
            assert(-BALL_DRIFT_MP <= self.y_mp <= FIELD_H_MP + BALL_DRIFT_MP);
        }
        let ghost moved = *self;

        // Paddle contact, left face first.
        let mut hit: bool = false;
        match paddles {
            Some((l, r)) => {
                let lx: i64 = l.x_mp();
                let rx: i64 = r.x_mp();
                if !self.has_collided && lx < self.x_mp + BALL_W_MP && self.x_mp < lx
                    + PADDLE_W_MP && l.y_mp <= self.y_mp && self.y_mp < l.y_mp + PADDLE_H_MP {
                    self.apply_contact(l);
                    hit = true;
                } else if !self.has_collided && rx < self.x_mp + BALL_W_MP && self.x_mp < rx
                    + PADDLE_W_MP && r.y_mp <= self.y_mp && self.y_mp < r.y_mp + PADDLE_H_MP {
                    self.apply_contact(r);
                    hit = true;
                }
            },
            None => {},
        }
        proof {
            assert(*self == moved.after_contacts_spec(deref_paddles_spec(paddles)));
            assert(hit == moved.hit_happened_spec(deref_paddles_spec(paddles)));
        }
        let ghost contacted = *self;

        // Ceiling and floor, reflecting only while still headed out.
        if self.y_mp <= 0 && self.yclass < 0 {
            self.yclass = -self.yclass;
        } else if self.y_mp + BALL_H_MP >= FIELD_H_MP && self.yclass > 0 {
            self.yclass = -self.yclass;
        }
        proof {
            assert(*self == contacted.bounced_spec());
        }
        let ghost bounced = *self;

        // Side walls: score against the crossed side, or reflect in attract
        // mode.
        let mut crossed: Option<Side> = None;
        if self.x_mp + BALL_W_MP >= FIELD_W_MP && self.moving_right {
            if attract {
                self.moving_right = false;
            } else {
                self.phase = BallPhase::AwaitingServe;
                crossed = Some(Side::Right);
            }
        } else if self.x_mp <= 0 && !self.moving_right {
            if attract {
                self.moving_right = true;
            } else {
                self.phase = BallPhase::AwaitingServe;
                crossed = Some(Side::Left);
            }
        }
        proof {
            assert(*self == bounced.walled_spec(attract));
        }
        StepEvents { hit_paddle: hit, crossed }
    }
}

/// The paddles a frame acts on, by value.
pub open spec fn deref_paddles_spec(paddles: Option<(&Paddle, &Paddle)>) -> Option<
    (Paddle, Paddle),
> {
    match paddles {
        Some((l, r)) => Some((*l, *r)),
        None => None,
    }
}

} // verus!
