//! The per-side score and the win condition.
//!
//! Each point raises one side's counter by one. When a counter reaches the
//! winning score of eleven the tracker reports game over for that side and
//! withholds the ordinary score-updated report; until then every point is
//! an ordinary update. Scores only ever grow.

use vstd::prelude::*;

use crate::Side;

verus! {

/// Points needed to win a game.
pub const WIN_SCORE: u32 = 11;

/// What the tracker reports after a point is recorded: an ordinary update,
/// or game over when the scoring side just reached the winning score.
#[derive(Clone, Copy, PartialEq, Eq, Structural, Debug)]
pub enum ScoreEvent {
    Updated,
    GameOver,
}

/// The two point counters, one per side.
#[derive(Clone, Copy, PartialEq, Eq, Structural, Debug)]
pub struct ScoreTracker {
    pub left: u32,
    pub right: u32,
}

impl ScoreTracker {
    /// A fresh tracker with both sides at zero.
    pub fn new() -> (t: ScoreTracker)
        ensures
            t == (ScoreTracker { left: 0u32, right: 0u32 }),
    {
        ScoreTracker { left: 0, right: 0 }
    }

    /// The counter of the given side.
    pub open spec fn of_spec(self, side: Side) -> u32 {
        match side {
            Side::Left => self.left,
            Side::Right => self.right,
        }
    }

    /// The counter of the given side.
    pub fn of(&self, side: Side) -> (s: u32)
        ensures
            s == self.of_spec(side),
    {
        match side {
            Side::Left => self.left,
            Side::Right => self.right,
        }
    }

    /// The tracker after a point for `side`: that counter one higher (held
    /// at the type's maximum should it ever get there), the other untouched.
    pub open spec fn recorded_spec(self, side: Side) -> ScoreTracker {
        match side {
            Side::Left => ScoreTracker {
                left: if self.left < u32::MAX {
                    (self.left + 1) as u32
                } else {
                    self.left
                },
                ..self
            },
            Side::Right => ScoreTracker {
                right: if self.right < u32::MAX {
                    (self.right + 1) as u32
                } else {
                    self.right
                },
                ..self
            },
        }
    }

    /// Whether a point for `side` ends the game: exactly when it lifts that
    /// counter onto the winning score.
    pub open spec fn point_wins_spec(self, side: Side) -> bool {
        self.recorded_spec(side).of_spec(side) == WIN_SCORE
    }

    /// Records a point for `side` and reports game over exactly when that
    /// side's counter just reached the winning score, an ordinary update
    /// otherwise. Counters never decrease.
    pub fn record_point(&mut self, side: Side) -> (ev: ScoreEvent)
        ensures
            *final(self) == old(self).recorded_spec(side),
            final(self).of_spec(side) >= old(self).of_spec(side),
            final(self).of_spec(side.opposite_spec()) == old(self).of_spec(side.opposite_spec()),
            (ev == ScoreEvent::GameOver) <==> old(self).point_wins_spec(side),
            (ev == ScoreEvent::Updated) <==> !old(self).point_wins_spec(side),
    {
        let counter: u32 = match side {
            Side::Left => self.left,
            Side::Right => self.right,
        };
        let bumped: u32 = if counter < u32::MAX {
            counter + 1
        } else {
            counter
        };
        match side {
            Side::Left => {
                self.left = bumped;
            },
            Side::Right => {
                self.right = bumped;
            },
        }
        if bumped == WIN_SCORE {
            ScoreEvent::GameOver
        } else {
            ScoreEvent::Updated
        }
    }

    /// The tracker after a whole run of points, recorded front to back.
    pub open spec fn recorded_all_spec(self, sides: Seq<Side>) -> ScoreTracker
        decreases sides.len(),
    {
        if sides.len() == 0 {
            self
        } else {
            self.recorded_spec(sides[0]).recorded_all_spec(sides.drop_first())
        }
    }
}

/// Scores never decrease: over any run of points, each side's counter ends
/// at least where it began.
pub proof fn lemma_score_never_decreases(t: ScoreTracker, sides: Seq<Side>, side: Side)
    ensures
        t.recorded_all_spec(sides).of_spec(side) >= t.of_spec(side),
    decreases sides.len(),
{
    if sides.len() > 0 {
        lemma_score_never_decreases(t.recorded_spec(sides[0]), sides.drop_first(), side);
    }
}

/// Splitting a run of points splits the tracker the same way: recording
/// `a + b` is recording `a`, then `b`.
pub proof fn lemma_recorded_all_splits(t: ScoreTracker, a: Seq<Side>, b: Seq<Side>)
    ensures
        t.recorded_all_spec(a + b) == t.recorded_all_spec(a).recorded_all_spec(b),
    decreases a.len(),
{
    if a.len() == 0 {
        assert(a + b =~= b);
    } else {
        assert((a + b).drop_first() =~= a.drop_first() + b);
        lemma_recorded_all_splits(t.recorded_spec(a[0]), a.drop_first(), b);
    }
}

/// Game over fires at most once per side in any run of points: once a point
/// for `side` has ended the game, no later point for that side can end it
/// again, because the counter has passed the winning score for good.
pub proof fn lemma_game_over_at_most_once(t: ScoreTracker, sides: Seq<Side>, i: int, j: int)
    requires
        0 <= i < j < sides.len(),
        sides[i] == sides[j],
        t.recorded_all_spec(sides.take(i)).point_wins_spec(sides[i]),
    ensures
        !t.recorded_all_spec(sides.take(j)).point_wins_spec(sides[j]),
{
    let side = sides[i];
    let before_i = t.recorded_all_spec(sides.take(i));
    let after_i = before_i.recorded_spec(side);
    assert(after_i.of_spec(side) == WIN_SCORE);
    assert(sides.take(j) =~= sides.take(i + 1) + sides.subrange(i + 1, j));
    assert(sides.take(i + 1) =~= sides.take(i) + seq![side]);
    lemma_recorded_all_splits(t, sides.take(i), seq![side]);
    let one = seq![side];
    assert(before_i.recorded_all_spec(one) == before_i.recorded_spec(side).recorded_all_spec(
        one.drop_first(),
    ));
    assert(one.drop_first() =~= Seq::<Side>::empty());
    assert(after_i.recorded_all_spec(Seq::<Side>::empty()) == after_i);
    assert(t.recorded_all_spec(sides.take(i + 1)) == after_i);
    lemma_recorded_all_splits(t, sides.take(i + 1), sides.subrange(i + 1, j));
    let before_j = t.recorded_all_spec(sides.take(j));
    lemma_score_never_decreases(after_i, sides.subrange(i + 1, j), side);
    assert(before_j.of_spec(side) >= WIN_SCORE);
    assert(before_j.recorded_spec(side).of_spec(side) > WIN_SCORE || before_j.of_spec(side)
        == u32::MAX);
}

} // verus!
