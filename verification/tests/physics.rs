//! The velocity tables, paddle movement and clamping, and ball motion with
//! its collision responses.

use pong::ball::{Ball, BallPhase};
use pong::paddle::{
    segment_index, segment_span_vclk, segment_yclass, Paddle, PADDLE_MAX_Y_MP, PADDLE_MIN_Y_MP,
    PADDLE_START_Y_MP, PADDLE_X_LEFT_MP, PADDLE_X_RIGHT_MP,
};
use pong::velocity::{frame_delta_mp, xmag_for_hits, xmag_permille, yclass_permille};
use pong::Side;

#[test]
fn vertical_speed_table() {
    assert_eq!(yclass_permille(-3), -695);
    assert_eq!(yclass_permille(-2), -462);
    assert_eq!(yclass_permille(-1), -226);
    assert_eq!(yclass_permille(0), 0);
    assert_eq!(yclass_permille(1), 228);
    assert_eq!(yclass_permille(2), 455);
    assert_eq!(yclass_permille(3), 680);
    // A class outside the table defensively maps to standstill.
    assert_eq!(yclass_permille(5), 0);
    assert_eq!(yclass_permille(-7), 0);
}

#[test]
fn hit_counter_steps_speed_up() {
    // Magnitude 1 below four hits, 2 below twelve, 3 from twelve on.
    assert_eq!(xmag_for_hits(0), 1);
    assert_eq!(xmag_for_hits(3), 1);
    assert_eq!(xmag_for_hits(4), 2);
    assert_eq!(xmag_for_hits(11), 2);
    assert_eq!(xmag_for_hits(12), 3);
    assert_eq!(xmag_for_hits(1000), 3);
}

#[test]
fn magnitude_never_drops() {
    let mut prev = xmag_for_hits(0);
    for hits in 1..64u64 {
        let cur = xmag_for_hits(hits);
        assert!(cur >= prev);
        prev = cur;
    }
}

#[test]
fn horizontal_speed_table() {
    assert_eq!(xmag_permille(1), 260);
    assert_eq!(xmag_permille(2), 390);
    assert_eq!(xmag_permille(3), 530);
    assert_eq!(xmag_permille(0), 0);
    assert_eq!(xmag_permille(9), 0);
}

#[test]
fn frame_delta_examples() {
    // 0.26 widths per second over 16 ms: 260 * 640 * 16 / 1000 = 2662.4,
    // truncated to 2662 milli-pixels.
    assert_eq!(frame_delta_mp(260, 640, 16), 2662);
    // 0.695 heights per second over one second is 0.695 heights.
    assert_eq!(frame_delta_mp(695, 480, 1000), 333_600);
    assert_eq!(frame_delta_mp(0, 480, 1000), 0);
    assert_eq!(frame_delta_mp(260, 640, 0), 0);
}

#[test]
fn paddle_starts_mid_screen() {
    let p = Paddle::new(Side::Left);
    assert_eq!(p.y_mp, PADDLE_START_Y_MP);
    assert_eq!(p.y_mp, 202_800);
    assert_eq!(p.x_mp(), PADDLE_X_LEFT_MP);
    assert_eq!(Paddle::new(Side::Right).x_mp(), PADDLE_X_RIGHT_MP);
}

#[test]
fn paddle_moves_at_one_screen_per_second() {
    let mut p = Paddle::new(Side::Left);
    p.move_up(10);
    // 480 px/s over 10 ms is 4800 milli-pixels.
    assert_eq!(p.y_mp, 202_800 - 4800);
    p.move_down(25);
    assert_eq!(p.y_mp, 202_800 - 4800 + 12_000);
}

#[test]
fn paddle_clamps_at_score_line_and_bottom_margin() {
    let mut p = Paddle::new(Side::Right);
    p.move_up(5000); // far past the top
    assert_eq!(p.y_mp, PADDLE_MIN_Y_MP);
    assert_eq!(p.y_mp, 31_200);
    p.move_up(16); // already at the clamp
    assert_eq!(p.y_mp, PADDLE_MIN_Y_MP);
    p.move_down(5000); // far past the bottom
    assert_eq!(p.y_mp, PADDLE_MAX_Y_MP);
    assert_eq!(p.y_mp, 418_000);
    p.move_down(16);
    assert_eq!(p.y_mp, PADDLE_MAX_Y_MP);
}

#[test]
fn paddle_stays_in_band_over_any_run() {
    let mut p = Paddle::new(Side::Left);
    let script = [(true, 700u32), (false, 40), (true, 3), (false, 900), (true, 1), (false, 2)];
    for (up, delta) in script {
        if up {
            p.move_up(delta);
        } else {
            p.move_down(delta);
        }
        assert!(PADDLE_MIN_Y_MP <= p.y_mp && p.y_mp <= PADDLE_MAX_Y_MP);
    }
}

#[test]
fn segment_boundaries() {
    // Segments span vertical clock offsets 0,2,4,6,10,12,14 at 1950
    // milli-pixels per clock; the middle one is four clocks tall.
    assert_eq!(segment_index(0), 0);
    assert_eq!(segment_index(3899), 0);
    assert_eq!(segment_index(3900), 1);
    assert_eq!(segment_index(7799), 1);
    assert_eq!(segment_index(7800), 2);
    assert_eq!(segment_index(11_700), 3);
    assert_eq!(segment_index(19_499), 3);
    assert_eq!(segment_index(19_500), 4);
    assert_eq!(segment_index(23_400), 5);
    assert_eq!(segment_index(27_300), 6);
    assert_eq!(segment_index(31_199), 6);
}

#[test]
fn segment_classes_fan_out() {
    assert_eq!(segment_yclass(0), -3);
    assert_eq!(segment_yclass(1), -2);
    assert_eq!(segment_yclass(2), -1);
    assert_eq!(segment_yclass(3), 0);
    assert_eq!(segment_yclass(4), 1);
    assert_eq!(segment_yclass(5), 2);
    assert_eq!(segment_yclass(6), 3);
    assert_eq!(segment_yclass(42), 0);
}

#[test]
fn segment_spans_cover_the_face() {
    assert_eq!(segment_span_vclk(0), (0, 2));
    assert_eq!(segment_span_vclk(1), (2, 2));
    assert_eq!(segment_span_vclk(2), (4, 2));
    assert_eq!(segment_span_vclk(3), (6, 4));
    assert_eq!(segment_span_vclk(4), (10, 2));
    assert_eq!(segment_span_vclk(5), (12, 2));
    assert_eq!(segment_span_vclk(6), (14, 2));
}

#[test]
fn new_ball_spawns_flat_at_the_net() {
    let b = Ball::new();
    assert_eq!(b.x_mp, 320_880);
    assert_eq!(b.y_mp, 218_400);
    assert_eq!(b.yclass, 0);
    assert_eq!(b.hits, 0);
    assert!(!b.moving_right);
    assert!(!b.has_collided);
    assert_eq!(b.phase, BallPhase::InPlay);
}

#[test]
fn serve_resets_rally_position_and_class() {
    let mut b = Ball::new();
    b.hits = 9;
    b.yclass = 2;
    b.x_mp = 100_000;
    b.y_mp = 50_000;
    b.moving_right = true;
    b.phase = BallPhase::AwaitingServe;
    b.serve();
    assert_eq!(b.hits, 0);
    assert_eq!(b.x_mp, 320_880);
    assert_eq!(b.y_mp, 218_400);
    assert_eq!(b.yclass, 0);
    assert_eq!(b.phase, BallPhase::InPlay);
    // The direction carries over: the serve goes toward the conceding side.
    assert!(b.moving_right);
}

#[test]
fn resting_ball_struck_at_top_segment() {
    // A ball at rest with five hits, struck at segment index 0 of the left
    // paddle: it leaves upward at class -3, its direction flips to the
    // right, and the rally count becomes six.
    let p = Paddle { side: Side::Left, y_mp: 202_800 };
    let mut b = Ball::new();
    b.x_mp = 105_000;
    b.y_mp = 202_800; // relative offset 0: segment 0
    b.hits = 5;
    b.apply_contact(&p);
    assert_eq!(b.yclass, -3);
    assert!(b.moving_right);
    assert_eq!(b.hits, 6);
    assert!(b.has_collided);
}

#[test]
fn step_integrates_position() {
    let mut b = Ball::new();
    b.yclass = 2;
    let ev = b.step(16, None, false);
    // Horizontal: 260 * 640 * 16 / 1000 = 2662 milli-pixels leftward.
    assert_eq!(b.x_mp, 320_880 - 2662);
    // Vertical: 455 * 480 * 16 / 1000 = 3494.4, truncated, downward.
    assert_eq!(b.y_mp, 218_400 + 3494);
    assert!(!ev.hit_paddle);
    assert_eq!(ev.crossed, None);
}

#[test]
fn step_strikes_overlapping_paddle() {
    let paddle_l = Paddle { side: Side::Left, y_mp: 200_000 };
    let paddle_r = Paddle { side: Side::Right, y_mp: 200_000 };
    let mut b = Ball::new();
    // Just right of the left paddle, moving left: one 16 ms frame of
    // magnitude-1 speed (2662 milli-pixels) lands it on the face.
    b.x_mp = PADDLE_X_LEFT_MP + 6720 + 2000;
    b.y_mp = 210_000;
    let ev = b.step(16, Some((&paddle_l, &paddle_r)), false);
    assert!(ev.hit_paddle);
    assert!(b.moving_right);
    assert!(b.has_collided);
    assert_eq!(b.hits, 1);
    // A flat ball does not fall: the contact line stays 10000 milli-pixels
    // below the paddle top, in segment 2.
    assert_eq!(b.yclass, -1);
}

#[test]
fn debounced_contact_does_not_retrigger() {
    let paddle_l = Paddle { side: Side::Left, y_mp: 200_000 };
    let paddle_r = Paddle { side: Side::Right, y_mp: 200_000 };
    let mut b = Ball::new();
    b.x_mp = PADDLE_X_LEFT_MP + 1000; // overlapping already
    b.y_mp = 210_000;
    b.has_collided = true; // debounce still armed from the first contact
    b.moving_right = true;
    let ev = b.step(4, Some((&paddle_l, &paddle_r)), false);
    assert!(!ev.hit_paddle);
    assert_eq!(b.hits, 0);
}

#[test]
fn debounce_rearms_in_the_clear_zone() {
    let mut b = Ball::new();
    b.has_collided = true;
    // The spawn column lies between the paddle columns, inside the zone.
    let _ = b.step(16, None, false);
    assert!(!b.has_collided);
}

#[test]
fn ceiling_reflects_only_inbound() {
    let mut b = Ball::new();
    b.y_mp = 1000;
    b.yclass = -3;
    let _ = b.step(16, None, false);
    // 695 * 480 * 16 / 1000 = 5337 milli-pixels up: past the ceiling, so
    // the class reflects downward.
    assert_eq!(b.y_mp, 1000 - 5337);
    assert_eq!(b.yclass, 3);
    // Already moving away: the next frame does not reflect it back.
    let _ = b.step(16, None, false);
    assert_eq!(b.yclass, 3);
}

#[test]
fn floor_reflects_only_inbound() {
    let mut b = Ball::new();
    b.y_mp = 471_000;
    b.yclass = 3;
    let _ = b.step(16, None, false);
    // 680 * 480 * 16 / 1000 = 5222 milli-pixels down: the ball's box
    // reaches the floor and the class reflects upward.
    assert_eq!(b.y_mp, 471_000 + 5222);
    assert_eq!(b.yclass, -3);
}

#[test]
fn crossing_ends_the_rally_when_scoring() {
    let mut b = Ball::new();
    b.x_mp = 633_000;
    b.moving_right = true;
    let ev = b.step(16, None, false);
    assert_eq!(ev.crossed, Some(Side::Right));
    assert_eq!(b.phase, BallPhase::AwaitingServe);
}

#[test]
fn crossing_reflects_in_attract_mode() {
    let mut b = Ball::new();
    b.x_mp = 633_000;
    b.moving_right = true;
    let ev = b.step(16, None, true);
    assert_eq!(ev.crossed, None);
    assert!(!b.moving_right);
    assert_eq!(b.phase, BallPhase::InPlay);
}

#[test]
fn waiting_ball_does_not_move() {
    let mut b = Ball::new();
    b.phase = BallPhase::AwaitingServe;
    b.x_mp = 100_000;
    let ev = b.step(1000, None, false);
    assert_eq!(b.x_mp, 100_000);
    assert_eq!(ev.crossed, None);
    assert!(!ev.hit_paddle);
}
