//! Timing-clock mapping, rectangle geometry and the seven-segment display.

use pong::coord::{hclk_to_px, hclk_to_xpos, mp_to_px, vclk_to_px, vclk_to_ypos};
use pong::geom::{
    ball_rect, ceiling_rect, floor_rect, net_rects, paddle_rect, push_corners, quad_indices,
    wall_rect, Rect,
};
use pong::sevenseg::{n_to_seven_segment, score_rects};
use pong::Side;

#[test]
fn xpos_landmarks() {
    // (hclk - 81 + 16) * 1.68, truncated toward zero.
    assert_eq!(hclk_to_xpos(256), 320); // net and ball spawn column
    assert_eq!(hclk_to_xpos(128), 105); // left paddle column
    assert_eq!(hclk_to_xpos(128 + 256), 535); // right paddle column
    assert_eq!(hclk_to_xpos(144), 132); // debounce zone left edge
    assert_eq!(hclk_to_xpos(368), 509); // debounce zone right edge
    assert_eq!(hclk_to_xpos(65), 0);
}

#[test]
fn ypos_landmarks() {
    // (vclk - 16) * 1.95, truncated toward zero.
    assert_eq!(vclk_to_ypos(32), 31); // paddle top clamp, score line
    assert_eq!(vclk_to_ypos(120), 202); // paddle start row
    assert_eq!(vclk_to_ypos(128), 218); // ball spawn row
    assert_eq!(vclk_to_ypos(16), 0);
}

#[test]
fn truncation_is_toward_zero() {
    // 0 - 16 clocks is -31.2 px: toward zero gives -31, where floor
    // division would give -32.
    assert_eq!(vclk_to_ypos(0), -31);
    assert_eq!(hclk_to_xpos(0), -109); // -65 * 1.68 = -109.2
    assert_eq!(mp_to_px(-1500), -1);
    assert_eq!(mp_to_px(1500), 1);
    assert_eq!(mp_to_px(-999), 0);
}

#[test]
fn span_landmarks() {
    assert_eq!(hclk_to_px(1), 1); // net segment width
    assert_eq!(hclk_to_px(4), 6); // ball and paddle width
    assert_eq!(vclk_to_px(4), 7); // ball and net segment height
    assert_eq!(vclk_to_px(8), 15); // net segment spacing
    assert_eq!(vclk_to_px(16), 31); // paddle height
}

#[test]
fn xpos_monotonic_samples() {
    let mut prev = hclk_to_xpos(-200);
    let mut h = -199;
    while h <= 600 {
        let cur = hclk_to_xpos(h);
        assert!(cur >= prev);
        prev = cur;
        h += 1;
    }
}

#[test]
fn span_monotonic_samples() {
    let mut prev = hclk_to_px(-200);
    let mut h = -199;
    while h <= 600 {
        let cur = hclk_to_px(h);
        assert!(cur >= prev);
        prev = cur;
        h += 1;
    }
}

#[test]
fn from_clk_builds_pixel_rect() {
    let r = Rect::from_clk(175, 32, 16, 4);
    assert_eq!(r, Rect { x: 184, y: 31, w: 26, h: 7 });
}

#[test]
fn corners_go_clockwise() {
    let mut buffer: Vec<(i32, i32)> = vec![(9, 9)];
    push_corners(&mut buffer, &Rect { x: 1, y: 2, w: 10, h: 20 });
    assert_eq!(buffer, vec![(9, 9), (1, 2), (11, 2), (11, 22), (1, 22)]);
}

#[test]
fn quad_indices_group_by_four() {
    assert_eq!(quad_indices(16), vec![(0, 1, 2, 3), (4, 5, 6, 7), (8, 9, 10, 11), (12, 13, 14, 15)]);
    assert_eq!(quad_indices(3), vec![]);
    assert_eq!(quad_indices(9), vec![(0, 1, 2, 3), (4, 5, 6, 7)]);
}

#[test]
fn net_is_a_dashed_line() {
    let net = net_rects();
    assert_eq!(net.len(), 32);
    assert_eq!(net[0], Rect { x: 320, y: 0, w: 1, h: 7 });
    assert_eq!(net[1], Rect { x: 320, y: 15, w: 1, h: 7 });
    assert_eq!(net[31], Rect { x: 320, y: 465, w: 1, h: 7 });
}

#[test]
fn walls_and_bounds_sit_past_the_edges() {
    assert_eq!(wall_rect(Side::Left), Rect { x: -11, y: 0, w: 10, h: 480 });
    assert_eq!(wall_rect(Side::Right), Rect { x: 641, y: 0, w: 10, h: 480 });
    assert_eq!(ceiling_rect(), Rect { x: 0, y: -10, w: 640, h: 10 });
    assert_eq!(floor_rect(), Rect { x: 0, y: 480, w: 640, h: 10 });
}

#[test]
fn body_rects() {
    assert_eq!(ball_rect(), Rect { x: 0, y: 0, w: 6, h: 7 });
    assert_eq!(paddle_rect(), Rect { x: 0, y: 0, w: 6, h: 31 });
}

#[test]
fn digit_zero_and_eight_patterns() {
    // Digit 0 lights every segment but the middle bar; digit 8 all seven.
    assert_eq!(n_to_seven_segment(0), Some([1, 1, 1, 1, 1, 1, 0]));
    assert_eq!(n_to_seven_segment(8), Some([1, 1, 1, 1, 1, 1, 1]));
}

#[test]
fn all_digit_patterns() {
    assert_eq!(n_to_seven_segment(1), Some([0, 1, 1, 0, 0, 0, 0]));
    assert_eq!(n_to_seven_segment(2), Some([1, 1, 0, 1, 1, 0, 1]));
    assert_eq!(n_to_seven_segment(3), Some([1, 1, 1, 1, 0, 0, 1]));
    assert_eq!(n_to_seven_segment(4), Some([0, 1, 1, 0, 0, 1, 1]));
    assert_eq!(n_to_seven_segment(5), Some([1, 0, 1, 1, 0, 1, 1]));
    assert_eq!(n_to_seven_segment(6), Some([1, 0, 1, 1, 1, 1, 1]));
    assert_eq!(n_to_seven_segment(7), Some([1, 1, 1, 0, 0, 0, 0]));
    assert_eq!(n_to_seven_segment(9), Some([1, 1, 1, 0, 0, 1, 1]));
    assert_eq!(n_to_seven_segment(10), None);
    assert_eq!(n_to_seven_segment(-1), None);
}

#[test]
fn love_all_display() {
    // Each zero lights six segments; no tens digit is drawn.
    let rects = score_rects(0, 0);
    assert_eq!(rects.len(), 12);
    // Segment a of the left zero, at the left score window.
    assert_eq!(rects[0], Rect::from_clk(175, 32, 16, 4));
    // Segment a of the right zero, at the right score window.
    assert_eq!(rects[6], Rect::from_clk(367, 32, 16, 4));
}

#[test]
fn eleven_gets_a_tens_digit() {
    // 11 draws two copies of digit 1 (two segments each) for the left
    // player; the right player still shows a zero.
    let rects = score_rects(11, 0);
    assert_eq!(rects.len(), 2 + 2 + 6);
    // The tens digit of the left player sits 32 clocks left of its ones.
    assert_eq!(rects[0], Rect::from_clk(175 - 32 + 12, 32, 4, 16));
}

#[test]
fn seven_skips_lower_segments() {
    // Digit 7 lights only a, b and c.
    let rects = score_rects(7, 0);
    assert_eq!(rects.len(), 3 + 6);
    assert_eq!(rects[0], Rect::from_clk(175, 32, 16, 4));
    assert_eq!(rects[1], Rect::from_clk(175 + 12, 32, 4, 16));
    assert_eq!(rects[2], Rect::from_clk(175 + 12, 32 + 16, 4, 16));
}
