//! Rectangle geometry for the rendering layer: the net segments, the score
//! digits, the collision walls and the polygon vertex buffers are all built
//! from axis-aligned pixel rectangles.

use vstd::prelude::*;

use crate::coord::VIEWPORT_HEIGHT_PX;
use crate::coord::VIEWPORT_WIDTH_PX;
use crate::coord::hclk_to_px;
use crate::coord::hclk_to_xpos;
use crate::coord::hspan_px_spec;
use crate::coord::vclk_to_px;
use crate::coord::vspan_px_spec;
use crate::coord::xpos_px_spec;
use crate::coord::ypos_px_spec;
use crate::Side;

verus! {

/// An axis-aligned rectangle in pixel coordinates: top-left corner, width
/// and height.
#[derive(Clone, Copy, PartialEq, Eq, Structural, Debug)]
pub struct Rect {
    pub x: i32,
    pub y: i32,
    pub w: i32,
    pub h: i32,
}

impl Rect {
    /// A rectangle from its top-left corner, width and height.
    pub fn new(x: i32, y: i32, w: i32, h: i32) -> (r: Rect)
        ensures
            r == (Rect { x, y, w, h }),
    {
        Rect { x, y, w, h }
    }

    /// The rectangle a position and a span in timing clocks map to.
    pub open spec fn from_clk_spec(hclk: int, vclk: int, w: int, h: int) -> Rect {
        Rect {
            x: xpos_px_spec(hclk) as i32,
            y: ypos_px_spec(vclk) as i32,
            w: hspan_px_spec(w) as i32,
            h: vspan_px_spec(h) as i32,
        }
    }

    /// Converts a position and a span in timing clocks to a pixel rectangle.
    pub fn from_clk(hclk: i32, vclk: i32, w: i32, h: i32) -> (r: Rect)
        requires
            -1_000_000_000 <= hclk <= 1_000_000_000,
            -1_000_000_000 <= vclk <= 1_000_000_000,
            -1_000_000_000 <= w <= 1_000_000_000,
            -1_000_000_000 <= h <= 1_000_000_000,
        ensures
            r == Rect::from_clk_spec(hclk as int, vclk as int, w as int, h as int),
    {
        Rect {
            x: hclk_to_xpos(hclk),
            y: crate::coord::vclk_to_ypos(vclk),
            w: hclk_to_px(w),
            h: vclk_to_px(h),
        }
    }
}

/// The four corners of a rectangle, clockwise from the top-left, as a
/// polygon vertex buffer holds them.
pub open spec fn corners_spec(r: Rect) -> Seq<(i32, i32)> {
    seq![
        (r.x, r.y),
        ((r.x + r.w) as i32, r.y),
        ((r.x + r.w) as i32, (r.y + r.h) as i32),
        (r.x, (r.y + r.h) as i32),
    ]
}

/// Appends the four corners of a rectangle to a vertex buffer, clockwise
/// from the top-left.
pub fn push_corners(vertices: &mut Vec<(i32, i32)>, r: &Rect)
    requires
        i32::MIN <= r.x + r.w <= i32::MAX,
        i32::MIN <= r.y + r.h <= i32::MAX,
    ensures
        final(vertices)@ == old(vertices)@ + corners_spec(*r),
{
    let right: i32 = r.x + r.w;
    let bottom: i32 = r.y + r.h;
    vertices.push((r.x, r.y));
    vertices.push((right, r.y));
    vertices.push((right, bottom));
    vertices.push((r.x, bottom));
    proof {
        assert(vertices@ =~= old(vertices)@ + corners_spec(*r));
    }
}

/// The index quadruple of the `k`-th rectangle in a vertex buffer of
/// consecutive rectangle corners.
pub open spec fn quad_spec(k: int) -> (i32, i32, i32, i32) {
    ((4 * k) as i32, (4 * k + 1) as i32, (4 * k + 2) as i32, (4 * k + 3) as i32)
}

/// Groups a vertex buffer of consecutive rectangle corners into index
/// quadruples, one per rectangle; a trailing partial group is dropped.
pub fn quad_indices(num_vertices: usize) -> (quads: Vec<(i32, i32, i32, i32)>)
    requires
        num_vertices <= i32::MAX,
    ensures
        quads@.len() == num_vertices as int / 4,
        forall|k: int| 0 <= k < quads@.len() ==> quads@[k] == quad_spec(k),
{
    let count: usize = num_vertices / 4;
    let mut quads: Vec<(i32, i32, i32, i32)> = Vec::new();
    let mut i: usize = 0;
    while i < count
        invariant
            i <= count,
            4 * count <= num_vertices <= i32::MAX,
            quads@.len() == i,
            forall|k: int| 0 <= k < i ==> quads@[k] == quad_spec(k),
        decreases count - i,
    {
        let base: i32 = (4 * i) as i32;
        quads.push((base, base + 1, base + 2, base + 3));
        i = i + 1;
    }
    quads
}

/// The `k`-th segment of the center net: one clock wide, four clocks tall,
/// at the net column, every eight vertical clocks down the screen.
pub open spec fn net_rect_spec(k: int) -> Rect {
    Rect {
        x: xpos_px_spec(256) as i32,
        y: (k * vspan_px_spec(8)) as i32,
        w: hspan_px_spec(1) as i32,
        h: vspan_px_spec(4) as i32,
    }
}

/// The rectangles of the center net: a dashed vertical line at the net
/// column, one segment every eight vertical clocks, down the whole screen.
pub fn net_rects() -> (r: Vec<Rect>)
    ensures
        r@.len() == 32,
        forall|k: int| 0 <= k < r@.len() ==> r@[k] == net_rect_spec(k),
{
    let net_left: i32 = hclk_to_xpos(256);
    let spacing: i32 = vclk_to_px(8);
    let net_width: i32 = hclk_to_px(1);
    let net_height: i32 = vclk_to_px(4);
    let mut r: Vec<Rect> = Vec::new();
    let mut y: i32 = 0;
    while y < VIEWPORT_HEIGHT_PX
        invariant
            spacing == 15,
            net_left == xpos_px_spec(256),
            net_width == hspan_px_spec(1),
            net_height == vspan_px_spec(4),
            y == 15 * r@.len(),
            y <= VIEWPORT_HEIGHT_PX + 14,
            forall|k: int| 0 <= k < r@.len() ==> r@[k] == net_rect_spec(k),
        decreases VIEWPORT_HEIGHT_PX - y,
    {
        proof {
            let k = r@.len() as int;
            let v: int = vspan_px_spec(8);
            assert(k * v == 15 * k) by (nonlinear_arith)
                requires
                    v == 15,
            ;
            assert(net_rect_spec(k).y == y);
        }
        r.push(Rect { x: net_left, y, w: net_width, h: net_height });
        y = y + spacing;
    }
    r
}

/// The collision rectangle of a scoring wall: a ten-pixel band just past
/// the viewport edge of the given side, spanning the whole height.
pub open spec fn wall_rect_spec(side: Side) -> Rect {
    match side {
        Side::Left => Rect { x: -11i32, y: 0, w: 10, h: VIEWPORT_HEIGHT_PX },
        Side::Right => Rect {
            x: (VIEWPORT_WIDTH_PX + 1) as i32,
            y: 0,
            w: 10,
            h: VIEWPORT_HEIGHT_PX,
        },
    }
}

/// The collision rectangle of the scoring wall on the given side.
pub fn wall_rect(side: Side) -> (r: Rect)
    ensures
        r == wall_rect_spec(side),
{
    match side {
        Side::Left => Rect { x: -11, y: 0, w: 10, h: VIEWPORT_HEIGHT_PX },
        Side::Right => Rect { x: VIEWPORT_WIDTH_PX + 1, y: 0, w: 10, h: VIEWPORT_HEIGHT_PX },
    }
}

/// The collision rectangle of the ceiling: a ten-pixel band above the
/// viewport, spanning the whole width.
pub fn ceiling_rect() -> (r: Rect)
    ensures
        r == (Rect { x: 0, y: -10i32, w: VIEWPORT_WIDTH_PX, h: 10 }),
{
    Rect { x: 0, y: -10, w: VIEWPORT_WIDTH_PX, h: 10 }
}

/// The collision rectangle of the floor: a ten-pixel band below the
/// viewport, spanning the whole width.
pub fn floor_rect() -> (r: Rect)
    ensures
        r == (Rect { x: 0, y: VIEWPORT_HEIGHT_PX, w: VIEWPORT_WIDTH_PX, h: 10 }),
{
    Rect { x: 0, y: VIEWPORT_HEIGHT_PX, w: VIEWPORT_WIDTH_PX, h: 10 }
}

/// The drawing rectangle of the ball, relative to its position: four clocks
/// wide and four tall.
pub fn ball_rect() -> (r: Rect)
    ensures
        r == (Rect {
            x: 0,
            y: 0,
            w: hspan_px_spec(4) as i32,
            h: vspan_px_spec(4) as i32,
        }),
{
    Rect { x: 0, y: 0, w: hclk_to_px(4), h: vclk_to_px(4) }
}

/// The drawing rectangle of a paddle, relative to its position: four clocks
/// wide and sixteen tall.
pub fn paddle_rect() -> (r: Rect)
    ensures
        r == (Rect {
            x: 0,
            y: 0,
            w: hspan_px_spec(4) as i32,
            h: vspan_px_spec(16) as i32,
        }),
{
    Rect { x: 0, y: 0, w: hclk_to_px(4), h: vclk_to_px(16) }
}

} // verus!
