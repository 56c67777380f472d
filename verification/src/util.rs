use vstd::prelude::*;

use crate::geometry::Point;

verus! {

/// The canvas position of the canvas center on each axis: the middle of the positive
/// `i32` range.
pub open spec fn canvas_center() -> int {
    i32::MAX as int / 2
}

/// Utility functions to get canvas-local coordinates
///
/// These are taken relative to the canvas center, which is at the middle of the signed 32-bit positive range
pub struct CanvasCoords;

/// The canvas position of canvas-local coordinate `v` on one axis: shifted by the canvas
/// center and clamped to the positive range `0..=i32::MAX`.
pub open spec fn canvas_axis(v: int) -> int {
    let shifted = v + canvas_center();
    if shifted < 0 {
        0
    } else if shifted > i32::MAX {
        i32::MAX as int
    } else {
        shifted
    }
}

impl CanvasCoords {
    /// The canvas point of canvas-local coordinates `(x, y)`: shifted by the canvas
    /// center, and clamped to the positive range.
    pub fn from(x: i32, y: i32) -> (p: Point)
        ensures
            p.x == canvas_axis(x as int),
            p.y == canvas_axis(y as int),
            0 <= p.x <= i32::MAX,
            0 <= p.y <= i32::MAX,
    {
        // Shift them relative to the center
        let x: i64 = x as i64 + (i32::MAX / 2) as i64;
        let y: i64 = y as i64 + (i32::MAX / 2) as i64;

        // And clamp it to the positive range
        Point { x: clamp_positive(x), y: clamp_positive(y) }
    }

    /// The canvas center.
    pub fn center() -> (p: Point)
        ensures
            p.x == canvas_center(),
            p.y == canvas_center(),
    {
        Self::from(0, 0)
    }
}

/// Clamps `v` to the positive `i32` range `0..=i32::MAX`.
fn clamp_positive(v: i64) -> (r: i32)
    ensures
        r == (if v < 0 {
            0
        } else if v > i32::MAX {
            i32::MAX as int
        } else {
            v as int
        }),
{
    if v < 0 {
        0
    } else if v > i32::MAX as i64 {
        i32::MAX
    } else {
        v as i32
    }
}

/// The canvas origin sits at the canvas center: canvas-local coordinate 0 maps to the
/// middle of the positive `i32` range, so `CanvasCoords::center()` and
/// `CanvasCoords::from(0, 0)` are the same point.
pub proof fn lemma_origin_is_center()
    ensures
        canvas_axis(0) == canvas_center(),
{
}

/// Canvas-local coordinates are taken relative to the canvas center: every coordinate
/// within the canvas edges lands that far from the center.
pub proof fn lemma_coords_relative_to_center(v: int)
    requires
        -canvas_center() <= v <= i32::MAX - canvas_center(),
    ensures
        canvas_axis(v) == canvas_center() + v,
        canvas_axis(v) - canvas_axis(0) == v,
{
}

/// Coordinates beyond the canvas edges are clamped to the edges, and the conversion keeps
/// the order of coordinates.
pub proof fn lemma_coords_clamped_and_monotone(a: int, b: int)
    requires
        a <= b,
    ensures
        a < -canvas_center() ==> canvas_axis(a) == 0,
        b > i32::MAX - canvas_center() ==> canvas_axis(b) == i32::MAX,
        canvas_axis(a) <= canvas_axis(b),
        0 <= canvas_axis(a) <= i32::MAX,
{
}

} // verus!
