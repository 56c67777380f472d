use vstd::prelude::*;

verus! {

/// A point on the canvas, in logical coordinates.
#[derive(Debug, Clone, Copy, PartialEq, Eq, Structural)]
pub struct Point {
    pub x: i32,
    pub y: i32,
}

impl Point {
    pub fn new(x: i32, y: i32) -> (p: Point)
        ensures
            p.x == x,
            p.y == y,
    {
        Point { x, y }
    }

    /// Moves the point up and to the left by `size` (`point - size`), saturating at the
    /// bounds of `i32`.
    pub fn sub_size(self, size: Size) -> (p: Point)
        ensures
            p.x == saturate_i32(self.x - size.width()),
            p.y == saturate_i32(self.y - size.height()),
    {
        Point { x: saturating_sub(self.x, size.w()), y: saturating_sub(self.y, size.h()) }
    }
}

/// `v` brought into the `i32` range.
pub open spec fn saturate_i32(v: int) -> int {
    if v < i32::MIN {
        i32::MIN as int
    } else if v > i32::MAX {
        i32::MAX as int
    } else {
        v
    }
}

/// `a - b`, saturating at the bounds of `i32`.
pub fn saturating_sub(a: i32, b: i32) -> (r: i32)
    ensures
        r == saturate_i32(a - b),
{
    let d: i64 = a as i64 - b as i64;
    if d < i32::MIN as i64 {
        i32::MIN
    } else if d > i32::MAX as i64 {
        i32::MAX
    } else {
        d as i32
    }
}

/// A width and a height, both non-negative.
#[derive(Debug, Clone, Copy, PartialEq, Eq, Structural)]
pub struct Size {
    w: i32,
    h: i32,
}

impl Size {
    /// The invariant of every size: neither dimension is negative.
    #[verifier::type_invariant]
    pub closed spec fn non_negative(self) -> bool {
        self.w >= 0 && self.h >= 0
    }

    /// Reads the invariant in terms of `width` and `height`.
    pub proof fn lemma_non_negative(self)
        requires
            self.non_negative(),
        ensures
            self.width() >= 0,
            self.height() >= 0,
    {
    }

    /// The width of the size.
    pub closed spec fn width(self) -> i32 {
        self.w
    }

    /// The height of the size.
    pub closed spec fn height(self) -> i32 {
        self.h
    }

    /// Builds a size from a width and a height; a negative one is no size.
    pub fn new(w: i32, h: i32) -> (s: Size)
        requires
            w >= 0,
            h >= 0,
        ensures
            s.width() == w,
            s.height() == h,
    {
        Size { w, h }
    }

    pub fn w(&self) -> (r: i32)
        ensures
            r == self.width(),
            r >= 0,
    {
        proof {
            use_type_invariant(self);
        }
        self.w
    }

    pub fn h(&self) -> (r: i32)
        ensures
            r == self.height(),
            r >= 0,
    {
        proof {
            use_type_invariant(self);
        }
        self.h
    }

    /// Divides both dimensions by `by`, rounding down.
    pub fn downscale(self, by: i32) -> (s: Size)
        requires
            by > 0,
        ensures
            s.width() == self.width() as int / (by as int),
            s.height() == self.height() as int / (by as int),
            s.width() >= 0,
            s.height() >= 0,
    {
        proof {
            use_type_invariant(&self);
        }
        Size { w: self.w / by, h: self.h / by }
    }

    /// Converts a size in physical pixels to logical units at the integer output scale `scale`.
    pub fn to_logical(self, scale: i32) -> (s: Size)
        requires
            scale > 0,
        ensures
            s.width() == self.width() as int / (scale as int),
            s.height() == self.height() as int / (scale as int),
            s.width() >= 0,
            s.height() >= 0,
    {
        self.downscale(scale)
    }
}

/// Saturating keeps every value within `i32` as it is, and sends every value below or
/// above the range to its nearest bound; it keeps the order of values.
pub proof fn lemma_saturate_i32(v: int, u: int)
    ensures
        i32::MIN <= saturate_i32(v) <= i32::MAX,
        i32::MIN <= v <= i32::MAX ==> saturate_i32(v) == v,
        v < i32::MIN ==> saturate_i32(v) == i32::MIN,
        v > i32::MAX ==> saturate_i32(v) == i32::MAX,
        v <= u ==> saturate_i32(v) <= saturate_i32(u),
{
}

} // verus!
