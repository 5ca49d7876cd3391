//! Geometric value types. Canvas space is the infinite logical plane nodes
//! live in, origin at its center; screen space is the zoomed, scrolled
//! viewport, origin at the top-left. Both are carried in milli-units.
//!
//! Converting a screen point to canvas space divides by the zoom factor, so
//! the result is in general not a whole number of milli-units. [`FracPt`]
//! keeps such a point exact as a pair of numerators over one positive
//! denominator; the transform laws are stated over these exact values.

use crate::num::{clamp_int, div_floor_i64};
use vstd::prelude::*;

verus! {

/// A point in screen space, in milli-pixels.
#[derive(Clone, Copy, PartialEq, Eq, Structural, Debug)]
pub struct ScreenPt {
    pub x: i64,
    pub y: i64,
}

/// A point in canvas space, in milli-units.
#[derive(Clone, Copy, PartialEq, Eq, Structural, Debug)]
pub struct CanvasPt {
    pub x: i64,
    pub y: i64,
}

/// Bound on the numerators of a well-formed [`FracPt`].
pub const FRAC_NUM_LIMIT: i64 = 4_000_000_000_000_000_000;

/// Bound on the denominator of a well-formed [`FracPt`].
pub const FRAC_DEN_LIMIT: i64 = 16_000_000;

/// An exact canvas-space point: each coordinate is `num / den` milli-units.
#[derive(Clone, Copy, PartialEq, Eq, Structural, Debug)]
pub struct FracPt {
    pub x_num: i64,
    pub y_num: i64,
    pub den: i64,
}

impl FracPt {
    /// Numerators and denominator stay inside bounds under which every
    /// operation of the library fits in `i64`.
    pub open spec fn wf(self) -> bool {
        &&& 0 < self.den <= FRAC_DEN_LIMIT
        &&& -FRAC_NUM_LIMIT <= self.x_num <= FRAC_NUM_LIMIT
        &&& -FRAC_NUM_LIMIT <= self.y_num <= FRAC_NUM_LIMIT
    }

    /// The whole milli-unit point at or directly below-left of this exact
    /// point (each coordinate rounded toward negative infinity).
    pub open spec fn spec_rounded(self) -> CanvasPt {
        CanvasPt { x: (self.x_num / self.den) as i64, y: (self.y_num / self.den) as i64 }
    }

    /// Rounds each coordinate to whole milli-units, toward negative infinity.
    pub fn rounded(self) -> (r: CanvasPt)
        requires
            self.wf(),
        ensures
            r == self.spec_rounded(),
            r.x as int == self.x_num as int / self.den as int,
            r.y as int == self.y_num as int / self.den as int,
            -FRAC_NUM_LIMIT <= r.x <= FRAC_NUM_LIMIT,
            -FRAC_NUM_LIMIT <= r.y <= FRAC_NUM_LIMIT,
    {
        let x = div_floor_i64(self.x_num, self.den);
        let y = div_floor_i64(self.y_num, self.den);
        proof {
            lemma_div_floor_in_range(self.x_num as int, self.den as int);
            lemma_div_floor_in_range(self.y_num as int, self.den as int);
        }
        CanvasPt { x, y }
    }
}

/// Flooring division by a positive divisor cannot grow a value's magnitude.
proof fn lemma_div_floor_in_range(a: int, d: int)
    requires
        d > 0,
        -FRAC_NUM_LIMIT <= a <= FRAC_NUM_LIMIT,
    ensures
        -FRAC_NUM_LIMIT <= a / d <= FRAC_NUM_LIMIT,
{
    vstd::arithmetic::div_mod::lemma_fundamental_div_mod(a, d);
    assert(-FRAC_NUM_LIMIT <= a / d <= FRAC_NUM_LIMIT) by (nonlinear_arith)
        requires
            d > 0,
            -FRAC_NUM_LIMIT <= a <= FRAC_NUM_LIMIT,
            a == d * (a / d) + a % d,
            0 <= a % d < d,
    ;
}

/// An axis-aligned screen-space rectangle, in milli-pixels.
#[derive(Clone, Copy, PartialEq, Eq, Structural, Debug)]
pub struct ScreenRect {
    pub x: i64,
    pub y: i64,
    pub w: i64,
    pub h: i64,
}

impl ScreenRect {
    /// Coordinates and extents stay inside the machine bounds of the
    /// library, and extents are non-negative.
    pub open spec fn wf(self) -> bool {
        &&& -crate::COORD_LIMIT_MILLIS <= self.x <= crate::COORD_LIMIT_MILLIS
        &&& -crate::COORD_LIMIT_MILLIS <= self.y <= crate::COORD_LIMIT_MILLIS
        &&& 0 <= self.w <= crate::COORD_LIMIT_MILLIS
        &&& 0 <= self.h <= crate::COORD_LIMIT_MILLIS
    }

    /// Whether two rectangles overlap in a region of positive area.
    pub open spec fn spec_intersects(self, other: ScreenRect) -> bool {
        &&& self.x < other.x + other.w
        &&& other.x < self.x + self.w
        &&& self.y < other.y + other.h
        &&& other.y < self.y + self.h
    }

    /// Overlap test used to cull nodes that lie outside the viewport.
    pub fn intersects(self, other: ScreenRect) -> (r: bool)
        requires
            self.wf(),
            other.wf(),
        ensures
            r == self.spec_intersects(other),
    {
        self.x < other.x + other.w && other.x < self.x + self.w && self.y < other.y + other.h
            && other.y < self.y + self.h
    }
}

/// Mathematical clamp of a canvas point into the canvas extent, leaving room
/// for a footprint of `w` by `h` milli-units so the node stays addressable.
/// Footprints wider than the whole canvas are treated as canvas-sized.
pub open spec fn clamp_pos_int(x: int, y: int, w: int, h: int) -> (int, int) {
    (
        clamp_int(
            x,
            -crate::CANVAS_HALF_MILLIS as int,
            crate::CANVAS_HALF_MILLIS - clamp_int(w, 0, crate::CANVAS_SIZE_MILLIS as int),
        ),
        clamp_int(
            y,
            -crate::CANVAS_HALF_MILLIS as int,
            crate::CANVAS_HALF_MILLIS - clamp_int(h, 0, crate::CANVAS_SIZE_MILLIS as int),
        ),
    )
}

/// Clamps a canvas position into the canvas extent minus a footprint.
/// Total over every input: out-of-range positions are pulled to the nearest
/// admissible value, never rejected.
pub fn clamp_pos(p: CanvasPt, w: i64, h: i64) -> (r: CanvasPt)
    ensures
        (r.x as int, r.y as int) == clamp_pos_int(p.x as int, p.y as int, w as int, h as int),
        -crate::CANVAS_HALF_MILLIS <= r.x <= crate::CANVAS_HALF_MILLIS,
        -crate::CANVAS_HALF_MILLIS <= r.y <= crate::CANVAS_HALF_MILLIS,
{
    let we = crate::num::clamp_i64(w, 0, crate::CANVAS_SIZE_MILLIS);
    let he = crate::num::clamp_i64(h, 0, crate::CANVAS_SIZE_MILLIS);
    let x = crate::num::clamp_i64(p.x, -crate::CANVAS_HALF_MILLIS, crate::CANVAS_HALF_MILLIS - we);
    let y = crate::num::clamp_i64(p.y, -crate::CANVAS_HALF_MILLIS, crate::CANVAS_HALF_MILLIS - he);
    CanvasPt { x, y }
}

/// Clamping a node position is idempotent for every position and footprint.
pub proof fn lemma_clamp_pos_idempotent(x: int, y: int, w: int, h: int)
    ensures
        clamp_pos_int(clamp_pos_int(x, y, w, h).0, clamp_pos_int(x, y, w, h).1, w, h)
            == clamp_pos_int(x, y, w, h),
{
}

} // verus!
