//! The transform engine: scroll offsets and a zoom factor, with the two
//! mutually inverse maps between canvas space and screen space, and the
//! anchor-preserving zoom update.
//!
//! Mapping canvas to screen multiplies by the zoom factor and subtracts the
//! scroll offset; mapping screen to canvas undoes the scale after undoing the
//! translation, returning an exact [`FracPt`] whose denominator is the zoom
//! factor. Because that result is exact, the round-trip law holds as an
//! equality: mapping any screen point to canvas space and back yields the
//! same point again.

use crate::geom::{CanvasPt, FracPt, ScreenPt};
use crate::num::{clamp_i64, clamp_int, div_floor_i64};
use crate::{COORD_LIMIT_MILLIS, ZOOM_MAX_MILLIS, ZOOM_MIN_MILLIS};
use vstd::arithmetic::div_mod::{lemma_div_multiples_vanish, lemma_fundamental_div_mod};
use vstd::prelude::*;

verus! {

/// Scroll state, zoom factor and viewport extent of the canvas widget.
///
/// Scroll offsets are in milli-pixels; the zoom factor is per-mille; the
/// viewport extent is in milli-pixels and only used as the fallback zoom
/// anchor (the viewport center) when no explicit anchor is supplied.
#[derive(Clone, Copy, PartialEq, Eq, Structural, Debug)]
pub struct Viewport {
    pub scroll_x: i64,
    pub scroll_y: i64,
    pub zoom: u32,
    pub view_w: i64,
    pub view_h: i64,
}

/// Mathematical clamp of a raw per-mille zoom factor into the configured
/// zoom bounds; boundary values are themselves valid.
pub open spec fn clamp_zoom_int(z: int) -> int {
    clamp_int(z, ZOOM_MIN_MILLIS as int, ZOOM_MAX_MILLIS as int)
}

/// Clamps a raw per-mille zoom factor into the zoom bounds.
pub fn clamp_zoom(z: i64) -> (r: u32)
    ensures
        r == clamp_zoom_int(z as int),
{
    clamp_i64(z, ZOOM_MIN_MILLIS as i64, ZOOM_MAX_MILLIS as i64) as u32
}

/// Clamping the zoom factor is idempotent.
pub proof fn lemma_clamp_zoom_idempotent(z: int)
    ensures
        clamp_zoom_int(clamp_zoom_int(z)) == clamp_zoom_int(z),
{
}

/// Numerator of the exact canvas coordinate under screen coordinate `s` for
/// scroll offset `scroll`; the denominator is the zoom factor.
pub open spec fn s2c_num(s: int, scroll: int) -> int {
    (s + scroll) * 1000
}

/// Screen coordinate of the exact canvas coordinate `num / den` milli-units
/// under zoom `zoom` and scroll offset `scroll`.
pub open spec fn c2s_of_frac(num: int, den: int, zoom: int, scroll: int) -> int
    recommends
        den > 0,
        zoom > 0,
{
    (num * zoom) / (den * 1000) - scroll
}

/// New scroll offset chosen by an anchor-preserving zoom change: the exact
/// solution `(a + s) * z2 / z - a`, rounded toward negative infinity and
/// held inside the machine coordinate bound.
pub open spec fn rezoom_scroll(s: int, a: int, z: int, z2: int) -> int
    recommends
        z > 0,
{
    clamp_int(
        ((a + s) * z2) / z - a,
        -COORD_LIMIT_MILLIS as int,
        COORD_LIMIT_MILLIS as int,
    )
}

impl Viewport {
    /// Scroll offsets and viewport extent inside machine bounds, zoom factor
    /// inside the configured zoom bounds.
    pub open spec fn wf(self) -> bool {
        &&& -COORD_LIMIT_MILLIS <= self.scroll_x <= COORD_LIMIT_MILLIS
        &&& -COORD_LIMIT_MILLIS <= self.scroll_y <= COORD_LIMIT_MILLIS
        &&& ZOOM_MIN_MILLIS <= self.zoom <= ZOOM_MAX_MILLIS
        &&& 0 <= self.view_w <= COORD_LIMIT_MILLIS
        &&& 0 <= self.view_h <= COORD_LIMIT_MILLIS
    }

    /// A fresh viewport: no scrolling, neutral zoom, empty extent.
    pub fn new() -> (r: Viewport)
        ensures
            r.wf(),
            r.scroll_x == 0 && r.scroll_y == 0,
            r.zoom == crate::ZOOM_DEFAULT_MILLIS,
            r.view_w == 0 && r.view_h == 0,
    {
        Viewport { scroll_x: 0, scroll_y: 0, zoom: crate::ZOOM_DEFAULT_MILLIS, view_w: 0, view_h: 0 }
    }

    /// Maps a screen point to the exact canvas point under it: translate by
    /// the scroll offset, then divide by the zoom factor.
    pub fn screen_to_canvas(&self, p: ScreenPt) -> (r: FracPt)
        requires
            self.wf(),
            -COORD_LIMIT_MILLIS <= p.x <= COORD_LIMIT_MILLIS,
            -COORD_LIMIT_MILLIS <= p.y <= COORD_LIMIT_MILLIS,
        ensures
            r.x_num == s2c_num(p.x as int, self.scroll_x as int),
            r.y_num == s2c_num(p.y as int, self.scroll_y as int),
            r.den == self.zoom,
            r.wf(),
    {
        FracPt {
            x_num: (p.x + self.scroll_x) * 1000,
            y_num: (p.y + self.scroll_y) * 1000,
            den: self.zoom as i64,
        }
    }

    /// Maps a whole-milli-unit canvas point to screen space: scale by the
    /// zoom factor (rounding toward negative infinity), then translate by
    /// the negated scroll offset.
    pub fn canvas_to_screen(&self, c: CanvasPt) -> (r: ScreenPt)
        requires
            self.wf(),
            -COORD_LIMIT_MILLIS <= c.x <= COORD_LIMIT_MILLIS,
            -COORD_LIMIT_MILLIS <= c.y <= COORD_LIMIT_MILLIS,
        ensures
            r.x == c2s_of_frac(c.x as int, 1, self.zoom as int, self.scroll_x as int),
            r.y == c2s_of_frac(c.y as int, 1, self.zoom as int, self.scroll_y as int),
    {
        proof {
            assert(-1_000_000_000_000_000_000 <= c.x as int * self.zoom as int
                <= 1_000_000_000_000_000_000) by (nonlinear_arith)
                requires
                    -COORD_LIMIT_MILLIS as int <= c.x as int <= COORD_LIMIT_MILLIS as int,
                    0 < self.zoom as int <= 4000,
            ;
            assert(-1_000_000_000_000_000_000 <= c.y as int * self.zoom as int
                <= 1_000_000_000_000_000_000) by (nonlinear_arith)
                requires
                    -COORD_LIMIT_MILLIS as int <= c.y as int <= COORD_LIMIT_MILLIS as int,
                    0 < self.zoom as int <= 4000,
            ;
            lemma_div_floor_magnitude(c.x as int * self.zoom as int, 1000);
            lemma_div_floor_magnitude(c.y as int * self.zoom as int, 1000);
        }
        ScreenPt {
            x: div_floor_i64(c.x * (self.zoom as i64), 1000) - self.scroll_x,
            y: div_floor_i64(c.y * (self.zoom as i64), 1000) - self.scroll_y,
        }
    }

    /// Maps an exact canvas point back to screen space. The point must be as
    /// fresh conversions from [`Self::screen_to_canvas`] are: denominator a
    /// zoom factor, numerators within the bound such conversions ensure.
    pub fn canvas_to_screen_frac(&self, c: FracPt) -> (r: ScreenPt)
        requires
            self.wf(),
            ZOOM_MIN_MILLIS <= c.den <= ZOOM_MAX_MILLIS,
            -250_000_000_000_000 <= c.x_num <= 250_000_000_000_000,
            -250_000_000_000_000 <= c.y_num <= 250_000_000_000_000,
        ensures
            r.x == c2s_of_frac(c.x_num as int, c.den as int, self.zoom as int, self.scroll_x as int),
            r.y == c2s_of_frac(c.y_num as int, c.den as int, self.zoom as int, self.scroll_y as int),
    {
        proof {
            lemma_mul_num_zoom_bound(c.x_num as int, self.zoom as int);
            lemma_mul_num_zoom_bound(c.y_num as int, self.zoom as int);
            lemma_div_floor_magnitude(c.x_num as int * self.zoom as int, c.den as int * 1000);
            lemma_div_floor_magnitude(c.y_num as int * self.zoom as int, c.den as int * 1000);
        }
        ScreenPt {
            x: div_floor_i64(c.x_num * (self.zoom as i64), c.den * 1000) - self.scroll_x,
            y: div_floor_i64(c.y_num * (self.zoom as i64), c.den * 1000) - self.scroll_y,
        }
    }

    /// Records scroll offsets panned from outside (the scrollable viewport
    /// owns ordinary panning), held inside the machine coordinate bound.
    pub fn set_scroll(&mut self, x: i64, y: i64)
        requires
            old(self).wf(),
        ensures
            final(self).wf(),
            final(self).zoom == old(self).zoom,
            final(self).view_w == old(self).view_w,
            final(self).view_h == old(self).view_h,
            final(self).scroll_x == clamp_int(
                x as int,
                -COORD_LIMIT_MILLIS as int,
                COORD_LIMIT_MILLIS as int,
            ),
            final(self).scroll_y == clamp_int(
                y as int,
                -COORD_LIMIT_MILLIS as int,
                COORD_LIMIT_MILLIS as int,
            ),
    {
        self.scroll_x = clamp_i64(x, -COORD_LIMIT_MILLIS, COORD_LIMIT_MILLIS);
        self.scroll_y = clamp_i64(y, -COORD_LIMIT_MILLIS, COORD_LIMIT_MILLIS);
    }

    /// Changes the zoom factor, keeping the canvas content under `anchor`
    /// fixed on screen: the scroll offsets are re-solved so that the exact
    /// canvas point that was under the anchor projects to the anchor again
    /// under the new zoom factor. Without an explicit anchor the viewport
    /// center is used. The raw factor is clamped into the zoom bounds first.
    pub fn set_zoom(&mut self, raw_zoom: i64, anchor: Option<ScreenPt>)
        requires
            old(self).wf(),
            match anchor {
                Some(a) => -COORD_LIMIT_MILLIS <= a.x <= COORD_LIMIT_MILLIS
                    && -COORD_LIMIT_MILLIS <= a.y <= COORD_LIMIT_MILLIS,
                None => true,
            },
        ensures
            final(self).wf(),
            final(self).zoom == clamp_zoom_int(raw_zoom as int),
            final(self).view_w == old(self).view_w,
            final(self).view_h == old(self).view_h,
            final(self).scroll_x == rezoom_scroll(
                old(self).scroll_x as int,
                spec_anchor_x(*old(self), anchor),
                old(self).zoom as int,
                clamp_zoom_int(raw_zoom as int),
            ),
            final(self).scroll_y == rezoom_scroll(
                old(self).scroll_y as int,
                spec_anchor_y(*old(self), anchor),
                old(self).zoom as int,
                clamp_zoom_int(raw_zoom as int),
            ),
    {
        let z2 = clamp_zoom(raw_zoom);
        let (ax, ay) = match anchor {
            Some(a) => (a.x, a.y),
            None => (div_floor_i64(self.view_w, 2), div_floor_i64(self.view_h, 2)),
        };
        proof {
            lemma_rezoom_in_bounds(
                self.scroll_x as int,
                ax as int,
                self.zoom as int,
                z2 as int,
            );
            lemma_rezoom_in_bounds(
                self.scroll_y as int,
                ay as int,
                self.zoom as int,
                z2 as int,
            );
        }
        let sx = clamp_i64(
            div_floor_i64((ax + self.scroll_x) * (z2 as i64), self.zoom as i64) - ax,
            -COORD_LIMIT_MILLIS,
            COORD_LIMIT_MILLIS,
        );
        let sy = clamp_i64(
            div_floor_i64((ay + self.scroll_y) * (z2 as i64), self.zoom as i64) - ay,
            -COORD_LIMIT_MILLIS,
            COORD_LIMIT_MILLIS,
        );
        self.scroll_x = sx;
        self.scroll_y = sy;
        self.zoom = z2;
    }
}

/// Effective horizontal zoom anchor: the given point, or the viewport center.
pub open spec fn spec_anchor_x(vp: Viewport, anchor: Option<ScreenPt>) -> int {
    match anchor {
        Some(a) => a.x as int,
        None => vp.view_w as int / 2,
    }
}

/// Effective vertical zoom anchor: the given point, or the viewport center.
pub open spec fn spec_anchor_y(vp: Viewport, anchor: Option<ScreenPt>) -> int {
    match anchor {
        Some(a) => a.y as int,
        None => vp.view_h as int / 2,
    }
}

/// Product of a fresh-conversion numerator and a zoom factor stays in `i64`.
proof fn lemma_mul_num_zoom_bound(num: int, zoom: int)
    requires
        -250_000_000_000_000 <= num <= 250_000_000_000_000,
        0 < zoom <= ZOOM_MAX_MILLIS,
    ensures
        -1_000_000_000_000_000_000 <= num * zoom <= 1_000_000_000_000_000_000,
{
    assert(-1_000_000_000_000_000_000 <= num * zoom <= 1_000_000_000_000_000_000)
        by (nonlinear_arith)
        requires
            -250_000_000_000_000 <= num <= 250_000_000_000_000,
            0 < zoom <= 4000,
    ;
}

/// Flooring division by a positive divisor cannot grow a value's magnitude.
proof fn lemma_div_floor_magnitude(n: int, d: int)
    requires
        d > 0,
        -1_000_000_000_000_000_000 <= n <= 1_000_000_000_000_000_000,
    ensures
        -1_000_000_000_000_000_000 <= n / d <= 1_000_000_000_000_000_000,
{
    lemma_fundamental_div_mod(n, d);
    assert(-1_000_000_000_000_000_000 <= n / d <= 1_000_000_000_000_000_000) by (nonlinear_arith)
        requires
            d > 0,
            -1_000_000_000_000_000_000 <= n <= 1_000_000_000_000_000_000,
            n == d * (n / d) + n % d,
            0 <= n % d < d,
    ;
}

/// The intermediate products of the anchor-preserving scroll solution stay
/// inside `i64` for anchors and scrolls within the machine bound.
proof fn lemma_rezoom_in_bounds(s: int, a: int, z: int, z2: int)
    requires
        ZOOM_MIN_MILLIS <= z <= ZOOM_MAX_MILLIS,
        ZOOM_MIN_MILLIS <= z2 <= ZOOM_MAX_MILLIS,
        -COORD_LIMIT_MILLIS <= s <= COORD_LIMIT_MILLIS,
        -COORD_LIMIT_MILLIS <= a <= COORD_LIMIT_MILLIS,
    ensures
        -800_000_000_000_000 <= (a + s) * z2 <= 800_000_000_000_000,
        -3_000_000_000_000_000 <= ((a + s) * z2) / z <= 3_000_000_000_000_000,
{
    assert(-800_000_000_000_000 <= (a + s) * z2 <= 800_000_000_000_000) by (nonlinear_arith)
        requires
            -2 * COORD_LIMIT_MILLIS as int <= a + s <= 2 * COORD_LIMIT_MILLIS as int,
            0 < z2 <= 4000,
    ;
    let n = (a + s) * z2;
    lemma_fundamental_div_mod(n, z);
    assert(-3_000_000_000_000_000 <= n / z <= 3_000_000_000_000_000) by (nonlinear_arith)
        requires
            z >= 300,
            -800_000_000_000_000 <= n <= 800_000_000_000_000,
            n == z * (n / z) + n % z,
            0 <= n % z < z,
    ;
}

/// Round-trip law: for every zoom factor and scroll state and every screen
/// point within the machine bound, mapping the point to its exact canvas
/// point and back to screen space yields the same point again.
pub proof fn lemma_round_trip(vp: Viewport, p: ScreenPt)
    requires
        vp.wf(),
        -COORD_LIMIT_MILLIS <= p.x <= COORD_LIMIT_MILLIS,
        -COORD_LIMIT_MILLIS <= p.y <= COORD_LIMIT_MILLIS,
    ensures
        c2s_of_frac(
            s2c_num(p.x as int, vp.scroll_x as int),
            vp.zoom as int,
            vp.zoom as int,
            vp.scroll_x as int,
        ) == p.x,
        c2s_of_frac(
            s2c_num(p.y as int, vp.scroll_y as int),
            vp.zoom as int,
            vp.zoom as int,
            vp.scroll_y as int,
        ) == p.y,
{
    lemma_round_trip_axis(p.x as int, vp.scroll_x as int, vp.zoom as int);
    lemma_round_trip_axis(p.y as int, vp.scroll_y as int, vp.zoom as int);
}

/// One axis of the round-trip law.
proof fn lemma_round_trip_axis(s: int, scroll: int, z: int)
    requires
        z > 0,
    ensures
        c2s_of_frac(s2c_num(s, scroll), z, z, scroll) == s,
{
    let t = s + scroll;
    assert((t * 1000) * z == (z * 1000) * t) by (nonlinear_arith);
    lemma_div_multiples_vanish(t, z * 1000);
    assert((z * 1000) * t / (z * 1000) == t);
}

/// Anchor invariance: after an anchor-preserving zoom change whose exact
/// scroll solution is representable (the division is exact and the result is
/// inside the machine bound), the exact canvas point under the anchor is the
/// same rational under the new state as under the old state. The equality is
/// stated with denominators cross-multiplied: the new numerator over the new
/// zoom factor equals the old numerator over the old zoom factor.
pub proof fn lemma_zoom_anchor_invariant(vp: Viewport, z2: int, a: ScreenPt)
    requires
        vp.wf(),
        ZOOM_MIN_MILLIS <= z2 <= ZOOM_MAX_MILLIS,
        -COORD_LIMIT_MILLIS <= a.x <= COORD_LIMIT_MILLIS,
        -COORD_LIMIT_MILLIS <= a.y <= COORD_LIMIT_MILLIS,
        ((a.x + vp.scroll_x) * z2) % (vp.zoom as int) == 0,
        ((a.y + vp.scroll_y) * z2) % (vp.zoom as int) == 0,
        -COORD_LIMIT_MILLIS <= ((a.x + vp.scroll_x) * z2) / (vp.zoom as int) - a.x
            <= COORD_LIMIT_MILLIS,
        -COORD_LIMIT_MILLIS <= ((a.y + vp.scroll_y) * z2) / (vp.zoom as int) - a.y
            <= COORD_LIMIT_MILLIS,
    ensures
        s2c_num(a.x as int, rezoom_scroll(vp.scroll_x as int, a.x as int, vp.zoom as int, z2))
            * (vp.zoom as int) == s2c_num(a.x as int, vp.scroll_x as int) * z2,
        s2c_num(a.y as int, rezoom_scroll(vp.scroll_y as int, a.y as int, vp.zoom as int, z2))
            * (vp.zoom as int) == s2c_num(a.y as int, vp.scroll_y as int) * z2,
{
    lemma_zoom_anchor_axis(vp.scroll_x as int, a.x as int, vp.zoom as int, z2);
    lemma_zoom_anchor_axis(vp.scroll_y as int, a.y as int, vp.zoom as int, z2);
}

/// Anchor drift bound: even where the exact scroll solution is not a whole
/// milli-pixel, the stored scroll is its floor, so the exact canvas point
/// under the anchor moves by less than `1000 / z2` milli-units — under a
/// pixel at any zoom factor. The difference of the two rationals is stated
/// with denominators cross-multiplied: it lies in `(-1000 * z, 0]` over the
/// common denominator `z * z2`.
pub proof fn lemma_zoom_anchor_drift(vp: Viewport, z2: int, a: ScreenPt)
    requires
        vp.wf(),
        ZOOM_MIN_MILLIS <= z2 <= ZOOM_MAX_MILLIS,
        -COORD_LIMIT_MILLIS <= a.x <= COORD_LIMIT_MILLIS,
        -COORD_LIMIT_MILLIS <= a.y <= COORD_LIMIT_MILLIS,
        -COORD_LIMIT_MILLIS <= ((a.x + vp.scroll_x) * z2) / (vp.zoom as int) - a.x
            <= COORD_LIMIT_MILLIS,
        -COORD_LIMIT_MILLIS <= ((a.y + vp.scroll_y) * z2) / (vp.zoom as int) - a.y
            <= COORD_LIMIT_MILLIS,
    ensures
        -1000 * vp.zoom < s2c_num(
            a.x as int,
            rezoom_scroll(vp.scroll_x as int, a.x as int, vp.zoom as int, z2),
        ) * (vp.zoom as int) - s2c_num(a.x as int, vp.scroll_x as int) * z2 <= 0,
        -1000 * vp.zoom < s2c_num(
            a.y as int,
            rezoom_scroll(vp.scroll_y as int, a.y as int, vp.zoom as int, z2),
        ) * (vp.zoom as int) - s2c_num(a.y as int, vp.scroll_y as int) * z2 <= 0,
{
    lemma_zoom_drift_axis(vp.scroll_x as int, a.x as int, vp.zoom as int, z2);
    lemma_zoom_drift_axis(vp.scroll_y as int, a.y as int, vp.zoom as int, z2);
}

/// One axis of the anchor drift bound.
proof fn lemma_zoom_drift_axis(s: int, a: int, z: int, z2: int)
    requires
        z > 0,
        -COORD_LIMIT_MILLIS <= ((a + s) * z2) / z - a <= COORD_LIMIT_MILLIS,
    ensures
        -1000 * z < s2c_num(a, rezoom_scroll(s, a, z, z2)) * z - s2c_num(a, s) * z2 <= 0,
{
    let x = (a + s) * z2;
    let q = x / z;
    let r = x % z;
    lemma_fundamental_div_mod(x, z);
    assert(rezoom_scroll(s, a, z, z2) == q - a);
    assert((a + (q - a)) * 1000 * z - (a + s) * 1000 * z2 == -1000 * r) by (nonlinear_arith)
        requires
            x == z * q + r,
            x == (a + s) * z2,
    ;
    assert(-1000 * z < -1000 * r <= 0) by (nonlinear_arith)
        requires
            0 <= r < z,
    ;
}

/// One axis of the anchor-invariance law.
proof fn lemma_zoom_anchor_axis(s: int, a: int, z: int, z2: int)
    requires
        z > 0,
        ((a + s) * z2) % z == 0,
        -COORD_LIMIT_MILLIS <= ((a + s) * z2) / z - a <= COORD_LIMIT_MILLIS,
    ensures
        s2c_num(a, rezoom_scroll(s, a, z, z2)) * z == s2c_num(a, s) * z2,
{
    let q = ((a + s) * z2) / z;
    lemma_fundamental_div_mod((a + s) * z2, z);
    assert((a + s) * z2 == z * q);
    assert(rezoom_scroll(s, a, z, z2) == q - a);
    assert((a + (q - a)) * 1000 * z == (a + s) * 1000 * z2) by (nonlinear_arith)
        requires
            (a + s) * z2 == z * q,
    ;
}

} // verus!
