//! Tests of the transform engine: round-trip exactness, anchor-preserving
//! zoom, clamping, and the per-frame layout formulas.

use helvum::geom::{CanvasPt, FracPt, ScreenPt, ScreenRect};
use helvum::num::{clamp_i64, div_floor_i64, euclid_mod_i64};
use helvum::route::{adjustment_values, grid_layout, node_alloc_extent};
use helvum::transform::{clamp_zoom, Viewport};

fn vp(scroll_x: i64, scroll_y: i64, zoom: u32) -> Viewport {
    Viewport { scroll_x, scroll_y, zoom, view_w: 1_280_000, view_h: 720_000 }
}

#[test]
fn round_trip_is_exact_at_various_zooms() {
    for &zoom in &[300u32, 417, 1000, 2500, 4000] {
        let v = vp(123_456, -789_012, zoom);
        for &(x, y) in &[(0i64, 0i64), (31_337, -99_999), (-1_000_000, 4_096)] {
            let p = ScreenPt { x, y };
            let frac = v.screen_to_canvas(p);
            let back = v.canvas_to_screen_frac(frac);
            assert_eq!(back, p);
        }
    }
}

#[test]
fn round_trip_at_zoom_bounds_inclusive() {
    // Boundary zoom factors are valid, not rejected.
    let p = ScreenPt { x: 5_000, y: -5_000 };
    for &zoom in &[300u32, 4000] {
        let v = vp(0, 0, zoom);
        assert_eq!(v.canvas_to_screen_frac(v.screen_to_canvas(p)), p);
    }
}

#[test]
fn zoom_anchor_point_does_not_move() {
    // Exact case: (anchor + scroll) * new_zoom is divisible by old_zoom.
    let old = vp(40_000, -60_000, 1000);
    let anchor = ScreenPt { x: 100_000, y: 20_000 };
    let before = old.screen_to_canvas(anchor);

    let mut v = old;
    v.set_zoom(2000, Some(anchor));
    assert_eq!(v.zoom, 2000);
    let after = v.screen_to_canvas(anchor);

    // Same rational canvas point under the anchor, denominators crossed.
    assert_eq!(before.x_num as i128 * after.den as i128, after.x_num as i128 * before.den as i128);
    assert_eq!(before.y_num as i128 * after.den as i128, after.y_num as i128 * before.den as i128);
}

#[test]
fn zoom_factor_is_clamped_inclusive() {
    assert_eq!(clamp_zoom(299), 300);
    assert_eq!(clamp_zoom(300), 300);
    assert_eq!(clamp_zoom(1000), 1000);
    assert_eq!(clamp_zoom(4000), 4000);
    assert_eq!(clamp_zoom(4001), 4000);
    assert_eq!(clamp_zoom(-50), 300);
}

#[test]
fn clamping_is_idempotent() {
    for &raw in &[-1_000i64, 0, 299, 300, 1_234, 4_000, 99_999] {
        let once = clamp_zoom(raw);
        let twice = clamp_zoom(once as i64);
        assert_eq!(twice, once);
    }
    for &(x, y) in &[(10_000_000i64, 0i64), (-10_000_000, -10_000_000), (0, 0)] {
        let w = 100_000;
        let h = 50_000;
        let once = helvum::geom::clamp_pos(CanvasPt { x, y }, w, h);
        let twice = helvum::geom::clamp_pos(once, w, h);
        assert_eq!(twice, once);
    }
}

#[test]
fn flooring_division_and_euclidean_remainder() {
    assert_eq!(div_floor_i64(7, 2), 3);
    assert_eq!(div_floor_i64(-7, 2), -4);
    assert_eq!(div_floor_i64(-8, 2), -4);
    assert_eq!(euclid_mod_i64(-5, 20), 15);
    assert_eq!(euclid_mod_i64(-20, 20), 0);
    assert_eq!(euclid_mod_i64(-21, 20), 19);
    assert_eq!(euclid_mod_i64(5, 20), 5);
}

#[test]
fn grid_layout_scales_and_offsets_with_scroll() {
    let v = vp(5_000, -3_000, 1000);
    let g = grid_layout(&v);
    assert_eq!(g.grid_size, 20_000);
    assert_eq!(g.line_width, 1_000);
    // Offset is the scroll amount reflected into [0, grid_size).
    assert_eq!(g.hoffset, 15_000);
    assert_eq!(g.voffset, 3_000);

    let zoomed = vp(0, 0, 2000);
    let g2 = grid_layout(&zoomed);
    assert_eq!(g2.grid_size, 40_000);
    assert_eq!(g2.line_width, 2_000);
    assert_eq!(g2.hoffset, 0);
}

#[test]
fn adjustment_values_follow_the_zoomed_canvas() {
    let a = adjustment_values(2000, 10_000);
    assert_eq!(a.lower, -5_000_000);
    assert_eq!(a.upper, 5_000_000);
    assert_eq!(a.step_increment, 2_000);
    assert_eq!(a.page_increment, 18_000);
    assert_eq!(a.page_size, 20_000);
}

#[test]
fn node_allocation_covers_natural_size() {
    // ceil(100_000 * 1000 / 300)
    assert_eq!(node_alloc_extent(100_000, 300), 333_334);
    assert_eq!(node_alloc_extent(100_000, 1000), 100_000);
    assert_eq!(node_alloc_extent(0, 4000), 0);
}

#[test]
fn panned_scroll_shifts_the_transform() {
    let mut v = vp(0, 0, 1000);
    v.set_scroll(7_000, -3_000);
    let f = v.screen_to_canvas(ScreenPt { x: 0, y: 0 });
    assert_eq!((f.x_num, f.y_num, f.den), (7_000_000, -3_000_000, 1000));
}

#[test]
fn canvas_points_project_through_zoom_and_scroll() {
    // 5 canvas units at zoom 2.0 land at 10 pixels, shifted by the scroll.
    let v = vp(10_000, 0, 2000);
    let s = v.canvas_to_screen(CanvasPt { x: 5_000, y: -5_000 });
    assert_eq!(s, ScreenPt { x: 0, y: -10_000 });
}

#[test]
fn fractional_point_rounds_toward_negative_infinity() {
    let f = FracPt { x_num: -7, y_num: 7, den: 2 };
    let r = f.rounded();
    assert_eq!(r, CanvasPt { x: -4, y: 3 });
}

#[test]
fn rect_overlap_for_culling() {
    let a = ScreenRect { x: 0, y: 0, w: 100, h: 100 };
    let b = ScreenRect { x: 50, y: 50, w: 100, h: 100 };
    let c = ScreenRect { x: 100, y: 0, w: 10, h: 10 };
    assert!(a.intersects(b));
    assert!(b.intersects(a));
    assert!(!a.intersects(c));
}

#[test]
fn clamp_helper_matches_interval() {
    assert_eq!(clamp_i64(5, 0, 10), 5);
    assert_eq!(clamp_i64(-5, 0, 10), 0);
    assert_eq!(clamp_i64(15, 0, 10), 10);
}
