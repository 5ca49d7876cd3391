//! Tests of the link router and the pointer interaction state machines:
//! the render scenarios, the curve formula, and the drag, scroll-zoom and
//! pinch gestures.

use helvum::geom::ScreenPt;
use helvum::model::{Direction, Link, Outcome, Port};
use helvum::route::{find_geom, render_links, route_link, PortGeom, PortGeomEntry};
use helvum::view::{GraphView, HitTarget};

fn basic_graph() -> GraphView {
    let mut view = GraphView::new();
    view.add_node(1, String::from("mic"), None);
    view.add_node(2, String::from("speakers"), None);
    view.add_port(
        1,
        Port { id: 10, label: String::from("out"), direction: Direction::Source, media: None },
    );
    view.add_port(
        2,
        Port { id: 20, label: String::from("in"), direction: Direction::Sink, media: None },
    );
    view
}

fn geom(node_id: u32, port_id: u32, x: i64, y: i64) -> PortGeomEntry {
    PortGeomEntry {
        node_id,
        port_id,
        geom: PortGeom { x, y, w: 40_000, h: 20_000, alloc_w: 44_000 },
    }
}

#[test]
fn basic_graph_renders_one_solid_curve() {
    let mut view = basic_graph();
    view.add_link(Link { id: 100, from_node: 1, from_port: 10, to_node: 2, to_port: 20, active: true });

    let geoms = vec![geom(1, 10, 0, 0), geom(2, 20, 200_000, 50_000)];
    let curves = render_links(&view.model, &geoms, view.zoom_factor());
    assert_eq!(curves.len(), 1);
    let c = &curves[0];
    assert!(c.active);
    // Exit anchor: right edge plus half the allocation surplus, centered.
    assert_eq!(c.from, ScreenPt { x: 42_000, y: 10_000 });
    // Entry anchor: left edge minus the padding, centered.
    assert_eq!(c.to, ScreenPt { x: 198_000, y: 60_000 });
    // Solid stroke: no dashes; width scales with zoom.
    assert_eq!(c.dash_on, 0);
    assert_eq!(c.stroke_width, 2_000);
}

#[test]
fn dangling_link_is_skipped_others_unaffected() {
    let mut view = basic_graph();
    view.add_link(Link { id: 100, from_node: 1, from_port: 10, to_node: 2, to_port: 20, active: true });
    // Node 99 does not exist; link 101 must be skipped this frame.
    view.add_link(Link { id: 101, from_node: 1, from_port: 10, to_node: 99, to_port: 999, active: true });

    let geoms = vec![geom(1, 10, 0, 0), geom(2, 20, 200_000, 50_000)];
    let curves = render_links(&view.model, &geoms, view.zoom_factor());
    assert_eq!(curves.len(), 1);
    assert_eq!(curves[0].to, ScreenPt { x: 198_000, y: 60_000 });
    // The dangling link stays in the model awaiting a future insert.
    assert_eq!(view.model.links.len(), 2);
}

#[test]
fn missing_geometry_skips_the_link() {
    let mut view = basic_graph();
    view.add_link(Link { id: 100, from_node: 1, from_port: 10, to_node: 2, to_port: 20, active: true });
    // Geometry reported for only one of the two ports this frame.
    let geoms = vec![geom(1, 10, 0, 0)];
    let curves = render_links(&view.model, &geoms, view.zoom_factor());
    assert_eq!(curves.len(), 0);
}

#[test]
fn inactive_link_renders_dashed_scaled_with_zoom() {
    let mut view = basic_graph();
    view.add_link(Link { id: 100, from_node: 1, from_port: 10, to_node: 2, to_port: 20, active: false });
    view.set_zoom_factor(2000, None);

    let geoms = vec![geom(1, 10, 0, 0), geom(2, 20, 200_000, 50_000)];
    let curves = render_links(&view.model, &geoms, view.zoom_factor());
    assert_eq!(curves.len(), 1);
    assert_eq!(curves[0].stroke_width, 4_000);
    assert_eq!(curves[0].dash_on, 20_000);
    assert_eq!(curves[0].dash_off, 10_000);
}

#[test]
fn curve_control_points_follow_the_span() {
    let from = ScreenPt { x: 0, y: 0 };
    let to = ScreenPt { x: 100_000, y: 40_000 };
    let c = route_link(from, to, true, 1000);
    // Control points sit half the horizontal distance out from each end.
    assert_eq!(c.c1, ScreenPt { x: 50_000, y: 0 });
    assert_eq!(c.c2, ScreenPt { x: 50_000, y: 40_000 });
}

#[test]
fn backward_close_curve_bows_upward() {
    // Origin to the right of the destination, vertically close: both
    // control points are pulled up by 25 units minus the vertical gap.
    let from = ScreenPt { x: 100_000, y: 0 };
    let to = ScreenPt { x: 0, y: 10_000 };
    let c = route_link(from, to, true, 1000);
    assert_eq!(c.c1, ScreenPt { x: 150_000, y: -15_000 });
    assert_eq!(c.c2, ScreenPt { x: -50_000, y: -5_000 });

    // Far apart vertically: no pull.
    let far = ScreenPt { x: 0, y: 200_000 };
    let c2 = route_link(from, far, true, 1000);
    assert_eq!(c2.c1.y, 0);
}

#[test]
fn geometry_lookup_finds_first_match() {
    let geoms = vec![geom(1, 10, 0, 0), geom(1, 10, 999, 999), geom(2, 20, 5, 5)];
    let g = find_geom(&geoms, 1, 10).unwrap();
    assert_eq!(g.x, 0);
    assert!(find_geom(&geoms, 3, 30).is_none());
}

#[test]
fn drag_moves_node_under_pointer() {
    let mut view = GraphView::new();
    view.add_node(1, String::from("n"), Some(helvum::model::NodeKind::Source));
    // Placed at (20, 20) units; neutral transform.
    view.begin_drag(HitTarget::NodeElement(1), ScreenPt { x: 30_000, y: 30_000 });
    view.update_drag(ScreenPt { x: 50_000, y: 45_000 });
    let p = view.node_position(1).unwrap();
    assert_eq!((p.x, p.y), (40_000, 35_000));
    view.end_drag();
    assert!(view.drag.is_none());
}

#[test]
fn drag_respects_grab_offset_under_zoom() {
    let mut view = GraphView::new();
    view.add_node(1, String::from("n"), Some(helvum::model::NodeKind::Source));
    view.set_zoom_factor(2000, Some(ScreenPt { x: 0, y: 0 }));
    view.begin_drag(HitTarget::NodeElement(1), ScreenPt { x: 60_000, y: 60_000 });
    // Moving the pointer 20 screen units moves the node 10 canvas units.
    view.update_drag(ScreenPt { x: 80_000, y: 60_000 });
    let p = view.node_position(1).unwrap();
    assert_eq!((p.x, p.y), (30_000, 20_000));
}

#[test]
fn drag_on_port_or_background_never_arms() {
    let mut view = GraphView::new();
    view.add_node(1, String::from("n"), None);
    view.begin_drag(HitTarget::PortElement, ScreenPt { x: 0, y: 0 });
    assert!(view.drag.is_none());
    view.begin_drag(HitTarget::Background, ScreenPt { x: 0, y: 0 });
    assert!(view.drag.is_none());
    view.begin_drag(HitTarget::NodeElement(99), ScreenPt { x: 0, y: 0 });
    assert!(view.drag.is_none());
}

#[test]
fn node_removed_mid_drag_aborts_silently() {
    let mut view = GraphView::new();
    view.add_node(1, String::from("n"), None);
    view.begin_drag(HitTarget::NodeElement(1), ScreenPt { x: 0, y: 0 });
    assert!(view.drag.is_some());
    assert_eq!(view.remove_node(1), Outcome::Done);
    view.update_drag(ScreenPt { x: 10_000, y: 10_000 });
    assert!(view.drag.is_none());
    assert_eq!(view.model.nodes.len(), 0);
}

#[test]
fn drag_tick_without_gesture_is_ignored() {
    let mut view = GraphView::new();
    view.add_node(1, String::from("n"), None);
    let before = view.node_position(1).unwrap();
    view.update_drag(ScreenPt { x: 500_000, y: 500_000 });
    assert_eq!(view.node_position(1).unwrap(), before);
}

#[test]
fn modified_scroll_zooms_unmodified_passes_through() {
    let mut view = GraphView::new();
    let p = ScreenPt { x: 0, y: 0 };
    // One wheel notch up (delta -1.0) with the modifier: zoom +0.1.
    assert!(view.on_scroll(-1_000, true, p));
    assert_eq!(view.zoom_factor(), 1100);
    // Without the modifier nothing changes and the event is not consumed.
    assert!(!view.on_scroll(-1_000, false, p));
    assert_eq!(view.zoom_factor(), 1100);
}

#[test]
fn pinch_scales_from_initial_zoom_and_clamps() {
    let mut view = GraphView::new();
    view.begin_pinch(Some(ScreenPt { x: 0, y: 0 }));
    view.update_pinch(1_500);
    assert_eq!(view.zoom_factor(), 1500);
    // Scale is relative to the zoom recorded at gesture begin, not the
    // current one.
    view.update_pinch(2_000);
    assert_eq!(view.zoom_factor(), 2000);
    view.update_pinch(100_000);
    assert_eq!(view.zoom_factor(), 4000);
    view.update_pinch(1);
    assert_eq!(view.zoom_factor(), 300);
    view.end_pinch();
    assert!(view.pinch.is_none());
}

#[test]
fn pinch_tick_without_gesture_is_ignored() {
    let mut view = GraphView::new();
    view.update_pinch(3_000);
    assert_eq!(view.zoom_factor(), 1000);
}

#[test]
fn rendering_is_idempotent_for_unchanged_state() {
    let mut view = basic_graph();
    view.add_link(Link { id: 100, from_node: 1, from_port: 10, to_node: 2, to_port: 20, active: true });
    let geoms = vec![geom(1, 10, 0, 0), geom(2, 20, 200_000, 50_000)];
    let a = render_links(&view.model, &geoms, view.zoom_factor());
    let b = render_links(&view.model, &geoms, view.zoom_factor());
    assert_eq!(a, b);
}

#[test]
fn viewport_center_is_default_zoom_anchor() {
    let mut view = GraphView::new();
    view.set_viewport_extent(1_280_000, 720_000);
    // The canvas point under the viewport center before the zoom change.
    let before = view.viewport.screen_to_canvas(ScreenPt { x: 640_000, y: 360_000 });
    view.set_zoom_factor(2000, None);
    let after = view.viewport.screen_to_canvas(ScreenPt { x: 640_000, y: 360_000 });
    assert_eq!(before.x_num as i128 * after.den as i128, after.x_num as i128 * before.den as i128);
    assert_eq!(before.y_num as i128 * after.den as i128, after.y_num as i128 * before.den as i128);
}
