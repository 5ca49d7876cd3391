//! Link routing and per-frame layout support. Once per redraw the router
//! walks every link; a link whose endpoints resolve both in the graph model
//! and in the frame's port geometry is turned into a cubic curve, and any
//! other link is skipped for the frame, staying in the model until a later
//! event resolves it. Also here: the background grid layout, the scrollbar
//! ranges, and the widget allocation size, each a pure function of the
//! viewport state.

use crate::geom::ScreenPt;
use crate::model::{GraphModel, Link, ModelV};
use crate::num::{div_ceil_i64, div_floor_i64, euclid_mod_i64};
use crate::transform::Viewport;
use crate::COORD_LIMIT_MILLIS;
use vstd::prelude::*;

verus! {

/// Screen-space geometry of one port element for the current frame, in
/// milli-pixels: its origin, its content extent, and the width it was
/// allocated (the surplus is rendering padding, half on each side).
#[derive(Clone, Copy, PartialEq, Eq, Structural, Debug)]
pub struct PortGeom {
    pub x: i64,
    pub y: i64,
    pub w: i64,
    pub h: i64,
    pub alloc_w: i64,
}

impl PortGeom {
    /// Origin within machine bounds, extents non-negative and bounded.
    pub open spec fn wf(self) -> bool {
        &&& -COORD_LIMIT_MILLIS <= self.x <= COORD_LIMIT_MILLIS
        &&& -COORD_LIMIT_MILLIS <= self.y <= COORD_LIMIT_MILLIS
        &&& 0 <= self.w <= COORD_LIMIT_MILLIS
        &&& 0 <= self.h <= COORD_LIMIT_MILLIS
        &&& 0 <= self.alloc_w <= COORD_LIMIT_MILLIS
    }

    /// Rendering padding around the port content: half the allocation
    /// surplus, and zero if the allocation is smaller than the content.
    pub open spec fn spec_padding(self) -> int {
        if self.alloc_w > self.w {
            (self.alloc_w - self.w) / 2
        } else {
            0
        }
    }

    /// Exit anchor of an origin port: its right edge including padding,
    /// vertically centered.
    pub open spec fn spec_exit(self) -> (int, int) {
        (self.x + self.w + self.spec_padding(), self.y + self.h / 2)
    }

    /// Entry anchor of a destination port: its left edge including padding,
    /// vertically centered.
    pub open spec fn spec_entry(self) -> (int, int) {
        (self.x - self.spec_padding(), self.y + self.h / 2)
    }
}

/// The screen geometry a frame reports for one port of one node.
#[derive(Clone, Copy, PartialEq, Eq, Structural, Debug)]
pub struct PortGeomEntry {
    pub node_id: u32,
    pub port_id: u32,
    pub geom: PortGeom,
}

/// First geometry entry for the given `(node, port)` pair at or after
/// position `k`.
pub open spec fn find_geom_from(s: Seq<PortGeomEntry>, node_id: u32, port_id: u32, k: int) -> Option<
    PortGeom,
>
    decreases s.len() - k,
{
    if k < 0 || k >= s.len() {
        None
    } else if s[k].node_id == node_id && s[k].port_id == port_id {
        Some(s[k].geom)
    } else {
        find_geom_from(s, node_id, port_id, k + 1)
    }
}

/// First geometry entry for the given `(node, port)` pair.
pub open spec fn spec_find_geom(s: Seq<PortGeomEntry>, node_id: u32, port_id: u32) -> Option<
    PortGeom,
> {
    find_geom_from(s, node_id, port_id, 0)
}

/// Looks up the frame geometry of a port.
pub fn find_geom(geoms: &Vec<PortGeomEntry>, node_id: u32, port_id: u32) -> (r: Option<PortGeom>)
    ensures
        r == spec_find_geom(geoms@, node_id, port_id),
{
    let mut i: usize = 0;
    while i < geoms.len()
        invariant
            i <= geoms@.len(),
            spec_find_geom(geoms@, node_id, port_id) == find_geom_from(
                geoms@,
                node_id,
                port_id,
                i as int,
            ),
        decreases geoms@.len() - i,
    {
        let e = geoms[i];
        if e.node_id == node_id && e.port_id == port_id {
            return Some(e.geom);
        }
        i += 1;
    }
    None
}

/// Mathematical image of one routed curve: the endpoints, the two control
/// points, the active flag, and the zoom-scaled stroke parameters.
#[verifier::ext_equal]
pub struct CurveV {
    pub from_x: int,
    pub from_y: int,
    pub c1_x: int,
    pub c1_y: int,
    pub c2_x: int,
    pub c2_y: int,
    pub to_x: int,
    pub to_y: int,
    pub active: bool,
    pub stroke_width: int,
    pub dash_on: int,
    pub dash_off: int,
}

/// One routed link, ready to draw: a cubic curve from the origin port's
/// exit anchor to the destination port's entry anchor. An active link is
/// drawn solid, an inactive one dashed; stroke width and dash pattern are
/// in milli-pixels and already scaled with the zoom factor.
#[derive(Clone, Copy, PartialEq, Eq, Structural, Debug)]
pub struct LinkCurve {
    pub from: ScreenPt,
    pub c1: ScreenPt,
    pub c2: ScreenPt,
    pub to: ScreenPt,
    pub active: bool,
    pub stroke_width: i64,
    pub dash_on: i64,
    pub dash_off: i64,
}

impl View for LinkCurve {
    type V = CurveV;

    open spec fn view(&self) -> CurveV {
        CurveV {
            from_x: self.from.x as int,
            from_y: self.from.y as int,
            c1_x: self.c1.x as int,
            c1_y: self.c1.y as int,
            c2_x: self.c2.x as int,
            c2_y: self.c2.y as int,
            to_x: self.to.x as int,
            to_y: self.to.y as int,
            active: self.active,
            stroke_width: self.stroke_width as int,
            dash_on: self.dash_on as int,
            dash_off: self.dash_off as int,
        }
    }
}

/// Upward pull applied to both control points when the origin lies to the
/// right of the destination and the two anchors are vertically close, so
/// the curve bows outward instead of doubling back through the nodes.
pub open spec fn y_control_offset(fx: int, fy: int, tx: int, ty: int) -> int {
    if fx > tx {
        let d = if fy >= ty {
            fy - ty
        } else {
            ty - fy
        };
        if 25_000 - d > 0 {
            25_000 - d
        } else {
            0
        }
    } else {
        0
    }
}

/// Half the horizontal distance between the two anchors; each control point
/// is offset horizontally by this much, so the curve scales with the span.
pub open spec fn half_x_dist(fx: int, tx: int) -> int {
    (if fx >= tx {
        fx - tx
    } else {
        tx - fx
    }) / 2
}

/// The curve routed between two resolved anchors under the given zoom.
pub open spec fn curve_spec(from: (int, int), to: (int, int), active: bool, zoom: int) -> CurveV {
    let yco = y_control_offset(from.0, from.1, to.0, to.1);
    let half = half_x_dist(from.0, to.0);
    CurveV {
        from_x: from.0,
        from_y: from.1,
        c1_x: from.0 + half,
        c1_y: from.1 - yco,
        c2_x: to.0 - half,
        c2_y: to.1 - yco,
        to_x: to.0,
        to_y: to.1,
        active,
        stroke_width: 2 * zoom,
        dash_on: if active {
            0
        } else {
            10 * zoom
        },
        dash_off: if active {
            0
        } else {
            5 * zoom
        },
    }
}

/// Bound on anchor coordinates accepted by the router; exit and entry
/// anchors of well-formed geometry always lie inside it.
pub const ANCHOR_LIMIT_MILLIS: i64 = 1_000_000_000_000;

/// Routes one link between two resolved anchors.
pub fn route_link(from: ScreenPt, to: ScreenPt, active: bool, zoom: u32) -> (r: LinkCurve)
    requires
        -ANCHOR_LIMIT_MILLIS <= from.x <= ANCHOR_LIMIT_MILLIS,
        -ANCHOR_LIMIT_MILLIS <= from.y <= ANCHOR_LIMIT_MILLIS,
        -ANCHOR_LIMIT_MILLIS <= to.x <= ANCHOR_LIMIT_MILLIS,
        -ANCHOR_LIMIT_MILLIS <= to.y <= ANCHOR_LIMIT_MILLIS,
        zoom <= crate::ZOOM_MAX_MILLIS,
    ensures
        r@ == curve_spec((from.x as int, from.y as int), (to.x as int, to.y as int), active, zoom as int),
{
    let yco: i64 = if from.x > to.x {
        let d = if from.y >= to.y {
            from.y - to.y
        } else {
            to.y - from.y
        };
        if 25_000 - d > 0 {
            25_000 - d
        } else {
            0
        }
    } else {
        0
    };
    let span: i64 = if from.x >= to.x {
        from.x - to.x
    } else {
        to.x - from.x
    };
    let half = div_floor_i64(span, 2);
    proof {
        vstd::arithmetic::div_mod::lemma_fundamental_div_mod(span as int, 2);
    }
    LinkCurve {
        from,
        c1: ScreenPt { x: from.x + half, y: from.y - yco },
        c2: ScreenPt { x: to.x - half, y: to.y - yco },
        to,
        active,
        stroke_width: 2 * (zoom as i64),
        dash_on: if active {
            0
        } else {
            10 * (zoom as i64)
        },
        dash_off: if active {
            0
        } else {
            5 * (zoom as i64)
        },
    }
}

/// Whether a link is drawn this frame: both endpoint `(node, port)` pairs
/// resolve in the model and the frame reports geometry for both ports.
pub open spec fn link_drawn(m: ModelV, geoms: Seq<PortGeomEntry>, l: Link) -> bool {
    &&& m.link_resolves(l)
    &&& spec_find_geom(geoms, l.from_node, l.from_port) is Some
    &&& spec_find_geom(geoms, l.to_node, l.to_port) is Some
}

/// The curves emitted for the first `k` links of the model, in storage
/// order, skipping every link that is not drawn this frame.
pub open spec fn render_prefix(m: ModelV, geoms: Seq<PortGeomEntry>, zoom: int, k: int) -> Seq<
    CurveV,
>
    decreases k,
{
    if k <= 0 {
        Seq::empty()
    } else {
        let prev = render_prefix(m, geoms, zoom, k - 1);
        let l = m.links[k - 1];
        if link_drawn(m, geoms, l) {
            prev.push(
                curve_spec(
                    spec_find_geom(geoms, l.from_node, l.from_port)->Some_0.spec_exit(),
                    spec_find_geom(geoms, l.to_node, l.to_port)->Some_0.spec_entry(),
                    l.active,
                    zoom,
                ),
            )
        } else {
            prev
        }
    }
}

/// The curves emitted for the whole model this frame.
pub open spec fn render_spec(m: ModelV, geoms: Seq<PortGeomEntry>, zoom: int) -> Seq<CurveV> {
    render_prefix(m, geoms, zoom, m.links.len() as int)
}

/// A geometry lookup over well-formed entries yields well-formed geometry.
proof fn lemma_find_geom_wf(s: Seq<PortGeomEntry>, node_id: u32, port_id: u32, k: int)
    requires
        forall|i: int| 0 <= i < s.len() ==> (#[trigger] s[i]).geom.wf(),
    ensures
        match find_geom_from(s, node_id, port_id, k) {
            Some(g) => g.wf(),
            None => true,
        },
    decreases s.len() - k,
{
    if 0 <= k < s.len() {
        if !(s[k].node_id == node_id && s[k].port_id == port_id) {
            lemma_find_geom_wf(s, node_id, port_id, k + 1);
        }
    }
}

/// Mathematical image of a curve sequence.
pub open spec fn curves_view(s: Seq<LinkCurve>) -> Seq<CurveV> {
    Seq::new(s.len(), |i: int| s[i]@)
}

/// Computes the exit anchor of an origin port's geometry.
pub fn exit_anchor(g: PortGeom) -> (r: ScreenPt)
    requires
        g.wf(),
    ensures
        (r.x as int, r.y as int) == g.spec_exit(),
        -ANCHOR_LIMIT_MILLIS <= r.x <= ANCHOR_LIMIT_MILLIS,
        -ANCHOR_LIMIT_MILLIS <= r.y <= ANCHOR_LIMIT_MILLIS,
{
    let pad = if g.alloc_w > g.w {
        div_floor_i64(g.alloc_w - g.w, 2)
    } else {
        0
    };
    let half_h = div_floor_i64(g.h, 2);
    proof {
        vstd::arithmetic::div_mod::lemma_fundamental_div_mod((g.alloc_w - g.w) as int, 2);
        vstd::arithmetic::div_mod::lemma_fundamental_div_mod(g.h as int, 2);
    }
    ScreenPt { x: g.x + g.w + pad, y: g.y + half_h }
}

/// Computes the entry anchor of a destination port's geometry.
pub fn entry_anchor(g: PortGeom) -> (r: ScreenPt)
    requires
        g.wf(),
    ensures
        (r.x as int, r.y as int) == g.spec_entry(),
        -ANCHOR_LIMIT_MILLIS <= r.x <= ANCHOR_LIMIT_MILLIS,
        -ANCHOR_LIMIT_MILLIS <= r.y <= ANCHOR_LIMIT_MILLIS,
{
    let pad = if g.alloc_w > g.w {
        div_floor_i64(g.alloc_w - g.w, 2)
    } else {
        0
    };
    let half_h = div_floor_i64(g.h, 2);
    proof {
        vstd::arithmetic::div_mod::lemma_fundamental_div_mod((g.alloc_w - g.w) as int, 2);
        vstd::arithmetic::div_mod::lemma_fundamental_div_mod(g.h as int, 2);
    }
    ScreenPt { x: g.x - pad, y: g.y + half_h }
}

/// Routes every link of the model for one frame: walks the links in
/// storage order, resolves each against the model and the frame's port
/// geometry, and emits a curve for exactly the resolved ones. Re-running
/// with unchanged state yields the same output.
pub fn render_links(model: &GraphModel, geoms: &Vec<PortGeomEntry>, zoom: u32) -> (r: Vec<
    LinkCurve,
>)
    requires
        model@.wf(),
        zoom <= crate::ZOOM_MAX_MILLIS,
        forall|i: int| 0 <= i < geoms@.len() ==> (#[trigger] geoms@[i]).geom.wf(),
    ensures
        curves_view(r@) == render_spec(model@, geoms@, zoom as int),
{
    let mut out: Vec<LinkCurve> = Vec::new();
    let mut i: usize = 0;
    proof {
        assert(curves_view(out@) =~= render_prefix(model@, geoms@, zoom as int, 0));
    }
    while i < model.links.len()
        invariant
            model@.wf(),
            i <= model.links@.len(),
            model@.links.len() == model.links@.len(),
            zoom <= crate::ZOOM_MAX_MILLIS,
            forall|k: int| 0 <= k < geoms@.len() ==> (#[trigger] geoms@[k]).geom.wf(),
            curves_view(out@) == render_prefix(model@, geoms@, zoom as int, i as int),
        decreases model.links@.len() - i,
    {
        let l = model.links[i];
        proof {
            assert(model@.links[i as int] == l);
        }
        let resolved = match model.find_port(l.from_node, l.from_port) {
            Some(_) => model.find_port(l.to_node, l.to_port).is_some(),
            None => false,
        };
        let ghost prev = out@;
        if resolved {
            let gf = find_geom(geoms, l.from_node, l.from_port);
            let gt = find_geom(geoms, l.to_node, l.to_port);
            proof {
                lemma_find_geom_wf(geoms@, l.from_node, l.from_port, 0);
                lemma_find_geom_wf(geoms@, l.to_node, l.to_port, 0);
            }
            match (gf, gt) {
                (Some(gfrom), Some(gto)) => {
                    let from = exit_anchor(gfrom);
                    let to = entry_anchor(gto);
                    let curve = route_link(from, to, l.active, zoom);
                    out.push(curve);
                    proof {
                        assert(link_drawn(model@, geoms@, l));
                        assert(curves_view(out@) =~= curves_view(prev).push(curve@));
                        assert(curves_view(out@) =~= render_prefix(
                            model@,
                            geoms@,
                            zoom as int,
                            i as int + 1,
                        ));
                    }
                },
                _ => {
                    proof {
                        assert(!link_drawn(model@, geoms@, l));
                        assert(curves_view(out@) =~= render_prefix(
                            model@,
                            geoms@,
                            zoom as int,
                            i as int + 1,
                        ));
                    }
                },
            }
        } else {
            proof {
                assert(!model@.link_resolves(l));
                assert(curves_view(out@) =~= render_prefix(
                    model@,
                    geoms@,
                    zoom as int,
                    i as int + 1,
                ));
            }
        }
        i += 1;
    }
    out
}

/// Background grid layout for one frame: the cell size and line width scale
/// with the zoom factor, and the offsets shift the first line so the grid
/// moves with scrolling, always landing in `[0, grid_size)`.
#[derive(Clone, Copy, PartialEq, Eq, Structural, Debug)]
pub struct GridLayout {
    pub grid_size: i64,
    pub line_width: i64,
    pub hoffset: i64,
    pub voffset: i64,
}

/// Grid cell size during neutral zoom, in milli-pixels (20 pixels).
pub const GRID_CELL_MILLIS: i64 = 20_000;

/// Grid line width during neutral zoom, in milli-pixels (1 pixel).
pub const GRID_LINE_MILLIS: i64 = 1_000;

/// Computes the background grid layout for the current viewport.
pub fn grid_layout(vp: &Viewport) -> (r: GridLayout)
    requires
        vp.wf(),
    ensures
        r.grid_size == GRID_CELL_MILLIS as int * vp.zoom as int / 1000,
        r.line_width == GRID_LINE_MILLIS as int * vp.zoom as int / 1000,
        r.hoffset == (-vp.scroll_x as int) % (r.grid_size as int),
        r.voffset == (-vp.scroll_y as int) % (r.grid_size as int),
        0 <= r.hoffset < r.grid_size,
        0 <= r.voffset < r.grid_size,
{
    let grid_size = div_floor_i64(GRID_CELL_MILLIS * (vp.zoom as i64), 1000);
    let line_width = div_floor_i64(GRID_LINE_MILLIS * (vp.zoom as i64), 1000);
    proof {
        assert(GRID_CELL_MILLIS as int * vp.zoom as int / 1000 == 20 * vp.zoom as int);
        assert(GRID_LINE_MILLIS as int * vp.zoom as int / 1000 == vp.zoom as int);
    }
    let hoffset = euclid_mod_i64(-vp.scroll_x, grid_size);
    let voffset = euclid_mod_i64(-vp.scroll_y, grid_size);
    GridLayout { grid_size, line_width, hoffset, voffset }
}

/// Scrollbar configuration for one axis: the scrollable range covers the
/// zoomed canvas, and the step, page increment and page size follow the
/// viewport extent, all scaled by the zoom factor, in milli-pixels.
#[derive(Clone, Copy, PartialEq, Eq, Structural, Debug)]
pub struct AdjustmentValues {
    pub lower: i64,
    pub upper: i64,
    pub step_increment: i64,
    pub page_increment: i64,
    pub page_size: i64,
}

/// Computes the scrollbar configuration for one axis of the viewport,
/// given that axis's extent in milli-pixels.
pub fn adjustment_values(zoom: u32, view_extent: i64) -> (r: AdjustmentValues)
    requires
        crate::ZOOM_MIN_MILLIS <= zoom <= crate::ZOOM_MAX_MILLIS,
        0 <= view_extent <= COORD_LIMIT_MILLIS,
    ensures
        r.lower == -2500 * zoom as int,
        r.upper == 2500 * zoom as int,
        r.step_increment == view_extent as int * zoom as int / 10_000,
        r.page_increment == 9 * view_extent as int * zoom as int / 10_000,
        r.page_size == view_extent as int * zoom as int / 1000,
{
    proof {
        assert(0 <= view_extent as int * zoom as int <= 400_000_000_000_000) by (nonlinear_arith)
            requires
                0 <= view_extent as int <= COORD_LIMIT_MILLIS as int,
                0 < zoom as int <= 4000,
        ;
        assert(9 * (view_extent as int * zoom as int) == 9 * view_extent as int * zoom as int)
            by (nonlinear_arith);
    }
    let scaled = view_extent * (zoom as i64);
    AdjustmentValues {
        lower: -2500 * (zoom as i64),
        upper: 2500 * (zoom as i64),
        step_increment: div_floor_i64(scaled, 10_000),
        page_increment: div_floor_i64(9 * scaled, 10_000),
        page_size: div_floor_i64(scaled, 1000),
    }
}

/// Widget allocation extent for a node: its natural extent divided by the
/// zoom factor, rounded up, in milli-pixels, so the scaled widget covers
/// its natural size at every zoom level.
pub fn node_alloc_extent(natural: i64, zoom: u32) -> (r: i64)
    requires
        0 <= natural <= COORD_LIMIT_MILLIS,
        crate::ZOOM_MIN_MILLIS <= zoom <= crate::ZOOM_MAX_MILLIS,
    ensures
        r == (natural as int * 1000 + zoom - 1) / zoom as int,
        r * zoom >= natural * 1000,
{
    let r = div_ceil_i64(natural * 1000, zoom as i64);
    proof {
        assert(r as int * zoom as int >= natural as int * 1000) by (nonlinear_arith)
            requires
                r as int * (zoom as i64) as int >= (natural * 1000) as int,
        ;
    }
    r
}

} // verus!
