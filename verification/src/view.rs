//! The graph view: the graph model, the viewport transform, and the
//! per-gesture interaction state, with the public operations the
//! surrounding application calls for every inbound event and every pointer
//! gesture.
//!
//! Gesture state never owns a node: a drag holds the node's id and is
//! re-resolved against the model on every tick, so a node removed
//! mid-gesture silently aborts the drag instead of leaving a dangling
//! reference. All mutations either apply fully or not at all.

use crate::geom::{CanvasPt, FracPt, ScreenPt};
use crate::model::{GraphModel, Link, Node, NodeKind, NodeV, Outcome, Port};
use crate::place::{place_new_node, place_spec};
use crate::transform::{
    clamp_zoom_int, rezoom_scroll, s2c_num, spec_anchor_x, spec_anchor_y, Viewport,
};
use crate::{COORD_LIMIT_MILLIS, ZOOM_MAX_MILLIS, ZOOM_MIN_MILLIS};
use vstd::prelude::*;

verus! {

/// Bound on the numerators of a drag's grab offset.
pub const GRAB_NUM_LIMIT: i64 = 300_000_000_000_000;

/// An in-progress node drag: the dragged node's id and the canvas-space
/// offset of the pointer from the node's origin at grab time, kept exact so
/// the grabbed point stays under the pointer while the node moves.
#[derive(Clone, Copy, PartialEq, Eq, Structural, Debug)]
pub struct DragState {
    pub node_id: u32,
    pub grab_offset: FracPt,
}

impl DragState {
    /// The grab offset is a fresh screen-to-canvas difference: denominator
    /// a zoom factor, numerators bounded.
    pub open spec fn wf(self) -> bool {
        &&& ZOOM_MIN_MILLIS <= self.grab_offset.den <= ZOOM_MAX_MILLIS
        &&& -GRAB_NUM_LIMIT <= self.grab_offset.x_num <= GRAB_NUM_LIMIT
        &&& -GRAB_NUM_LIMIT <= self.grab_offset.y_num <= GRAB_NUM_LIMIT
    }
}

/// An in-progress pinch gesture: the zoom factor when the gesture began and
/// the anchor recorded at that moment, fixed for the whole gesture.
#[derive(Clone, Copy, PartialEq, Eq, Structural, Debug)]
pub struct PinchState {
    pub initial_zoom: u32,
    pub anchor: Option<ScreenPt>,
}

impl PinchState {
    /// The recorded zoom factor and anchor are inside machine bounds.
    pub open spec fn wf(self) -> bool {
        &&& ZOOM_MIN_MILLIS <= self.initial_zoom <= ZOOM_MAX_MILLIS
        &&& match self.anchor {
            Some(a) => -COORD_LIMIT_MILLIS <= a.x <= COORD_LIMIT_MILLIS && -COORD_LIMIT_MILLIS
                <= a.y <= COORD_LIMIT_MILLIS,
            None => true,
        }
    }
}

/// What the pointer landed on when a drag began, as resolved by the
/// surrounding widget toolkit's hit test.
#[derive(Clone, Copy, PartialEq, Eq, Structural, Debug)]
pub enum HitTarget {
    /// A port-capable element: the port owns the gesture, the canvas must
    /// not arm a node drag.
    PortElement,
    /// A node element, without a more specific port hit.
    NodeElement(u32),
    /// Neither a node nor a port.
    Background,
}

/// The canvas engine: graph model, viewport transform, and gesture state.
pub struct GraphView {
    pub model: GraphModel,
    pub viewport: Viewport,
    pub drag: Option<DragState>,
    pub pinch: Option<PinchState>,
}

/// The node a `NodeAdded` event inserts: the given identity, the position
/// the placement heuristic chooses (clamped into the canvas extent for a
/// zero footprint), no recorded footprint and no ports yet.
pub open spec fn placed_node(
    m: crate::model::ModelV,
    id: u32,
    label: Seq<char>,
    category: Option<NodeKind>,
) -> NodeV {
    let p = place_spec(m, category);
    let c = crate::geom::clamp_pos_int(p.0, p.1, 0, 0);
    NodeV {
        id,
        label,
        category,
        pos_x: c.0,
        pos_y: c.1,
        width: 0,
        height: 0,
        ports: Seq::empty(),
    }
}

/// Exact canvas target of a drag tick: the pointer's canvas position under
/// the current transform, minus the grab offset, as a numerator pair over
/// the product of the two denominators.
pub open spec fn drag_target(vp: Viewport, ds: DragState, p: ScreenPt) -> (int, int) {
    let cx = s2c_num(p.x as int, vp.scroll_x as int);
    let cy = s2c_num(p.y as int, vp.scroll_y as int);
    let den = vp.zoom as int * ds.grab_offset.den as int;
    (
        (cx * ds.grab_offset.den - ds.grab_offset.x_num * vp.zoom) / den,
        (cy * ds.grab_offset.den - ds.grab_offset.y_num * vp.zoom) / den,
    )
}

impl GraphView {
    /// The model, the viewport and any recorded gesture state are well
    /// formed.
    pub open spec fn wf(self) -> bool {
        &&& self.model@.wf()
        &&& self.viewport.wf()
        &&& match self.drag {
            Some(ds) => ds.wf(),
            None => true,
        }
        &&& match self.pinch {
            Some(ps) => ps.wf(),
            None => true,
        }
    }

    /// An empty view: no nodes, no links, neutral transform, no gesture.
    pub fn new() -> (r: GraphView)
        ensures
            r.wf(),
            r.model@.nodes.len() == 0,
            r.model@.links.len() == 0,
            r.viewport.scroll_x == 0 && r.viewport.scroll_y == 0,
            r.viewport.zoom == crate::ZOOM_DEFAULT_MILLIS,
            r.viewport.view_w == 0 && r.viewport.view_h == 0,
            r.drag is None,
            r.pinch is None,
    {
        GraphView {
            model: GraphModel::new(),
            viewport: Viewport::new(),
            drag: None,
            pinch: None,
        }
    }

    /// The current per-mille zoom factor.
    pub fn zoom_factor(&self) -> (r: u32)
        ensures
            r == self.viewport.zoom,
    {
        self.viewport.zoom
    }

    /// Sets the zoom factor, clamped into the zoom bounds, anchored at the
    /// given screen point or at the viewport center, re-solving the scroll
    /// offsets so the canvas content under the anchor stays fixed.
    pub fn set_zoom_factor(&mut self, raw_zoom: i64, anchor: Option<ScreenPt>)
        requires
            old(self).wf(),
            match anchor {
                Some(a) => -COORD_LIMIT_MILLIS <= a.x <= COORD_LIMIT_MILLIS
                    && -COORD_LIMIT_MILLIS <= a.y <= COORD_LIMIT_MILLIS,
                None => true,
            },
        ensures
            final(self).wf(),
            final(self).model == old(self).model,
            final(self).drag == old(self).drag,
            final(self).pinch == old(self).pinch,
            final(self).viewport.zoom == clamp_zoom_int(raw_zoom as int),
            final(self).viewport.view_w == old(self).viewport.view_w,
            final(self).viewport.view_h == old(self).viewport.view_h,
            final(self).viewport.scroll_x == rezoom_scroll(
                old(self).viewport.scroll_x as int,
                spec_anchor_x(old(self).viewport, anchor),
                old(self).viewport.zoom as int,
                clamp_zoom_int(raw_zoom as int),
            ),
            final(self).viewport.scroll_y == rezoom_scroll(
                old(self).viewport.scroll_y as int,
                spec_anchor_y(old(self).viewport, anchor),
                old(self).viewport.zoom as int,
                clamp_zoom_int(raw_zoom as int),
            ),
    {
        self.viewport.set_zoom(raw_zoom, anchor);
    }

    /// Records the viewport extent, used as the fallback zoom anchor.
    pub fn set_viewport_extent(&mut self, w: i64, h: i64)
        requires
            old(self).wf(),
            0 <= w <= COORD_LIMIT_MILLIS,
            0 <= h <= COORD_LIMIT_MILLIS,
        ensures
            final(self).wf(),
            final(self).model == old(self).model,
            final(self).drag == old(self).drag,
            final(self).pinch == old(self).pinch,
            final(self).viewport == (Viewport { view_w: w, view_h: h, ..old(self).viewport }),
    {
        self.viewport.view_w = w;
        self.viewport.view_h = h;
    }

    /// Records scroll offsets panned from outside; ordinary unmodified
    /// scrolling belongs to the scrollable viewport around the canvas, and
    /// this hands its result back to the transform.
    pub fn set_scroll(&mut self, x: i64, y: i64)
        requires
            old(self).wf(),
        ensures
            final(self).wf(),
            final(self).model == old(self).model,
            final(self).drag == old(self).drag,
            final(self).pinch == old(self).pinch,
            final(self).viewport.zoom == old(self).viewport.zoom,
            final(self).viewport.view_w == old(self).viewport.view_w,
            final(self).viewport.view_h == old(self).viewport.view_h,
            final(self).viewport.scroll_x == crate::num::clamp_int(
                x as int,
                -COORD_LIMIT_MILLIS as int,
                COORD_LIMIT_MILLIS as int,
            ),
            final(self).viewport.scroll_y == crate::num::clamp_int(
                y as int,
                -COORD_LIMIT_MILLIS as int,
                COORD_LIMIT_MILLIS as int,
            ),
    {
        self.viewport.set_scroll(x, y);
    }

    /// Adds a node to the view, placing it by the placement heuristic.
    /// Re-insertion of a present id is rejected, keeping the existing
    /// entry; the caller logs the returned duplicate as a warning.
    pub fn add_node(&mut self, id: u32, label: String, category: Option<NodeKind>) -> (r: Outcome)
        requires
            old(self).wf(),
        ensures
            final(self).wf(),
            final(self).model@ == old(self).model@.with_node_inserted(
                placed_node(old(self).model@, id, label@, category),
            ),
            final(self).viewport == old(self).viewport,
            final(self).drag == old(self).drag,
            final(self).pinch == old(self).pinch,
            r == Outcome::Done <==> !old(self).model@.has_node(id),
            r == Outcome::Done || r == Outcome::DuplicateId,
    {
        let (px, py) = place_new_node(&self.model, category);
        let pos = crate::geom::clamp_pos(CanvasPt { x: px, y: py }, 0, 0);
        let node = Node {
            id,
            label,
            category,
            pos,
            width: 0,
            height: 0,
            ports: Vec::new(),
        };
        proof {
            assert(node@.ports =~= Seq::<crate::model::PortV>::empty());
            assert(node@ =~= placed_node(self.model@, id, node.label@, category));
        }
        self.model.insert_node(node)
    }

    /// Removes the node with the given id; an absent id is a no-op the
    /// caller logs as a warning.
    pub fn remove_node(&mut self, id: u32) -> (r: Outcome)
        requires
            old(self).wf(),
        ensures
            final(self).wf(),
            final(self).model@ == old(self).model@.with_node_removed(id),
            final(self).viewport == old(self).viewport,
            final(self).drag == old(self).drag,
            final(self).pinch == old(self).pinch,
            r == Outcome::Done <==> old(self).model@.has_node(id),
            r == Outcome::Done || r == Outcome::NoSuchNode,
    {
        self.model.remove_node(id)
    }

    /// Adds a port to the node with the given id; with the node absent the
    /// port is dropped, and a duplicate port id keeps the existing entry.
    pub fn add_port(&mut self, node_id: u32, port: Port) -> (r: Outcome)
        requires
            old(self).wf(),
        ensures
            final(self).wf(),
            final(self).model@ == old(self).model@.with_port_inserted(node_id, port@),
            final(self).viewport == old(self).viewport,
            final(self).drag == old(self).drag,
            final(self).pinch == old(self).pinch,
            r == Outcome::NoSuchNode <==> !old(self).model@.has_node(node_id),
            r == Outcome::Done <==> old(self).model@.has_node(node_id) && !old(
                self,
            ).model@.nodes[old(self).model@.node_idx(node_id)].has_port(port@.id),
            r == Outcome::Done || r == Outcome::NoSuchNode || r == Outcome::DuplicateId,
    {
        self.model.insert_port(node_id, port)
    }

    /// Removes the port with id `id` from the node with id `node_id`.
    pub fn remove_port(&mut self, id: u32, node_id: u32) -> (r: Outcome)
        requires
            old(self).wf(),
        ensures
            final(self).wf(),
            final(self).model@ == old(self).model@.with_port_removed(id, node_id),
            final(self).viewport == old(self).viewport,
            final(self).drag == old(self).drag,
            final(self).pinch == old(self).pinch,
            r == Outcome::NoSuchNode <==> !old(self).model@.has_node(node_id),
            r == Outcome::Done <==> old(self).model@.has_node(node_id) && old(
                self,
            ).model@.nodes[old(self).model@.node_idx(node_id)].has_port(id),
            r == Outcome::Done || r == Outcome::NoSuchNode || r == Outcome::NoSuchPort,
    {
        self.model.remove_port(id, node_id)
    }

    /// Adds a link, or replaces the stored link of the same id. The
    /// referenced nodes and ports are not validated; resolution is deferred
    /// to render time.
    pub fn add_link(&mut self, link: Link) -> (r: Outcome)
        requires
            old(self).wf(),
        ensures
            final(self).wf(),
            final(self).model@ == old(self).model@.with_link_inserted(link),
            final(self).viewport == old(self).viewport,
            final(self).drag == old(self).drag,
            final(self).pinch == old(self).pinch,
            r == Outcome::Done <==> !old(self).model@.has_link(link.id),
            r == Outcome::Done || r == Outcome::DuplicateId,
    {
        self.model.insert_link(link)
    }

    /// Sets the active flag of the link with the given id; an unknown id is
    /// a no-op the caller logs as a warning.
    pub fn set_link_state(&mut self, link_id: u32, active: bool) -> (r: Outcome)
        requires
            old(self).wf(),
        ensures
            final(self).wf(),
            final(self).model@ == old(self).model@.with_link_active(link_id, active),
            final(self).viewport == old(self).viewport,
            final(self).drag == old(self).drag,
            final(self).pinch == old(self).pinch,
            r == Outcome::Done <==> old(self).model@.has_link(link_id),
            r == Outcome::Done || r == Outcome::NoSuchLink,
    {
        self.model.set_link_active(link_id, active)
    }

    /// Removes the link with the given id; an unknown id is a no-op.
    pub fn remove_link(&mut self, id: u32) -> (r: Outcome)
        requires
            old(self).wf(),
        ensures
            final(self).wf(),
            final(self).model@ == old(self).model@.with_link_removed(id),
            final(self).viewport == old(self).viewport,
            final(self).drag == old(self).drag,
            final(self).pinch == old(self).pinch,
            r == Outcome::Done <==> old(self).model@.has_link(id),
            r == Outcome::Done || r == Outcome::NoSuchLink,
    {
        self.model.remove_link(id)
    }

    /// The canvas-space position of a node.
    pub fn node_position(&self, id: u32) -> (r: Option<CanvasPt>)
        requires
            self.wf(),
        ensures
            match r {
                Some(p) => self.model@.has_node(id) && p.x as int == self.model@.nodes[self.model@.node_idx(
                    id,
                )].pos_x && p.y as int == self.model@.nodes[self.model@.node_idx(id)].pos_y,
                None => !self.model@.has_node(id),
            },
    {
        self.model.node_position(id)
    }

    /// Moves a node to a canvas-space target, clamped into the canvas
    /// extent minus the node's recorded footprint.
    pub fn move_node(&mut self, id: u32, target: CanvasPt) -> (r: Outcome)
        requires
            old(self).wf(),
        ensures
            final(self).wf(),
            final(self).model@ == old(self).model@.with_node_moved(
                id,
                target.x as int,
                target.y as int,
            ),
            final(self).viewport == old(self).viewport,
            final(self).drag == old(self).drag,
            final(self).pinch == old(self).pinch,
            r == Outcome::Done <==> old(self).model@.has_node(id),
            r == Outcome::Done || r == Outcome::NoSuchNode,
    {
        self.model.move_node(id, target)
    }

    /// Records a node's on-screen footprint for position clamping.
    pub fn set_node_size(&mut self, id: u32, w: i64, h: i64) -> (r: Outcome)
        requires
            old(self).wf(),
        ensures
            final(self).wf(),
            final(self).model@ == old(self).model@.with_node_sized(id, w as int, h as int),
            final(self).viewport == old(self).viewport,
            final(self).drag == old(self).drag,
            final(self).pinch == old(self).pinch,
            r == Outcome::Done <==> old(self).model@.has_node(id),
            r == Outcome::Done || r == Outcome::NoSuchNode,
    {
        self.model.set_node_size(id, w, h)
    }

    /// Begins a node drag. A pointer over a port-capable element never arms
    /// the drag (the port owns that gesture), a pointer over a node arms it
    /// with the exact grab offset of the pointer from the node's origin,
    /// and anything else leaves the gesture idle. Arming fails silently if
    /// the node is not in the model.
    pub fn begin_drag(&mut self, hit: HitTarget, pointer: ScreenPt)
        requires
            old(self).wf(),
            -COORD_LIMIT_MILLIS <= pointer.x <= COORD_LIMIT_MILLIS,
            -COORD_LIMIT_MILLIS <= pointer.y <= COORD_LIMIT_MILLIS,
        ensures
            final(self).wf(),
            final(self).model == old(self).model,
            final(self).viewport == old(self).viewport,
            final(self).pinch == old(self).pinch,
            match hit {
                HitTarget::NodeElement(id) => {
                    if old(self).model@.has_node(id) {
                        final(self).drag matches Some(ds) && ds.node_id == id
                            && ds.grab_offset.den == old(self).viewport.zoom
                            && ds.grab_offset.x_num == s2c_num(
                            pointer.x as int,
                            old(self).viewport.scroll_x as int,
                        ) - old(self).model@.nodes[old(self).model@.node_idx(id)].pos_x * old(
                            self,
                        ).viewport.zoom && ds.grab_offset.y_num == s2c_num(
                            pointer.y as int,
                            old(self).viewport.scroll_y as int,
                        ) - old(self).model@.nodes[old(self).model@.node_idx(id)].pos_y * old(
                            self,
                        ).viewport.zoom
                    } else {
                        final(self).drag is None
                    }
                },
                _ => final(self).drag is None,
            },
    {
        match hit {
            HitTarget::NodeElement(id) => {
                match self.model.node_position(id) {
                    Some(pos) => {
                        let cur = self.viewport.screen_to_canvas(pointer);
                        proof {
                            assert(-10_000_000_000i64 <= pos.x as int * self.viewport.zoom as int
                                <= 10_000_000_000i64) by (nonlinear_arith)
                                requires
                                    -crate::CANVAS_HALF_MILLIS as int <= pos.x as int
                                        <= crate::CANVAS_HALF_MILLIS as int,
                                    0 < self.viewport.zoom as int <= 4000,
                            ;
                            assert(-10_000_000_000i64 <= pos.y as int * self.viewport.zoom as int
                                <= 10_000_000_000i64) by (nonlinear_arith)
                                requires
                                    -crate::CANVAS_HALF_MILLIS as int <= pos.y as int
                                        <= crate::CANVAS_HALF_MILLIS as int,
                                    0 < self.viewport.zoom as int <= 4000,
                            ;
                        }
                        let offset = FracPt {
                            x_num: cur.x_num - pos.x * (self.viewport.zoom as i64),
                            y_num: cur.y_num - pos.y * (self.viewport.zoom as i64),
                            den: cur.den,
                        };
                        self.drag = Some(DragState { node_id: id, grab_offset: offset });
                    },
                    None => {
                        self.drag = None;
                    },
                }
            },
            _ => {
                self.drag = None;
            },
        }
    }

    /// A drag tick: re-resolves the dragged node, recomputes the pointer's
    /// canvas position under the current transform, subtracts the grab
    /// offset, and moves the node there. With no drag armed the tick is
    /// ignored, and a node removed mid-gesture aborts the drag silently.
    pub fn update_drag(&mut self, pointer: ScreenPt)
        requires
            old(self).wf(),
            -COORD_LIMIT_MILLIS <= pointer.x <= COORD_LIMIT_MILLIS,
            -COORD_LIMIT_MILLIS <= pointer.y <= COORD_LIMIT_MILLIS,
        ensures
            final(self).wf(),
            final(self).viewport == old(self).viewport,
            final(self).pinch == old(self).pinch,
            match old(self).drag {
                None => final(self).model == old(self).model && final(self).drag is None,
                Some(ds) => {
                    if old(self).model@.has_node(ds.node_id) {
                        final(self).model@ == old(self).model@.with_node_moved(
                            ds.node_id,
                            drag_target(old(self).viewport, ds, pointer).0,
                            drag_target(old(self).viewport, ds, pointer).1,
                        ) && final(self).drag == old(self).drag
                    } else {
                        final(self).model == old(self).model && final(self).drag is None
                    }
                },
            },
    {
        let ds = match &self.drag {
            Some(ds) => *ds,
            None => {
                return ;
            },
        };
        if self.model.node_position(ds.node_id).is_none() {
            self.drag = None;
            return ;
        }
        let cur = self.viewport.screen_to_canvas(pointer);
        proof {
            lemma_drag_products(
                cur.x_num as int,
                cur.y_num as int,
                cur.den as int,
                ds.grab_offset.x_num as int,
                ds.grab_offset.y_num as int,
                ds.grab_offset.den as int,
            );
        }
        let target = FracPt {
            x_num: cur.x_num * ds.grab_offset.den - ds.grab_offset.x_num * cur.den,
            y_num: cur.y_num * ds.grab_offset.den - ds.grab_offset.y_num * cur.den,
            den: cur.den * ds.grab_offset.den,
        };
        let rounded = target.rounded();
        self.model.move_node(ds.node_id, rounded);
    }

    /// Ends a node drag; no inertia, no snapping.
    pub fn end_drag(&mut self)
        requires
            old(self).wf(),
        ensures
            final(self).wf(),
            final(self).model == old(self).model,
            final(self).viewport == old(self).viewport,
            final(self).pinch == old(self).pinch,
            final(self).drag is None,
    {
        self.drag = None;
    }

    /// A scroll tick. Only with the zoom modifier held is vertical scroll
    /// treated as zoom input, each tick adjusting the zoom factor by a
    /// tenth of the delta, anchored at the pointer; the call then consumes
    /// the event. Without the modifier nothing changes and the event passes
    /// through to ordinary panning.
    pub fn on_scroll(&mut self, delta_y_millis: i64, zoom_modifier: bool, pointer: ScreenPt) -> (r:
        bool)
        requires
            old(self).wf(),
            delta_y_millis > i64::MIN,
            -COORD_LIMIT_MILLIS <= pointer.x <= COORD_LIMIT_MILLIS,
            -COORD_LIMIT_MILLIS <= pointer.y <= COORD_LIMIT_MILLIS,
        ensures
            final(self).wf(),
            final(self).model == old(self).model,
            final(self).drag == old(self).drag,
            final(self).pinch == old(self).pinch,
            r == zoom_modifier,
            !zoom_modifier ==> final(self).viewport == old(self).viewport,
            zoom_modifier ==> final(self).viewport.zoom == clamp_zoom_int(
                old(self).viewport.zoom - delta_y_millis as int / 10,
            ) && final(self).viewport.scroll_x == rezoom_scroll(
                old(self).viewport.scroll_x as int,
                pointer.x as int,
                old(self).viewport.zoom as int,
                clamp_zoom_int(old(self).viewport.zoom - delta_y_millis as int / 10),
            ) && final(self).viewport.scroll_y == rezoom_scroll(
                old(self).viewport.scroll_y as int,
                pointer.y as int,
                old(self).viewport.zoom as int,
                clamp_zoom_int(old(self).viewport.zoom - delta_y_millis as int / 10),
            ),
    {
        if !zoom_modifier {
            return false;
        }
        let step = crate::num::div_floor_i64(delta_y_millis, 10);
        let raw = (self.viewport.zoom as i64) - step;
        self.viewport.set_zoom(raw, Some(pointer));
        true
    }

    /// Begins a pinch gesture, recording the current zoom factor and the
    /// gesture's center as the anchor for the whole gesture.
    pub fn begin_pinch(&mut self, anchor: Option<ScreenPt>)
        requires
            old(self).wf(),
            match anchor {
                Some(a) => -COORD_LIMIT_MILLIS <= a.x <= COORD_LIMIT_MILLIS
                    && -COORD_LIMIT_MILLIS <= a.y <= COORD_LIMIT_MILLIS,
                None => true,
            },
        ensures
            final(self).wf(),
            final(self).model == old(self).model,
            final(self).viewport == old(self).viewport,
            final(self).drag == old(self).drag,
            final(self).pinch == Some(
                PinchState { initial_zoom: old(self).viewport.zoom, anchor },
            ),
    {
        self.pinch = Some(PinchState { initial_zoom: self.viewport.zoom, anchor });
    }

    /// A pinch tick: sets the zoom factor to the recorded initial factor
    /// times the gesture's scale, anchored at the recorded anchor. A tick
    /// with no gesture in progress is silently ignored.
    pub fn update_pinch(&mut self, scale_millis: i64)
        requires
            old(self).wf(),
            0 <= scale_millis <= 1_000_000_000_000,
        ensures
            final(self).wf(),
            final(self).model == old(self).model,
            final(self).drag == old(self).drag,
            final(self).pinch == old(self).pinch,
            match old(self).pinch {
                None => final(self).viewport == old(self).viewport,
                Some(ps) => final(self).viewport.zoom == clamp_zoom_int(
                    ps.initial_zoom * scale_millis as int / 1000,
                ) && final(self).viewport.scroll_x == rezoom_scroll(
                    old(self).viewport.scroll_x as int,
                    spec_anchor_x(old(self).viewport, ps.anchor),
                    old(self).viewport.zoom as int,
                    clamp_zoom_int(ps.initial_zoom * scale_millis as int / 1000),
                ) && final(self).viewport.scroll_y == rezoom_scroll(
                    old(self).viewport.scroll_y as int,
                    spec_anchor_y(old(self).viewport, ps.anchor),
                    old(self).viewport.zoom as int,
                    clamp_zoom_int(ps.initial_zoom * scale_millis as int / 1000),
                ),
            },
    {
        let ps = match &self.pinch {
            Some(ps) => *ps,
            None => {
                return ;
            },
        };
        proof {
            assert(0 <= ps.initial_zoom as int * scale_millis as int <= 4_000_000_000_000_000)
                by (nonlinear_arith)
                requires
                    0 < ps.initial_zoom as int <= 4000,
                    0 <= scale_millis as int <= 1_000_000_000_000,
            ;
        }
        let raw = crate::num::div_floor_i64((ps.initial_zoom as i64) * scale_millis, 1000);
        self.viewport.set_zoom(raw, ps.anchor);
    }

    /// Ends a pinch gesture.
    pub fn end_pinch(&mut self)
        requires
            old(self).wf(),
        ensures
            final(self).wf(),
            final(self).model == old(self).model,
            final(self).viewport == old(self).viewport,
            final(self).drag == old(self).drag,
            final(self).pinch is None,
    {
        self.pinch = None;
    }
}

impl Default for GraphView {
    /// Same as [`GraphView::new`]: an empty view with a neutral transform.
    fn default() -> (r: GraphView)
        ensures
            r.wf(),
            r.model@.nodes.len() == 0,
            r.model@.links.len() == 0,
            r.drag is None,
            r.pinch is None,
    {
        GraphView::new()
    }
}

/// The products of a drag tick's exact subtraction stay inside `i64` and
/// inside the bounds of a well-formed exact point.
proof fn lemma_drag_products(cx: int, cy: int, cden: int, ox: int, oy: int, oden: int)
    requires
        -202_000_000_000_000 <= cx <= 202_000_000_000_000,
        -202_000_000_000_000 <= cy <= 202_000_000_000_000,
        0 < cden <= 4000,
        -GRAB_NUM_LIMIT as int <= ox <= GRAB_NUM_LIMIT as int,
        -GRAB_NUM_LIMIT as int <= oy <= GRAB_NUM_LIMIT as int,
        0 < oden <= 4000,
    ensures
        -2_010_000_000_000_000_000 <= cx * oden - ox * cden <= 2_010_000_000_000_000_000,
        -2_010_000_000_000_000_000 <= cy * oden - oy * cden <= 2_010_000_000_000_000_000,
        0 < cden * oden <= crate::geom::FRAC_DEN_LIMIT as int,
        -808_000_000_000_000_000 <= cx * oden <= 808_000_000_000_000_000,
        -808_000_000_000_000_000 <= cy * oden <= 808_000_000_000_000_000,
        -1_200_000_000_000_000_000 <= ox * cden <= 1_200_000_000_000_000_000,
        -1_200_000_000_000_000_000 <= oy * cden <= 1_200_000_000_000_000_000,
{
    assert(-808_000_000_000_000_000 <= cx * oden <= 808_000_000_000_000_000) by (nonlinear_arith)
        requires
            -202_000_000_000_000 <= cx <= 202_000_000_000_000,
            0 < oden <= 4000,
    ;
    assert(-808_000_000_000_000_000 <= cy * oden <= 808_000_000_000_000_000) by (nonlinear_arith)
        requires
            -202_000_000_000_000 <= cy <= 202_000_000_000_000,
            0 < oden <= 4000,
    ;
    assert(-1_200_000_000_000_000_000 <= ox * cden <= 1_200_000_000_000_000_000)
        by (nonlinear_arith)
        requires
            -300_000_000_000_000 <= ox <= 300_000_000_000_000,
            0 < cden <= 4000,
    ;
    assert(-1_200_000_000_000_000_000 <= oy * cden <= 1_200_000_000_000_000_000)
        by (nonlinear_arith)
        requires
            -300_000_000_000_000 <= oy <= 300_000_000_000_000,
            0 < cden <= 4000,
    ;
    assert(0 < cden * oden <= 16_000_000) by (nonlinear_arith)
        requires
            0 < cden <= 4000,
            0 < oden <= 4000,
    ;
}

} // verus!
