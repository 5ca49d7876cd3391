//! The graph model: the authoritative set of nodes, their ports, and the
//! links connecting ports, each with auxiliary canvas-space state.
//!
//! Every mutation is total over malformed input: removing an absent id,
//! adding a port to an absent node, or touching an unknown link is a no-op
//! whose [`Outcome`] tells the caller what happened, so an out-of-order
//! delta stream can never stall or panic the model. Link operations never
//! validate that the referenced nodes and ports exist; that check is
//! deferred to render time.
//!
//! The model is specified against [`ModelV`], a mathematical image of the
//! state, and every operation's contract says exactly which [`ModelV`]
//! transition it performs.

use crate::geom::{clamp_pos, clamp_pos_int, CanvasPt};
use crate::num::clamp_int;
use vstd::prelude::*;

verus! {

/// Direction of a port: a source emits, a sink consumes.
#[derive(Clone, Copy, PartialEq, Eq, Structural, Debug)]
pub enum Direction {
    Source,
    Sink,
}

/// Optional media classification of a port, used only for presentation.
#[derive(Clone, Copy, PartialEq, Eq, Structural, Debug)]
pub enum MediaKind {
    Audio,
    Video,
    Midi,
}

/// Optional category tag of a node, consulted only by the placement
/// heuristic: sources go to the left column, sinks to the right.
#[derive(Clone, Copy, PartialEq, Eq, Structural, Debug)]
pub enum NodeKind {
    Source,
    Sink,
}

/// A port of a node. The id is unique within the owning node, not globally.
pub struct Port {
    pub id: u32,
    pub label: String,
    pub direction: Direction,
    pub media: Option<MediaKind>,
}

/// Mathematical image of a [`Port`].
#[verifier::ext_equal]
pub struct PortV {
    pub id: u32,
    pub label: Seq<char>,
    pub direction: Direction,
    pub media: Option<MediaKind>,
}

impl View for Port {
    type V = PortV;

    open spec fn view(&self) -> PortV {
        PortV { id: self.id, label: self.label@, direction: self.direction, media: self.media }
    }
}

/// A node of the graph: an externally assigned id, a display label, an
/// optional category, a canvas-space position (top-left corner, in
/// milli-units), an on-screen footprint used for position clamping, and its
/// ports.
pub struct Node {
    pub id: u32,
    pub label: String,
    pub category: Option<NodeKind>,
    pub pos: CanvasPt,
    pub width: i64,
    pub height: i64,
    pub ports: Vec<Port>,
}

/// Mathematical image of a [`Node`].
#[verifier::ext_equal]
pub struct NodeV {
    pub id: u32,
    pub label: Seq<char>,
    pub category: Option<NodeKind>,
    pub pos_x: int,
    pub pos_y: int,
    pub width: int,
    pub height: int,
    pub ports: Seq<PortV>,
}

impl View for Node {
    type V = NodeV;

    open spec fn view(&self) -> NodeV {
        NodeV {
            id: self.id,
            label: self.label@,
            category: self.category,
            pos_x: self.pos.x as int,
            pos_y: self.pos.y as int,
            width: self.width as int,
            height: self.height as int,
            ports: Seq::new(self.ports@.len(), |i: int| self.ports@[i]@),
        }
    }
}

impl NodeV {
    /// Port ids are unique within the node, the position lies inside the
    /// canvas extent, and the footprint is non-negative and bounded.
    pub open spec fn wf(self) -> bool {
        &&& forall|i: int, j: int|
            0 <= i < self.ports.len() && 0 <= j < self.ports.len() && i != j
                ==> (#[trigger] self.ports[i]).id != (#[trigger] self.ports[j]).id
        &&& -crate::CANVAS_HALF_MILLIS <= self.pos_x <= crate::CANVAS_HALF_MILLIS
        &&& -crate::CANVAS_HALF_MILLIS <= self.pos_y <= crate::CANVAS_HALF_MILLIS
        &&& 0 <= self.width <= crate::COORD_LIMIT_MILLIS
        &&& 0 <= self.height <= crate::COORD_LIMIT_MILLIS
    }

    /// Whether the node has a port with the given id.
    pub open spec fn has_port(self, port_id: u32) -> bool {
        exists|i: int| 0 <= i < self.ports.len() && (#[trigger] self.ports[i]).id == port_id
    }

    /// Index of the port with the given id.
    pub open spec fn port_idx(self, port_id: u32) -> int {
        choose|i: int| 0 <= i < self.ports.len() && (#[trigger] self.ports[i]).id == port_id
    }

    /// The port with the given id, if present.
    pub open spec fn spec_port(self, port_id: u32) -> Option<PortV> {
        if self.has_port(port_id) {
            Some(self.ports[self.port_idx(port_id)])
        } else {
            None
        }
    }
}

/// A link between an origin `(node, port)` pair and a destination pair,
/// with an active flag. The referenced ids need not resolve in the model;
/// a dangling link is a valid transient state.
#[derive(Clone, Copy, PartialEq, Eq, Structural, Debug)]
pub struct Link {
    pub id: u32,
    pub from_node: u32,
    pub from_port: u32,
    pub to_node: u32,
    pub to_port: u32,
    pub active: bool,
}

/// What a model mutation did; no variant is fatal. Callers that want the
/// logging behaviour of the surrounding application report the non-`Done`
/// variants; the model itself is already consistent again.
#[derive(Clone, Copy, PartialEq, Eq, Structural, Debug)]
pub enum Outcome {
    /// The operation applied as requested.
    Done,
    /// An insert named an id already present; the existing entry was kept.
    DuplicateId,
    /// The named node is not in the model; the operation was skipped.
    NoSuchNode,
    /// The named port is not on the named node; the operation was skipped.
    NoSuchPort,
    /// The named link is not in the model; the operation was skipped.
    NoSuchLink,
}

/// Mathematical image of the whole model.
#[verifier::ext_equal]
pub struct ModelV {
    pub nodes: Seq<NodeV>,
    pub links: Seq<Link>,
}

/// The owner of nodes and links.
pub struct GraphModel {
    pub nodes: Vec<Node>,
    pub links: Vec<Link>,
}

/// Mathematical image of a sequence of nodes.
pub open spec fn nodes_view(s: Seq<Node>) -> Seq<NodeV> {
    Seq::new(s.len(), |i: int| s[i]@)
}

impl View for GraphModel {
    type V = ModelV;

    open spec fn view(&self) -> ModelV {
        ModelV { nodes: nodes_view(self.nodes@), links: self.links@ }
    }
}

impl ModelV {
    /// Node ids and link ids are unique, and every node is well formed.
    pub open spec fn wf(self) -> bool {
        &&& forall|i: int, j: int|
            0 <= i < self.nodes.len() && 0 <= j < self.nodes.len() && i != j
                ==> (#[trigger] self.nodes[i]).id != (#[trigger] self.nodes[j]).id
        &&& forall|i: int| 0 <= i < self.nodes.len() ==> (#[trigger] self.nodes[i]).wf()
        &&& forall|i: int, j: int|
            0 <= i < self.links.len() && 0 <= j < self.links.len() && i != j
                ==> (#[trigger] self.links[i]).id != (#[trigger] self.links[j]).id
    }

    /// Whether a node with the given id is present.
    pub open spec fn has_node(self, id: u32) -> bool {
        exists|i: int| 0 <= i < self.nodes.len() && (#[trigger] self.nodes[i]).id == id
    }

    /// Index of the node with the given id.
    pub open spec fn node_idx(self, id: u32) -> int {
        choose|i: int| 0 <= i < self.nodes.len() && (#[trigger] self.nodes[i]).id == id
    }

    /// The node with the given id, if present.
    pub open spec fn spec_node(self, id: u32) -> Option<NodeV> {
        if self.has_node(id) {
            Some(self.nodes[self.node_idx(id)])
        } else {
            None
        }
    }

    /// The set of node ids present at this instant.
    pub open spec fn node_ids(self) -> Set<u32> {
        Set::new(|id: u32| self.has_node(id))
    }

    /// Whether a link with the given id is present.
    pub open spec fn has_link(self, id: u32) -> bool {
        exists|i: int| 0 <= i < self.links.len() && (#[trigger] self.links[i]).id == id
    }

    /// Index of the link with the given id.
    pub open spec fn link_idx(self, id: u32) -> int {
        choose|i: int| 0 <= i < self.links.len() && (#[trigger] self.links[i]).id == id
    }

    /// The link with the given id, if present.
    pub open spec fn spec_link(self, id: u32) -> Option<Link> {
        if self.has_link(id) {
            Some(self.links[self.link_idx(id)])
        } else {
            None
        }
    }

    /// Whether both endpoint `(node, port)` pairs of a link resolve.
    pub open spec fn link_resolves(self, l: Link) -> bool {
        &&& self.spec_node(l.from_node) matches Some(n) && n.has_port(l.from_port)
        &&& self.spec_node(l.to_node) matches Some(n) && n.has_port(l.to_port)
    }

    /// Insertion of a node: a duplicate id is rejected and the existing
    /// entry kept.
    pub open spec fn with_node_inserted(self, n: NodeV) -> ModelV {
        if self.has_node(n.id) {
            self
        } else {
            ModelV { nodes: self.nodes.push(n), ..self }
        }
    }

    /// Removal of a node; removing an absent id changes nothing.
    pub open spec fn with_node_removed(self, id: u32) -> ModelV {
        if self.has_node(id) {
            ModelV { nodes: self.nodes.remove(self.node_idx(id)), ..self }
        } else {
            self
        }
    }

    /// Insertion of a port into a node: dropped if the node is absent, and
    /// a duplicate port id is rejected with the existing entry kept.
    pub open spec fn with_port_inserted(self, node_id: u32, p: PortV) -> ModelV {
        if self.has_node(node_id) {
            let i = self.node_idx(node_id);
            let n = self.nodes[i];
            if n.has_port(p.id) {
                self
            } else {
                ModelV { nodes: self.nodes.update(i, NodeV { ports: n.ports.push(p), ..n }), ..self }
            }
        } else {
            self
        }
    }

    /// Removal of a port from a node; absent node or port changes nothing.
    pub open spec fn with_port_removed(self, id: u32, node_id: u32) -> ModelV {
        if self.has_node(node_id) {
            let i = self.node_idx(node_id);
            let n = self.nodes[i];
            if n.has_port(id) {
                ModelV {
                    nodes: self.nodes.update(
                        i,
                        NodeV { ports: n.ports.remove(n.port_idx(id)), ..n },
                    ),
                    ..self
                }
            } else {
                self
            }
        } else {
            self
        }
    }

    /// Insertion of a link; a duplicate id replaces the stored link.
    pub open spec fn with_link_inserted(self, l: Link) -> ModelV {
        if self.has_link(l.id) {
            ModelV { links: self.links.update(self.link_idx(l.id), l), ..self }
        } else {
            ModelV { links: self.links.push(l), ..self }
        }
    }

    /// Change of a link's active flag; an absent id changes nothing.
    pub open spec fn with_link_active(self, id: u32, active: bool) -> ModelV {
        if self.has_link(id) {
            let i = self.link_idx(id);
            ModelV { links: self.links.update(i, Link { active, ..self.links[i] }), ..self }
        } else {
            self
        }
    }

    /// Removal of a link; an absent id changes nothing.
    pub open spec fn with_link_removed(self, id: u32) -> ModelV {
        if self.has_link(id) {
            ModelV { links: self.links.remove(self.link_idx(id)), ..self }
        } else {
            self
        }
    }

    /// Move of a node to a target position, clamped into the canvas extent
    /// minus the node's footprint; an absent id changes nothing.
    pub open spec fn with_node_moved(self, id: u32, x: int, y: int) -> ModelV {
        if self.has_node(id) {
            let i = self.node_idx(id);
            let n = self.nodes[i];
            let p = clamp_pos_int(x, y, n.width, n.height);
            ModelV { nodes: self.nodes.update(i, NodeV { pos_x: p.0, pos_y: p.1, ..n }), ..self }
        } else {
            self
        }
    }

    /// Update of a node's recorded on-screen footprint, held non-negative
    /// and bounded; an absent id changes nothing.
    pub open spec fn with_node_sized(self, id: u32, w: int, h: int) -> ModelV {
        if self.has_node(id) {
            let i = self.node_idx(id);
            let n = self.nodes[i];
            ModelV {
                nodes: self.nodes.update(
                    i,
                    NodeV {
                        width: clamp_int(w, 0, crate::COORD_LIMIT_MILLIS as int),
                        height: clamp_int(h, 0, crate::COORD_LIMIT_MILLIS as int),
                        ..n
                    },
                ),
                ..self
            }
        } else {
            self
        }
    }

    /// A witness index with a matching id pins down `node_idx`.
    pub proof fn lemma_node_idx_is(self, i: int, id: u32)
        requires
            self.wf(),
            0 <= i < self.nodes.len(),
            self.nodes[i].id == id,
        ensures
            self.has_node(id),
            self.node_idx(id) == i,
    {
        assert(self.has_node(id));
        let j = self.node_idx(id);
        assert(0 <= j < self.nodes.len() && self.nodes[j].id == id);
    }

    /// A witness index with a matching id pins down `link_idx`.
    pub proof fn lemma_link_idx_is(self, i: int, id: u32)
        requires
            self.wf(),
            0 <= i < self.links.len(),
            self.links[i].id == id,
        ensures
            self.has_link(id),
            self.link_idx(id) == i,
    {
        assert(self.has_link(id));
        let j = self.link_idx(id);
        assert(0 <= j < self.links.len() && self.links[j].id == id);
    }
}

impl NodeV {
    /// A witness index with a matching id pins down `port_idx`.
    pub proof fn lemma_port_idx_is(self, i: int, port_id: u32)
        requires
            self.wf(),
            0 <= i < self.ports.len(),
            self.ports[i].id == port_id,
        ensures
            self.has_port(port_id),
            self.port_idx(port_id) == i,
    {
        assert(self.has_port(port_id));
        let j = self.port_idx(port_id);
        assert(0 <= j < self.ports.len() && self.ports[j].id == port_id);
    }
}

impl GraphModel {
    /// An empty model.
    pub fn new() -> (r: GraphModel)
        ensures
            r@.wf(),
            r@.nodes.len() == 0,
            r@.links.len() == 0,
    {
        GraphModel { nodes: Vec::new(), links: Vec::new() }
    }

    /// Index of the node with the given id, scanning in storage order.
    fn find_node_index(&self, id: u32) -> (r: Option<usize>)
        ensures
            match r {
                Some(i) => i < self.nodes@.len() && self@.nodes[i as int].id == id,
                None => !self@.has_node(id),
            },
    {
        let mut i: usize = 0;
        while i < self.nodes.len()
            invariant
                i <= self.nodes@.len(),
                forall|j: int| 0 <= j < i ==> (#[trigger] self@.nodes[j]).id != id,
            decreases self.nodes@.len() - i,
        {
            if self.nodes[i].id == id {
                return Some(i);
            }
            i += 1;
        }
        None
    }

    /// Index of the link with the given id, scanning in storage order.
    fn find_link_index(&self, id: u32) -> (r: Option<usize>)
        ensures
            match r {
                Some(i) => i < self.links@.len() && self@.links[i as int].id == id,
                None => !self@.has_link(id),
            },
    {
        let mut i: usize = 0;
        while i < self.links.len()
            invariant
                i <= self.links@.len(),
                forall|j: int| 0 <= j < i ==> (#[trigger] self@.links[j]).id != id,
            decreases self.links@.len() - i,
        {
            if self.links[i].id == id {
                return Some(i);
            }
            i += 1;
        }
        None
    }

    /// Inserts a node. Re-insertion of a present id is rejected and the
    /// existing entry kept; the caller reports the duplicate.
    pub fn insert_node(&mut self, node: Node) -> (r: Outcome)
        requires
            old(self)@.wf(),
            node@.wf(),
        ensures
            final(self)@.wf(),
            final(self)@ == old(self)@.with_node_inserted(node@),
            r == Outcome::Done <==> !old(self)@.has_node(node@.id),
            r == Outcome::Done || r == Outcome::DuplicateId,
    {
        match self.find_node_index(node.id) {
            Some(i) => {
                proof {
                    self@.lemma_node_idx_is(i as int, node.id);
                }
                Outcome::DuplicateId
            },
            None => {
                let ghost old_m = self@;
                self.nodes.push(node);
                proof {
                    assert(self@.nodes =~= old_m.nodes.push(node@));
                    assert(self@ =~= old_m.with_node_inserted(node@));
                    old_m.lemma_insert_node_wf(node@);
                }
                Outcome::Done
            },
        }
    }

    /// Removes the node with the given id. Removing an absent id succeeds
    /// as a no-op; the caller logs a warning, not an error.
    pub fn remove_node(&mut self, id: u32) -> (r: Outcome)
        requires
            old(self)@.wf(),
        ensures
            final(self)@.wf(),
            final(self)@ == old(self)@.with_node_removed(id),
            r == Outcome::Done <==> old(self)@.has_node(id),
            r == Outcome::Done || r == Outcome::NoSuchNode,
    {
        match self.find_node_index(id) {
            Some(i) => {
                let ghost old_m = self@;
                proof {
                    old_m.lemma_node_idx_is(i as int, id);
                }
                self.nodes.remove(i);
                proof {
                    assert(self@.nodes =~= old_m.nodes.remove(i as int)) by {
                        lemma_nodes_view_remove(old(self).nodes@, i as int);
                    }
                    assert(self@ =~= old_m.with_node_removed(id));
                    old_m.lemma_remove_node_wf(id);
                }
                Outcome::Done
            },
            None => Outcome::NoSuchNode,
        }
    }
}

impl Node {
    /// Index of the port with the given id, scanning in storage order.
    fn find_port_index(&self, port_id: u32) -> (r: Option<usize>)
        ensures
            match r {
                Some(i) => i < self.ports@.len() && self@.ports[i as int].id == port_id,
                None => !self@.has_port(port_id),
            },
    {
        let mut i: usize = 0;
        while i < self.ports.len()
            invariant
                i <= self.ports@.len(),
                forall|j: int| 0 <= j < i ==> (#[trigger] self@.ports[j]).id != port_id,
            decreases self.ports@.len() - i,
        {
            if self.ports[i].id == port_id {
                return Some(i);
            }
            i += 1;
        }
        None
    }
}

impl GraphModel {
    /// Adds a port to the node with the given id. If the node is absent the
    /// port is dropped, not queued: the caller logs an error and the stream
    /// goes on. A duplicate port id on the node is rejected, keeping the
    /// existing entry.
    pub fn insert_port(&mut self, node_id: u32, port: Port) -> (r: Outcome)
        requires
            old(self)@.wf(),
        ensures
            final(self)@.wf(),
            final(self)@ == old(self)@.with_port_inserted(node_id, port@),
            r == Outcome::NoSuchNode <==> !old(self)@.has_node(node_id),
            r == Outcome::Done <==> old(self)@.has_node(node_id) && !old(self)@.nodes[old(
                self,
            )@.node_idx(node_id)].has_port(port@.id),
            r == Outcome::Done || r == Outcome::NoSuchNode || r == Outcome::DuplicateId,
    {
        let ghost old_m = self@;
        match self.find_node_index(node_id) {
            Some(i) => {
                proof {
                    old_m.lemma_node_idx_is(i as int, node_id);
                }
                match self.nodes[i].find_port_index(port.id) {
                    Some(_) => Outcome::DuplicateId,
                    None => {
                        let ghost old_node = old_m.nodes[i as int];
                        let node = &mut self.nodes[i];
                        node.ports.push(port);
                        proof {
                            assert(node@ =~= NodeV { ports: old_node.ports.push(port@), ..old_node });
                            assert(self@.nodes =~= old_m.nodes.update(i as int, node@)) by {
                                lemma_nodes_view_update(old(self).nodes@, i as int, *node);
                            }
                            assert(self@ =~= old_m.with_port_inserted(node_id, port@));
                            old_m.lemma_insert_port_wf(node_id, port@);
                        }
                        Outcome::Done
                    },
                }
            },
            None => Outcome::NoSuchNode,
        }
    }

    /// Removes the port with id `id` from the node with id `node_id`. An
    /// absent node or port makes this a no-op.
    pub fn remove_port(&mut self, id: u32, node_id: u32) -> (r: Outcome)
        requires
            old(self)@.wf(),
        ensures
            final(self)@.wf(),
            final(self)@ == old(self)@.with_port_removed(id, node_id),
            r == Outcome::NoSuchNode <==> !old(self)@.has_node(node_id),
            r == Outcome::Done <==> old(self)@.has_node(node_id) && old(self)@.nodes[old(
                self,
            )@.node_idx(node_id)].has_port(id),
            r == Outcome::Done || r == Outcome::NoSuchNode || r == Outcome::NoSuchPort,
    {
        let ghost old_m = self@;
        match self.find_node_index(node_id) {
            Some(i) => {
                proof {
                    old_m.lemma_node_idx_is(i as int, node_id);
                }
                match self.nodes[i].find_port_index(id) {
                    Some(p) => {
                        let ghost old_node = old_m.nodes[i as int];
                        proof {
                            old_node.lemma_port_idx_is(p as int, id);
                        }
                        let node = &mut self.nodes[i];
                        node.ports.remove(p);
                        proof {
                            assert(node@.ports =~= old_node.ports.remove(p as int)) by {
                                lemma_ports_view_remove(old(self).nodes@[i as int].ports@, p as int);
                            }
                            assert(node@ =~= NodeV {
                                ports: old_node.ports.remove(p as int),
                                ..old_node
                            });
                            assert(self@.nodes =~= old_m.nodes.update(i as int, node@)) by {
                                lemma_nodes_view_update(old(self).nodes@, i as int, *node);
                            }
                            assert(self@ =~= old_m.with_port_removed(id, node_id));
                            old_m.lemma_remove_port_wf(id, node_id);
                        }
                        Outcome::Done
                    },
                    None => Outcome::NoSuchPort,
                }
            },
            None => Outcome::NoSuchNode,
        }
    }
}

/// The image of a node sequence commutes with updating one element.
proof fn lemma_nodes_view_update(s: Seq<Node>, i: int, n: Node)
    requires
        0 <= i < s.len(),
    ensures
        nodes_view(s.update(i, n)) =~= nodes_view(s).update(i, n@),
{
}

/// The image of a port sequence commutes with removal.
proof fn lemma_ports_view_remove(s: Seq<Port>, i: int)
    requires
        0 <= i < s.len(),
    ensures
        Seq::new(s.remove(i).len(), |k: int| s.remove(i)[k]@) =~= Seq::new(
            s.len(),
            |k: int| s[k]@,
        ).remove(i),
{
    s.remove_ensures(i);
    Seq::new(s.len(), |k: int| s[k]@).remove_ensures(i);
    assert forall|k: int| 0 <= k < s.len() - 1 implies s.remove(i)[k]@ == Seq::new(
        s.len(),
        |k2: int| s[k2]@,
    ).remove(i)[k] by {
        if k < i {
            assert(s.remove(i)[k] == s[k]);
        } else {
            assert(s.remove(i)[k] == s[k + 1]);
        }
    }
}

/// The image of a node sequence commutes with removal.
proof fn lemma_nodes_view_remove(s: Seq<Node>, i: int)
    requires
        0 <= i < s.len(),
    ensures
        nodes_view(s.remove(i)) =~= nodes_view(s).remove(i),
{
    s.remove_ensures(i);
    nodes_view(s).remove_ensures(i);
    assert(s.remove(i).len() == s.len() - 1);
    assert forall|k: int| 0 <= k < s.len() - 1 implies nodes_view(s.remove(i))[k] == nodes_view(
        s,
    ).remove(i)[k] by {
        if k < i {
            assert(s.remove(i)[k] == s[k]);
            assert(nodes_view(s).remove(i)[k] == nodes_view(s)[k]);
        } else {
            assert(s.remove(i)[k] == s[k + 1]);
            assert(nodes_view(s).remove(i)[k] == nodes_view(s)[k + 1]);
        }
    }
}

impl ModelV {
    /// Inserting a fresh, well-formed node preserves well-formedness.
    pub proof fn lemma_insert_node_wf(self, n: NodeV)
        requires
            self.wf(),
            n.wf(),
        ensures
            self.with_node_inserted(n).wf(),
    {
    }

    /// Removing a node preserves well-formedness.
    pub proof fn lemma_remove_node_wf(self, id: u32)
        requires
            self.wf(),
        ensures
            self.with_node_removed(id).wf(),
    {
        if self.has_node(id) {
            let i = self.node_idx(id);
            self.nodes.remove_ensures(i);
        }
    }

    /// Inserting a port preserves well-formedness.
    pub proof fn lemma_insert_port_wf(self, node_id: u32, p: PortV)
        requires
            self.wf(),
        ensures
            self.with_port_inserted(node_id, p).wf(),
    {
    }

    /// Removing a port preserves well-formedness.
    pub proof fn lemma_remove_port_wf(self, id: u32, node_id: u32)
        requires
            self.wf(),
        ensures
            self.with_port_removed(id, node_id).wf(),
    {
        if self.has_node(node_id) {
            let i = self.node_idx(node_id);
            let n = self.nodes[i];
            if n.has_port(id) {
                n.ports.remove_ensures(n.port_idx(id));
            }
        }
    }

    /// Inserting a link preserves well-formedness.
    pub proof fn lemma_insert_link_wf(self, l: Link)
        requires
            self.wf(),
        ensures
            self.with_link_inserted(l).wf(),
    {
    }

    /// Changing a link's active flag preserves well-formedness.
    pub proof fn lemma_link_active_wf(self, id: u32, active: bool)
        requires
            self.wf(),
        ensures
            self.with_link_active(id, active).wf(),
    {
    }

    /// Removing a link preserves well-formedness.
    pub proof fn lemma_remove_link_wf(self, id: u32)
        requires
            self.wf(),
        ensures
            self.with_link_removed(id).wf(),
    {
        if self.has_link(id) {
            self.links.remove_ensures(self.link_idx(id));
        }
    }

    /// Moving a node preserves well-formedness.
    pub proof fn lemma_move_node_wf(self, id: u32, x: int, y: int)
        requires
            self.wf(),
        ensures
            self.with_node_moved(id, x, y).wf(),
    {
    }

    /// Resizing a node's footprint preserves well-formedness.
    pub proof fn lemma_size_node_wf(self, id: u32, w: int, h: int)
        requires
            self.wf(),
        ensures
            self.with_node_sized(id, w, h).wf(),
    {
    }
}

impl GraphModel {
    /// Inserts a link, or replaces the stored link when the id is already
    /// present. The referenced nodes and ports are deliberately not
    /// validated: link events and node or port events may arrive in either
    /// order, and resolution is deferred to render time.
    pub fn insert_link(&mut self, link: Link) -> (r: Outcome)
        requires
            old(self)@.wf(),
        ensures
            final(self)@.wf(),
            final(self)@ == old(self)@.with_link_inserted(link),
            r == Outcome::Done <==> !old(self)@.has_link(link.id),
            r == Outcome::Done || r == Outcome::DuplicateId,
    {
        let ghost old_m = self@;
        match self.find_link_index(link.id) {
            Some(i) => {
                proof {
                    old_m.lemma_link_idx_is(i as int, link.id);
                }
                self.links[i] = link;
                proof {
                    assert(self@ =~= old_m.with_link_inserted(link));
                    old_m.lemma_insert_link_wf(link);
                }
                Outcome::DuplicateId
            },
            None => {
                self.links.push(link);
                proof {
                    assert(self@ =~= old_m.with_link_inserted(link));
                    old_m.lemma_insert_link_wf(link);
                }
                Outcome::Done
            },
        }
    }

    /// Sets the active flag of the link with the given id; an unknown id is
    /// a no-op the caller logs.
    pub fn set_link_active(&mut self, id: u32, active: bool) -> (r: Outcome)
        requires
            old(self)@.wf(),
        ensures
            final(self)@.wf(),
            final(self)@ == old(self)@.with_link_active(id, active),
            r == Outcome::Done <==> old(self)@.has_link(id),
            r == Outcome::Done || r == Outcome::NoSuchLink,
    {
        let ghost old_m = self@;
        match self.find_link_index(id) {
            Some(i) => {
                proof {
                    old_m.lemma_link_idx_is(i as int, id);
                }
                let mut l = self.links[i];
                l.active = active;
                self.links[i] = l;
                proof {
                    assert(self@ =~= old_m.with_link_active(id, active));
                    old_m.lemma_link_active_wf(id, active);
                }
                Outcome::Done
            },
            None => Outcome::NoSuchLink,
        }
    }

    /// Removes the link with the given id; an unknown id is a no-op.
    pub fn remove_link(&mut self, id: u32) -> (r: Outcome)
        requires
            old(self)@.wf(),
        ensures
            final(self)@.wf(),
            final(self)@ == old(self)@.with_link_removed(id),
            r == Outcome::Done <==> old(self)@.has_link(id),
            r == Outcome::Done || r == Outcome::NoSuchLink,
    {
        let ghost old_m = self@;
        match self.find_link_index(id) {
            Some(i) => {
                proof {
                    old_m.lemma_link_idx_is(i as int, id);
                }
                self.links.remove(i);
                proof {
                    assert(self@ =~= old_m.with_link_removed(id));
                    old_m.lemma_remove_link_wf(id);
                }
                Outcome::Done
            },
            None => Outcome::NoSuchLink,
        }
    }

    /// Moves a node to a target canvas position, clamping it into the
    /// canvas extent minus the node's recorded footprint. Total even for an
    /// id with no recorded footprint (it defaults to zero) and for an
    /// absent id (a no-op).
    pub fn move_node(&mut self, id: u32, target: CanvasPt) -> (r: Outcome)
        requires
            old(self)@.wf(),
        ensures
            final(self)@.wf(),
            final(self)@ == old(self)@.with_node_moved(id, target.x as int, target.y as int),
            r == Outcome::Done <==> old(self)@.has_node(id),
            r == Outcome::Done || r == Outcome::NoSuchNode,
    {
        let ghost old_m = self@;
        match self.find_node_index(id) {
            Some(i) => {
                proof {
                    old_m.lemma_node_idx_is(i as int, id);
                }
                let ghost old_node = old_m.nodes[i as int];
                let w = self.nodes[i].width;
                let h = self.nodes[i].height;
                let p = clamp_pos(target, w, h);
                let node = &mut self.nodes[i];
                node.pos = p;
                proof {
                    assert(node@ =~= NodeV {
                        pos_x: clamp_pos_int(
                            target.x as int,
                            target.y as int,
                            old_node.width,
                            old_node.height,
                        ).0,
                        pos_y: clamp_pos_int(
                            target.x as int,
                            target.y as int,
                            old_node.width,
                            old_node.height,
                        ).1,
                        ..old_node
                    });
                    assert(self@.nodes =~= old_m.nodes.update(i as int, node@)) by {
                        lemma_nodes_view_update(old(self).nodes@, i as int, *node);
                    }
                    assert(self@ =~= old_m.with_node_moved(id, target.x as int, target.y as int));
                    old_m.lemma_move_node_wf(id, target.x as int, target.y as int);
                }
                Outcome::Done
            },
            None => Outcome::NoSuchNode,
        }
    }

    /// Records a node's current on-screen footprint, for position clamping.
    /// The extents are held non-negative and bounded; an absent id is a
    /// no-op.
    pub fn set_node_size(&mut self, id: u32, w: i64, h: i64) -> (r: Outcome)
        requires
            old(self)@.wf(),
        ensures
            final(self)@.wf(),
            final(self)@ == old(self)@.with_node_sized(id, w as int, h as int),
            r == Outcome::Done <==> old(self)@.has_node(id),
            r == Outcome::Done || r == Outcome::NoSuchNode,
    {
        let ghost old_m = self@;
        match self.find_node_index(id) {
            Some(i) => {
                proof {
                    old_m.lemma_node_idx_is(i as int, id);
                }
                let ghost old_node = old_m.nodes[i as int];
                let we = crate::num::clamp_i64(w, 0, crate::COORD_LIMIT_MILLIS);
                let he = crate::num::clamp_i64(h, 0, crate::COORD_LIMIT_MILLIS);
                let node = &mut self.nodes[i];
                node.width = we;
                node.height = he;
                proof {
                    assert(node@ =~= NodeV {
                        width: clamp_int(w as int, 0, crate::COORD_LIMIT_MILLIS as int),
                        height: clamp_int(h as int, 0, crate::COORD_LIMIT_MILLIS as int),
                        ..old_node
                    });
                    assert(self@.nodes =~= old_m.nodes.update(i as int, node@)) by {
                        lemma_nodes_view_update(old(self).nodes@, i as int, *node);
                    }
                    assert(self@ =~= old_m.with_node_sized(id, w as int, h as int));
                    old_m.lemma_size_node_wf(id, w as int, h as int);
                }
                Outcome::Done
            },
            None => Outcome::NoSuchNode,
        }
    }

    /// The canvas-space position of the node with the given id.
    pub fn node_position(&self, id: u32) -> (r: Option<CanvasPt>)
        requires
            self@.wf(),
        ensures
            match r {
                Some(p) => self@.has_node(id) && p.x as int == self@.nodes[self@.node_idx(
                    id,
                )].pos_x && p.y as int == self@.nodes[self@.node_idx(id)].pos_y,
                None => !self@.has_node(id),
            },
    {
        match self.find_node_index(id) {
            Some(i) => {
                proof {
                    self@.lemma_node_idx_is(i as int, id);
                }
                Some(self.nodes[i].pos)
            },
            None => None,
        }
    }

    /// The port with id `port_id` on the node with id `node_id`, if both
    /// resolve.
    pub fn find_port(&self, node_id: u32, port_id: u32) -> (r: Option<&Port>)
        requires
            self@.wf(),
        ensures
            match r {
                Some(p) => self@.has_node(node_id) && self@.nodes[self@.node_idx(
                    node_id,
                )].spec_port(port_id) == Some(p@),
                None => !(self@.has_node(node_id) && self@.nodes[self@.node_idx(
                    node_id,
                )].has_port(port_id)),
            },
    {
        match self.find_node_index(node_id) {
            Some(i) => {
                proof {
                    self@.lemma_node_idx_is(i as int, node_id);
                }
                match self.nodes[i].find_port_index(port_id) {
                    Some(p) => {
                        proof {
                            self@.nodes[i as int].lemma_port_idx_is(p as int, port_id);
                        }
                        Some(&self.nodes[i].ports[p])
                    },
                    None => None,
                }
            },
            None => None,
        }
    }
}

} // verus!
