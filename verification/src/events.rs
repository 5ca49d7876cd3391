//! The sync adapter: an ordered stream of graph-delta events from the
//! external graph source is applied to the view strictly in arrival order,
//! one at a time, with no reordering or batching. Every event is total:
//! an event naming an unknown id is a logged no-op, never a stall. Outward,
//! a user toggle gesture becomes a single fire-and-forget rewiring command.
//!
//! The laws of the stream live here: replaying any event sequence leaves
//! the node id set exactly where a net-effect simulation of the inserts and
//! removes puts it, a port event arriving before its node is dropped rather
//! than queued, and a duplicate node insert keeps the first entry.

use crate::model::{Direction, Link, MediaKind, ModelV, NodeKind, Outcome, Port, PortV};
use crate::view::{placed_node, GraphView};
use vstd::prelude::*;

verus! {

/// One atomic notification of a topology change from the external source.
pub enum DeltaEvent {
    NodeAdded { id: u32, label: String, category: Option<NodeKind> },
    NodeRemoved { id: u32 },
    PortAdded { id: u32, node_id: u32, label: String, direction: Direction, media: Option<
        MediaKind,
    > },
    PortRemoved { id: u32, node_id: u32 },
    LinkAdded { id: u32, from_node: u32, from_port: u32, to_node: u32, to_port: u32, active: bool },
    LinkRemoved { id: u32 },
    LinkStateChanged { id: u32, active: bool },
}

/// Mathematical image of a [`DeltaEvent`].
#[verifier::ext_equal]
pub enum EventV {
    NodeAdded { id: u32, label: Seq<char>, category: Option<NodeKind> },
    NodeRemoved { id: u32 },
    PortAdded { id: u32, node_id: u32, label: Seq<char>, direction: Direction, media: Option<
        MediaKind,
    > },
    PortRemoved { id: u32, node_id: u32 },
    LinkAdded { id: u32, from_node: u32, from_port: u32, to_node: u32, to_port: u32, active: bool },
    LinkRemoved { id: u32 },
    LinkStateChanged { id: u32, active: bool },
}

impl View for DeltaEvent {
    type V = EventV;

    open spec fn view(&self) -> EventV {
        match self {
            DeltaEvent::NodeAdded { id, label, category } => EventV::NodeAdded {
                id: *id,
                label: label@,
                category: *category,
            },
            DeltaEvent::NodeRemoved { id } => EventV::NodeRemoved { id: *id },
            DeltaEvent::PortAdded { id, node_id, label, direction, media } => EventV::PortAdded {
                id: *id,
                node_id: *node_id,
                label: label@,
                direction: *direction,
                media: *media,
            },
            DeltaEvent::PortRemoved { id, node_id } => EventV::PortRemoved {
                id: *id,
                node_id: *node_id,
            },
            DeltaEvent::LinkAdded { id, from_node, from_port, to_node, to_port, active } => EventV::LinkAdded {
                id: *id,
                from_node: *from_node,
                from_port: *from_port,
                to_node: *to_node,
                to_port: *to_port,
                active: *active,
            },
            DeltaEvent::LinkRemoved { id } => EventV::LinkRemoved { id: *id },
            DeltaEvent::LinkStateChanged { id, active } => EventV::LinkStateChanged {
                id: *id,
                active: *active,
            },
        }
    }
}

/// The outbound rewiring command: a fire-and-forget request to create or
/// remove a link between two ports. No acknowledgment is awaited; the
/// resulting link event, if any, arrives later through the delta stream.
#[derive(Clone, Copy, PartialEq, Eq, Structural, Debug)]
pub struct ToggleLink {
    pub port_from: u32,
    pub port_to: u32,
}

/// Builds the rewiring command a port toggle gesture emits outward.
pub fn toggle_link_command(port_from: u32, port_to: u32) -> (r: ToggleLink)
    ensures
        r.port_from == port_from,
        r.port_to == port_to,
{
    ToggleLink { port_from, port_to }
}

/// The model transition one delta event performs.
pub open spec fn apply_event_spec(m: ModelV, e: EventV) -> ModelV {
    match e {
        EventV::NodeAdded { id, label, category } => m.with_node_inserted(
            placed_node(m, id, label, category),
        ),
        EventV::NodeRemoved { id } => m.with_node_removed(id),
        EventV::PortAdded { id, node_id, label, direction, media } => m.with_port_inserted(
            node_id,
            PortV { id, label, direction, media },
        ),
        EventV::PortRemoved { id, node_id } => m.with_port_removed(id, node_id),
        EventV::LinkAdded { id, from_node, from_port, to_node, to_port, active } => m.with_link_inserted(
            Link { id, from_node, from_port, to_node, to_port, active },
        ),
        EventV::LinkRemoved { id } => m.with_link_removed(id),
        EventV::LinkStateChanged { id, active } => m.with_link_active(id, active),
    }
}

/// The model after replaying a whole event sequence in arrival order.
pub open spec fn replay(m: ModelV, events: Seq<EventV>) -> ModelV
    decreases events.len(),
{
    if events.len() == 0 {
        m
    } else {
        replay(apply_event_spec(m, events[0]), events.drop_first())
    }
}

/// Mathematical image of an event sequence.
pub open spec fn events_view(s: Seq<DeltaEvent>) -> Seq<EventV> {
    Seq::new(s.len(), |i: int| s[i]@)
}

/// Applies one delta event to the view; the transform and any gesture
/// state are untouched. The returned outcome is what the caller logs:
/// no variant is an error that could stall the stream.
pub fn apply_event(view: &mut GraphView, event: DeltaEvent) -> (r: Outcome)
    requires
        old(view).wf(),
    ensures
        final(view).wf(),
        final(view).model@ == apply_event_spec(old(view).model@, event@),
        final(view).viewport == old(view).viewport,
        final(view).drag == old(view).drag,
        final(view).pinch == old(view).pinch,
{
    match event {
        DeltaEvent::NodeAdded { id, label, category } => view.add_node(id, label, category),
        DeltaEvent::NodeRemoved { id } => view.remove_node(id),
        DeltaEvent::PortAdded { id, node_id, label, direction, media } => view.add_port(
            node_id,
            Port { id, label, direction, media },
        ),
        DeltaEvent::PortRemoved { id, node_id } => view.remove_port(id, node_id),
        DeltaEvent::LinkAdded { id, from_node, from_port, to_node, to_port, active } => view.add_link(
            Link { id, from_node, from_port, to_node, to_port, active },
        ),
        DeltaEvent::LinkRemoved { id } => view.remove_link(id),
        DeltaEvent::LinkStateChanged { id, active } => view.set_link_state(id, active),
    }
}

/// Drains a batch of delta events into the view, strictly in order, one at
/// a time.
pub fn apply_events(view: &mut GraphView, events: Vec<DeltaEvent>)
    requires
        old(view).wf(),
    ensures
        final(view).wf(),
        final(view).model@ == replay(old(view).model@, events_view(events@)),
        final(view).viewport == old(view).viewport,
        final(view).drag == old(view).drag,
        final(view).pinch == old(view).pinch,
{
    let mut evs = events;
    let ghost all = events@;
    while evs.len() > 0
        invariant
            view.wf(),
            replay(old(view).model@, events_view(all)) == replay(view.model@, events_view(evs@)),
            view.viewport == old(view).viewport,
            view.drag == old(view).drag,
            view.pinch == old(view).pinch,
        decreases evs@.len(),
    {
        let ghost before = evs@;
        let e = evs.remove(0);
        proof {
            assert(events_view(before).drop_first() =~= events_view(before.remove(0)));
            assert(events_view(before)[0] == e@);
        }
        apply_event(view, e);
    }
    proof {
        assert(events_view(evs@).len() == 0);
    }
}

/// The membership change one event makes to the set of node ids: an insert
/// for `NodeAdded`, a removal for `NodeRemoved`, nothing otherwise.
pub open spec fn net_step(ids: Set<u32>, e: EventV) -> Set<u32> {
    match e {
        EventV::NodeAdded { id, .. } => ids.insert(id),
        EventV::NodeRemoved { id } => ids.remove(id),
        _ => ids,
    }
}

/// Net-effect simulation of an event sequence on a set of node ids.
pub open spec fn net_node_ids(ids: Set<u32>, events: Seq<EventV>) -> Set<u32>
    decreases events.len(),
{
    if events.len() == 0 {
        ids
    } else {
        net_node_ids(net_step(ids, events[0]), events.drop_first())
    }
}

/// One event's effect on the node id set matches the net-effect step, and
/// well-formedness is preserved.
pub proof fn lemma_apply_event_ids(m: ModelV, e: EventV)
    requires
        m.wf(),
    ensures
        apply_event_spec(m, e).wf(),
        apply_event_spec(m, e).node_ids() == net_step(m.node_ids(), e),
{
    let m2 = apply_event_spec(m, e);
    match e {
        EventV::NodeAdded { id, label, category } => {
            let n = placed_node(m, id, label, category);
            m.lemma_insert_node_wf(n);
            if m.has_node(id) {
                assert(m2.node_ids() =~= m.node_ids().insert(id));
            } else {
                assert forall|x: u32| m2.has_node(x) <==> (m.has_node(x) || x == id) by {
                    if m2.has_node(x) {
                        let i = choose|i: int|
                            0 <= i < m2.nodes.len() && (#[trigger] m2.nodes[i]).id == x;
                        if i < m.nodes.len() {
                            assert(m.nodes[i].id == x);
                        }
                    }
                    if m.has_node(x) {
                        let i = choose|i: int|
                            0 <= i < m.nodes.len() && (#[trigger] m.nodes[i]).id == x;
                        assert(m2.nodes[i].id == x);
                    }
                    if x == id {
                        assert(m2.nodes[m.nodes.len() as int].id == x);
                    }
                }
                assert(m2.node_ids() =~= m.node_ids().insert(id));
            }
        },
        EventV::NodeRemoved { id } => {
            m.lemma_remove_node_wf(id);
            if m.has_node(id) {
                let k = m.node_idx(id);
                m.lemma_node_idx_is(k, id);
                m.nodes.remove_ensures(k);
                assert forall|x: u32| m2.has_node(x) <==> (m.has_node(x) && x != id) by {
                    if m2.has_node(x) {
                        let i = choose|i: int|
                            0 <= i < m2.nodes.len() && (#[trigger] m2.nodes[i]).id == x;
                        if i < k {
                            assert(m.nodes[i].id == x);
                            assert(x != id);
                        } else {
                            assert(m.nodes[i + 1].id == x);
                            assert(x != id);
                        }
                    }
                    if m.has_node(x) && x != id {
                        let i = choose|i: int|
                            0 <= i < m.nodes.len() && (#[trigger] m.nodes[i]).id == x;
                        assert(i != k);
                        if i < k {
                            assert(m2.nodes[i].id == x);
                        } else {
                            assert(m2.nodes[i - 1].id == x);
                        }
                    }
                }
                assert(m2.node_ids() =~= m.node_ids().remove(id));
            } else {
                assert(m2.node_ids() =~= m.node_ids().remove(id));
            }
        },
        EventV::PortAdded { id, node_id, label, direction, media } => {
            m.lemma_insert_port_wf(node_id, PortV { id, label, direction, media });
            lemma_same_ids_after_update(m, m2);
        },
        EventV::PortRemoved { id, node_id } => {
            m.lemma_remove_port_wf(id, node_id);
            lemma_same_ids_after_update(m, m2);
        },
        EventV::LinkAdded { id, from_node, from_port, to_node, to_port, active } => {
            m.lemma_insert_link_wf(Link { id, from_node, from_port, to_node, to_port, active });
            lemma_same_ids_after_update(m, m2);
        },
        EventV::LinkRemoved { id } => {
            m.lemma_remove_link_wf(id);
            lemma_same_ids_after_update(m, m2);
        },
        EventV::LinkStateChanged { id, active } => {
            m.lemma_link_active_wf(id, active);
            lemma_same_ids_after_update(m, m2);
        },
    }
}

/// Two models whose node sequences carry the same ids position by position
/// have the same node id set.
proof fn lemma_same_ids_after_update(m: ModelV, m2: ModelV)
    requires
        m2.nodes.len() == m.nodes.len(),
        forall|i: int|
            0 <= i < m.nodes.len() ==> (#[trigger] m2.nodes[i]).id == (#[trigger] m.nodes[i]).id,
    ensures
        m2.node_ids() == m.node_ids(),
{
    assert forall|x: u32| m2.has_node(x) <==> m.has_node(x) by {
        if m2.has_node(x) {
            let i = choose|i: int| 0 <= i < m2.nodes.len() && (#[trigger] m2.nodes[i]).id == x;
            assert(m.nodes[i].id == x);
        }
        if m.has_node(x) {
            let i = choose|i: int| 0 <= i < m.nodes.len() && (#[trigger] m.nodes[i]).id == x;
            assert(m2.nodes[i].id == x);
        }
    }
    assert(m2.node_ids() =~= m.node_ids());
}

/// Model consistency: after replaying any sequence of delta events, the
/// set of node ids present is exactly what the net-effect simulation of
/// the inserts and removes yields, and the model is still well formed.
pub proof fn lemma_model_consistency(m: ModelV, events: Seq<EventV>)
    requires
        m.wf(),
    ensures
        replay(m, events).wf(),
        replay(m, events).node_ids() == net_node_ids(m.node_ids(), events),
    decreases events.len(),
{
    if events.len() > 0 {
        lemma_apply_event_ids(m, events[0]);
        lemma_model_consistency(apply_event_spec(m, events[0]), events.drop_first());
    }
}

/// Out-of-order tolerance: a port event naming a node not yet present is
/// dropped outright — the model is unchanged, nothing is queued — and when
/// the node arrives later it has no ports.
pub proof fn lemma_out_of_order_tolerance(
    m: ModelV,
    p: PortV,
    node_id: u32,
    label: Seq<char>,
    category: Option<NodeKind>,
)
    requires
        m.wf(),
        !m.has_node(node_id),
    ensures
        m.with_port_inserted(node_id, p) == m,
        ({
            let after = m.with_port_inserted(node_id, p).with_node_inserted(
                placed_node(m, node_id, label, category),
            );
            after.spec_node(node_id) matches Some(n) && n.ports.len() == 0
        }),
{
    let n = placed_node(m, node_id, label, category);
    let after = m.with_node_inserted(n);
    let k = m.nodes.len() as int;
    assert(after.nodes[k].id == node_id);
    assert(after.has_node(node_id));
    let j = after.node_idx(node_id);
    assert(0 <= j < after.nodes.len() && after.nodes[j].id == node_id);
    if j < k {
        assert(m.nodes[j].id == node_id);
        assert(false);
    }
    assert(after.spec_node(node_id) == Some(n));
}

/// Duplicate insert policy: inserting a node whose id is already present
/// changes nothing — the first entry, its label included, is kept.
pub proof fn lemma_duplicate_insert_keeps_first(m: ModelV, n: crate::model::NodeV)
    requires
        m.wf(),
        m.has_node(n.id),
    ensures
        m.with_node_inserted(n) == m,
        m.with_node_inserted(n).spec_node(n.id) == m.spec_node(n.id),
{
}

} // verus!
