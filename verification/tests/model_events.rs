//! Tests of the graph model and the delta-event stream: net-effect
//! consistency, out-of-order tolerance, duplicate-insert policy, placement,
//! and the non-fatal outcomes of malformed operations.

use helvum::events::{apply_event, apply_events, toggle_link_command, DeltaEvent};
use helvum::model::{Direction, Link, NodeKind, Outcome, Port};
use helvum::view::GraphView;

fn node_added(id: u32, label: &str, category: Option<NodeKind>) -> DeltaEvent {
    DeltaEvent::NodeAdded { id, label: String::from(label), category }
}

fn port_added(id: u32, node_id: u32, label: &str, direction: Direction) -> DeltaEvent {
    DeltaEvent::PortAdded { id, node_id, label: String::from(label), direction, media: None }
}

#[test]
fn replay_matches_net_effect_simulation() {
    let mut view = GraphView::new();
    let events = vec![
        node_added(1, "mic", Some(NodeKind::Source)),
        node_added(2, "speakers", Some(NodeKind::Sink)),
        DeltaEvent::NodeRemoved { id: 1 },
        node_added(3, "monitor", None),
        node_added(2, "again", None),
        DeltaEvent::NodeRemoved { id: 99 },
    ];
    apply_events(&mut view, events);
    // Net effect: inserts {1, 2, 3} minus removes {1, 99}.
    assert!(view.node_position(1).is_none());
    assert!(view.node_position(2).is_some());
    assert!(view.node_position(3).is_some());
    assert!(view.node_position(99).is_none());
    assert_eq!(view.model.nodes.len(), 2);
}

#[test]
fn out_of_order_port_is_dropped_not_queued() {
    let mut view = GraphView::new();
    // A port for node 7 arrives before node 7 itself.
    let r = apply_event(&mut view, port_added(10, 7, "out", Direction::Source));
    assert_eq!(r, Outcome::NoSuchNode);
    assert_eq!(view.model.nodes.len(), 0);

    let r = apply_event(&mut view, node_added(7, "late", None));
    assert_eq!(r, Outcome::Done);
    // The stray port was not retroactively attached.
    assert_eq!(view.model.nodes[0].ports.len(), 0);
    assert!(view.model.find_port(7, 10).is_none());
}

#[test]
fn duplicate_node_insert_keeps_first_label() {
    let mut view = GraphView::new();
    assert_eq!(view.add_node(1, String::from("mic"), None), Outcome::Done);
    // Second insert of id 1 is rejected; the caller logs the warning.
    assert_eq!(view.add_node(1, String::from("usurper"), None), Outcome::DuplicateId);
    assert_eq!(view.model.nodes.len(), 1);
    assert_eq!(view.model.nodes[0].label.as_str(), "mic");
}

#[test]
fn placement_stacks_columns_by_category() {
    let mut view = GraphView::new();
    view.add_node(1, String::from("a"), Some(NodeKind::Source));
    view.add_node(2, String::from("b"), Some(NodeKind::Source));
    view.add_node(3, String::from("c"), Some(NodeKind::Sink));
    view.add_node(4, String::from("d"), None);

    let p1 = view.node_position(1).unwrap();
    let p2 = view.node_position(2).unwrap();
    let p3 = view.node_position(3).unwrap();
    let p4 = view.node_position(4).unwrap();

    // Source column at 20 units, stacked 120 units apart from the top
    // offset of 20 units; sink column at 820; center column at 420.
    assert_eq!((p1.x, p1.y), (20_000, 20_000));
    assert_eq!((p2.x, p2.y), (20_000, 140_000));
    assert_eq!((p3.x, p3.y), (820_000, 20_000));
    assert_eq!((p4.x, p4.y), (420_000, 20_000));
}

#[test]
fn drag_clamp_scenario() {
    let mut view = GraphView::new();
    view.add_node(1, String::from("runaway"), None);
    let width = 100_000;
    assert_eq!(view.set_node_size(1, width, 50_000), Outcome::Done);
    // Dragged to canvas position (10000, 0) units with a 5000-unit extent:
    // x ends up at 2500 units minus the node width.
    let r = view.move_node(1, helvum::geom::CanvasPt { x: 10_000_000, y: 0 });
    assert_eq!(r, Outcome::Done);
    let p = view.node_position(1).unwrap();
    assert_eq!(p.x, 2_500_000 - width);
    assert_eq!(p.y, 0);
}

#[test]
fn move_clamps_at_every_edge() {
    let mut view = GraphView::new();
    view.add_node(1, String::from("n"), None);
    view.move_node(1, helvum::geom::CanvasPt { x: -10_000_000, y: -10_000_000 });
    let p = view.node_position(1).unwrap();
    assert_eq!((p.x, p.y), (-2_500_000, -2_500_000));
}

#[test]
fn removing_absent_ids_is_a_logged_no_op() {
    let mut view = GraphView::new();
    assert_eq!(view.remove_node(42), Outcome::NoSuchNode);
    assert_eq!(view.remove_link(42), Outcome::NoSuchLink);
    assert_eq!(view.set_link_state(42, true), Outcome::NoSuchLink);
    assert_eq!(
        view.add_port(
            42,
            Port { id: 1, label: String::from("p"), direction: Direction::Source, media: None },
        ),
        Outcome::NoSuchNode,
    );
    view.add_node(7, String::from("n"), None);
    assert_eq!(view.remove_port(3, 7), Outcome::NoSuchPort);
    assert_eq!(view.remove_port(3, 8), Outcome::NoSuchNode);
}

#[test]
fn duplicate_port_id_keeps_existing_entry() {
    let mut view = GraphView::new();
    view.add_node(1, String::from("n"), None);
    let first = Port { id: 10, label: String::from("out"), direction: Direction::Source, media: None };
    let second = Port { id: 10, label: String::from("dup"), direction: Direction::Sink, media: None };
    assert_eq!(view.add_port(1, first), Outcome::Done);
    assert_eq!(view.add_port(1, second), Outcome::DuplicateId);
    let p = view.model.find_port(1, 10).unwrap();
    assert_eq!(p.label.as_str(), "out");
}

#[test]
fn link_insert_never_validates_endpoints() {
    let mut view = GraphView::new();
    // No nodes exist at all; the link is stored awaiting resolution.
    let l = Link { id: 100, from_node: 1, from_port: 10, to_node: 2, to_port: 20, active: true };
    assert_eq!(view.add_link(l), Outcome::Done);
    assert_eq!(view.model.links.len(), 1);
}

#[test]
fn link_reinsert_replaces_and_state_change_applies() {
    let mut view = GraphView::new();
    let l = Link { id: 100, from_node: 1, from_port: 10, to_node: 2, to_port: 20, active: true };
    view.add_link(l);
    let replaced = Link { active: false, ..l };
    assert_eq!(view.add_link(replaced), Outcome::DuplicateId);
    assert_eq!(view.model.links.len(), 1);
    assert!(!view.model.links[0].active);

    assert_eq!(view.set_link_state(100, true), Outcome::Done);
    assert!(view.model.links[0].active);
    assert_eq!(view.remove_link(100), Outcome::Done);
    assert_eq!(view.model.links.len(), 0);
}

#[test]
fn port_remove_then_node_remove() {
    let mut view = GraphView::new();
    view.add_node(1, String::from("n"), None);
    view.add_port(
        1,
        Port { id: 10, label: String::from("out"), direction: Direction::Source, media: None },
    );
    assert_eq!(view.remove_port(10, 1), Outcome::Done);
    assert_eq!(view.model.nodes[0].ports.len(), 0);
    assert_eq!(view.remove_node(1), Outcome::Done);
    assert_eq!(view.model.nodes.len(), 0);
}

#[test]
fn toggle_command_names_both_ports() {
    let c = toggle_link_command(10, 20);
    assert_eq!(c.port_from, 10);
    assert_eq!(c.port_to, 20);
}

#[test]
fn link_events_round_through_the_stream() {
    let mut view = GraphView::new();
    let events = vec![
        DeltaEvent::LinkAdded {
            id: 5,
            from_node: 1,
            from_port: 10,
            to_node: 2,
            to_port: 20,
            active: false,
        },
        DeltaEvent::LinkStateChanged { id: 5, active: true },
        DeltaEvent::LinkStateChanged { id: 6, active: true },
        DeltaEvent::LinkRemoved { id: 7 },
    ];
    apply_events(&mut view, events);
    assert_eq!(view.model.links.len(), 1);
    assert!(view.model.links[0].active);
}
