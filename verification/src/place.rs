//! Placement heuristic for newly inserted nodes. The canvas is partitioned
//! into three fixed columns by the node's optional category: sources to the
//! left, sinks to the right, uncategorized to the center. Within the chosen
//! column, the new node is stacked directly below the lowest already-placed
//! node whose horizontal position lies within a small tolerance of the
//! column, or at a fixed top offset if the column is empty. The heuristic
//! never repositions existing nodes and is never re-run after insertion.

use crate::model::{GraphModel, NodeKind, NodeV};
use vstd::prelude::*;

verus! {

/// Horizontal position of the left (source) column, in milli-units.
pub const COLUMN_SOURCE_X_MILLIS: i64 = 20_000;

/// Horizontal position of the right (sink) column, in milli-units.
pub const COLUMN_SINK_X_MILLIS: i64 = 820_000;

/// Horizontal position of the center column, in milli-units.
pub const COLUMN_CENTER_X_MILLIS: i64 = 420_000;

/// Half-width of the band of horizontal positions counted as belonging to a
/// column, in milli-units (50 logical units).
pub const COLUMN_TOLERANCE_MILLIS: i64 = 50_000;

/// Vertical gap between a node and the one stacked below it, in milli-units.
pub const STACK_GAP_MILLIS: i64 = 120_000;

/// Vertical position of the first node of an empty column, in milli-units.
pub const COLUMN_TOP_MILLIS: i64 = 20_000;

/// The column a node of the given category is placed in.
pub open spec fn column_x(category: Option<NodeKind>) -> int {
    match category {
        Some(NodeKind::Source) => COLUMN_SOURCE_X_MILLIS as int,
        Some(NodeKind::Sink) => COLUMN_SINK_X_MILLIS as int,
        None => COLUMN_CENTER_X_MILLIS as int,
    }
}

/// Whether a node at horizontal position `px` counts as lying in the column
/// at `x`.
pub open spec fn in_column(px: int, x: int) -> bool {
    -(COLUMN_TOLERANCE_MILLIS as int) < px - x < COLUMN_TOLERANCE_MILLIS as int
}

/// Largest vertical position among the first `k` nodes lying in the column
/// at `x`, or `None` if no such node exists.
pub open spec fn col_max_y(nodes: Seq<NodeV>, x: int, k: int) -> Option<int>
    decreases k,
{
    if k <= 0 {
        None
    } else {
        let prev = col_max_y(nodes, x, k - 1);
        let n = nodes[k - 1];
        if in_column(n.pos_x, x) {
            match prev {
                None => Some(n.pos_y),
                Some(m) => Some(if n.pos_y > m {
                    n.pos_y
                } else {
                    m
                }),
            }
        } else {
            prev
        }
    }
}

/// Initial canvas position chosen for a new node of the given category:
/// the category's column, directly below the lowest node already in that
/// column, or at the top offset if the column is empty.
pub open spec fn place_spec(m: crate::model::ModelV, category: Option<NodeKind>) -> (int, int) {
    let x = column_x(category);
    let y = match col_max_y(m.nodes, x, m.nodes.len() as int) {
        Some(low) => low + STACK_GAP_MILLIS,
        None => COLUMN_TOP_MILLIS as int,
    };
    (x, y)
}

/// Chooses the initial canvas position for a new node.
pub fn place_new_node(model: &GraphModel, category: Option<NodeKind>) -> (r: (i64, i64))
    requires
        model@.wf(),
    ensures
        (r.0 as int, r.1 as int) == place_spec(model@, category),
{
    let x: i64 = match category {
        Some(NodeKind::Source) => COLUMN_SOURCE_X_MILLIS,
        Some(NodeKind::Sink) => COLUMN_SINK_X_MILLIS,
        None => COLUMN_CENTER_X_MILLIS,
    };
    let mut best: Option<i64> = None;
    let mut i: usize = 0;
    while i < model.nodes.len()
        invariant
            model@.wf(),
            i <= model.nodes@.len(),
            model@.nodes.len() == model.nodes@.len(),
            match best {
                Some(b) => col_max_y(model@.nodes, x as int, i as int) == Some(b as int)
                    && -crate::CANVAS_HALF_MILLIS <= b <= crate::CANVAS_HALF_MILLIS,
                None => col_max_y(model@.nodes, x as int, i as int) is None,
            },
            x as int == column_x(category),
        decreases model.nodes@.len() - i,
    {
        let n = &model.nodes[i];
        proof {
            assert(model@.nodes[i as int].wf());
        }
        if n.pos.x - x > -COLUMN_TOLERANCE_MILLIS && n.pos.x - x < COLUMN_TOLERANCE_MILLIS {
            best = match best {
                None => Some(n.pos.y),
                Some(b) => Some(
                    if n.pos.y > b {
                        n.pos.y
                    } else {
                        b
                    },
                ),
            };
        }
        i += 1;
    }
    let y: i64 = match best {
        Some(low) => low + STACK_GAP_MILLIS,
        None => COLUMN_TOP_MILLIS,
    };
    (x, y)
}

} // verus!
