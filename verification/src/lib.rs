//! Core engine of an interactive node-link patchbay canvas.
//!
//! The library mirrors a live, externally owned graph of nodes, ports and
//! links, and keeps a mutable visual layout consistent with it: a
//! canvas/screen coordinate transform with anchor-preserving zoom, a graph
//! model tolerant of out-of-order delta events, a placement heuristic for
//! newly arriving nodes, drag/scroll/pinch interaction state machines, and a
//! link router that turns resolved endpoints into cubic curves.
//!
//! All geometry is carried in milli-units: one logical canvas unit, and one
//! screen pixel, each count as 1000. The zoom factor is likewise a per-mille
//! integer, so a factor of 1.0 is stored as 1000. Working at this fixed
//! resolution keeps every operation exact and lets the transform round-trip
//! and anchor laws be stated as equalities rather than as float tolerances.

use vstd::prelude::*;

pub mod events;
pub mod geom;
pub mod model;
pub mod num;
pub mod place;
pub mod route;
pub mod transform;
pub mod view;

verus! {

/// Side length of the addressable canvas, in milli-units (5000 logical units).
pub const CANVAS_SIZE_MILLIS: i64 = 5_000_000;

/// Half the canvas side; the canvas is centered at the origin.
pub const CANVAS_HALF_MILLIS: i64 = 2_500_000;

/// Smallest allowed zoom factor, per-mille (0.3).
pub const ZOOM_MIN_MILLIS: u32 = 300;

/// Largest allowed zoom factor, per-mille (4.0).
pub const ZOOM_MAX_MILLIS: u32 = 4000;

/// Zoom factor a fresh view starts with, per-mille (1.0).
pub const ZOOM_DEFAULT_MILLIS: u32 = 1000;

/// Bound on externally supplied screen coordinates and on stored scroll
/// offsets, in milli-pixels. A machine limit only: it keeps every
/// intermediate product of the transform engine inside `i64`.
pub const COORD_LIMIT_MILLIS: i64 = 100_000_000_000;

} // verus!
