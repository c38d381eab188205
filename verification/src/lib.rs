//! Verified core of two editor UI components: a circular "socket" control for
//! an animation-graph view, and a context menu for a widget-tree scene view.
//!
//! The host GUI toolkit owns layout, rendering and message routing; this crate
//! holds the decisions those components make per message, stated over plain
//! values (pool handles as index/generation pairs, brushes as RGB colours,
//! routed messages as enums) so that they can be proved exact.

pub mod handle;
pub mod socket;
pub mod menu;
