//! Decision logic for a minimal browser-hosted window.
//!
//! The library holds the verified part of two small example applications:
//! an event-loop host that owns a single on-screen surface, an event relay
//! that loops a custom application event back through the event loop on a
//! mouse-press edge, and a table of listeners that selectively suppress the
//! browser's default behavior. All windowing and DOM calls are side effects
//! performed by the surrounding application; this crate decides, from plain
//! values, what those calls should be.

pub mod host;
pub mod relay;
pub mod suppress;
pub mod text;
