//! A deterministic, tick-driven position simulator.
//!
//! The engine owns a mapping from entity identifiers to positions and a
//! monotonically increasing tick counter. Every completed tick appends a
//! full snapshot of the mapping to an append-only history ledger, so any
//! past tick can be queried without reconstruction. All queries are total:
//! unknown entities and out-of-range tick indices resolve to documented
//! fallback values, never to errors.

pub mod direction;
pub mod engine;
pub mod laws;
pub mod model;
pub mod table;
pub mod vec2;

pub use direction::InputDirection;
pub use engine::Simulation;
pub use vec2::Vec2;
