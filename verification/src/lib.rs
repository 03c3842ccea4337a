//! Touch-state tracking and event-remapping engine for a thumb-sense
//! interaction model: while a finger rests on the trackpad, designated keys
//! become mouse-click triggers (or the touch itself becomes a held modifier
//! key) instead of passing through as ordinary keystrokes.
//!
//! The crate holds the verified core: geometry and exclusion-zone math,
//! the touch-position tracker, the pure key-mapping decision function, and
//! the remap engine that drives them over streams of plain device records.
//! Device discovery and the virtual output device are left to the caller.

pub mod engine;
pub mod geometry;
pub mod mapper;
pub mod tracker;
pub mod types;
