//! Translates raw keyboard key records into emulated game-controller
//! actions: button presses and two-axis stick motion.
//!
//! The crate holds the pure core of that translation: the key mapper,
//! the axis state machine that resolves overlapping directional presses,
//! the sink state that owns the two axis levels, and the per-drain-cycle
//! orchestration. Device handles, blocking reads and record writes are
//! left to the embedding program, which exchanges plain records with
//! this library.

pub mod gamepad;
pub mod keyboard;
pub mod engine;
