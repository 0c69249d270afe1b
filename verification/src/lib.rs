//! Decision core of a world-interaction runtime: candidate ranking, sticky
//! focus, slot gating, offer resolution, and the execution state machine that
//! starts, advances, completes, and cancels interactions.
//!
//! Floating-point quantities (scores, distances, durations, clock readings)
//! are carried as their IEEE-754 bit patterns; the arithmetic on them is done
//! by the host, and this crate orders and routes them.

pub mod scalar;
pub mod ids;
pub mod table;
pub mod components;
pub mod config;
pub mod messages;
pub mod runtime;
pub mod util;
pub mod gating;
pub mod control;
pub mod order;
pub mod scoring;
pub mod focus;
pub mod execution;
pub mod prompt;
pub mod laws;
