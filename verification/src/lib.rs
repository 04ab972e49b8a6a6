//! Presence-simulation scheduling engine.
//!
//! The library decides *when* a synthetic input action happens, *which*
//! action is taken, and *how* it is synthesized so that it resembles human
//! behaviour: randomized interval scheduling, eased multi-step motion
//! paths, and a stateful word-aware typing cursor. Performing the input
//! primitives, sleeping, and the host-shell glue live outside the library;
//! the library hands them fully described plans.

pub mod apps;
pub mod config;
pub mod disguise;
pub mod engine;
pub mod motion;
pub mod sampling;
pub mod selector;
pub mod typing;
