//! Deterministic rollback synchronization for a two-player simulation.
//!
//! Two peers each run the same simulation; this library keeps their
//! histories consistent: it buffers local input with a configurable delay,
//! predicts remote input that has not arrived yet, and rolls the simulation
//! back to a stored snapshot whenever a late remote input contradicts a
//! prediction, re-stepping deterministically up to the present frame.

pub mod input;
pub mod session;
pub mod sim;
pub mod store;
pub mod sync;
