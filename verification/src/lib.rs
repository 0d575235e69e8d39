//! A four-function calculator engine: a state machine that accumulates a
//! running result, a pending operator, and an input buffer, and resolves
//! operations strictly left to right on each operator press.
//!
//! Numeric values are carried as opaque 64-bit codes chosen by the host:
//! the engine never interprets them. The host parses the input buffer and
//! applies the pending operator, then hands the committed code back to the
//! engine, which owns every state-machine decision.

pub mod engine;
pub mod laws;
pub mod op;

pub use engine::{CalcApp, CalcError, MAX_INPUT_LEN};
pub use op::Op;
