//! A minimal authenticated ledger module.
//!
//! The crate models a small state-transition system: five callable
//! operations that read and mutate a per-identity counter map and a single
//! shared cache slot, gated by caller authentication, protected against
//! integer overflow, and recorded in an ordered event trail.
//!
//! - [`model`] holds the mathematical model: the state view, the calls,
//!   the errors, the events, and the specification of every transition.
//! - [`state`] holds the executable [`state::StateModule`], each operation
//!   proved equal to its specified transition.
//! - [`laws`] states and proves the module-level properties that follow
//!   from the transitions.

pub mod laws;
pub mod model;
pub mod state;
