//! Launch planning and lifecycle decisions for disposable `lightningd` test nodes.
//!
//! The crate holds the pure part of bringing up a node next to a running
//! bitcoin backend: the command line, the bounded readiness polling, the peer
//! bootstrap and the teardown bookkeeping. Every decision is a verified
//! function; performing the requested effects is left to the caller.

pub mod conf;
pub mod error;
pub mod instance;
pub mod launch;
pub mod laws;
pub mod plan;
pub mod text;

pub use conf::Conf;
pub use error::LaunchError;
