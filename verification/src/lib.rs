//! A custodial bridging ledger: one vault of a single whitelisted asset, an
//! administrator and a relayer who manage it, and public deposits that are
//! gated by pause switches, deposit limits, a whitelist and an optional fee.

pub mod accounts;
pub mod admin_endpoints;
pub mod bridge_program;
pub mod constants;
pub mod contexts;
pub mod errors;
pub mod guard;
pub mod identity;
pub mod instruction;
pub mod laws;
pub mod states;
pub mod utils;

pub use errors::Errors;
