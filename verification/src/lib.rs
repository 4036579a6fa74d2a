//! Policy engine for a capped-supply token: supply-cap enforcement,
//! reentrancy/cooldown guarding, pause/unpause timing, multisig-gated
//! authorization, and blacklist-based transfer denial.
//!
//! The engine owns only plain state (counters, flags, timestamps,
//! identities) and decides, for every requested state change, whether the
//! change is authorized and internally consistent.  Actual value movement
//! (the settlement rail), account plumbing, and the clock live outside;
//! callers hand in the current time and observed balances, perform the
//! settlement calls between `prepare` and `commit`, and the engine
//! guarantees the ledger is updated atomically with respect to them.

pub mod constants;
pub mod error;
pub mod events;
pub mod laws;
pub mod ops;
pub mod state;
