//! Audit events: each successful operation returns the event record it
//! would emit, so callers can log or publish it on their own channel.

use vstd::prelude::*;
use crate::state::Address;

verus! {

/// Emitted once at genesis, after the state and registry are created.
#[derive(Clone, Copy, Debug, PartialEq, Eq, Structural)]
pub struct TokenStateInitialized {
    pub authority: Address,
    pub mint: Address,
    pub initial_supply: u64,
    pub max_supply: u64,
    pub multisig: Address,
}

/// Emitted when a user mint commits.
#[derive(Clone, Copy, Debug, PartialEq, Eq, Structural)]
pub struct TokensMinted {
    pub user: Address,
    pub amount: u64,
    pub payment_amount: u64,
    pub payment_token: Option<Address>,
}

/// Emitted when an admin burn commits.
#[derive(Clone, Copy, Debug, PartialEq, Eq, Structural)]
pub struct TokensBurned {
    pub admin: Address,
    pub amount: u64,
    pub refund_amount: u64,
    pub refund_token: Address,
}

/// Emitted when the token is paused.
#[derive(Clone, Copy, Debug, PartialEq, Eq, Structural)]
pub struct ProgramPaused {
    pub authority: Address,
    pub timestamp: i64,
}

/// Emitted when the token is unpaused.
#[derive(Clone, Copy, Debug, PartialEq, Eq, Structural)]
pub struct ProgramUnpaused {
    pub authority: Address,
    pub timestamp: i64,
}

/// Emitted when the supply cap is lowered.
#[derive(Clone, Copy, Debug, PartialEq, Eq, Structural)]
pub struct MaxSupplyUpdated {
    pub authority: Address,
    pub old_max_supply: u64,
    pub new_max_supply: u64,
}

/// Which way a blacklist mutation went.
#[derive(Clone, Copy, Debug, PartialEq, Eq, Structural)]
pub enum BlacklistAction {
    Added,
    Removed,
}

/// Emitted when the blacklist is mutated.
#[derive(Clone, Copy, Debug, PartialEq, Eq, Structural)]
pub struct BlacklistUpdated {
    pub authority: Address,
    pub address: Address,
    pub action: BlacklistAction,
}

/// Emitted when an item purchase commits.
#[derive(Debug, PartialEq, Eq)]
pub struct ItemPurchased {
    pub user: Address,
    pub amount: u64,
    pub item_id: String,
}

/// Emitted when the reserve check passes.
#[derive(Clone, Copy, Debug, PartialEq, Eq, Structural)]
pub struct ReserveVerified {
    pub total_supply: u64,
    pub reserve_amount: u64,
    pub reserve_token: Address,
}

/// Emitted when the transfer hook approves a transfer.
#[derive(Clone, Copy, Debug, PartialEq, Eq, Structural)]
pub struct TransferHookExecuted {
    pub source: Address,
    pub destination: Address,
    pub amount: u64,
}

} // verus!
