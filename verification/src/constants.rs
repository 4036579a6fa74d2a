//! Configuration constants for the token: pricing, security bounds, timing.

use vstd::prelude::*;

verus! {

/// Number of decimals of both the token and the payment currency.
pub const DECIMALS: u8 = 6;

/// Initial supply in raw token units - 8 million tokens.
pub const INITIAL_SUPPLY: u64 = 8_000_000;

/// Max supply in raw token units - 100 million tokens.
pub const MAX_SUPPLY: u64 = 100_000_000;

/// Price of one token in raw payment units: 0.8 currency units at 6 decimals.
pub const TOKEN_PRICE_USDC: u64 = 800_000;

/// Minimum purchase: 10 currency units (12.5 tokens minimum).
pub const MIN_PURCHASE_USDC: u64 = 10_000_000;

/// Maximum purchase: 100,000 currency units.
pub const MAX_PURCHASE_USDC: u64 = 100_000_000_000;

/// Maximum number of addresses in the blacklist.
pub const MAX_BLACKLIST_SIZE: usize = 100;

/// Cooldown between guarded operations, in seconds (reentrancy protection).
pub const OPERATION_COOLDOWN: i64 = 1;

/// 15 minutes cooldown after a pause before unpause is allowed, in seconds.
pub const UNPAUSE_COOLDOWN: i64 = 900;

/// Multisig configuration - 3 of 5 signers required.
pub const MULTISIG_THRESHOLD: u64 = 3;

/// Number of designated multisig signers.
pub const MULTISIG_OWNERS: usize = 5;

} // verus!
