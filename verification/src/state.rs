//! The persistent records of the policy engine: the issuance state
//! (supply counters, pause status, policy references, reentrancy guard)
//! and the blacklist registry (a bounded, unordered set of identities).

use vstd::prelude::*;
use crate::constants::{MAX_BLACKLIST_SIZE, OPERATION_COOLDOWN};
use crate::error::DiamondTokenError;

verus! {

/// A 32-byte account identity, held as four 64-bit words.
///
/// The policy layer only ever compares identities for equality and stores
/// them in the registry, so the words themselves carry no further meaning.
#[derive(Clone, Copy, Debug, PartialEq, Eq, Structural)]
pub struct Address {
    pub w0: u64,
    pub w1: u64,
    pub w2: u64,
    pub w3: u64,
}

impl Default for Address {
    /// The all-zero identity.
    fn default() -> (a: Address)
        ensures
            a == (Address { w0: 0, w1: 0, w2: 0, w3: 0 }),
    {
        Address { w0: 0, w1: 0, w2: 0, w3: 0 }
    }
}

/// Singleton record of the governed asset: supply counters, pause status,
/// and the identities the authorization policy checks against.
#[derive(Clone, Copy, Debug, PartialEq, Eq, Structural)]
pub struct TokenState {
    /// Sole administrative principal.
    pub authority: Address,
    /// The governed asset.
    pub mint: Address,
    /// Circulating supply, in raw token units.
    pub total_supply: u64,
    /// Supply cap; `total_supply <= max_supply` always.
    pub max_supply: u64,
    /// Whether operations are suspended.
    pub is_paused: bool,
    /// Timestamp of the most recent pause transition.
    pub last_pause_timestamp: i64,
    /// Authorization committee record for quorum-gated operations.
    pub multisig: Address,
    /// Custodial principal that owns the pooled vaults.
    pub vault_owner: Address,
    /// Account-derivation byte, carried but never interpreted here.
    pub bump: u8,
    /// Reentrancy guard: true only for the duration of one guarded call.
    pub in_operation: bool,
    /// Timestamp of the last guarded operation start; only ever advances.
    pub last_operation_timestamp: i64,
}

/// Outcome of starting a guarded operation at time `now` on state `s`:
/// rejected while the guard is held, rejected when the time difference
/// cannot be represented, rejected before the cooldown has elapsed,
/// and granted otherwise.
pub open spec fn start_operation_result(s: TokenState, now: i64) -> Result<(), DiamondTokenError> {
    if s.in_operation {
        Err(DiamondTokenError::ReentrancyNotAllowed)
    } else if now - s.last_operation_timestamp > i64::MAX || now - s.last_operation_timestamp
        < i64::MIN {
        Err(DiamondTokenError::MathOverflow)
    } else if now - s.last_operation_timestamp < OPERATION_COOLDOWN {
        Err(DiamondTokenError::OperationCooldownNotElapsed)
    } else {
        Ok(())
    }
}

/// The state after an attempt to start a guarded operation: the guard is
/// taken and the operation time recorded exactly when the attempt is
/// granted; a rejected attempt leaves the state as it was.
pub open spec fn start_operation_next(s: TokenState, now: i64) -> TokenState {
    if start_operation_result(s, now) is Ok {
        TokenState { in_operation: true, last_operation_timestamp: now, ..s }
    } else {
        s
    }
}

impl Default for TokenState {
    /// The empty record: zero identities, zero counters, not paused,
    /// guard released.
    fn default() -> (s: TokenState)
        ensures
            s == TokenState::spec_default(),
    {
        TokenState {
            authority: Address::default(),
            mint: Address::default(),
            total_supply: 0,
            max_supply: 0,
            is_paused: false,
            last_pause_timestamp: 0,
            multisig: Address::default(),
            vault_owner: Address::default(),
            bump: 0,
            in_operation: false,
            last_operation_timestamp: 0,
        }
    }
}

impl TokenState {
    /// The record `Default::default` returns.
    pub open spec fn spec_default() -> TokenState {
        TokenState {
            authority: Address { w0: 0, w1: 0, w2: 0, w3: 0 },
            mint: Address { w0: 0, w1: 0, w2: 0, w3: 0 },
            total_supply: 0,
            max_supply: 0,
            is_paused: false,
            last_pause_timestamp: 0,
            multisig: Address { w0: 0, w1: 0, w2: 0, w3: 0 },
            vault_owner: Address { w0: 0, w1: 0, w2: 0, w3: 0 },
            bump: 0,
            in_operation: false,
            last_operation_timestamp: 0,
        }
    }

    /// The supply-cap invariant: the circulating supply never exceeds the cap.
    pub open spec fn wf(self) -> bool {
        self.total_supply <= self.max_supply
    }

    /// Start a guarded operation with reentrancy protection: rejected if the
    /// guard is already held, if the elapsed time since the last guarded
    /// operation is unrepresentable, or if the cooldown has not elapsed;
    /// otherwise the guard is taken and the operation time recorded.
    pub fn start_operation(&mut self, now: i64) -> (r: Result<(), DiamondTokenError>)
        ensures
            r == start_operation_result(*old(self), now),
            *final(self) == start_operation_next(*old(self), now),
            r is Err ==> *final(self) == *old(self),
            r is Ok ==> *final(self) == (TokenState {
                in_operation: true,
                last_operation_timestamp: now,
                ..*old(self)
            }),
            r is Ok ==> now > old(self).last_operation_timestamp,
    {
        if self.in_operation {
            return Err(DiamondTokenError::ReentrancyNotAllowed);
        }
        let time_diff = match now.checked_sub(self.last_operation_timestamp) {
            Some(d) => d,
            None => {
                return Err(DiamondTokenError::MathOverflow);
            },
        };
        if time_diff < OPERATION_COOLDOWN {
            return Err(DiamondTokenError::OperationCooldownNotElapsed);
        }
        self.in_operation = true;
        self.last_operation_timestamp = now;
        Ok(())
    }

    /// End a guarded operation: release the reentrancy guard and nothing else.
    pub fn end_operation(&mut self)
        ensures
            *final(self) == (TokenState { in_operation: false, ..*old(self) }),
    {
        self.in_operation = false;
    }

    /// Whether the given identity is the administrative authority.
    pub fn is_admin(&self, admin: &Address) -> (r: bool)
        ensures
            r == (self.authority == *admin),
    {
        self.authority == *admin
    }

    /// Add to the circulating supply with checked arithmetic: on overflow
    /// the counter is left untouched.
    pub fn update_total_supply_add(&mut self, amount: u64) -> (r: Result<(), DiamondTokenError>)
        ensures
            old(self).total_supply + amount <= u64::MAX ==> r is Ok && *final(self) == (TokenState {
                total_supply: (old(self).total_supply + amount) as u64,
                ..*old(self)
            }),
            old(self).total_supply + amount > u64::MAX ==> r == Err::<(), DiamondTokenError>(
                DiamondTokenError::MathOverflow,
            ) && *final(self) == *old(self),
    {
        match self.total_supply.checked_add(amount) {
            Some(n) => {
                self.total_supply = n;
                Ok(())
            },
            None => Err(DiamondTokenError::MathOverflow),
        }
    }

    /// Subtract from the circulating supply with checked arithmetic: on
    /// underflow the counter is left untouched.
    pub fn update_total_supply_sub(&mut self, amount: u64) -> (r: Result<(), DiamondTokenError>)
        ensures
            amount <= old(self).total_supply ==> r is Ok && *final(self) == (TokenState {
                total_supply: (old(self).total_supply - amount) as u64,
                ..*old(self)
            }),
            amount > old(self).total_supply ==> r == Err::<(), DiamondTokenError>(
                DiamondTokenError::MathOverflow,
            ) && *final(self) == *old(self),
    {
        match self.total_supply.checked_sub(amount) {
            Some(n) => {
                self.total_supply = n;
                Ok(())
            },
            None => Err(DiamondTokenError::MathOverflow),
        }
    }
}

/// Bounded registry of identities excluded from minting and transfers.
///
/// Membership, not order, is the registry's semantic contract: removal
/// swaps with the last entry for constant cost.
#[derive(Debug)]
pub struct Blacklist {
    /// The excluded identities; at most `MAX_BLACKLIST_SIZE`, no duplicates.
    pub addresses: Vec<Address>,
    /// Account-derivation byte, carried but never interpreted here.
    pub bump: u8,
}

impl Default for Blacklist {
    /// The empty registry.
    fn default() -> (b: Blacklist)
        ensures
            b.addresses@ == Seq::<Address>::empty(),
            b.bump == 0,
    {
        Blacklist { addresses: Vec::new(), bump: 0 }
    }
}

impl Blacklist {
    /// The set of excluded identities.
    pub open spec fn entries(self) -> Set<Address> {
        self.addresses@.to_set()
    }

    /// Whether `a` is excluded.
    pub open spec fn spec_contains(self, a: Address) -> bool {
        self.addresses@.contains(a)
    }

    /// Well-formed: no duplicate entries and the size bound holds.
    pub open spec fn wf(self) -> bool {
        &&& self.addresses@.no_duplicates()
        &&& self.addresses@.len() <= MAX_BLACKLIST_SIZE
    }

    /// Membership check.
    pub fn contains(&self, address: &Address) -> (r: bool)
        ensures
            r == self.spec_contains(*address),
    {
        let mut i: usize = 0;
        while i < self.addresses.len()
            invariant
                i <= self.addresses@.len(),
                forall|j: int| 0 <= j < i ==> self.addresses@[j] != *address,
            decreases self.addresses@.len() - i,
        {
            if self.addresses[i] == *address {
                assert(self.addresses@[i as int] == *address);
                return true;
            }
            i += 1;
        }
        false
    }

    /// Add an identity: rejected if already present or if the registry is
    /// full; otherwise appended.  Well-formedness is preserved.
    pub fn add(&mut self, address: Address) -> (r: Result<(), DiamondTokenError>)
        ensures
            old(self).spec_contains(address) ==> r == Err::<(), DiamondTokenError>(
                DiamondTokenError::AddressAlreadyBlacklisted,
            ),
            !old(self).spec_contains(address) && old(self).addresses@.len() >= MAX_BLACKLIST_SIZE
                ==> r == Err::<(), DiamondTokenError>(DiamondTokenError::BlacklistFull),
            r is Err ==> final(self).addresses@ == old(self).addresses@,
            r is Ok <==> !old(self).spec_contains(address) && old(self).addresses@.len()
                < MAX_BLACKLIST_SIZE,
            r is Ok ==> final(self).addresses@ == old(self).addresses@.push(address),
            final(self).bump == old(self).bump,
            old(self).wf() ==> final(self).wf(),
    {
        if self.contains(&address) {
            return Err(DiamondTokenError::AddressAlreadyBlacklisted);
        }
        if self.addresses.len() >= MAX_BLACKLIST_SIZE {
            return Err(DiamondTokenError::BlacklistFull);
        }
        self.addresses.push(address);
        Ok(())
    }

    /// Remove an identity: fails if absent; otherwise removes it by swapping
    /// with the last entry (order of the remaining entries is not
    /// preserved).  On a well-formed registry the remaining entries are
    /// exactly the old ones less the removed identity.
    pub fn remove(&mut self, address: &Address) -> (r: Result<(), DiamondTokenError>)
        ensures
            r is Ok <==> old(self).spec_contains(*address),
            r is Err ==> r == Err::<(), DiamondTokenError>(
                DiamondTokenError::AddressNotBlacklisted,
            ) && final(self).addresses@ == old(self).addresses@,
            r is Ok ==> final(self).addresses@.len() == old(self).addresses@.len() - 1,
            old(self).wf() ==> final(self).wf(),
            old(self).wf() && r is Ok ==> final(self).entries() == old(self).entries().remove(
                *address,
            ),
            old(self).wf() ==> forall|x: Address|
                final(self).spec_contains(x) <==> (old(self).spec_contains(x) && x != *address),
            final(self).bump == old(self).bump,
    {
        let ghost pre = self.addresses@;
        let mut i: usize = 0;
        while i < self.addresses.len()
            invariant
                i <= self.addresses@.len(),
                *self == *old(self),
                pre == self.addresses@,
                forall|j: int| 0 <= j < i ==> self.addresses@[j] != *address,
            decreases self.addresses@.len() - i,
        {
            if self.addresses[i] == *address {
                assert(pre[i as int] == *address);
                assert(pre.contains(*address));
                self.addresses.swap_remove(i);
                proof {
                    lemma_swap_remove_entries(pre, i as int, *address);
                }
                return Ok(());
            }
            i += 1;
        }
        Err(DiamondTokenError::AddressNotBlacklisted)
    }
}

/// After removing position `i` (holding `a`) from `s` by swapping in the
/// last element, the elements are exactly those of `s` other than `a`,
/// provided `s` had no duplicates; duplicate-freedom and the length drop
/// carry over unconditionally.
proof fn lemma_swap_remove_entries(s: Seq<Address>, i: int, a: Address)
    requires
        0 <= i < s.len(),
        s[i] == a,
    ensures
        s.no_duplicates() ==> s.update(i, s.last()).drop_last().no_duplicates(),
        s.no_duplicates() ==> forall|x: Address|
            s.update(i, s.last()).drop_last().contains(x) <==> (s.contains(x) && x != a),
        s.no_duplicates() ==> s.update(i, s.last()).drop_last().to_set() == s.to_set().remove(a),
{
    let t = s.update(i, s.last()).drop_last();
    if s.no_duplicates() {
        assert forall|x: Address| t.contains(x) implies (s.contains(x) && x != a) by {
            let k = choose|k: int| 0 <= k < t.len() && t[k] == x;
            if k == i {
                assert(s[s.len() - 1] == x);
            } else {
                assert(s[k] == x);
            }
        }
        assert forall|x: Address| s.contains(x) && x != a implies t.contains(x) by {
            let k = choose|k: int| 0 <= k < s.len() && s[k] == x;
            if k == s.len() - 1 {
                if i < s.len() - 1 {
                    assert(t[i] == x);
                } else {
                    assert(s[i] == x);
                }
            } else if k == i {
                assert(s[i] == a);
            } else {
                assert(t[k] == x);
            }
        }
        assert forall|p: int, q: int|
            0 <= p < t.len() && 0 <= q < t.len() && p != q implies t[p] != t[q] by {
            if p == i || q == i {
                assert(s[s.len() - 1] == s.last());
            }
        }
        assert(t.to_set() =~= s.to_set().remove(a));
    }
}

} // verus!
