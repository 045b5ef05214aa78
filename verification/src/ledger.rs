//! The ledger itself: three persistent mappings and the state-transition
//! operations over them.
//!
//! Each mutating operation is specified by an open transition function over
//! the mathematical maps, so that callers see the exact new state and the
//! exact result — which error comes on which input, and the event returned on
//! success. Checks run in order and the first failure wins; the only mutation
//! visible after a failure is the documented zero-touch entry creation.

use vstd::prelude::*;

use crate::store::stored_or_zero;
use crate::store::touch;
use crate::store::AllowanceMap;
use crate::store::BalanceMap;
use crate::types::AccountId;
use crate::types::Error;
use crate::types::Event;

verus! {

/// The stored total supply read as a quantity: absence means zero.
pub open spec fn supply_or_zero(total: Option<u64>) -> u64 {
    match total {
        Some(v) => v,
        None => 0u64,
    }
}

/// Outcome of `transfer`: the balance map after the call, and the returned
/// result. The source must have an entry and sufficient funds; evaluating the
/// destination's balance zero-touches it even when the call then fails; the
/// credit must not wrap. The credit is computed from the post-debit state, so
/// a transfer between an account and itself conserves its balance instead of
/// minting.
pub open spec fn spec_transfer(
    bal: Map<AccountId, u64>,
    from: AccountId,
    to: AccountId,
    value: u64,
) -> (Map<AccountId, u64>, Result<Event, Error>) {
    if !bal.dom().contains(from) {
        (bal, Err(Error::InsufficientFunds))
    } else {
        let from_balance = bal[from];
        let touched = touch(bal, to);
        if from_balance < value {
            (touched, Err(Error::InsufficientFunds))
        } else {
            let debited = touched.insert(from, (from_balance - value) as u64);
            let to_balance = debited[to];
            if to_balance + value > u64::MAX {
                (touched, Err(Error::StorageOverflow))
            } else {
                (
                    debited.insert(to, (to_balance + value) as u64),
                    Ok(Event::Transfer { from, to, value }),
                )
            }
        }
    }
}

/// Outcome of `approve`: the balance map, the allowance map, and the returned
/// result. Approval checks funds at grant time, moves the approved amount
/// immediately exactly as a transfer does, and records an allowance of
/// exactly `value` for the pair, overwriting any prior allowance.
pub open spec fn spec_approve(
    bal: Map<AccountId, u64>,
    alw: Map<(AccountId, AccountId), u64>,
    from: AccountId,
    to: AccountId,
    value: u64,
) -> (Map<AccountId, u64>, Map<(AccountId, AccountId), u64>, Result<Event, Error>) {
    if !bal.dom().contains(from) {
        (bal, alw, Err(Error::InsufficientFunds))
    } else {
        let from_balance = bal[from];
        let touched = touch(bal, to);
        if from_balance < value {
            (touched, alw, Err(Error::InsufficientFunds))
        } else {
            let debited = touched.insert(from, (from_balance - value) as u64);
            let to_balance = debited[to];
            if to_balance + value > u64::MAX {
                (touched, alw, Err(Error::StorageOverflow))
            } else {
                (
                    debited.insert(to, (to_balance + value) as u64),
                    alw.insert((from, to), value),
                    Ok(Event::Approval { from, to, value }),
                )
            }
        }
    }
}

/// Outcome of `transfer_from`: the balance map, the allowance map, and the
/// returned result. Both ends are zero-touched; the source must have an entry
/// and sufficient funds; the pair's allowance must exist and cover `value`;
/// on success the allowance is reduced by exactly `value` and its entry is
/// kept even at zero.
pub open spec fn spec_transfer_from(
    bal: Map<AccountId, u64>,
    alw: Map<(AccountId, AccountId), u64>,
    from: AccountId,
    to: AccountId,
    value: u64,
) -> (Map<AccountId, u64>, Map<(AccountId, AccountId), u64>, Result<Event, Error>) {
    if !bal.dom().contains(from) {
        (bal, alw, Err(Error::InsufficientFunds))
    } else {
        let touched = touch(touch(bal, from), to);
        let from_balance = touched[from];
        if from_balance < value {
            (touched, alw, Err(Error::InsufficientFunds))
        } else if !alw.dom().contains((from, to)) {
            (touched, alw, Err(Error::ApprovalNotGranted))
        } else if alw[(from, to)] < value {
            (touched, alw, Err(Error::ApprovalNotGranted))
        } else {
            let debited = touched.insert(from, (from_balance - value) as u64);
            let to_balance = debited[to];
            if to_balance + value > u64::MAX {
                (touched, alw, Err(Error::StorageOverflow))
            } else {
                (
                    debited.insert(to, (to_balance + value) as u64),
                    alw.insert((from, to), (alw[(from, to)] - value) as u64),
                    Ok(Event::TransferFrom { from, to, value }),
                )
            }
        }
    }
}

/// The ledger: balances per account, allowances per (owner, spender) pair,
/// and a single optional total-supply value. The host creates one at start-up
/// and serializes all calls to it; every write to the three mappings goes
/// through the operations below.
#[derive(Debug)]
pub struct Pallet {
    balance_store: BalanceMap,
    allowance_store: AllowanceMap,
    total_store: Option<u64>,
}

impl Pallet {
    /// The balance mapping this ledger holds: only accounts ever written
    /// appear in its domain.
    pub closed spec fn balances(&self) -> Map<AccountId, u64> {
        self.balance_store@
    }

    /// The allowance mapping this ledger holds, keyed by (owner, spender).
    pub closed spec fn allowances(&self) -> Map<(AccountId, AccountId), u64> {
        self.allowance_store@
    }

    /// The total-supply storage value; `None` means it was never set.
    pub closed spec fn total_entry(&self) -> Option<u64> {
        self.total_store
    }

    /// Creates an empty ledger: no balances, no allowances, total supply
    /// unset.
    pub fn new() -> (r: Self)
        ensures
            r.balances() == Map::<AccountId, u64>::empty(),
            r.allowances() == Map::<(AccountId, AccountId), u64>::empty(),
            r.total_entry() == None::<u64>,
    {
        Pallet {
            balance_store: BalanceMap::new(),
            allowance_store: AllowanceMap::new(),
            total_store: None,
        }
    }

    /// Query: the stored total supply, or 0 if unset. No side effects and
    /// cannot fail.
    pub fn total_supply(&self) -> (r: u64)
        ensures
            r == supply_or_zero(self.total_entry()),
    {
        match self.total_store {
            Some(v) => v,
            None => 0,
        }
    }

    /// Query: the stored balance of `who`, or 0 if no entry exists. No side
    /// effects and cannot fail.
    pub fn balance_of(&self, who: AccountId) -> (r: u64)
        ensures
            r == stored_or_zero(self.balances(), who),
    {
        match self.balance_store.get(who) {
            Some(b) => b,
            None => 0,
        }
    }

    /// Storage getter: the raw balance entry of `who`, distinguishing a
    /// stored zero from an absent entry.
    pub fn get_balance_of(&self, who: AccountId) -> (r: Option<u64>)
        ensures
            r == (if self.balances().dom().contains(who) {
                Some(self.balances()[who])
            } else {
                None::<u64>
            }),
    {
        self.balance_store.get(who)
    }

    /// Storage getter: the raw total-supply entry, distinguishing a stored
    /// zero from an unset value.
    pub fn get_total_supply(&self) -> (r: Option<u64>)
        ensures
            r == self.total_entry(),
    {
        self.total_store
    }

    /// Storage getter: the raw allowance entry for (owner, spender),
    /// distinguishing a stored zero from an absent entry.
    pub fn get_allowance(&self, owner: AccountId, spender: AccountId) -> (r: Option<u64>)
        ensures
            r == (if self.allowances().dom().contains((owner, spender)) {
                Some(self.allowances()[(owner, spender)])
            } else {
                None::<u64>
            }),
    {
        self.allowance_store.get((owner, spender))
    }

    /// Administrative override: unconditionally overwrites `who`'s balance
    /// with `balance`, creating the entry if absent. Cannot fail; the
    /// returned event is what the host's sink receives. This deliberately
    /// bypasses conservation — it is an override, not a transfer.
    pub fn set_balance(&mut self, who: AccountId, balance: u64) -> (ev: Event)
        ensures
            final(self).balances() == old(self).balances().insert(who, balance),
            final(self).allowances() == old(self).allowances(),
            final(self).total_entry() == old(self).total_entry(),
            ev == (Event::BalanceSet { who, balance }),
    {
        self.balance_store.insert(who, balance);
        Event::BalanceSet { who, balance }
    }

    /// Moves `value` from `from` to `to` as `spec_transfer` describes:
    /// `InsufficientFunds` when `from` has no entry or too small a balance,
    /// `StorageOverflow` when the credit would wrap, the zero-touch of `to`
    /// persisting even on those failures, and on success the debit and credit
    /// applied atomically and a `Transfer` event returned for the host to
    /// emit. Allowances and total supply are untouched.
    pub fn transfer(&mut self, from: AccountId, to: AccountId, value: u64) -> (r: Result<
        Event,
        Error,
    >)
        ensures
            final(self).balances() == spec_transfer(old(self).balances(), from, to, value).0,
            r == spec_transfer(old(self).balances(), from, to, value).1,
            final(self).allowances() == old(self).allowances(),
            final(self).total_entry() == old(self).total_entry(),
    {
        if !self.balance_store.contains_key(from) {
            return Err(Error::InsufficientFunds);
        }
        let from_balance = self.balance_of(from);
        let to_balance = self.balance_store.get_or_insert_zero(to);
        if from_balance < value {
            return Err(Error::InsufficientFunds);
        }
        let credit_base = if to == from {
            from_balance - value
        } else {
            to_balance
        };
        if value > u64::MAX - credit_base {
            return Err(Error::StorageOverflow);
        }
        self.balance_store.insert(from, from_balance - value);
        self.balance_store.insert(to, credit_base + value);
        Ok(Event::Transfer { from, to, value })
    }

    /// Grants `to` an allowance of exactly `value` out of `from`'s balance,
    /// as `spec_approve` describes: the same checks and fund movement as a
    /// transfer, plus the allowance entry for (from, to) overwritten to
    /// `value`. On success an `Approval` event is returned for the host to
    /// emit; on failure no allowance is recorded.
    pub fn approve(&mut self, from: AccountId, to: AccountId, value: u64) -> (r: Result<
        Event,
        Error,
    >)
        ensures
            final(self).balances() == spec_approve(
                old(self).balances(),
                old(self).allowances(),
                from,
                to,
                value,
            ).0,
            final(self).allowances() == spec_approve(
                old(self).balances(),
                old(self).allowances(),
                from,
                to,
                value,
            ).1,
            r == spec_approve(old(self).balances(), old(self).allowances(), from, to, value).2,
            final(self).total_entry() == old(self).total_entry(),
    {
        if !self.balance_store.contains_key(from) {
            return Err(Error::InsufficientFunds);
        }
        let from_balance = self.balance_of(from);
        let to_balance = self.balance_store.get_or_insert_zero(to);
        if from_balance < value {
            return Err(Error::InsufficientFunds);
        }
        let credit_base = if to == from {
            from_balance - value
        } else {
            to_balance
        };
        if value > u64::MAX - credit_base {
            return Err(Error::StorageOverflow);
        }
        self.balance_store.insert(from, from_balance - value);
        self.balance_store.insert(to, credit_base + value);
        self.allowance_store.insert((from, to), value);
        Ok(Event::Approval { from, to, value })
    }

    /// Third-party movement of `value` from `from` to `to` against the
    /// pair's recorded allowance, as `spec_transfer_from` describes: both
    /// ends are zero-touched, funds and then allowance are checked
    /// (`InsufficientFunds`, then `ApprovalNotGranted`), the credit must not
    /// wrap, and on success the allowance is reduced by exactly `value` and a
    /// `TransferFrom` event is returned for the host to emit.
    pub fn transfer_from(&mut self, from: AccountId, to: AccountId, value: u64) -> (r: Result<
        Event,
        Error,
    >)
        ensures
            final(self).balances() == spec_transfer_from(
                old(self).balances(),
                old(self).allowances(),
                from,
                to,
                value,
            ).0,
            final(self).allowances() == spec_transfer_from(
                old(self).balances(),
                old(self).allowances(),
                from,
                to,
                value,
            ).1,
            r == spec_transfer_from(
                old(self).balances(),
                old(self).allowances(),
                from,
                to,
                value,
            ).2,
            final(self).total_entry() == old(self).total_entry(),
    {
        if !self.balance_store.contains_key(from) {
            return Err(Error::InsufficientFunds);
        }
        let from_balance = self.balance_store.get_or_insert_zero(from);
        let to_balance = self.balance_store.get_or_insert_zero(to);
        if from_balance < value {
            return Err(Error::InsufficientFunds);
        }
        let from_approve = match self.allowance_store.get((from, to)) {
            Some(a) => a,
            None => {
                return Err(Error::ApprovalNotGranted);
            },
        };
        if from_approve < value {
            return Err(Error::ApprovalNotGranted);
        }
        let credit_base = if to == from {
            from_balance - value
        } else {
            to_balance
        };
        if value > u64::MAX - credit_base {
            return Err(Error::StorageOverflow);
        }
        self.balance_store.insert(from, from_balance - value);
        self.balance_store.insert(to, credit_base + value);
        self.allowance_store.insert((from, to), from_approve - value);
        Ok(Event::TransferFrom { from, to, value })
    }
}

} // verus!
