//! The ledger's public vocabulary: account identifiers, the events a
//! successful operation emits, and the errors a failed one returns.

use vstd::prelude::*;

verus! {

/// Identity of an account, as the host environment supplies it. The ledger
/// treats it as an opaque, totally ordered, equality-comparable key: it never
/// constructs or parses one.
pub type AccountId = u64;

/// What a successful ledger operation reports to the host's event sink.
/// Each mutating operation returns exactly one of these on success; the two
/// queries return their value directly and the host may wrap it in
/// `TotalSupply` or `BalanceOf` for an event-sourced audit trail.
#[derive(Clone, Copy, Debug, PartialEq, Eq, Structural)]
pub enum Event {
    /// The stored total supply was queried.
    TotalSupply { value: u64 },
    /// An account's balance was queried.
    BalanceOf { who: AccountId, balance: u64 },
    /// An account's balance was administratively overwritten.
    BalanceSet { who: AccountId, balance: u64 },
    /// `value` moved from `from` to `to`.
    Transfer { from: AccountId, to: AccountId, value: u64 },
    /// `value` moved from `from` to `to`, and an allowance of `value` for the
    /// pair was recorded.
    Approval { from: AccountId, to: AccountId, value: u64 },
    /// `value` moved from `from` to `to` against the pair's allowance.
    TransferFrom { from: AccountId, to: AccountId, value: u64 },
}

/// Why a ledger operation was rejected. Every failure is terminal for the
/// call that produced it: nothing is mutated beyond the documented
/// zero-touch entry creation, and no event is emitted.
#[derive(Clone, Copy, Debug, PartialEq, Eq, Structural)]
pub enum Error {
    /// Declared as part of the taxonomy, but no operation path signals it: a
    /// missing source account surfaces as `InsufficientFunds` instead.
    AccountNotExist,
    /// Crediting an account would push its balance past the 64-bit range.
    StorageOverflow,
    /// The source account has no balance entry, or its balance is smaller
    /// than the requested amount.
    InsufficientFunds,
    /// No allowance is recorded for the (owner, spender) pair, or the
    /// recorded allowance is smaller than the requested amount.
    ApprovalNotGranted,
}

} // verus!
