//! Laws of the ledger: properties that relate several operations or hold of
//! every state, stated over the same spec functions the operations' contracts
//! use and proved once for all inputs.

use vstd::prelude::*;

use crate::ledger::spec_approve;
use crate::ledger::spec_transfer;
use crate::ledger::spec_transfer_from;
use crate::ledger::supply_or_zero;
use crate::ledger::Pallet;
use crate::store::stored_or_zero;
use crate::types::AccountId;
use crate::types::Error;
use crate::types::Event;

verus! {

/// An account that has never been written reads as balance zero.
pub proof fn lemma_never_written_reads_zero(l: Pallet, who: AccountId)
    requires
        !l.balances().dom().contains(who),
    ensures
        stored_or_zero(l.balances(), who) == 0,
{
}

/// While the total supply has never been set, it reads as zero.
pub proof fn lemma_unset_total_supply_reads_zero(l: Pallet)
    requires
        l.total_entry() == None::<u64>,
    ensures
        supply_or_zero(l.total_entry()) == 0,
{
}

/// Setting an account's balance and then querying it returns exactly the
/// amount set, for any amount in range.
pub proof fn lemma_set_balance_then_balance_of(
    pre: Pallet,
    post: Pallet,
    who: AccountId,
    amount: u64,
)
    requires
        post.balances() == pre.balances().insert(who, amount),
    ensures
        stored_or_zero(post.balances(), who) == amount,
{
}

/// Transfer conservation: for a pre-existing source with sufficient funds
/// and a credit that stays in range, the transfer succeeds; between distinct
/// accounts it debits the source and credits the destination by exactly
/// `value`, a transfer from an account to itself leaves its balance
/// unchanged, and in every case the sum of the two balances is unchanged.
pub proof fn lemma_transfer_conservation(
    bal: Map<AccountId, u64>,
    from: AccountId,
    to: AccountId,
    value: u64,
)
    requires
        bal.dom().contains(from),
        bal[from] >= value,
        from != to ==> stored_or_zero(bal, to) + value <= u64::MAX,
    ensures
        spec_transfer(bal, from, to, value).1 == Ok::<Event, Error>(
            (Event::Transfer { from, to, value }),
        ),
        from != to ==> stored_or_zero(spec_transfer(bal, from, to, value).0, from) == bal[from]
            - value,
        from != to ==> stored_or_zero(spec_transfer(bal, from, to, value).0, to) == stored_or_zero(
            bal,
            to,
        ) + value,
        from == to ==> stored_or_zero(spec_transfer(bal, from, to, value).0, from) == bal[from],
        stored_or_zero(spec_transfer(bal, from, to, value).0, from) + stored_or_zero(
            spec_transfer(bal, from, to, value).0,
            to,
        ) == stored_or_zero(bal, from) + stored_or_zero(bal, to),
{
}

/// Insufficient-funds rejection: when the source exists but holds less than
/// `value`, the transfer fails with `InsufficientFunds`, the source's
/// readable balance is unchanged, a previously absent destination is left
/// zero-touched, and a present destination leaves the map untouched.
pub proof fn lemma_insufficient_funds_rejection(
    bal: Map<AccountId, u64>,
    from: AccountId,
    to: AccountId,
    value: u64,
)
    requires
        bal.dom().contains(from),
        bal[from] < value,
    ensures
        spec_transfer(bal, from, to, value).1 == Err::<Event, Error>(Error::InsufficientFunds),
        stored_or_zero(spec_transfer(bal, from, to, value).0, from) == stored_or_zero(bal, from),
        !bal.dom().contains(to) ==> spec_transfer(bal, from, to, value).0.dom().contains(to)
            && spec_transfer(bal, from, to, value).0[to] == 0,
        bal.dom().contains(to) ==> spec_transfer(bal, from, to, value).0 == bal,
{
}

/// Missing-source rejection: a transfer from an account that has never been
/// written fails with `InsufficientFunds` and mutates nothing.
pub proof fn lemma_missing_source_rejection(
    bal: Map<AccountId, u64>,
    from: AccountId,
    to: AccountId,
    value: u64,
)
    requires
        !bal.dom().contains(from),
    ensures
        spec_transfer(bal, from, to, value) == (bal, Err::<Event, Error>(Error::InsufficientFunds)),
{
}

/// Approve-then-spend: a successful approval moves the granted amount at
/// once and records an allowance of exactly that amount; a later delegated
/// transfer of `spent` out of the same pair succeeds while funds and
/// allowance cover it, moves `spent`, and leaves an allowance of exactly
/// `granted - spent`.
pub proof fn lemma_approve_then_spend(
    bal: Map<AccountId, u64>,
    alw: Map<(AccountId, AccountId), u64>,
    owner: AccountId,
    spender: AccountId,
    granted: u64,
    spent: u64,
)
    requires
        owner != spender,
        bal.dom().contains(owner),
        bal[owner] >= granted,
        spent <= granted,
        bal[owner] - granted >= spent,
        stored_or_zero(bal, spender) + granted + spent <= u64::MAX,
    ensures
        ({
            let approved = spec_approve(bal, alw, owner, spender, granted);
            let spent_out = spec_transfer_from(approved.0, approved.1, owner, spender, spent);
            &&& approved.2 == Ok::<Event, Error>(
                (Event::Approval { from: owner, to: spender, value: granted }),
            )
            &&& stored_or_zero(approved.0, owner) == bal[owner] - granted
            &&& stored_or_zero(approved.0, spender) == stored_or_zero(bal, spender) + granted
            &&& approved.1[(owner, spender)] == granted
            &&& spent_out.2 == Ok::<Event, Error>(
                (Event::TransferFrom { from: owner, to: spender, value: spent }),
            )
            &&& stored_or_zero(spent_out.0, owner) == bal[owner] - granted - spent
            &&& stored_or_zero(spent_out.0, spender) == stored_or_zero(bal, spender) + granted
                + spent
            &&& spent_out.1[(owner, spender)] == granted - spent
        }),
{
}

/// Allowance exhaustion: with both ends written and funds sufficient, a
/// delegated transfer of more than the recorded allowance (or with no
/// allowance recorded at all) fails with `ApprovalNotGranted` and mutates
/// nothing.
pub proof fn lemma_allowance_exhaustion(
    bal: Map<AccountId, u64>,
    alw: Map<(AccountId, AccountId), u64>,
    from: AccountId,
    to: AccountId,
    value: u64,
)
    requires
        bal.dom().contains(from),
        bal.dom().contains(to),
        bal[from] >= value,
        alw.dom().contains((from, to)) ==> alw[(from, to)] < value,
    ensures
        spec_transfer_from(bal, alw, from, to, value) == (
            bal,
            alw,
            Err::<Event, Error>(Error::ApprovalNotGranted),
        ),
{
}

/// Query idempotence: the two queries are functions of the ledger state
/// alone and mutate nothing, so any number of reads of an unchanged ledger
/// return the same values.
pub proof fn lemma_query_idempotent(l1: Pallet, l2: Pallet, who: AccountId)
    requires
        l1.balances() == l2.balances(),
        l1.total_entry() == l2.total_entry(),
    ensures
        stored_or_zero(l1.balances(), who) == stored_or_zero(l2.balances(), who),
        supply_or_zero(l1.total_entry()) == supply_or_zero(l2.total_entry()),
{
}

} // verus!
