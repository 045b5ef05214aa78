//! A minimal fungible-token ledger: sparse account balances, delegated-spend
//! allowances, and a total-supply value, together with the ledger's five
//! mutating operations and two queries.
//!
//! The ledger is the state-transition core of a larger host runtime. The host
//! authenticates callers, delivers emitted events, and owns the ledger's
//! lifetime; the ledger itself is a deterministic state machine over three
//! mappings, and every operation here is verified against a mathematical
//! model of that state.

mod laws;
mod ledger;
mod store;
mod types;

pub use laws::lemma_allowance_exhaustion;
pub use laws::lemma_approve_then_spend;
pub use laws::lemma_insufficient_funds_rejection;
pub use laws::lemma_missing_source_rejection;
pub use laws::lemma_never_written_reads_zero;
pub use laws::lemma_query_idempotent;
pub use laws::lemma_set_balance_then_balance_of;
pub use laws::lemma_transfer_conservation;
pub use laws::lemma_unset_total_supply_reads_zero;
pub use ledger::spec_approve;
pub use ledger::spec_transfer;
pub use ledger::spec_transfer_from;
pub use ledger::supply_or_zero;
pub use ledger::Pallet;
pub use store::stored_or_zero;
pub use store::touch;
pub use store::AllowanceMap;
pub use store::BalanceMap;
pub use types::AccountId;
pub use types::Error;
pub use types::Event;
