//! Dispute resolution by majority vote, tied to a shared treasury.
//!
//! The `court` module owns the lawsuit registry and its approval queue:
//! disputes are submitted, voted on, tallied against a quorum and threshold
//! rule, and — on approval — settled by a balance transfer. The `treasury`
//! module owns a deposit log and a per-account cumulative-claim map, and pays
//! rewards to accounts in proportion to the approved disputes they voted on.
//!
//! The host runtime that sequences requests, verifies signatures and holds
//! account balances is out of scope; its balance/transfer primitive with
//! minimum-reserve semantics is modelled by the `ledger` module, which every
//! operation takes as an explicit parameter.

use vstd::prelude::*;

mod table;

pub mod court;
pub mod laws;
pub mod ledger;
pub mod treasury;

pub use table::AmountTable;

verus! {

/// Errors returned by the dispatchable operations, grouped by the component
/// that raised them. A refused balance transfer surfaces as `Ledger`.
#[derive(Debug, Clone, Copy, PartialEq, Eq)]
pub enum DispatchError {
    Court(court::Error),
    Treasury(treasury::Error),
    Ledger(ledger::Error),
}

} // verus!
