//! The ledger's value types: account identifiers, amounts, errors, and the
//! notifications a ledger emits for off-ledger observers.

use vstd::prelude::*;

verus! {

/// An opaque, equality-comparable token identifying a ledger participant.
pub type AccountId = u64;

/// An unsigned quantity of the token.
pub type Balance = u128;

/// The two ways a mutating operation can be refused. Any error means the
/// ledger was left exactly as it was.
#[derive(Clone, Copy, Debug, PartialEq, Eq)]
pub enum Error {
    /// The source account's balance is less than the requested amount.
    InsufficientBalance,
    /// The allowance granted to the caller by the named owner is less than
    /// the requested amount.
    InsufficientApproval,
}

/// Notification of a balance movement. `from` is `None` only for the
/// construction-time mint.
#[derive(Clone, Copy, Debug, PartialEq, Eq)]
pub struct Transfer {
    pub from: Option<AccountId>,
    pub to: Option<AccountId>,
    pub amount: Balance,
}

/// Notification that `owner` set the allowance of `spender` to `amount`.
#[derive(Clone, Copy, Debug, PartialEq, Eq)]
pub struct Approval {
    pub owner: AccountId,
    pub spender: AccountId,
    pub amount: Balance,
}

/// One entry of the ledger's append-only notification log.
#[derive(Clone, Copy, Debug, PartialEq, Eq)]
pub enum Event {
    Transfer(Transfer),
    Approval(Approval),
}

/// The notification recorded for a balance movement.
pub open spec fn transfer_event(from: Option<AccountId>, to: Option<AccountId>, amount: Balance) -> Event {
    Event::Transfer(Transfer { from, to, amount })
}

/// The notification recorded when an allowance is set.
pub open spec fn approval_event(owner: AccountId, spender: AccountId, amount: Balance) -> Event {
    Event::Approval(Approval { owner, spender, amount })
}

} // verus!
