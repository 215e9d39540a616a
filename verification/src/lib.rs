//! A fungible-token ledger: an account-balance store with delegated-spending
//! allowances, exposing the classic six-operation interface (`total_supply`,
//! `balance_of`, `allowance`, `approve`, `transfer`, `transfer_from`).
//!
//! Every mutation is all-or-nothing and preserves the ledger's central
//! invariant: the balances always sum to the fixed total supply.

pub mod allowance_table;
pub mod balance_table;
pub mod ledger;
pub mod types;

pub use ledger::ContractsInkErc20;
pub use types::AccountId;
pub use types::Approval;
pub use types::Balance;
pub use types::Error;
pub use types::Event;
pub use types::Transfer;
