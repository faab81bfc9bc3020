//! Accounting core of a collateralized lending protocol.
//!
//! The library keeps the books of a lending pool: the configuration of each
//! reserve, what every user has deposited and borrowed, and the rule that a
//! debt never grows past the limit that the user's deposit allows. It holds
//! no storage and moves no tokens. Every operation works on the accounts it
//! is handed and returns the token transfer that goes with it; the caller
//! loads and stores the records and carries out the transfer, all in one
//! atomic unit.

pub mod accounts;
pub mod error;
pub mod history;
pub mod ledger;
pub mod limit;
pub mod pubkey;
pub mod registry;
pub mod seeds;
pub mod transfer;

pub use crate::accounts::TokenAccount;
pub use crate::error::ErrorCode;
pub use crate::ledger::{
    accrue_interest, deposit, repay, withdraw, Deposit, Repay, UserBorrow, UserDeposit, Withdraw,
};
pub use crate::limit::{borrow, compute_borrow_limit, within_borrow_limit, Borrow};
pub use crate::pubkey::Pubkey;
pub use crate::registry::{initialize_reserve, InitializeReserve, Reserve, ReserveAccount};
pub use crate::transfer::{Authority, Transfer};
