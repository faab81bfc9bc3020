//! Accounts that the operations are handed besides the position records.

use vstd::prelude::*;
use crate::pubkey::Pubkey;

verus! {

/// A token account as the ledger sees it: where it lives and who may spend
/// from it.
#[derive(Clone, Copy, Debug, PartialEq, Eq)]
pub struct TokenAccount {
    /// Address of the token account.
    pub key: Pubkey,
    /// Authority over the tokens held in the account.
    pub owner: Pubkey,
}

} // verus!
