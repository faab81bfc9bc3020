//! Token transfers that the lending operations ask for.
//!
//! The ledger never moves tokens itself. Each accepted operation hands back
//! the one transfer that belongs to it; the caller carries it out in the same
//! atomic unit as the change to the records, and gives up both when the
//! transfer fails.

use vstd::prelude::*;
use crate::pubkey::Pubkey;
use crate::seeds::{reserve_signer_seeds, reserve_signer_seeds_spec};

verus! {

/// Who authorizes a transfer.
#[derive(Clone, Copy, Debug, PartialEq, Eq)]
pub enum Authority {
    /// The user signs for a transfer out of their own token account.
    User { key: Pubkey },
    /// The reserve signs for a transfer out of its custody. It holds no
    /// private key: its address is derived from the asset's mint and a bump,
    /// and those seeds are the proof that it may sign.
    Reserve { key: Pubkey, token_mint: Pubkey, bump: u8 },
}

impl Authority {
    /// The address that signs.
    pub open spec fn signer(self) -> Pubkey {
        match self {
            Authority::User { key } => key,
            Authority::Reserve { key, .. } => key,
        }
    }

    /// The seeds that prove a derived signer, or no seeds for a user.
    pub open spec fn signer_seeds_spec(self) -> Seq<Seq<u8>> {
        match self {
            Authority::User { .. } => Seq::empty(),
            Authority::Reserve { token_mint, bump, .. } => reserve_signer_seeds_spec(
                token_mint,
                bump,
            ),
        }
    }

    /// Returns the address that signs.
    pub fn key(&self) -> (key: Pubkey)
        ensures
            key == self.signer(),
    {
        match self {
            Authority::User { key } => *key,
            Authority::Reserve { key, .. } => *key,
        }
    }

    /// Returns the seeds to sign with: empty for a user, the reserve's
    /// address seeds and bump for a reserve.
    pub fn signer_seeds(&self) -> (seeds: Vec<Vec<u8>>)
        ensures
            seeds.deep_view() == self.signer_seeds_spec(),
    {
        match self {
            Authority::User { .. } => {
                let seeds: Vec<Vec<u8>> = Vec::new();
                assert(seeds.deep_view() =~= Seq::<Seq<u8>>::empty());
                seeds
            },
            Authority::Reserve { token_mint, bump, .. } => reserve_signer_seeds(token_mint, *bump),
        }
    }
}

/// A request to move `amount` tokens from one token account to another.
#[derive(Clone, Copy, Debug, PartialEq, Eq)]
pub struct Transfer {
    /// Token account that is debited.
    pub from: Pubkey,
    /// Token account that is credited.
    pub to: Pubkey,
    /// Who authorizes the debit.
    pub authority: Authority,
    /// Number of tokens, in the asset's native unit.
    pub amount: u64,
}

} // verus!
