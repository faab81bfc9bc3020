//! Seeds from which the storage address of each record is derived.
//!
//! A record is found again from stable identifiers alone: a tag that names the
//! kind of record, followed by the addresses that single it out. The seeds are
//! pure byte strings; hashing them into an address is left to the store.

use vstd::prelude::*;
use crate::pubkey::Pubkey;

verus! {

/// The ASCII bytes of `reserve`, the tag of a reserve record.
pub open spec fn reserve_tag() -> Seq<u8> {
    seq![114u8, 101u8, 115u8, 101u8, 114u8, 118u8, 101u8]
}

/// The ASCII bytes of `user_deposit`, the tag of a deposit position.
pub open spec fn user_deposit_tag() -> Seq<u8> {
    seq![117u8, 115u8, 101u8, 114u8, 95u8, 100u8, 101u8, 112u8, 111u8, 115u8, 105u8, 116u8]
}

/// The ASCII bytes of `user_borrow`, the tag of a borrow position.
pub open spec fn user_borrow_tag() -> Seq<u8> {
    seq![117u8, 115u8, 101u8, 114u8, 95u8, 98u8, 111u8, 114u8, 114u8, 111u8, 119u8]
}

/// Seeds of the reserve record for an asset: the tag, then the asset's mint.
pub open spec fn reserve_seeds_spec(token_mint: Pubkey) -> Seq<Seq<u8>> {
    seq![reserve_tag(), token_mint@]
}

/// Seeds with which a reserve signs for itself: its address seeds followed by
/// the one-byte bump that was recorded when the reserve was created.
pub open spec fn reserve_signer_seeds_spec(token_mint: Pubkey, bump: u8) -> Seq<Seq<u8>> {
    seq![reserve_tag(), token_mint@, seq![bump]]
}

/// Seeds of a user's deposit position in a reserve.
pub open spec fn user_deposit_seeds_spec(reserve: Pubkey, owner: Pubkey) -> Seq<Seq<u8>> {
    seq![user_deposit_tag(), reserve@, owner@]
}

/// Seeds of a user's borrow position in a reserve.
pub open spec fn user_borrow_seeds_spec(reserve: Pubkey, owner: Pubkey) -> Seq<Seq<u8>> {
    seq![user_borrow_tag(), reserve@, owner@]
}

/// A byte string is its own deep view.
proof fn lemma_bytes_deep_view(bytes: Vec<u8>)
    ensures
        bytes.deep_view() == bytes@,
{
    assert(bytes.deep_view() =~= bytes@);
}

fn reserve_tag_bytes() -> (tag: Vec<u8>)
    ensures
        tag@ == reserve_tag(),
{
    let tag: Vec<u8> = vec![114u8, 101u8, 115u8, 101u8, 114u8, 118u8, 101u8];
    assert(tag@ =~= reserve_tag());
    tag
}

fn user_deposit_tag_bytes() -> (tag: Vec<u8>)
    ensures
        tag@ == user_deposit_tag(),
{
    let tag: Vec<u8> = vec![
        117u8, 115u8, 101u8, 114u8, 95u8, 100u8, 101u8, 112u8, 111u8, 115u8, 105u8, 116u8,
    ];
    assert(tag@ =~= user_deposit_tag());
    tag
}

fn user_borrow_tag_bytes() -> (tag: Vec<u8>)
    ensures
        tag@ == user_borrow_tag(),
{
    let tag: Vec<u8> = vec![
        117u8, 115u8, 101u8, 114u8, 95u8, 98u8, 111u8, 114u8, 114u8, 111u8, 119u8,
    ];
    assert(tag@ =~= user_borrow_tag());
    tag
}

/// Builds the seeds of the reserve record for `token_mint`.
pub fn reserve_seeds(token_mint: &Pubkey) -> (seeds: Vec<Vec<u8>>)
    ensures
        seeds.deep_view() == reserve_seeds_spec(*token_mint),
{
    let mut seeds: Vec<Vec<u8>> = Vec::new();
    seeds.push(reserve_tag_bytes());
    seeds.push(token_mint.to_vec());
    proof {
        lemma_bytes_deep_view(seeds@[0]);
        lemma_bytes_deep_view(seeds@[1]);
    }
    assert(seeds.deep_view() =~= reserve_seeds_spec(*token_mint));
    seeds
}

/// Builds the seeds with which the reserve for `token_mint` signs.
pub fn reserve_signer_seeds(token_mint: &Pubkey, bump: u8) -> (seeds: Vec<Vec<u8>>)
    ensures
        seeds.deep_view() == reserve_signer_seeds_spec(*token_mint, bump),
{
    let mut seeds: Vec<Vec<u8>> = Vec::new();
    seeds.push(reserve_tag_bytes());
    seeds.push(token_mint.to_vec());
    let salt: Vec<u8> = vec![bump];
    assert(salt@ =~= seq![bump]);
    seeds.push(salt);
    proof {
        lemma_bytes_deep_view(seeds@[0]);
        lemma_bytes_deep_view(seeds@[1]);
        lemma_bytes_deep_view(seeds@[2]);
    }
    assert(seeds.deep_view() =~= reserve_signer_seeds_spec(*token_mint, bump));
    seeds
}

/// Builds the seeds of `owner`'s deposit position in `reserve`.
pub fn user_deposit_seeds(reserve: &Pubkey, owner: &Pubkey) -> (seeds: Vec<Vec<u8>>)
    ensures
        seeds.deep_view() == user_deposit_seeds_spec(*reserve, *owner),
{
    let mut seeds: Vec<Vec<u8>> = Vec::new();
    seeds.push(user_deposit_tag_bytes());
    seeds.push(reserve.to_vec());
    seeds.push(owner.to_vec());
    proof {
        lemma_bytes_deep_view(seeds@[0]);
        lemma_bytes_deep_view(seeds@[1]);
        lemma_bytes_deep_view(seeds@[2]);
    }
    assert(seeds.deep_view() =~= user_deposit_seeds_spec(*reserve, *owner));
    seeds
}

/// Builds the seeds of `owner`'s borrow position in `reserve`.
pub fn user_borrow_seeds(reserve: &Pubkey, owner: &Pubkey) -> (seeds: Vec<Vec<u8>>)
    ensures
        seeds.deep_view() == user_borrow_seeds_spec(*reserve, *owner),
{
    let mut seeds: Vec<Vec<u8>> = Vec::new();
    seeds.push(user_borrow_tag_bytes());
    seeds.push(reserve.to_vec());
    seeds.push(owner.to_vec());
    proof {
        lemma_bytes_deep_view(seeds@[0]);
        lemma_bytes_deep_view(seeds@[1]);
        lemma_bytes_deep_view(seeds@[2]);
    }
    assert(seeds.deep_view() =~= user_borrow_seeds_spec(*reserve, *owner));
    seeds
}

} // verus!
