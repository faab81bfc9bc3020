//! Reserve registry: the configuration of each lending pool.

use vstd::prelude::*;
use crate::error::ErrorCode;
use crate::pubkey::Pubkey;

verus! {

/// Largest value of a percentage.
pub const MAX_PERCENTAGE: u8 = 100;

/// Configuration of the lending pool of one asset.
///
/// Written once when the reserve is created; no operation of this library
/// changes it afterwards.
#[derive(Clone, Debug, PartialEq, Eq)]
pub struct Reserve {
    /// Who created the reserve.
    pub owner: Pubkey,
    /// Mint of the underlying asset.
    pub token_mint: Pubkey,
    /// Token account that holds the pool's liquidity.
    pub liquidity_supply: Pubkey,
    /// Token account that holds the pool's collateral.
    pub collateral_supply: Pubkey,
    /// Human-readable name.
    pub name: String,
    /// Percentage of a deposit that may be borrowed against it.
    pub collateral_factor: u8,
    /// Borrow interest rate, in percent.
    pub borrow_rate: u8,
    /// Salt of the reserve's derived storage address.
    pub bump: u8,
}

impl Reserve {
    /// Bytes that a stored reserve occupies.
    pub const LEN: usize = 32 + 32 + 32 + 32 + 32 + 1 + 1 + 1;

    /// Both percentages lie within 0..=100.
    pub open spec fn well_formed(self) -> bool {
        &&& self.collateral_factor <= MAX_PERCENTAGE
        &&& self.borrow_rate <= MAX_PERCENTAGE
    }
}

/// A reserve together with the address under which it is stored.
#[derive(Clone, Debug, PartialEq, Eq)]
pub struct ReserveAccount {
    /// Storage address of the reserve; it is also the authority over the
    /// reserve's token accounts.
    pub key: Pubkey,
    /// The reserve's configuration.
    pub data: Reserve,
}

/// What the creation of a reserve works on.
#[derive(Clone, Debug, PartialEq, Eq)]
pub struct InitializeReserve {
    /// The slot at the address derived for the asset: `None` while no
    /// reserve exists for it.
    pub reserve: Option<Reserve>,
    /// Bump of that derived address.
    pub bump: u8,
    /// Who creates the reserve.
    pub owner: Pubkey,
    /// Mint of the underlying asset.
    pub token_mint: Pubkey,
    /// Token account that will hold the pool's liquidity.
    pub liquidity_supply: Pubkey,
    /// Token account that will hold the pool's collateral.
    pub collateral_supply: Pubkey,
}

/// Whether a reserve may be created, and why not.
pub open spec fn initialize_reserve_result(
    pre: InitializeReserve,
    collateral_factor: u8,
    borrow_rate: u8,
) -> Result<(), ErrorCode> {
    if pre.reserve is Some {
        Err(ErrorCode::StorageCollision)
    } else if collateral_factor > MAX_PERCENTAGE || borrow_rate > MAX_PERCENTAGE {
        Err(ErrorCode::InvalidPercentage)
    } else {
        Ok(())
    }
}

/// The reserve that a successful creation stores.
pub open spec fn new_reserve(
    pre: InitializeReserve,
    collateral_factor: u8,
    borrow_rate: u8,
    reserve_name: String,
) -> Reserve {
    Reserve {
        owner: pre.owner,
        token_mint: pre.token_mint,
        liquidity_supply: pre.liquidity_supply,
        collateral_supply: pre.collateral_supply,
        name: reserve_name,
        collateral_factor,
        borrow_rate,
        bump: pre.bump,
    }
}

/// The accounts after an attempt to create a reserve.
pub open spec fn initialize_reserve_post(
    pre: InitializeReserve,
    collateral_factor: u8,
    borrow_rate: u8,
    reserve_name: String,
) -> InitializeReserve {
    if initialize_reserve_result(pre, collateral_factor, borrow_rate) is Ok {
        InitializeReserve {
            reserve: Some(new_reserve(pre, collateral_factor, borrow_rate, reserve_name)),
            ..pre
        }
    } else {
        pre
    }
}

/// Creates the reserve of an asset.
///
/// Fails with `StorageCollision` when the asset already has a reserve, and
/// otherwise with `InvalidPercentage` when a percentage is above 100. In
/// every other case the slot holds the new reserve, built from the accounts
/// and the arguments. A failed attempt changes nothing.
pub fn initialize_reserve(
    accounts: &mut InitializeReserve,
    collateral_factor: u8,
    borrow_rate: u8,
    reserve_name: String,
) -> (result: Result<(), ErrorCode>)
    ensures
        result == initialize_reserve_result(*old(accounts), collateral_factor, borrow_rate),
        *final(accounts) == initialize_reserve_post(
            *old(accounts),
            collateral_factor,
            borrow_rate,
            reserve_name,
        ),
        result is Ok ==> final(accounts).reserve->Some_0.well_formed(),
{
    if accounts.reserve.is_some() {
        return Err(ErrorCode::StorageCollision);
    }
    if collateral_factor > MAX_PERCENTAGE || borrow_rate > MAX_PERCENTAGE {
        return Err(ErrorCode::InvalidPercentage);
    }
    accounts.reserve = Some(
        Reserve {
            owner: accounts.owner,
            token_mint: accounts.token_mint,
            liquidity_supply: accounts.liquidity_supply,
            collateral_supply: accounts.collateral_supply,
            name: reserve_name,
            collateral_factor,
            borrow_rate,
            bump: accounts.bump,
        },
    );
    Ok(())
}

/// A reserve is created at most once per asset. Once a creation has
/// succeeded, any further attempt on the slot it filled, by whomever and with
/// whatever arguments, fails with `StorageCollision` and leaves the first
/// reserve as it was stored.
pub proof fn lemma_initialize_reserve_once(
    first: InitializeReserve,
    first_factor: u8,
    first_rate: u8,
    first_name: String,
    second: InitializeReserve,
    second_factor: u8,
    second_rate: u8,
    second_name: String,
)
    requires
        initialize_reserve_result(first, first_factor, first_rate) is Ok,
        second.reserve == initialize_reserve_post(
            first,
            first_factor,
            first_rate,
            first_name,
        ).reserve,
    ensures
        initialize_reserve_result(second, second_factor, second_rate) == Err::<(), ErrorCode>(
            ErrorCode::StorageCollision,
        ),
        initialize_reserve_post(second, second_factor, second_rate, second_name) == second,
        initialize_reserve_post(second, second_factor, second_rate, second_name).reserve == Some(
            new_reserve(first, first_factor, first_rate, first_name),
        ),
{
}

} // verus!
