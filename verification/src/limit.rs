//! Borrow-limit engine: how much a deposit lets its owner borrow, and the
//! gate that every borrow passes through.

use vstd::prelude::*;
use crate::accounts::TokenAccount;
use crate::error::ErrorCode;
use crate::ledger::{
    accrue_interest, borrowed_balance, deposited_balance, UserBorrow, UserDeposit,
};
use crate::pubkey::Pubkey;
use crate::registry::ReserveAccount;
use crate::transfer::{Authority, Transfer};

verus! {

/// The most that may be borrowed against a deposit:
/// `deposited_amount * collateral_factor / 100`, rounded down.
pub open spec fn borrow_limit(deposited_amount: nat, collateral_factor: nat) -> nat {
    deposited_amount * collateral_factor / 100
}

/// The borrow limit as far as a `u64` can hold it.
pub open spec fn capped_borrow_limit(deposited_amount: u64, collateral_factor: u8) -> nat {
    let limit = borrow_limit(deposited_amount as nat, collateral_factor as nat);
    if limit <= u64::MAX {
        limit
    } else {
        u64::MAX as nat
    }
}

/// A collateral factor that is a percentage never lets more be borrowed than
/// was deposited.
pub proof fn lemma_borrow_limit_within_deposit(deposited_amount: nat, collateral_factor: nat)
    requires
        collateral_factor <= 100,
    ensures
        borrow_limit(deposited_amount, collateral_factor) <= deposited_amount,
{
    assert(deposited_amount * collateral_factor <= deposited_amount * 100) by (nonlinear_arith)
        requires
            collateral_factor <= 100,
    ;
}

/// Computes the borrow limit of a deposit.
///
/// For a collateral factor within 0..=100 the result is exactly
/// `deposited_amount * collateral_factor / 100`, rounded down. The product is
/// formed in 128 bits, so it cannot overflow. A factor above 100 is no
/// percentage; should its limit pass `u64::MAX`, the result is `u64::MAX`.
pub fn compute_borrow_limit(deposited_amount: u64, collateral_factor: u8) -> (limit: u64)
    ensures
        limit == capped_borrow_limit(deposited_amount, collateral_factor),
        collateral_factor <= 100 ==> limit == borrow_limit(
            deposited_amount as nat,
            collateral_factor as nat,
        ),
{
    proof {
        assert(deposited_amount * collateral_factor <= 0xffff_ffff_ffff_ffff * 0xff)
            by (nonlinear_arith)
            requires
                deposited_amount <= 0xffff_ffff_ffff_ffff,
                collateral_factor <= 0xff,
        ;
        if collateral_factor <= 100 {
            lemma_borrow_limit_within_deposit(deposited_amount as nat, collateral_factor as nat);
        }
    }
    let wide: u128 = (deposited_amount as u128) * (collateral_factor as u128) / 100;
    if wide > u64::MAX as u128 {
        u64::MAX
    } else {
        wide as u64
    }
}

/// Health hook: whether a debt of `borrowed_amount` is covered by a deposit
/// of `deposited_amount`. The limit is inclusive: a debt equal to the limit
/// is covered.
pub fn within_borrow_limit(
    borrowed_amount: u64,
    deposited_amount: u64,
    collateral_factor: u8,
) -> (covered: bool)
    ensures
        covered == (borrowed_amount <= borrow_limit(
            deposited_amount as nat,
            collateral_factor as nat,
        )),
{
    borrowed_amount <= compute_borrow_limit(deposited_amount, collateral_factor)
}

/// Accounts of a borrow.
#[derive(Clone, Debug, PartialEq, Eq)]
pub struct Borrow {
    /// The reserve that is borrowed from.
    pub reserve: ReserveAccount,
    /// Token account that the reserve pays from.
    pub reserve_liquidity: TokenAccount,
    /// Token account that receives the loan.
    pub user_token_account: TokenAccount,
    /// The user's deposit position in the reserve, if there is one. It is
    /// the collateral of the loan.
    pub user_deposit: Option<UserDeposit>,
    /// The user's borrow position in the reserve: `None` until the first
    /// borrow creates it.
    pub user_borrow: Option<UserBorrow>,
    /// The borrowing user.
    pub owner: Pubkey,
}

impl Borrow {
    /// The borrow limit that the user's deposit gives them in the reserve.
    pub open spec fn limit(self) -> nat {
        borrow_limit(
            deposited_balance(self.user_deposit),
            self.reserve.data.collateral_factor as nat,
        )
    }
}

/// The transfer that a borrow asks for, or why it is refused.
pub open spec fn borrow_result(pre: Borrow, amount: u64) -> Result<Transfer, ErrorCode> {
    if pre.user_deposit is None {
        Err(ErrorCode::StorageNotFound)
    } else if pre.reserve_liquidity.owner != pre.reserve.key {
        Err(ErrorCode::InvalidReserveAccount)
    } else if pre.user_deposit->Some_0.owner != pre.owner {
        Err(ErrorCode::InvalidOwner)
    } else if borrowed_balance(pre.user_borrow) + amount > u64::MAX {
        Err(ErrorCode::ArithmeticOverflow)
    } else if borrowed_balance(pre.user_borrow) + amount > pre.limit() {
        Err(ErrorCode::InsufficientCollateral)
    } else {
        Ok(
            Transfer {
                from: pre.reserve_liquidity.key,
                to: pre.user_token_account.key,
                authority: Authority::Reserve {
                    key: pre.reserve.key,
                    token_mint: pre.reserve.data.token_mint,
                    bump: pre.reserve.data.bump,
                },
                amount,
            },
        )
    }
}

/// The accounts after an attempt to borrow.
pub open spec fn borrow_post(pre: Borrow, amount: u64) -> Borrow {
    if borrow_result(pre, amount) is Ok {
        Borrow {
            user_borrow: Some(
                UserBorrow {
                    owner: pre.owner,
                    reserve: pre.reserve.key,
                    borrowed_amount: (borrowed_balance(pre.user_borrow) + amount) as u64,
                },
            ),
            ..pre
        }
    } else {
        pre
    }
}

/// Borrows `amount` tokens against the user's deposit.
///
/// Fails with `StorageNotFound` when the user has no deposit position, with
/// `InvalidReserveAccount` when the liquidity account is not held by the
/// reserve, with `InvalidOwner` when the deposit position is recorded for
/// someone else, with `ArithmeticOverflow` when the debt would pass
/// `u64::MAX`, and with `InsufficientCollateral` when the debt would pass the
/// borrow limit of the deposit; of several reasons the first in this order
/// is reported. A debt equal to the limit is allowed. In every other case
/// the borrow position, created if it did not exist, is recorded for the
/// user and the reserve with the debt raised by `amount`, and the result is
/// the transfer of `amount` from the liquidity account to the user's token
/// account, signed by the reserve. A refused borrow changes nothing.
pub fn borrow(accounts: &mut Borrow, amount: u64) -> (result: Result<Transfer, ErrorCode>)
    ensures
        result == borrow_result(*old(accounts), amount),
        *final(accounts) == borrow_post(*old(accounts), amount),
        result is Ok ==> borrowed_balance(final(accounts).user_borrow) <= old(accounts).limit(),
        final(accounts).reserve == old(accounts).reserve,
        final(accounts).user_deposit == old(accounts).user_deposit,
{
    let collateral: UserDeposit = match accounts.user_deposit {
        Some(record) => record,
        None => {
            return Err(ErrorCode::StorageNotFound);
        },
    };
    if accounts.reserve_liquidity.owner != accounts.reserve.key {
        return Err(ErrorCode::InvalidReserveAccount);
    }
    if collateral.owner != accounts.owner {
        return Err(ErrorCode::InvalidOwner);
    }
    let borrowed: u64 = match accounts.user_borrow {
        Some(record) => record.borrowed_amount,
        None => 0,
    };
    let owed: u64 = accrue_interest(borrowed, accounts.reserve.data.borrow_rate);
    let new_debt: u64 = match owed.checked_add(amount) {
        Some(sum) => sum,
        None => {
            return Err(ErrorCode::ArithmeticOverflow);
        },
    };
    if !within_borrow_limit(
        new_debt,
        collateral.deposited_amount,
        accounts.reserve.data.collateral_factor,
    ) {
        return Err(ErrorCode::InsufficientCollateral);
    }
    accounts.user_borrow = Some(
        UserBorrow {
            owner: accounts.owner,
            reserve: accounts.reserve.key,
            borrowed_amount: new_debt,
        },
    );
    Ok(
        Transfer {
            from: accounts.reserve_liquidity.key,
            to: accounts.user_token_account.key,
            authority: Authority::Reserve {
                key: accounts.reserve.key,
                token_mint: accounts.reserve.data.token_mint,
                bump: accounts.reserve.data.bump,
            },
            amount,
        },
    )
}

/// A borrow that would take the debt past the borrow limit is refused and
/// leaves the debt as it was. On accounts that pass the account checks, and
/// where the debt would still fit a `u64`, the refusal is
/// `InsufficientCollateral`.
pub proof fn lemma_borrow_over_limit_is_refused(pre: Borrow, amount: u64)
    requires
        borrowed_balance(pre.user_borrow) + amount > pre.limit(),
    ensures
        borrow_result(pre, amount) is Err,
        (pre.reserve_liquidity.owner == pre.reserve.key && pre.user_deposit is Some
            && pre.user_deposit->Some_0.owner == pre.owner && borrowed_balance(pre.user_borrow)
            + amount <= u64::MAX) ==> borrow_result(pre, amount) == Err::<Transfer, ErrorCode>(
            ErrorCode::InsufficientCollateral,
        ),
        borrow_post(pre, amount) == pre,
{
}

/// With a collateral factor of 0 the borrow limit is 0, so every borrow of a
/// positive amount is refused and changes nothing.
pub proof fn lemma_zero_factor_refuses_every_borrow(pre: Borrow, amount: u64)
    requires
        pre.reserve.data.collateral_factor == 0,
        amount > 0,
    ensures
        pre.limit() == 0,
        borrow_result(pre, amount) is Err,
        borrow_post(pre, amount) == pre,
{
}

/// With a collateral factor of 100 the borrow limit is exactly the deposited
/// amount.
pub proof fn lemma_full_factor_limit_is_deposit(deposited_amount: nat)
    ensures
        borrow_limit(deposited_amount, 100) == deposited_amount,
{
    assert(deposited_amount * 100 / 100 == deposited_amount) by (nonlinear_arith);
}

/// The borrow limit is inclusive. On accounts that pass the account checks,
/// with a collateral factor that is a percentage, a borrow that takes the
/// debt exactly to the limit is accepted, and one that takes it one unit
/// further is refused: with `InsufficientCollateral`, or with
/// `ArithmeticOverflow` where that unit does not fit a `u64`.
pub proof fn lemma_borrow_limit_is_inclusive(pre: Borrow, amount: u64)
    requires
        pre.reserve_liquidity.owner == pre.reserve.key,
        pre.user_deposit is Some,
        pre.user_deposit->Some_0.owner == pre.owner,
        pre.reserve.data.collateral_factor <= 100,
    ensures
        borrowed_balance(pre.user_borrow) + amount == pre.limit() ==> borrow_result(pre, amount)
            is Ok,
        borrowed_balance(pre.user_borrow) + amount == pre.limit() + 1 ==> borrow_result(
            pre,
            amount,
        ) == Err::<Transfer, ErrorCode>(
            if pre.limit() == u64::MAX {
                ErrorCode::ArithmeticOverflow
            } else {
                ErrorCode::InsufficientCollateral
            },
        ),
{
    lemma_borrow_limit_within_deposit(
        deposited_balance(pre.user_deposit),
        pre.reserve.data.collateral_factor as nat,
    );
}

} // verus!
