//! Position ledger: what each user has deposited into and borrowed from a
//! reserve, and the operations that move those balances.
//!
//! An operation is handed the accounts it touches and an amount. It either
//! refuses, leaving every record as it was, or it updates the position and
//! returns the token transfer that goes with the update. The caller carries
//! out the transfer and stores the updated position only when the transfer
//! went through, so that both happen or neither does. Balances are flat: no
//! interest accrues on them.

use vstd::prelude::*;
use crate::accounts::TokenAccount;
use crate::error::ErrorCode;
use crate::pubkey::Pubkey;
use crate::registry::ReserveAccount;
use crate::transfer::{Authority, Transfer};

verus! {

/// What one user has deposited into one reserve.
#[derive(Clone, Copy, Debug, PartialEq, Eq)]
pub struct UserDeposit {
    /// The depositor.
    pub owner: Pubkey,
    /// Address of the reserve.
    pub reserve: Pubkey,
    /// Deposited tokens, in the asset's native unit.
    pub deposited_amount: u64,
}

impl UserDeposit {
    /// Bytes that a stored deposit position occupies.
    pub const LEN: usize = 32 + 32 + 8;
}

/// What one user has borrowed from one reserve.
#[derive(Clone, Copy, Debug, PartialEq, Eq)]
pub struct UserBorrow {
    /// The borrower.
    pub owner: Pubkey,
    /// Address of the reserve.
    pub reserve: Pubkey,
    /// Outstanding debt, in the asset's native unit.
    pub borrowed_amount: u64,
}

impl UserBorrow {
    /// Bytes that a stored borrow position occupies.
    pub const LEN: usize = 32 + 32 + 8;
}

/// Balance of a deposit position; a position that does not exist yet holds
/// nothing.
pub open spec fn deposited_balance(position: Option<UserDeposit>) -> nat {
    match position {
        Some(record) => record.deposited_amount as nat,
        None => 0,
    }
}

/// Debt of a borrow position; a position that does not exist yet owes
/// nothing.
pub open spec fn borrowed_balance(position: Option<UserBorrow>) -> nat {
    match position {
        Some(record) => record.borrowed_amount as nat,
        None => 0,
    }
}

/// Interest hook: the debt that is owed once interest at `borrow_rate` has
/// been added to `borrowed_amount`. Balances do not accrue, so the debt comes
/// back as it went in, whatever the rate.
pub fn accrue_interest(borrowed_amount: u64, borrow_rate: u8) -> (owed: u64)
    ensures
        owed == borrowed_amount,
{
    borrowed_amount
}

/// Accounts of a deposit.
#[derive(Clone, Debug, PartialEq, Eq)]
pub struct Deposit {
    /// The reserve that is deposited into.
    pub reserve: ReserveAccount,
    /// Token account that receives the deposit.
    pub reserve_liquidity: TokenAccount,
    /// Token account that the user pays from.
    pub user_token_account: TokenAccount,
    /// The user's deposit position in the reserve: `None` until the first
    /// deposit creates it.
    pub user_deposit: Option<UserDeposit>,
    /// The depositing user.
    pub owner: Pubkey,
}

/// The transfer that a deposit asks for, or why it is refused.
pub open spec fn deposit_result(pre: Deposit, amount: u64) -> Result<Transfer, ErrorCode> {
    if pre.reserve_liquidity.owner != pre.reserve.key {
        Err(ErrorCode::InvalidReserveAccount)
    } else if deposited_balance(pre.user_deposit) + amount > u64::MAX {
        Err(ErrorCode::ArithmeticOverflow)
    } else {
        Ok(
            Transfer {
                from: pre.user_token_account.key,
                to: pre.reserve_liquidity.key,
                authority: Authority::User { key: pre.owner },
                amount,
            },
        )
    }
}

/// The accounts after an attempt to deposit.
pub open spec fn deposit_post(pre: Deposit, amount: u64) -> Deposit {
    if deposit_result(pre, amount) is Ok {
        Deposit {
            user_deposit: Some(
                UserDeposit {
                    owner: pre.owner,
                    reserve: pre.reserve.key,
                    deposited_amount: (deposited_balance(pre.user_deposit) + amount) as u64,
                },
            ),
            ..pre
        }
    } else {
        pre
    }
}

/// Deposits `amount` tokens of the user into the reserve.
///
/// Fails with `InvalidReserveAccount` when the liquidity account is not held
/// by the reserve, and otherwise with `ArithmeticOverflow` when the balance
/// would pass `u64::MAX`. In every other case the position, created if it
/// did not exist, is recorded for the user and the reserve with the balance
/// raised by `amount`, and the result is the transfer of `amount` from the
/// user's token account to the liquidity account, signed by the user.
/// A refused deposit changes nothing.
pub fn deposit(accounts: &mut Deposit, amount: u64) -> (result: Result<Transfer, ErrorCode>)
    ensures
        result == deposit_result(*old(accounts), amount),
        *final(accounts) == deposit_post(*old(accounts), amount),
        final(accounts).reserve == old(accounts).reserve,
{
    if accounts.reserve_liquidity.owner != accounts.reserve.key {
        return Err(ErrorCode::InvalidReserveAccount);
    }
    let balance: u64 = match accounts.user_deposit {
        Some(record) => record.deposited_amount,
        None => 0,
    };
    let new_balance: u64 = match balance.checked_add(amount) {
        Some(sum) => sum,
        None => {
            return Err(ErrorCode::ArithmeticOverflow);
        },
    };
    accounts.user_deposit = Some(
        UserDeposit {
            owner: accounts.owner,
            reserve: accounts.reserve.key,
            deposited_amount: new_balance,
        },
    );
    Ok(
        Transfer {
            from: accounts.user_token_account.key,
            to: accounts.reserve_liquidity.key,
            authority: Authority::User { key: accounts.owner },
            amount,
        },
    )
}

/// A deposit that would take the balance past `u64::MAX` is refused and
/// leaves the balance as it was. On accounts that pass the account check the
/// refusal is `ArithmeticOverflow`.
pub proof fn lemma_deposit_overflow_is_refused(pre: Deposit, amount: u64)
    requires
        deposited_balance(pre.user_deposit) + amount > u64::MAX,
    ensures
        deposit_result(pre, amount) is Err,
        pre.reserve_liquidity.owner == pre.reserve.key ==> deposit_result(pre, amount) == Err::<
            Transfer,
            ErrorCode,
        >(ErrorCode::ArithmeticOverflow),
        deposit_post(pre, amount) == pre,
{
}

/// Accounts of a withdrawal.
#[derive(Clone, Debug, PartialEq, Eq)]
pub struct Withdraw {
    /// The reserve that is withdrawn from.
    pub reserve: ReserveAccount,
    /// Token account that the reserve pays from.
    pub reserve_liquidity: TokenAccount,
    /// Token account that receives the withdrawal.
    pub user_token_account: TokenAccount,
    /// The user's deposit position in the reserve, if there is one.
    pub user_deposit: Option<UserDeposit>,
    /// The withdrawing user.
    pub owner: Pubkey,
}

/// The transfer that a withdrawal asks for, or why it is refused.
pub open spec fn withdraw_result(pre: Withdraw, amount: u64) -> Result<Transfer, ErrorCode> {
    if pre.user_deposit is None {
        Err(ErrorCode::StorageNotFound)
    } else if pre.reserve_liquidity.owner != pre.reserve.key {
        Err(ErrorCode::InvalidReserveAccount)
    } else if pre.user_deposit->Some_0.owner != pre.owner {
        Err(ErrorCode::InvalidOwner)
    } else if amount > pre.user_deposit->Some_0.deposited_amount {
        Err(ErrorCode::InsufficientFunds)
    } else {
        Ok(
            Transfer {
                from: pre.reserve_liquidity.key,
                to: pre.user_token_account.key,
                authority: Authority::Reserve {
                    key: pre.reserve.key,
                    token_mint: pre.reserve.data.token_mint,
                    bump: pre.reserve.data.bump,
                },
                amount,
            },
        )
    }
}

/// The accounts after an attempt to withdraw.
pub open spec fn withdraw_post(pre: Withdraw, amount: u64) -> Withdraw {
    if withdraw_result(pre, amount) is Ok {
        let record = pre.user_deposit->Some_0;
        Withdraw {
            user_deposit: Some(
                UserDeposit {
                    deposited_amount: (record.deposited_amount - amount) as u64,
                    ..record
                },
            ),
            ..pre
        }
    } else {
        pre
    }
}

/// Withdraws `amount` tokens from the user's deposit.
///
/// Fails with `StorageNotFound` when the user has no deposit position, with
/// `InvalidReserveAccount` when the liquidity account is not held by the
/// reserve, with `InvalidOwner` when the position is recorded for someone
/// else, and with `InsufficientFunds` when `amount` is more than the
/// deposited balance; of several reasons the first in this order is
/// reported. In every other case the balance is lowered by `amount` and the
/// result is the transfer of `amount` from the liquidity account to the
/// user's token account, signed by the reserve. A refused withdrawal changes
/// nothing.
///
/// The debt that the deposit may be backing is not looked at: a withdrawal
/// can leave a borrow position above its limit.
pub fn withdraw(accounts: &mut Withdraw, amount: u64) -> (result: Result<Transfer, ErrorCode>)
    ensures
        result == withdraw_result(*old(accounts), amount),
        *final(accounts) == withdraw_post(*old(accounts), amount),
        final(accounts).reserve == old(accounts).reserve,
{
    let record: UserDeposit = match accounts.user_deposit {
        Some(record) => record,
        None => {
            return Err(ErrorCode::StorageNotFound);
        },
    };
    if accounts.reserve_liquidity.owner != accounts.reserve.key {
        return Err(ErrorCode::InvalidReserveAccount);
    }
    if record.owner != accounts.owner {
        return Err(ErrorCode::InvalidOwner);
    }
    let new_balance: u64 = match record.deposited_amount.checked_sub(amount) {
        Some(rest) => rest,
        None => {
            return Err(ErrorCode::InsufficientFunds);
        },
    };
    accounts.user_deposit = Some(
        UserDeposit {
            owner: record.owner,
            reserve: record.reserve,
            deposited_amount: new_balance,
        },
    );
    Ok(
        Transfer {
            from: accounts.reserve_liquidity.key,
            to: accounts.user_token_account.key,
            authority: Authority::Reserve {
                key: accounts.reserve.key,
                token_mint: accounts.reserve.data.token_mint,
                bump: accounts.reserve.data.bump,
            },
            amount,
        },
    )
}

/// A withdrawal of more than the deposited balance is refused and changes
/// nothing. On accounts that pass the account checks the refusal is
/// `InsufficientFunds`.
pub proof fn lemma_overdraw_is_refused(pre: Withdraw, amount: u64)
    requires
        amount > deposited_balance(pre.user_deposit),
    ensures
        withdraw_result(pre, amount) is Err,
        (pre.reserve_liquidity.owner == pre.reserve.key && pre.user_deposit is Some
            && pre.user_deposit->Some_0.owner == pre.owner) ==> withdraw_result(pre, amount)
            == Err::<Transfer, ErrorCode>(ErrorCode::InsufficientFunds),
        withdraw_post(pre, amount) == pre,
{
}

/// Accounts of a repayment.
#[derive(Clone, Debug, PartialEq, Eq)]
pub struct Repay {
    /// The reserve that is repaid.
    pub reserve: ReserveAccount,
    /// Token account that receives the repayment.
    pub reserve_liquidity: TokenAccount,
    /// Token account that the user pays from.
    pub user_token_account: TokenAccount,
    /// The user's borrow position in the reserve, if there is one.
    pub user_borrow: Option<UserBorrow>,
    /// The repaying user.
    pub owner: Pubkey,
}

/// The transfer that a repayment asks for, or why it is refused.
pub open spec fn repay_result(pre: Repay, amount: u64) -> Result<Transfer, ErrorCode> {
    if pre.user_borrow is None {
        Err(ErrorCode::StorageNotFound)
    } else if pre.reserve_liquidity.owner != pre.reserve.key {
        Err(ErrorCode::InvalidReserveAccount)
    } else if pre.user_borrow->Some_0.owner != pre.owner {
        Err(ErrorCode::InvalidOwner)
    } else if amount > pre.user_borrow->Some_0.borrowed_amount {
        Err(ErrorCode::ExcessiveRepayment)
    } else {
        Ok(
            Transfer {
                from: pre.user_token_account.key,
                to: pre.reserve_liquidity.key,
                authority: Authority::User { key: pre.owner },
                amount,
            },
        )
    }
}

/// The accounts after an attempt to repay.
pub open spec fn repay_post(pre: Repay, amount: u64) -> Repay {
    if repay_result(pre, amount) is Ok {
        let record = pre.user_borrow->Some_0;
        Repay {
            user_borrow: Some(
                UserBorrow { borrowed_amount: (record.borrowed_amount - amount) as u64, ..record },
            ),
            ..pre
        }
    } else {
        pre
    }
}

/// Repays `amount` tokens of the user's debt.
///
/// Fails with `StorageNotFound` when the user has no borrow position, with
/// `InvalidReserveAccount` when the liquidity account is not held by the
/// reserve, with `InvalidOwner` when the position is recorded for someone
/// else, and with `ExcessiveRepayment` when `amount` is more than the debt;
/// of several reasons the first in this order is reported. In every other
/// case the debt is lowered by `amount` and the result is the transfer of
/// `amount` from the user's token account to the liquidity account, signed
/// by the user. A refused repayment changes nothing.
pub fn repay(accounts: &mut Repay, amount: u64) -> (result: Result<Transfer, ErrorCode>)
    ensures
        result == repay_result(*old(accounts), amount),
        *final(accounts) == repay_post(*old(accounts), amount),
        final(accounts).reserve == old(accounts).reserve,
{
    let record: UserBorrow = match accounts.user_borrow {
        Some(record) => record,
        None => {
            return Err(ErrorCode::StorageNotFound);
        },
    };
    if accounts.reserve_liquidity.owner != accounts.reserve.key {
        return Err(ErrorCode::InvalidReserveAccount);
    }
    if record.owner != accounts.owner {
        return Err(ErrorCode::InvalidOwner);
    }
    let owed: u64 = accrue_interest(record.borrowed_amount, accounts.reserve.data.borrow_rate);
    let new_debt: u64 = match owed.checked_sub(amount) {
        Some(rest) => rest,
        None => {
            return Err(ErrorCode::ExcessiveRepayment);
        },
    };
    accounts.user_borrow = Some(
        UserBorrow { owner: record.owner, reserve: record.reserve, borrowed_amount: new_debt },
    );
    Ok(
        Transfer {
            from: accounts.user_token_account.key,
            to: accounts.reserve_liquidity.key,
            authority: Authority::User { key: accounts.owner },
            amount,
        },
    )
}

} // verus!
