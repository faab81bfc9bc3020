//! Histories: what holds of a position after any sequence of operations on
//! one user and one reserve.
//!
//! A history is replayed on the accounts of that pair with the very
//! functions that state what each operation does, so a refused operation
//! leaves the accounts as they were and the replay goes on.

use vstd::prelude::*;
use crate::ledger::{
    borrowed_balance, deposit_post, deposit_result, deposited_balance, repay_post, withdraw_post,
    withdraw_result, Deposit, Repay, Withdraw,
};
use crate::limit::{borrow_post, Borrow};

verus! {

/// An operation on a deposit position, with its amount.
pub enum DepositOp {
    Deposit(u64),
    Withdraw(u64),
}

/// The accounts of a withdrawal by the user and from the reserve of
/// `accounts`.
pub open spec fn withdraw_accounts(accounts: Deposit) -> Withdraw {
    Withdraw {
        reserve: accounts.reserve,
        reserve_liquidity: accounts.reserve_liquidity,
        user_token_account: accounts.user_token_account,
        user_deposit: accounts.user_deposit,
        owner: accounts.owner,
    }
}

/// Whether `op` is accepted on `accounts`.
pub open spec fn deposit_op_accepted(accounts: Deposit, op: DepositOp) -> bool {
    match op {
        DepositOp::Deposit(amount) => deposit_result(accounts, amount) is Ok,
        DepositOp::Withdraw(amount) => withdraw_result(withdraw_accounts(accounts), amount) is Ok,
    }
}

/// The accounts after `op` was attempted on `accounts`.
pub open spec fn apply_deposit_op(accounts: Deposit, op: DepositOp) -> Deposit {
    match op {
        DepositOp::Deposit(amount) => deposit_post(accounts, amount),
        DepositOp::Withdraw(amount) => Deposit {
            user_deposit: withdraw_post(withdraw_accounts(accounts), amount).user_deposit,
            ..accounts
        },
    }
}

/// The accounts after every operation of `ops` was attempted in order.
pub open spec fn replay_deposit_ops(accounts: Deposit, ops: Seq<DepositOp>) -> Deposit
    decreases ops.len(),
{
    if ops.len() == 0 {
        accounts
    } else {
        replay_deposit_ops(apply_deposit_op(accounts, ops[0]), ops.drop_first())
    }
}

/// The operations of `ops` that are accepted when `ops` is replayed on
/// `accounts`, in order.
pub open spec fn accepted_deposit_ops(accounts: Deposit, ops: Seq<DepositOp>) -> Seq<DepositOp>
    decreases ops.len(),
{
    if ops.len() == 0 {
        Seq::empty()
    } else {
        let rest = accepted_deposit_ops(apply_deposit_op(accounts, ops[0]), ops.drop_first());
        if deposit_op_accepted(accounts, ops[0]) {
            seq![ops[0]] + rest
        } else {
            rest
        }
    }
}

/// Sum of the amounts of the deposits in `ops`.
pub open spec fn sum_of_deposits(ops: Seq<DepositOp>) -> nat
    decreases ops.len(),
{
    if ops.len() == 0 {
        0
    } else {
        let first: nat = match ops[0] {
            DepositOp::Deposit(amount) => amount as nat,
            DepositOp::Withdraw(_) => 0,
        };
        first + sum_of_deposits(ops.drop_first())
    }
}

/// Sum of the amounts of the withdrawals in `ops`.
pub open spec fn sum_of_withdrawals(ops: Seq<DepositOp>) -> nat
    decreases ops.len(),
{
    if ops.len() == 0 {
        0
    } else {
        let first: nat = match ops[0] {
            DepositOp::Deposit(_) => 0,
            DepositOp::Withdraw(amount) => amount as nat,
        };
        first + sum_of_withdrawals(ops.drop_first())
    }
}

/// After any sequence of deposits and withdrawals on one user and one
/// reserve, the deposited balance is the balance at the start, plus the sum
/// of the accepted deposits, minus the sum of the accepted withdrawals.
/// Refused operations count for nothing.
pub proof fn lemma_balance_is_deposits_minus_withdrawals(accounts: Deposit, ops: Seq<DepositOp>)
    ensures
        deposited_balance(replay_deposit_ops(accounts, ops).user_deposit) == deposited_balance(
            accounts.user_deposit,
        ) + sum_of_deposits(accepted_deposit_ops(accounts, ops)) - sum_of_withdrawals(
            accepted_deposit_ops(accounts, ops),
        ),
    decreases ops.len(),
{
    if ops.len() > 0 {
        let next = apply_deposit_op(accounts, ops[0]);
        let rest = accepted_deposit_ops(next, ops.drop_first());
        lemma_balance_is_deposits_minus_withdrawals(next, ops.drop_first());
        if deposit_op_accepted(accounts, ops[0]) {
            let all = seq![ops[0]] + rest;
            assert(all[0] == ops[0]);
            assert(all.drop_first() =~= rest);
        }
    }
}

/// Every operation of `ops` is accepted when `ops` is replayed on
/// `accounts`.
pub open spec fn all_deposit_ops_accepted(accounts: Deposit, ops: Seq<DepositOp>) -> bool {
    forall|i: int|
        0 <= i < ops.len() ==> deposit_op_accepted(
            #[trigger] replay_deposit_ops(accounts, ops.take(i)),
            ops[i],
        )
}

/// After a sequence of deposits and withdrawals of which none is refused, the
/// deposited balance is the balance at the start, plus the sum of the
/// deposits, minus the sum of the withdrawals.
pub proof fn lemma_balance_when_all_accepted(accounts: Deposit, ops: Seq<DepositOp>)
    requires
        all_deposit_ops_accepted(accounts, ops),
    ensures
        deposited_balance(replay_deposit_ops(accounts, ops).user_deposit) == deposited_balance(
            accounts.user_deposit,
        ) + sum_of_deposits(ops) - sum_of_withdrawals(ops),
{
    lemma_all_accepted(accounts, ops);
    lemma_balance_is_deposits_minus_withdrawals(accounts, ops);
}

/// When every operation of a sequence is accepted, the accepted operations
/// are the sequence itself.
proof fn lemma_all_accepted(accounts: Deposit, ops: Seq<DepositOp>)
    requires
        all_deposit_ops_accepted(accounts, ops),
    ensures
        accepted_deposit_ops(accounts, ops) == ops,
    decreases ops.len(),
{
    if ops.len() > 0 {
        let next = apply_deposit_op(accounts, ops[0]);
        let tail = ops.drop_first();
        assert(ops.take(0) =~= Seq::<DepositOp>::empty());
        assert(replay_deposit_ops(accounts, ops.take(0)) == accounts);
        assert(deposit_op_accepted(accounts, ops[0]));
        assert forall|i: int| 0 <= i < tail.len() implies deposit_op_accepted(
            #[trigger] replay_deposit_ops(next, tail.take(i)),
            tail[i],
        ) by {
            let prefix = ops.take(i + 1);
            assert(prefix.len() > 0);
            assert(prefix[0] == ops[0]);
            assert(prefix.drop_first() =~= tail.take(i));
            assert(replay_deposit_ops(accounts, prefix) == replay_deposit_ops(next, tail.take(i)));
            assert(deposit_op_accepted(replay_deposit_ops(accounts, ops.take(i + 1)), ops[i + 1]));
        }
        lemma_all_accepted(next, tail);
        assert(seq![ops[0]] + tail =~= ops);
    } else {
        assert(ops =~= Seq::<DepositOp>::empty());
    }
}

/// An operation on a borrow position, with its amount.
pub enum DebtOp {
    Borrow(u64),
    Repay(u64),
}

/// The accounts of a repayment by the user and to the reserve of `accounts`.
pub open spec fn repay_accounts(accounts: Borrow) -> Repay {
    Repay {
        reserve: accounts.reserve,
        reserve_liquidity: accounts.reserve_liquidity,
        user_token_account: accounts.user_token_account,
        user_borrow: accounts.user_borrow,
        owner: accounts.owner,
    }
}

/// The accounts after `op` was attempted on `accounts`.
pub open spec fn apply_debt_op(accounts: Borrow, op: DebtOp) -> Borrow {
    match op {
        DebtOp::Borrow(amount) => borrow_post(accounts, amount),
        DebtOp::Repay(amount) => Borrow {
            user_borrow: repay_post(repay_accounts(accounts), amount).user_borrow,
            ..accounts
        },
    }
}

/// The accounts after every operation of `ops` was attempted in order.
pub open spec fn replay_debt_ops(accounts: Borrow, ops: Seq<DebtOp>) -> Borrow
    decreases ops.len(),
{
    if ops.len() == 0 {
        accounts
    } else {
        replay_debt_ops(apply_debt_op(accounts, ops[0]), ops.drop_first())
    }
}

/// A single borrow or repayment keeps a debt within the borrow limit, and
/// touches neither the deposit nor the reserve.
pub proof fn lemma_debt_op_keeps_limit(accounts: Borrow, op: DebtOp)
    requires
        borrowed_balance(accounts.user_borrow) <= accounts.limit(),
    ensures
        borrowed_balance(apply_debt_op(accounts, op).user_borrow) <= accounts.limit(),
        apply_debt_op(accounts, op).limit() == accounts.limit(),
{
}

/// A debt that starts within the borrow limit, as one that has not been
/// taken up yet does, is within the limit after any sequence of borrows and
/// repayments on one user and one reserve.
pub proof fn lemma_debt_never_exceeds_limit(accounts: Borrow, ops: Seq<DebtOp>)
    requires
        borrowed_balance(accounts.user_borrow) <= accounts.limit(),
    ensures
        borrowed_balance(replay_debt_ops(accounts, ops).user_borrow) <= accounts.limit(),
        replay_debt_ops(accounts, ops).limit() == accounts.limit(),
    decreases ops.len(),
{
    if ops.len() > 0 {
        lemma_debt_op_keeps_limit(accounts, ops[0]);
        lemma_debt_never_exceeds_limit(apply_debt_op(accounts, ops[0]), ops.drop_first());
    }
}

} // verus!
