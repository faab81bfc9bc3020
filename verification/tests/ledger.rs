use solend::{
    accrue_interest, deposit, repay, withdraw, Authority, Deposit, ErrorCode, Pubkey, Repay,
    Reserve, ReserveAccount, TokenAccount, Transfer, UserBorrow, UserDeposit, Withdraw,
};

const RESERVE: u8 = 10;
const MINT: u8 = 11;
const LIQUIDITY: u8 = 12;
const USER: u8 = 20;
const USER_TOKENS: u8 = 21;
const BUMP: u8 = 255;

fn key(tag: u8) -> Pubkey {
    Pubkey::new_from_array([tag; 32])
}

fn reserve() -> ReserveAccount {
    ReserveAccount {
        key: key(RESERVE),
        data: Reserve {
            owner: key(1),
            token_mint: key(MINT),
            liquidity_supply: key(LIQUIDITY),
            collateral_supply: key(13),
            name: String::from("pool"),
            collateral_factor: 50,
            borrow_rate: 5,
            bump: BUMP,
        },
    }
}

fn liquidity() -> TokenAccount {
    TokenAccount { key: key(LIQUIDITY), owner: key(RESERVE) }
}

fn user_tokens() -> TokenAccount {
    TokenAccount { key: key(USER_TOKENS), owner: key(USER) }
}

fn position(amount: u64) -> UserDeposit {
    UserDeposit { owner: key(USER), reserve: key(RESERVE), deposited_amount: amount }
}

fn debt(amount: u64) -> UserBorrow {
    UserBorrow { owner: key(USER), reserve: key(RESERVE), borrowed_amount: amount }
}

fn deposit_accounts(user_deposit: Option<UserDeposit>) -> Deposit {
    Deposit {
        reserve: reserve(),
        reserve_liquidity: liquidity(),
        user_token_account: user_tokens(),
        user_deposit,
        owner: key(USER),
    }
}

fn withdraw_accounts(user_deposit: Option<UserDeposit>) -> Withdraw {
    Withdraw {
        reserve: reserve(),
        reserve_liquidity: liquidity(),
        user_token_account: user_tokens(),
        user_deposit,
        owner: key(USER),
    }
}

fn repay_accounts(user_borrow: Option<UserBorrow>) -> Repay {
    Repay {
        reserve: reserve(),
        reserve_liquidity: liquidity(),
        user_token_account: user_tokens(),
        user_borrow,
        owner: key(USER),
    }
}

fn user_pays(amount: u64) -> Transfer {
    Transfer {
        from: key(USER_TOKENS),
        to: key(LIQUIDITY),
        authority: Authority::User { key: key(USER) },
        amount,
    }
}

fn reserve_pays(amount: u64) -> Transfer {
    Transfer {
        from: key(LIQUIDITY),
        to: key(USER_TOKENS),
        authority: Authority::Reserve { key: key(RESERVE), token_mint: key(MINT), bump: BUMP },
        amount,
    }
}

#[test]
fn first_deposit_creates_the_position() {
    let mut accounts = deposit_accounts(None);
    let result = deposit(&mut accounts, 1000);
    assert_eq!(result, Ok(user_pays(1000)));
    assert_eq!(accounts.user_deposit, Some(position(1000)));
    assert_eq!(accounts.reserve, reserve());
    assert_eq!(accounts.reserve_liquidity, liquidity());
    assert_eq!(accounts.user_token_account, user_tokens());
    assert_eq!(accounts.owner, key(USER));
}

#[test]
fn further_deposits_add_up() {
    let mut accounts = deposit_accounts(Some(position(1000)));
    assert_eq!(deposit(&mut accounts, 234), Ok(user_pays(234)));
    assert_eq!(accounts.user_deposit, Some(position(1234)));
    assert_eq!(deposit(&mut accounts, 1), Ok(user_pays(1)));
    assert_eq!(accounts.user_deposit, Some(position(1235)));
}

#[test]
fn deposit_records_the_depositor_and_the_reserve() {
    let stale = UserDeposit { owner: key(0), reserve: key(0), deposited_amount: 7 };
    let mut accounts = deposit_accounts(Some(stale));
    assert_eq!(deposit(&mut accounts, 3), Ok(user_pays(3)));
    assert_eq!(accounts.user_deposit, Some(position(10)));
}

#[test]
fn deposit_of_nothing_leaves_the_balance() {
    let mut accounts = deposit_accounts(Some(position(5)));
    assert_eq!(deposit(&mut accounts, 0), Ok(user_pays(0)));
    assert_eq!(accounts.user_deposit, Some(position(5)));
}

#[test]
fn deposit_up_to_the_largest_balance_is_accepted() {
    let mut accounts = deposit_accounts(Some(position(u64::MAX - 10)));
    assert_eq!(deposit(&mut accounts, 10), Ok(user_pays(10)));
    assert_eq!(accounts.user_deposit, Some(position(u64::MAX)));
}

#[test]
fn deposit_past_the_largest_balance_overflows() {
    let mut accounts = deposit_accounts(Some(position(u64::MAX - 10)));
    let before = accounts.clone();
    assert_eq!(deposit(&mut accounts, 11), Err(ErrorCode::ArithmeticOverflow));
    assert_eq!(accounts, before);
    assert_eq!(accounts.user_deposit, Some(position(u64::MAX - 10)));

    let mut full = deposit_accounts(Some(position(u64::MAX)));
    assert_eq!(deposit(&mut full, 1), Err(ErrorCode::ArithmeticOverflow));
    assert_eq!(deposit(&mut full, u64::MAX), Err(ErrorCode::ArithmeticOverflow));
    assert_eq!(full.user_deposit, Some(position(u64::MAX)));
}

#[test]
fn deposit_into_a_foreign_liquidity_account_is_refused() {
    let mut accounts = deposit_accounts(None);
    accounts.reserve_liquidity.owner = key(99);
    let before = accounts.clone();
    assert_eq!(deposit(&mut accounts, 1000), Err(ErrorCode::InvalidReserveAccount));
    assert_eq!(accounts, before);
    assert_eq!(accounts.user_deposit, None);
}

#[test]
fn withdraw_lowers_the_balance() {
    let mut accounts = withdraw_accounts(Some(position(1000)));
    assert_eq!(withdraw(&mut accounts, 400), Ok(reserve_pays(400)));
    assert_eq!(accounts.user_deposit, Some(position(600)));
    assert_eq!(accounts.reserve, reserve());
}

#[test]
fn withdraw_of_the_whole_balance_keeps_an_empty_position() {
    let mut accounts = withdraw_accounts(Some(position(1000)));
    assert_eq!(withdraw(&mut accounts, 1000), Ok(reserve_pays(1000)));
    assert_eq!(accounts.user_deposit, Some(position(0)));
}

#[test]
fn withdraw_of_more_than_the_balance_is_refused() {
    let mut accounts = withdraw_accounts(Some(position(1000)));
    let before = accounts.clone();
    assert_eq!(withdraw(&mut accounts, 1001), Err(ErrorCode::InsufficientFunds));
    assert_eq!(accounts, before);
    assert_eq!(withdraw(&mut accounts, u64::MAX), Err(ErrorCode::InsufficientFunds));
    assert_eq!(accounts, before);
}

#[test]
fn withdraw_without_a_position_is_refused() {
    let mut accounts = withdraw_accounts(None);
    assert_eq!(withdraw(&mut accounts, 1), Err(ErrorCode::StorageNotFound));
    assert_eq!(withdraw(&mut accounts, 0), Err(ErrorCode::StorageNotFound));
    assert_eq!(accounts, withdraw_accounts(None));
}

#[test]
fn withdraw_by_someone_else_is_refused() {
    let mut accounts = withdraw_accounts(Some(position(1000)));
    accounts.owner = key(66);
    let before = accounts.clone();
    assert_eq!(withdraw(&mut accounts, 1), Err(ErrorCode::InvalidOwner));
    assert_eq!(accounts, before);
}

#[test]
fn withdraw_from_a_foreign_liquidity_account_is_refused() {
    let mut accounts = withdraw_accounts(Some(position(1000)));
    accounts.reserve_liquidity.owner = key(USER);
    let before = accounts.clone();
    assert_eq!(withdraw(&mut accounts, 1), Err(ErrorCode::InvalidReserveAccount));
    assert_eq!(accounts, before);
}

#[test]
fn withdraw_reports_the_first_of_several_reasons() {
    let mut accounts = withdraw_accounts(None);
    accounts.reserve_liquidity.owner = key(99);
    assert_eq!(withdraw(&mut accounts, 1), Err(ErrorCode::StorageNotFound));

    let mut accounts = withdraw_accounts(Some(position(5)));
    accounts.reserve_liquidity.owner = key(99);
    accounts.owner = key(66);
    assert_eq!(withdraw(&mut accounts, 6), Err(ErrorCode::InvalidReserveAccount));

    let mut accounts = withdraw_accounts(Some(position(5)));
    accounts.owner = key(66);
    assert_eq!(withdraw(&mut accounts, 6), Err(ErrorCode::InvalidOwner));
}

#[test]
fn repay_reports_the_first_of_several_reasons() {
    let mut accounts = repay_accounts(None);
    accounts.reserve_liquidity.owner = key(99);
    assert_eq!(repay(&mut accounts, 1), Err(ErrorCode::StorageNotFound));

    let mut accounts = repay_accounts(Some(debt(5)));
    accounts.reserve_liquidity.owner = key(99);
    accounts.owner = key(66);
    assert_eq!(repay(&mut accounts, 6), Err(ErrorCode::InvalidReserveAccount));

    let mut accounts = repay_accounts(Some(debt(5)));
    accounts.owner = key(66);
    assert_eq!(repay(&mut accounts, 6), Err(ErrorCode::InvalidOwner));
}

#[test]
fn deposit_reports_the_first_of_several_reasons() {
    let mut accounts = deposit_accounts(Some(position(u64::MAX)));
    accounts.reserve_liquidity.owner = key(99);
    assert_eq!(deposit(&mut accounts, 1), Err(ErrorCode::InvalidReserveAccount));
}

#[test]
fn repay_lowers_the_debt() {
    let mut accounts = repay_accounts(Some(debt(500)));
    assert_eq!(repay(&mut accounts, 200), Ok(user_pays(200)));
    assert_eq!(accounts.user_borrow, Some(debt(300)));
    assert_eq!(accounts.reserve, reserve());
}

#[test]
fn repay_of_the_whole_debt_keeps_an_empty_position() {
    let mut accounts = repay_accounts(Some(debt(500)));
    assert_eq!(repay(&mut accounts, 500), Ok(user_pays(500)));
    assert_eq!(accounts.user_borrow, Some(debt(0)));
}

#[test]
fn repay_of_more_than_the_debt_is_refused() {
    let mut accounts = repay_accounts(Some(debt(500)));
    let before = accounts.clone();
    assert_eq!(repay(&mut accounts, 501), Err(ErrorCode::ExcessiveRepayment));
    assert_eq!(accounts, before);
}

#[test]
fn repay_without_a_position_is_refused() {
    let mut accounts = repay_accounts(None);
    assert_eq!(repay(&mut accounts, 1), Err(ErrorCode::StorageNotFound));
    assert_eq!(accounts, repay_accounts(None));
}

#[test]
fn repay_by_someone_else_is_refused() {
    let mut accounts = repay_accounts(Some(debt(500)));
    accounts.owner = key(66);
    let before = accounts.clone();
    assert_eq!(repay(&mut accounts, 1), Err(ErrorCode::InvalidOwner));
    assert_eq!(accounts, before);
}

#[test]
fn repay_into_a_foreign_liquidity_account_is_refused() {
    let mut accounts = repay_accounts(Some(debt(500)));
    accounts.reserve_liquidity.owner = key(99);
    let before = accounts.clone();
    assert_eq!(repay(&mut accounts, 1), Err(ErrorCode::InvalidReserveAccount));
    assert_eq!(accounts, before);
}

#[test]
fn balances_do_not_accrue_interest() {
    assert_eq!(accrue_interest(0, 100), 0);
    assert_eq!(accrue_interest(500, 0), 500);
    assert_eq!(accrue_interest(500, 100), 500);
    assert_eq!(accrue_interest(u64::MAX, 255), u64::MAX);
}

#[test]
fn balance_is_deposits_minus_withdrawals() {
    // +1000 +250 -300 (-5000 refused) +50 -1000 -0
    let mut position_now: Option<UserDeposit> = None;
    let mut expected: u64 = 0;

    let steps: [(bool, u64, bool); 7] = [
        (true, 1000, true),
        (true, 250, true),
        (false, 300, true),
        (false, 5000, false),
        (true, 50, true),
        (false, 1000, true),
        (false, 0, true),
    ];
    for (is_deposit, amount, accepted) in steps {
        if is_deposit {
            let mut accounts = deposit_accounts(position_now);
            let result = deposit(&mut accounts, amount);
            assert_eq!(result.is_ok(), accepted);
            position_now = accounts.user_deposit;
            if accepted {
                expected += amount;
            }
        } else {
            let mut accounts = withdraw_accounts(position_now);
            let before = accounts.clone();
            let result = withdraw(&mut accounts, amount);
            assert_eq!(result.is_ok(), accepted);
            if accepted {
                expected -= amount;
            } else {
                assert_eq!(result, Err(ErrorCode::InsufficientFunds));
                assert_eq!(accounts, before);
            }
            position_now = accounts.user_deposit;
        }
        assert_eq!(position_now.map(|record| record.deposited_amount), Some(expected));
    }
    assert_eq!(expected, 1000 + 250 - 300 + 50 - 1000);
    assert_eq!(position_now, Some(position(0)));
}
