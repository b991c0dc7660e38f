use vaultix::{
    add_collateral, add_interest_amount, borrow_sol, check_accrual_overflow,
    check_add_collateral_overflow, check_borrow_sol_overflow, check_deposit_sol_overflow,
    check_repay_sol_overflow, check_settle_liquidation_underflow, check_withdraw_overflow,
    deposit_sol, init_user_position, init_vault, interest_amount, liquidate, repay_sol,
    settle_liquidation, withdraw, Authority, BorrowedSol, CollateralAdded, CreateVault, Deposit,
    ErrorCode, Liquidated, LiquidationCheck, Pubkey, Repayed, TokenAccountRole, TokenOp,
    UserPosition, VaultState, Withdrew, DEBT_INTEREST_RATE, INTEREST_RATE,
    LIQUIDATION_THRESHOLD, SECONDS_IN_YEAR,
};

const YEAR: i64 = 31_536_000;

fn key(b: u8) -> Pubkey {
    Pubkey::new_from_array([b; 32])
}

fn admin() -> Pubkey {
    key(1)
}
fn vault_account() -> Pubkey {
    key(2)
}
fn mint() -> Pubkey {
    key(3)
}
fn user() -> Pubkey {
    key(4)
}

fn vault() -> VaultState {
    init_vault(admin(), vault_account(), mint(), 250).0
}

fn position(deposited: u64, borrowed: u64, collateral: u64, last: i64) -> UserPosition {
    UserPosition {
        user: user(),
        deposited_sol: deposited,
        borrowed_sol: borrowed,
        collateralized_isol_tokens: collateral,
        last_borrowed_timestamp: last,
        bump: 7,
    }
}

#[test]
fn init_vault_sets_default_rates_and_emits_event() {
    let (v, ev) = init_vault(admin(), vault_account(), mint(), 250);
    assert_eq!(
        v,
        VaultState {
            admin: admin(),
            collateral_vault: vault_account(),
            isol_token_mint: mint(),
            total_deposited_sol: 0,
            total_borrowed_sol: 0,
            interest_rate: 7,
            debt_interest_rate: 10,
            liquidation_threshold: 90,
            bump: 250,
        }
    );
    assert_eq!(
        ev,
        CreateVault {
            admin: admin(),
            collateral_vault: vault_account(),
            isol_token_mint: mint(),
            interest_rate: 7,
            debt_interest_rate: 10,
            liquidation_threshold: 90,
        }
    );
    assert_eq!((INTEREST_RATE, DEBT_INTEREST_RATE, LIQUIDATION_THRESHOLD), (7, 10, 90));
}

#[test]
fn init_user_position_is_empty() {
    assert_eq!(init_user_position(user(), 9), UserPosition { bump: 9, ..position(0, 0, 0, 0) });
}

#[test]
fn pubkey_comparison_and_bytes() {
    let a = key(5);
    let mut bytes = [5u8; 32];
    assert!(a.same_key(&Pubkey::new_from_array(bytes)));
    bytes[31] = 6;
    assert!(!a.same_key(&Pubkey::new_from_array(bytes)));
    assert_eq!(a.to_bytes(), [5u8; 32]);
}

#[test]
fn interest_is_simple_yearly_percent_rounded_down() {
    assert_eq!(SECONDS_IN_YEAR, 31_536_000);
    assert_eq!(interest_amount(600, 7, 31_536_000), 42);
    assert_eq!(interest_amount(1_000_000, 10, 31_536_000 / 2), 50_000);
    // 99 * 7 / 100 = 6.93, rounded down
    assert_eq!(interest_amount(99, 7, 31_536_000), 6);
    assert_eq!(interest_amount(0, 7, 31_536_000), 0);
    assert_eq!(interest_amount(1_000, 7, 0), 0);
    // the result is cut to 64 bits: (2^64 - 1) * 2 wraps to 2^64 - 2
    assert_eq!(interest_amount(u64::MAX, 100, 2 * 31_536_000), u64::MAX - 1);
}

#[test]
fn accrual_with_wrong_mint_is_refused_and_changes_nothing() {
    let v = vault();
    let mut p = position(1_000, 500, 0, 0);
    let before = p;
    assert_eq!(add_interest_amount(&v, &mut p, &key(9), YEAR), Err(ErrorCode::InvalidMint));
    assert_eq!(p, before);
}

#[test]
fn accrual_adds_interest_to_deposit_and_debt() {
    let v = vault();
    let mut p = position(1_000, 500, 3, 0);
    assert_eq!(add_interest_amount(&v, &mut p, &mint(), YEAR), Ok(70));
    assert_eq!(p, position(1_070, 550, 3, YEAR));
}

#[test]
fn accrual_on_no_debt_leaves_debt_at_zero() {
    let v = vault();
    let mut p = position(1_000, 0, 0, 0);
    assert_eq!(add_interest_amount(&v, &mut p, &mint(), 2 * YEAR), Ok(140));
    assert_eq!(p, position(1_140, 0, 0, 2 * YEAR));
}

#[test]
fn accrual_twice_at_the_same_time_mints_nothing_the_second_time() {
    let v = vault();
    let mut p = position(123_456, 7_890, 11, 100);
    let first = add_interest_amount(&v, &mut p, &mint(), 100 + YEAR / 3).unwrap();
    assert!(first > 0);
    let once = p;
    assert_eq!(add_interest_amount(&v, &mut p, &mint(), 100 + YEAR / 3), Ok(0));
    assert_eq!(p, once);
}

#[test]
fn accrual_overflow_is_detected() {
    let v = vault();
    assert!(!check_accrual_overflow(&v, &position(1_000, 500, 0, 0), YEAR));
    // the time difference leaves i64
    assert!(check_accrual_overflow(&v, &position(0, 0, 0, -1), i64::MAX));
    // a clock before the last accrual gives a huge elapsed count
    assert!(check_accrual_overflow(&v, &position(u64::MAX, 0, 0, 10), 9));
    assert!(!check_accrual_overflow(&v, &position(0, 0, 0, 10), 9));
    // the deposit plus its interest leaves u64
    assert!(check_accrual_overflow(&v, &position(u64::MAX, 0, 0, 0), YEAR));
    // the debt plus its interest leaves u64
    assert!(check_accrual_overflow(&v, &position(0, u64::MAX - 1, 0, 0), YEAR));
}

#[test]
fn deposit_moves_sol_in_and_mints_isol_one_to_one() {
    let mut v = vault();
    let mut p = position(10, 0, 0, 5);
    assert!(!check_deposit_sol_overflow(&v, &p, 1_000));
    let (ops, ev) = deposit_sol(&mut v, &mut p, &user(), 1_000);
    assert_eq!(
        ops,
        vec![
            TokenOp::Transfer {
                from: TokenAccountRole::UserWsol,
                to: TokenAccountRole::CollateralVault,
                authority: Authority::User,
                amount: 1_000,
            },
            TokenOp::MintIsol { amount: 1_000 },
        ]
    );
    assert_eq!(ev, Deposit { user: user(), amount: 1_000 });
    assert_eq!(v.total_deposited_sol, 1_000);
    assert_eq!(p, position(1_010, 0, 0, 5));
}

#[test]
fn deposit_overflow_is_detected() {
    let mut v = vault();
    v.total_deposited_sol = u64::MAX;
    assert!(check_deposit_sol_overflow(&v, &position(0, 0, 0, 0), 1));
    assert!(check_deposit_sol_overflow(&vault(), &position(u64::MAX, 0, 0, 0), 1));
    assert!(!check_deposit_sol_overflow(&vault(), &position(0, 0, 0, 0), u64::MAX));
}

#[test]
fn add_collateral_locks_isol_after_accrual() {
    let v = vault();
    let mut p = position(600, 0, 100, 0);
    assert!(!check_add_collateral_overflow(&v, &p, &mint(), YEAR, 50));
    let (ops, ev) = add_collateral(&v, &mut p, &mint(), &user(), 150, YEAR, 50).unwrap();
    assert_eq!(
        ops,
        vec![
            TokenOp::MintIsol { amount: 42 },
            TokenOp::Transfer {
                from: TokenAccountRole::UserIsol,
                to: TokenAccountRole::CollateralVault,
                authority: Authority::User,
                amount: 50,
            },
        ]
    );
    assert_eq!(ev, CollateralAdded { user: user(), amount: 50 });
    assert_eq!(p, position(642, 0, 150, YEAR));
}

#[test]
fn add_collateral_needs_the_balance_to_cover_all_locked_collateral() {
    let v = vault();
    let mut p = position(600, 0, 100, 0);
    let before = p;
    assert_eq!(
        add_collateral(&v, &mut p, &mint(), &user(), 149, YEAR, 50),
        Err(ErrorCode::InsufficientCollateral)
    );
    assert_eq!(p, before);
    assert_eq!(
        add_collateral(&v, &mut p, &key(8), &user(), 1_000, YEAR, 50),
        Err(ErrorCode::InvalidMint)
    );
    assert_eq!(p, before);
}

#[test]
fn add_collateral_overflow_is_detected() {
    let v = vault();
    assert!(check_add_collateral_overflow(&v, &position(0, 0, u64::MAX, 0), &mint(), 0, 1));
    // with a wrong mint nothing is computed, so nothing overflows
    assert!(!check_add_collateral_overflow(&v, &position(0, 0, u64::MAX, 0), &key(8), 0, 1));
}

#[test]
fn borrow_needs_collateral_of_four_thirds_the_loan() {
    let mut v = vault();
    let mut p = position(0, 0, 100, 0);
    let (v0, p0) = (v, p);
    assert_eq!(
        borrow_sol(&mut v, &mut p, &mint(), 50, 76),
        Err(ErrorCode::InsufficientCollateral)
    );
    assert_eq!((v, p), (v0, p0));
    let (ops, ev) = borrow_sol(&mut v, &mut p, &mint(), 50, 75).unwrap();
    assert_eq!(
        ops,
        vec![
            TokenOp::MintIsol { amount: 0 },
            TokenOp::Transfer {
                from: TokenAccountRole::CollateralVault,
                to: TokenAccountRole::UserWsol,
                authority: Authority::Vault,
                amount: 75,
            },
        ]
    );
    assert_eq!(ev, BorrowedSol { user: user(), amount: 75 });
    assert_eq!(v.total_borrowed_sol, 75);
    assert_eq!(p, position(0, 75, 100, 50));
}

#[test]
fn borrow_without_collateral_is_refused() {
    let mut v = vault();
    let mut p = position(1_000, 0, 0, 0);
    assert_eq!(
        borrow_sol(&mut v, &mut p, &mint(), 0, 0),
        Err(ErrorCode::InsufficientCollateral)
    );
    assert_eq!(borrow_sol(&mut v, &mut p, &key(8), 0, 0), Err(ErrorCode::InvalidMint));
}

#[test]
fn borrow_accrues_debt_interest_before_the_loan() {
    let mut v = vault();
    v.total_borrowed_sol = 1_000;
    let mut p = position(0, 1_000, 10_000, 0);
    borrow_sol(&mut v, &mut p, &mint(), YEAR, 100).unwrap();
    assert_eq!(p, position(0, 1_200, 10_000, YEAR));
    assert_eq!(v.total_borrowed_sol, 1_100);
}

#[test]
fn borrow_overflow_is_detected() {
    let v = vault();
    assert!(check_borrow_sol_overflow(&v, &position(0, 0, 1, 0), &mint(), 0, u64::MAX / 50));
    assert!(!check_borrow_sol_overflow(&v, &position(0, 0, 0, 0), &mint(), 0, u64::MAX));
    let mut full = vault();
    full.total_borrowed_sol = u64::MAX;
    assert!(check_borrow_sol_overflow(&full, &position(0, 0, 100, 0), &mint(), 0, 1));
    assert!(!check_borrow_sol_overflow(&full, &position(0, 0, 100, 0), &mint(), 0, 0));
}

#[test]
fn repay_pays_back_debt() {
    let mut v = vault();
    v.total_borrowed_sol = 500;
    let mut p = position(0, 500, 1_000, 0);
    let (ops, ev) = repay_sol(&mut v, &mut p, &mint(), &user(), 0, 200).unwrap();
    assert_eq!(
        ops,
        vec![
            TokenOp::MintIsol { amount: 0 },
            TokenOp::Transfer {
                from: TokenAccountRole::UserWsol,
                to: TokenAccountRole::CollateralVault,
                authority: Authority::User,
                amount: 200,
            },
        ]
    );
    assert_eq!(ev, Repayed { user: user(), amount: 200 });
    assert_eq!(v.total_borrowed_sol, 300);
    assert_eq!(p, position(0, 300, 1_000, 0));
}

#[test]
fn repay_more_than_owed_is_refused() {
    let mut v = vault();
    v.total_borrowed_sol = 500;
    let mut p = position(0, 500, 1_000, 0);
    let (v0, p0) = (v, p);
    assert_eq!(
        repay_sol(&mut v, &mut p, &mint(), &user(), 0, 501),
        Err(ErrorCode::NothingToRepay)
    );
    assert_eq!((v, p), (v0, p0));
    assert_eq!(
        repay_sol(&mut v, &mut p, &key(8), &user(), 0, 1),
        Err(ErrorCode::InvalidMint)
    );
}

#[test]
fn repay_overflow_is_detected_when_the_vault_total_is_short() {
    // accrued debt is not added to the vault total, so the user can owe
    // more than the vault has recorded
    let mut v = vault();
    v.total_borrowed_sol = 1_000;
    let p = position(0, 1_000, 0, 0);
    assert!(check_repay_sol_overflow(&v, &p, &mint(), YEAR, 1_050));
    assert!(!check_repay_sol_overflow(&v, &p, &mint(), YEAR, 1_000));
    assert!(!check_repay_sol_overflow(&v, &p, &mint(), YEAR, 1_200));
}

#[test]
fn liquidate_checks_the_feed_and_reports_health_inputs() {
    let v = vault();
    let feed = key(20);
    let mut p = position(0, 1_000, 900, 0);
    let (ops, check) = liquidate(&v, &mut p, &mint(), &feed, &feed, YEAR).unwrap();
    assert_eq!(ops, vec![TokenOp::MintIsol { amount: 0 }]);
    assert_eq!(
        check,
        LiquidationCheck {
            collateral: 900,
            borrowed: 1_100,
            liquidation_threshold: 90,
            debt_interest_rate: 10,
        }
    );
    assert_eq!(p, position(0, 1_100, 900, YEAR));
}

#[test]
fn liquidate_refuses_a_foreign_feed_or_no_debt() {
    let v = vault();
    let mut p = position(0, 1_000, 900, 0);
    let before = p;
    assert_eq!(
        liquidate(&v, &mut p, &mint(), &key(21), &key(20), YEAR),
        Err(ErrorCode::InvalidPriceFeed)
    );
    assert_eq!(p, before);
    let mut q = position(1_000, 0, 900, 0);
    assert_eq!(
        liquidate(&v, &mut q, &mint(), &key(20), &key(20), YEAR),
        Err(ErrorCode::NothingToRepay)
    );
    assert_eq!(
        liquidate(&v, &mut q, &key(8), &key(20), &key(20), YEAR),
        Err(ErrorCode::InvalidMint)
    );
}

#[test]
fn settle_liquidation_takes_from_collateral_and_debt() {
    let mut p = position(5, 1_000, 900, 3);
    assert!(!check_settle_liquidation_underflow(&p, 900));
    assert!(check_settle_liquidation_underflow(&p, 901));
    assert!(check_settle_liquidation_underflow(&position(0, 10, 900, 0), 11));
    let ev = settle_liquidation(&mut p, 900);
    assert_eq!(ev, Liquidated { user: user(), amount: 900 });
    assert_eq!(p, position(5, 100, 0, 3));
}

#[test]
fn withdraw_burns_isol_and_returns_sol() {
    let mut v = vault();
    v.total_deposited_sol = 2_000;
    let mut p = position(1_000, 0, 300, 0);
    assert!(!check_withdraw_overflow(&v, &p, &mint(), 1_000, 0, 700));
    let (ops, ev) = withdraw(&mut v, &mut p, &mint(), 1_000, 0, 700).unwrap();
    assert_eq!(
        ops,
        vec![
            TokenOp::MintIsol { amount: 0 },
            TokenOp::BurnIsol { amount: 700 },
            TokenOp::Transfer {
                from: TokenAccountRole::CollateralVault,
                to: TokenAccountRole::UserWsol,
                authority: Authority::Vault,
                amount: 700,
            },
        ]
    );
    assert_eq!(ev, Withdrew { user: user(), amount: 700 });
    assert_eq!(v.total_deposited_sol, 1_300);
    assert_eq!(p, position(300, 0, 300, 0));
}

#[test]
fn withdraw_cannot_touch_locked_collateral() {
    let mut v = vault();
    v.total_deposited_sol = 2_000;
    let mut p = position(1_000, 0, 300, 0);
    let (v0, p0) = (v, p);
    assert_eq!(
        withdraw(&mut v, &mut p, &mint(), 1_000, 0, 701),
        Err(ErrorCode::CannotWithdrawCollateral)
    );
    assert_eq!((v, p), (v0, p0));
    assert_eq!(withdraw(&mut v, &mut p, &key(8), 1_000, 0, 1), Err(ErrorCode::InvalidMint));
}

#[test]
fn withdraw_overflow_is_detected() {
    let v = vault();
    // more than the vault has recorded
    assert!(check_withdraw_overflow(&v, &position(1_000, 0, 0, 0), &mint(), 1_000, 0, 500));
    // collateral plus amount leaves u64
    assert!(check_withdraw_overflow(&v, &position(0, 0, u64::MAX, 0), &mint(), 0, 0, 1));
    // a refused withdrawal computes nothing more
    assert!(!check_withdraw_overflow(&v, &position(0, 0, 10, 0), &mint(), 5, 0, 1));
}

#[test]
fn repay_right_after_borrow_restores_the_vault() {
    let mut v = vault();
    v.total_borrowed_sol = 40;
    let mut p = position(100, 40, 400, 0);
    let mut accrued = p;
    add_interest_amount(&v, &mut accrued, &mint(), YEAR).unwrap();
    let v0 = v;
    borrow_sol(&mut v, &mut p, &mint(), YEAR, 120).unwrap();
    let (ops, _) = repay_sol(&mut v, &mut p, &mint(), &user(), YEAR, 120).unwrap();
    assert_eq!(ops[0], TokenOp::MintIsol { amount: 0 });
    assert_eq!(v, v0);
    assert_eq!(p, accrued);
}

#[test]
fn withdraw_right_after_deposit_restores_everything() {
    let mut v = vault();
    v.total_deposited_sol = 5_000;
    let mut p = position(700, 0, 100, 42);
    let (v0, p0) = (v, p);
    deposit_sol(&mut v, &mut p, &user(), 900);
    let (ops, _) = withdraw(&mut v, &mut p, &mint(), 1_000, 42, 900).unwrap();
    assert_eq!(ops[0], TokenOp::MintIsol { amount: 0 });
    assert_eq!((v, p), (v0, p0));
}

#[test]
fn error_messages() {
    assert_eq!(ErrorCode::InsufficientCollateral.message(), "User has insufficient collateral");
    assert_eq!(ErrorCode::NothingToRepay.message(), "User has nothing to repay");
    assert_eq!(ErrorCode::CannotWithdrawCollateral.message(), "Cannot withdraw collateral");
    assert_eq!(ErrorCode::InvalidMint.message(), "Invalid mint");
    assert_eq!(ErrorCode::InvalidPriceFeed.message(), "Invalid price feed");
}

#[test]
fn more_time_never_gives_less_interest() {
    let mut previous = 0;
    for elapsed in [0u64, 1, 4_505, 31_536_000, 63_072_000, 1_000_000_000] {
        let now = interest_amount(987_654_321, 7, elapsed);
        assert!(now >= previous);
        previous = now;
    }
}

#[test]
fn vault_totals_move_with_the_position() {
    let mut v = vault();
    v.total_deposited_sol = 10_000;
    v.total_borrowed_sol = 10_000;
    let mut p = position(5_000, 2_000, 4_000, 0);
    let before = v;
    deposit_sol(&mut v, &mut p, &user(), 300);
    assert_eq!(v.total_deposited_sol - before.total_deposited_sol, 300);
    let debt_before = p.borrowed_sol;
    borrow_sol(&mut v, &mut p, &mint(), 0, 100).unwrap();
    assert_eq!(v.total_borrowed_sol - before.total_borrowed_sol, 100);
    assert_eq!(p.borrowed_sol - debt_before, 100);
}
