use vstd::prelude::*;

use crate::instructions::{
    add_collateral_position, borrow_sol_overflows, borrow_sol_state, deposit_sol_overflows,
    deposit_sol_state, repay_sol_overflows, repay_sol_state, required_collateral,
    settle_liquidation_position, settle_liquidation_underflows, transfer, withdraw_overflows,
    withdraw_state,
};
use crate::interest::{
    accrual_overflows, accrued, debt_interest, deposit_interest, elapsed_seconds, interest_for,
    SECONDS_IN_YEAR,
};
use crate::types::{Authority, TokenAccountRole, TokenOp, UserPosition, VaultState};

verus! {

/// With no time elapsed, nothing accrues.
pub proof fn lemma_no_interest_without_time(principal: u64, rate: u64)
    ensures
        interest_for(principal, rate, 0) == 0,
{
    assert(principal * rate * 0 == 0) by (nonlinear_arith);
}

/// Over more time, no less interest accrues, as long as the interest fits
/// in 64 bits.
pub proof fn law_interest_grows_with_time(principal: u64, rate: u64, earlier: u64, later: u64)
    requires
        earlier <= later,
        principal * rate * later / (SECONDS_IN_YEAR as int) / 100 <= u64::MAX,
    ensures
        interest_for(principal, rate, earlier) <= interest_for(principal, rate, later),
{
    let year = SECONDS_IN_YEAR as int;
    assert(principal * rate * earlier <= principal * rate * later) by (nonlinear_arith)
        requires
            earlier <= later,
    ;
    assert(principal * rate * earlier / year <= principal * rate * later / year) by (
    nonlinear_arith)
        requires
            principal * rate * earlier <= principal * rate * later,
            year > 0,
    ;
    assert(principal * rate * earlier / year / 100 <= principal * rate * later / year / 100) by (
    nonlinear_arith)
        requires
            principal * rate * earlier / year <= principal * rate * later / year,
    ;
    assert(0 <= principal * rate * earlier / year / 100) by (nonlinear_arith)
        requires
            year > 0,
    ;
}

/// Accruing twice at the same time is accruing once: the second accrual
/// cannot overflow, mints nothing and leaves the position as it is.
pub proof fn law_accrual_idempotent(vault: VaultState, position: UserPosition, now: i64)
    requires
        !accrual_overflows(vault, position, now),
    ensures
        !accrual_overflows(vault, accrued(vault, position, now), now),
        deposit_interest(vault, accrued(vault, position, now), now) == 0,
        accrued(vault, accrued(vault, position, now), now) == accrued(vault, position, now),
{
    let once = accrued(vault, position, now);
    assert(elapsed_seconds(now, now) == 0);
    lemma_no_interest_without_time(once.deposited_sol, vault.interest_rate);
    lemma_no_interest_without_time(once.borrowed_sol, vault.debt_interest_rate);
    assert(once.deposited_sol * vault.interest_rate * 0 == 0) by (nonlinear_arith);
    assert(once.borrowed_sol * vault.debt_interest_rate * 0 == 0) by (nonlinear_arith);
}

/// Accrual only adds interest: the deposit and the debt never shrink,
/// the user, the collateral and the bump stay, and the accrual time
/// becomes `now`.
pub proof fn law_accrual_only_adds_interest(vault: VaultState, position: UserPosition, now: i64)
    requires
        !accrual_overflows(vault, position, now),
    ensures
        accrued(vault, position, now).deposited_sol == position.deposited_sol + deposit_interest(
            vault,
            position,
            now,
        ),
        accrued(vault, position, now).borrowed_sol == position.borrowed_sol + debt_interest(
            vault,
            position,
            now,
        ),
        accrued(vault, position, now).deposited_sol >= position.deposited_sol,
        accrued(vault, position, now).borrowed_sol >= position.borrowed_sol,
        accrued(vault, position, now).user == position.user,
        accrued(vault, position, now).collateralized_isol_tokens
            == position.collateralized_isol_tokens,
        accrued(vault, position, now).bump == position.bump,
        accrued(vault, position, now).last_borrowed_timestamp == now,
{
}

/// Repaying at once what was just borrowed restores the vault and leaves
/// the position as accrual alone would: the repayment is accepted, cannot
/// overflow, and mints no interest.
pub proof fn law_repay_undoes_borrow(
    vault: VaultState,
    position: UserPosition,
    now: i64,
    amount: u64,
)
    requires
        position.collateralized_isol_tokens > 0,
        position.collateralized_isol_tokens >= required_collateral(amount),
        !borrow_sol_overflows(vault, position, vault.isol_token_mint, now, amount),
    ensures
        ({
            let (v1, p1) = borrow_sol_state(vault, position, now, amount);
            &&& !repay_sol_overflows(v1, p1, v1.isol_token_mint, now, amount)
            &&& accrued(v1, p1, now).borrowed_sol >= amount
            &&& deposit_interest(v1, p1, now) == 0
            &&& repay_sol_state(v1, p1, now, amount) == (vault, accrued(vault, position, now))
        }),
{
    let (v1, p1) = borrow_sol_state(vault, position, now, amount);
    assert(elapsed_seconds(now, now) == 0);
    lemma_no_interest_without_time(p1.deposited_sol, v1.interest_rate);
    lemma_no_interest_without_time(p1.borrowed_sol, v1.debt_interest_rate);
    assert(p1.deposited_sol * v1.interest_rate * 0 == 0) by (nonlinear_arith);
    assert(p1.borrowed_sol * v1.debt_interest_rate * 0 == 0) by (nonlinear_arith);
    assert(accrued(v1, p1, now) == p1);
}

/// Withdrawing what was just deposited gives the vault its totals back,
/// however much time has passed.
pub proof fn law_withdraw_undoes_deposit_in_vault(
    vault: VaultState,
    position: UserPosition,
    now: i64,
    amount: u64,
)
    requires
        !deposit_sol_overflows(vault, position, amount),
    ensures
        withdraw_state(
            deposit_sol_state(vault, position, amount).0,
            deposit_sol_state(vault, position, amount).1,
            now,
            amount,
        ).0 == vault,
{
}

/// With interest already accrued up to `now`, withdrawing at `now` what was
/// just deposited is accepted whenever the iSOL balance covers the locked
/// collateral plus the amount, cannot overflow, mints nothing, and gives
/// back both the vault and the position.
pub proof fn law_withdraw_undoes_deposit(
    vault: VaultState,
    position: UserPosition,
    now: i64,
    amount: u64,
    user_isol_balance: u64,
)
    requires
        !deposit_sol_overflows(vault, position, amount),
        position.last_borrowed_timestamp == now,
        user_isol_balance >= position.collateralized_isol_tokens + amount,
    ensures
        ({
            let (v1, p1) = deposit_sol_state(vault, position, amount);
            &&& !withdraw_overflows(v1, p1, v1.isol_token_mint, user_isol_balance, now, amount)
            &&& deposit_interest(v1, p1, now) == 0
            &&& withdraw_state(v1, p1, now, amount) == (vault, position)
        }),
{
    let (v1, p1) = deposit_sol_state(vault, position, amount);
    assert(elapsed_seconds(now, now) == 0);
    lemma_no_interest_without_time(p1.deposited_sol, v1.interest_rate);
    lemma_no_interest_without_time(p1.borrowed_sol, v1.debt_interest_rate);
    assert(p1.deposited_sol * v1.interest_rate * 0 == 0) by (nonlinear_arith);
    assert(p1.borrowed_sol * v1.debt_interest_rate * 0 == 0) by (nonlinear_arith);
    assert(accrued(v1, p1, now) == p1);
}

/// The vault's totals move with the user's balances: each deposit,
/// withdrawal, loan and repayment changes the vault total and the user's
/// balance (after accrual) by the same amount.
pub proof fn law_totals_track_positions(
    vault: VaultState,
    position: UserPosition,
    now: i64,
    amount: u64,
)
    requires
        !accrual_overflows(vault, position, now),
    ensures
        !deposit_sol_overflows(vault, position, amount) ==> {
            let (v1, p1) = deposit_sol_state(vault, position, amount);
            &&& v1.total_deposited_sol - vault.total_deposited_sol == amount
            &&& p1.deposited_sol - position.deposited_sol == amount
        },
        vault.total_deposited_sol >= amount && accrued(vault, position, now).deposited_sol
            >= amount ==> {
            let (v1, p1) = withdraw_state(vault, position, now, amount);
            &&& vault.total_deposited_sol - v1.total_deposited_sol == amount
            &&& accrued(vault, position, now).deposited_sol - p1.deposited_sol == amount
        },
        vault.total_borrowed_sol + amount <= u64::MAX && accrued(vault, position, now).borrowed_sol
            + amount <= u64::MAX ==> {
            let (v1, p1) = borrow_sol_state(vault, position, now, amount);
            &&& v1.total_borrowed_sol - vault.total_borrowed_sol == amount
            &&& p1.borrowed_sol - accrued(vault, position, now).borrowed_sol == amount
        },
        vault.total_borrowed_sol >= amount && accrued(vault, position, now).borrowed_sol
            >= amount ==> {
            let (v1, p1) = repay_sol_state(vault, position, now, amount);
            &&& vault.total_borrowed_sol - v1.total_borrowed_sol == amount
            &&& accrued(vault, position, now).borrowed_sol - p1.borrowed_sol == amount
        },
{
}

/// Accrual, written out: over the seconds since the last accrual (the
/// signed difference read as unsigned), the deposit earns `interest_rate`
/// percent a year and the debt `debt_interest_rate` percent a year, each
/// rounded down; the accrual time becomes `now` and nothing else changes.
pub proof fn law_accrual_explicit(vault: VaultState, position: UserPosition, now: i64)
    requires
        !accrual_overflows(vault, position, now),
    ensures
        ({
            let e = (now - position.last_borrowed_timestamp) as u64;
            let after = accrued(vault, position, now);
            &&& after.deposited_sol == position.deposited_sol + (position.deposited_sol
                * vault.interest_rate * e / 31536000 / 100) as u64
            &&& after.borrowed_sol == position.borrowed_sol + (position.borrowed_sol
                * vault.debt_interest_rate * e / 31536000 / 100) as u64
            &&& after.last_borrowed_timestamp == now
            &&& after.collateralized_isol_tokens == position.collateralized_isol_tokens
            &&& after.user == position.user
            &&& after.bump == position.bump
            &&& deposit_interest(vault, position, now) == (position.deposited_sol
                * vault.interest_rate * e / 31536000 / 100) as u64
        }),
{
}

/// A loan of `amount` needs `amount * 100 / 75` collateral, rounded down:
/// collateral worth at least four thirds of the loan, so from three
/// lamports on always strictly more collateral than the loan itself.
pub proof fn law_loan_needs_four_thirds_collateral(amount: u64)
    ensures
        required_collateral(amount) * 75 <= amount * 100,
        amount * 100 < (required_collateral(amount) + 1) * 75,
        amount >= 3 ==> required_collateral(amount) > amount,
        required_collateral(amount) >= amount,
{
}

/// Locking `amount` iSOL raises the collateral by exactly `amount`,
/// whatever was locked before (none included); apart from that the
/// position is the accrued one.
pub proof fn law_add_collateral_locks_exactly(
    vault: VaultState,
    position: UserPosition,
    now: i64,
    amount: u64,
)
    requires
        position.collateralized_isol_tokens + amount <= u64::MAX,
    ensures
        ({
            let locked = add_collateral_position(vault, position, now, amount);
            let after = accrued(vault, position, now);
            &&& locked.collateralized_isol_tokens - position.collateralized_isol_tokens == amount
            &&& locked.deposited_sol == after.deposited_sol
            &&& locked.borrowed_sol == after.borrowed_sol
            &&& locked.last_borrowed_timestamp == now
            &&& locked.user == position.user
            &&& locked.bump == position.bump
        }),
{
}

/// Settling a liquidation of `amount` takes exactly `amount` from the
/// collateral and exactly `amount` from the debt, and nothing else.
pub proof fn law_settle_takes_amount_from_both(position: UserPosition, amount: u64)
    requires
        !settle_liquidation_underflows(position, amount),
    ensures
        ({
            let settled = settle_liquidation_position(position, amount);
            &&& position.collateralized_isol_tokens - settled.collateralized_isol_tokens == amount
            &&& position.borrowed_sol - settled.borrowed_sol == amount
            &&& settled.deposited_sol == position.deposited_sol
            &&& settled.last_borrowed_timestamp == position.last_borrowed_timestamp
            &&& settled.user == position.user
            &&& settled.bump == position.bump
        }),
{
}

/// A deposit changes only the two deposit totals, each by `amount`.
pub proof fn law_deposit_changes_only_deposits(
    vault: VaultState,
    position: UserPosition,
    amount: u64,
)
    requires
        !deposit_sol_overflows(vault, position, amount),
    ensures
        ({
            let (v1, p1) = deposit_sol_state(vault, position, amount);
            &&& v1.total_deposited_sol == vault.total_deposited_sol + amount
            &&& p1.deposited_sol == position.deposited_sol + amount
            &&& v1 == (VaultState { total_deposited_sol: v1.total_deposited_sol, ..vault })
            &&& p1 == (UserPosition { deposited_sol: p1.deposited_sol, ..position })
        }),
{
}

/// A withdrawal changes only the deposits beyond what accrual does: the
/// debt keeps its accrued interest, the collateral stays, and both deposit
/// totals drop by `amount`.
pub proof fn law_withdraw_changes_only_deposits(
    vault: VaultState,
    position: UserPosition,
    now: i64,
    amount: u64,
)
    requires
        vault.total_deposited_sol >= amount,
        accrued(vault, position, now).deposited_sol >= amount,
    ensures
        ({
            let (v1, p1) = withdraw_state(vault, position, now, amount);
            let after = accrued(vault, position, now);
            &&& v1.total_deposited_sol == vault.total_deposited_sol - amount
            &&& v1 == (VaultState { total_deposited_sol: v1.total_deposited_sol, ..vault })
            &&& p1.deposited_sol == after.deposited_sol - amount
            &&& p1.borrowed_sol == after.borrowed_sol
            &&& p1.collateralized_isol_tokens == position.collateralized_isol_tokens
            &&& p1.last_borrowed_timestamp == now
            &&& p1.user == position.user
            &&& p1.bump == position.bump
        }),
{
}

/// A loan changes only the debts beyond what accrual does: both grow by
/// `amount`, and the loan is stamped `now`.
pub proof fn law_borrow_changes_only_debts(
    vault: VaultState,
    position: UserPosition,
    now: i64,
    amount: u64,
)
    requires
        vault.total_borrowed_sol + amount <= u64::MAX,
        accrued(vault, position, now).borrowed_sol + amount <= u64::MAX,
    ensures
        ({
            let (v1, p1) = borrow_sol_state(vault, position, now, amount);
            let after = accrued(vault, position, now);
            &&& v1.total_borrowed_sol == vault.total_borrowed_sol + amount
            &&& v1 == (VaultState { total_borrowed_sol: v1.total_borrowed_sol, ..vault })
            &&& p1.borrowed_sol == after.borrowed_sol + amount
            &&& p1.deposited_sol == after.deposited_sol
            &&& p1.collateralized_isol_tokens == position.collateralized_isol_tokens
            &&& p1.last_borrowed_timestamp == now
            &&& p1.user == position.user
            &&& p1.bump == position.bump
        }),
{
}

/// A repayment changes only the debts beyond what accrual does: both drop
/// by `amount`.
pub proof fn law_repay_changes_only_debts(
    vault: VaultState,
    position: UserPosition,
    now: i64,
    amount: u64,
)
    requires
        vault.total_borrowed_sol >= amount,
        accrued(vault, position, now).borrowed_sol >= amount,
    ensures
        ({
            let (v1, p1) = repay_sol_state(vault, position, now, amount);
            let after = accrued(vault, position, now);
            &&& v1.total_borrowed_sol == vault.total_borrowed_sol - amount
            &&& v1 == (VaultState { total_borrowed_sol: v1.total_borrowed_sol, ..vault })
            &&& p1.borrowed_sol == after.borrowed_sol - amount
            &&& p1.deposited_sol == after.deposited_sol
            &&& p1.collateralized_isol_tokens == position.collateralized_isol_tokens
            &&& p1.last_borrowed_timestamp == now
            &&& p1.user == position.user
            &&& p1.bump == position.bump
        }),
{
}

/// A transfer op carries its accounts, signer and amount as given.
pub proof fn law_transfer_carries_its_arguments(
    from: TokenAccountRole,
    to: TokenAccountRole,
    authority: Authority,
    amount: u64,
)
    ensures
        transfer(from, to, authority, amount) matches TokenOp::Transfer {
            from: f,
            to: t,
            authority: a,
            amount: n,
        } && f == from && t == to && a == authority && n == amount,
{
}

} // verus!
