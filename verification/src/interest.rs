use vstd::prelude::*;

use crate::types::{ErrorCode, Pubkey, UserPosition, VaultState};

verus! {

/// Seconds in a 365-day year.
pub const SECONDS_IN_YEAR: u128 = 31536000;

/// The seconds counted between the last accrual and `now`: the signed
/// difference taken as an unsigned 64-bit number (two's complement, so a
/// clock that went backwards gives a huge count).
pub open spec fn elapsed_seconds(last: i64, now: i64) -> u64 {
    (now - last) as u64
}

/// Simple yearly interest on `principal` at `rate` percent over `elapsed`
/// seconds, rounded down at each division and cut to 64 bits.
pub open spec fn interest_for(principal: u64, rate: u64, elapsed: u64) -> u64 {
    (principal * rate * elapsed / (SECONDS_IN_YEAR as int) / 100) as u64
}

/// The iSOL interest that accrual mints for the user's deposit.
pub open spec fn deposit_interest(vault: VaultState, position: UserPosition, now: i64) -> u64 {
    interest_for(
        position.deposited_sol,
        vault.interest_rate,
        elapsed_seconds(position.last_borrowed_timestamp, now),
    )
}

/// The interest that accrual adds to the user's debt.
pub open spec fn debt_interest(vault: VaultState, position: UserPosition, now: i64) -> u64 {
    interest_for(
        position.borrowed_sol,
        vault.debt_interest_rate,
        elapsed_seconds(position.last_borrowed_timestamp, now),
    )
}

/// Accrual at `now` would overflow: the time difference leaves `i64`, an
/// interest product leaves `u128`, or a new balance leaves `u64`.
pub open spec fn accrual_overflows(vault: VaultState, position: UserPosition, now: i64) -> bool {
    let e = elapsed_seconds(position.last_borrowed_timestamp, now);
    ||| !(i64::MIN <= now - position.last_borrowed_timestamp <= i64::MAX)
    ||| position.deposited_sol * vault.interest_rate * e > u128::MAX
    ||| position.deposited_sol + deposit_interest(vault, position, now) > u64::MAX
    ||| position.borrowed_sol * vault.debt_interest_rate * e > u128::MAX
    ||| position.borrowed_sol + debt_interest(vault, position, now) > u64::MAX
}

/// The position after interest has been accrued up to `now`.
pub open spec fn accrued(vault: VaultState, position: UserPosition, now: i64) -> UserPosition {
    UserPosition {
        deposited_sol: (position.deposited_sol + deposit_interest(vault, position, now)) as u64,
        borrowed_sol: (position.borrowed_sol + debt_interest(vault, position, now)) as u64,
        last_borrowed_timestamp: now,
        ..position
    }
}

/// Nothing accrues on a zero principal.
pub proof fn lemma_no_interest_on_zero(rate: u64, elapsed: u64)
    ensures
        interest_for(0, rate, elapsed) == 0,
{
    assert(0 * rate * elapsed == 0) by (nonlinear_arith);
}

/// Interest on `principal` at `rate` percent a year over `elapsed` seconds.
pub fn interest_amount(principal: u64, rate: u64, elapsed: u64) -> (interest: u64)
    requires
        principal * rate * elapsed <= u128::MAX,
    ensures
        interest == interest_for(principal, rate, elapsed),
        interest == (principal * rate * elapsed / 31536000 / 100) as u64,
{
    assert(principal * rate <= u64::MAX * u64::MAX) by (nonlinear_arith)
        requires
            principal <= u64::MAX,
            rate <= u64::MAX,
    ;
    let scaled: u128 = (principal as u128) * (rate as u128);
    let product: u128 = scaled * (elapsed as u128);
    (product / SECONDS_IN_YEAR / 100) as u64
}

/// Whether accrual at `now` would overflow (see `accrual_overflows`).
pub fn check_accrual_overflow(vault: &VaultState, position: &UserPosition, now: i64) -> (overflows:
    bool)
    ensures
        overflows == accrual_overflows(*vault, *position, now),
        overflows == ({
            let e = (now - position.last_borrowed_timestamp) as u64;
            let dep = position.deposited_sol;
            let debt = position.borrowed_sol;
            ||| !(i64::MIN <= now - position.last_borrowed_timestamp <= i64::MAX)
            ||| dep * vault.interest_rate * e > u128::MAX
            ||| dep + (dep * vault.interest_rate * e / 31536000 / 100) as u64 > u64::MAX
            ||| debt * vault.debt_interest_rate * e > u128::MAX
            ||| debt + (debt * vault.debt_interest_rate * e / 31536000 / 100) as u64 > u64::MAX
        }),
{
    let diff = match now.checked_sub(position.last_borrowed_timestamp) {
        Some(d) => d,
        None => return true,
    };
    let elapsed: u64 = #[verifier::truncate] (diff as u64);
    if product_overflows(position.deposited_sol, vault.interest_rate, elapsed) {
        return true;
    }
    let interest = interest_amount(position.deposited_sol, vault.interest_rate, elapsed);
    if position.deposited_sol.checked_add(interest).is_none() {
        return true;
    }
    if product_overflows(position.borrowed_sol, vault.debt_interest_rate, elapsed) {
        return true;
    }
    let debt = interest_amount(position.borrowed_sol, vault.debt_interest_rate, elapsed);
    position.borrowed_sol.checked_add(debt).is_none()
}

fn product_overflows(principal: u64, rate: u64, elapsed: u64) -> (overflows: bool)
    ensures
        overflows == (principal * rate * elapsed > u128::MAX),
{
    assert(principal * rate <= u64::MAX * u64::MAX) by (nonlinear_arith)
        requires
            principal <= u64::MAX,
            rate <= u64::MAX,
    ;
    let scaled: u128 = (principal as u128) * (rate as u128);
    scaled.checked_mul(elapsed as u128).is_none()
}

/// Accrues interest on a position up to `now`, after checking that the
/// iSOL mint handed in is the vault's. Returns the iSOL interest to mint
/// to the user; the deposit grows by that interest, the debt by its own
/// interest, and the accrual time moves to `now`. A wrong mint leaves the
/// position as it was.
pub fn add_interest_amount(
    vault_state: &VaultState,
    user_position: &mut UserPosition,
    isol_token_mint: &Pubkey,
    now: i64,
) -> (minted: Result<u64, ErrorCode>)
    requires
        *isol_token_mint == vault_state.isol_token_mint ==> !accrual_overflows(
            *vault_state,
            *old(user_position),
            now,
        ),
    ensures
        *isol_token_mint != vault_state.isol_token_mint ==> minted == Err::<u64, ErrorCode>(
            ErrorCode::InvalidMint,
        ) && *final(user_position) == *old(user_position),
        *isol_token_mint == vault_state.isol_token_mint ==> minted == Ok::<u64, ErrorCode>(
            deposit_interest(*vault_state, *old(user_position), now),
        ) && *final(user_position) == accrued(*vault_state, *old(user_position), now),
        *isol_token_mint == vault_state.isol_token_mint ==> {
            let e = (now - old(user_position).last_borrowed_timestamp) as u64;
            let dep = old(user_position).deposited_sol;
            let debt = old(user_position).borrowed_sol;
            let interest = (dep * vault_state.interest_rate * e / 31536000 / 100) as u64;
            &&& minted == Ok::<u64, ErrorCode>(interest)
            &&& final(user_position).deposited_sol == dep + interest
            &&& final(user_position).borrowed_sol == debt + (debt * vault_state.debt_interest_rate
                * e / 31536000 / 100) as u64
            &&& final(user_position).last_borrowed_timestamp == now
            &&& final(user_position).collateralized_isol_tokens
                == old(user_position).collateralized_isol_tokens
            &&& final(user_position).user == old(user_position).user
            &&& final(user_position).bump == old(user_position).bump
        },
{
    if !isol_token_mint.same_key(&vault_state.isol_token_mint) {
        return Err(ErrorCode::InvalidMint);
    }
    let last_timestamp = user_position.last_borrowed_timestamp;
    let time_elapsed: u64 = #[verifier::truncate] ((now - last_timestamp) as u64);
    let interest_earned = interest_amount(
        user_position.deposited_sol,
        vault_state.interest_rate,
        time_elapsed,
    );
    user_position.last_borrowed_timestamp = now;
    user_position.deposited_sol = user_position.deposited_sol + interest_earned;
    let borrowed_sol = user_position.borrowed_sol;
    if borrowed_sol != 0 {
        let debt_interest_earned = interest_amount(
            borrowed_sol,
            vault_state.debt_interest_rate,
            time_elapsed,
        );
        user_position.borrowed_sol = user_position.borrowed_sol + debt_interest_earned;
    } else {
        proof { lemma_no_interest_on_zero(vault_state.debt_interest_rate, time_elapsed); }
    }
    Ok(interest_earned)
}

} // verus!
