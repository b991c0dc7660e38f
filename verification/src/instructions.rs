use vstd::prelude::*;

use crate::interest::{
    accrual_overflows, accrued, add_interest_amount, check_accrual_overflow, deposit_interest,
};
use crate::types::{
    Authority, BorrowedSol, CollateralAdded, CreateVault, Deposit, ErrorCode, Liquidated, Pubkey,
    Repayed, TokenAccountRole, TokenOp, UserPosition, VaultState, Withdrew,
};

verus! {

/// Yearly interest, in percent, that a new vault pays on deposits.
pub const INTEREST_RATE: u64 = 7;

/// Yearly interest, in percent, that a new vault charges on loans.
pub const DEBT_INTEREST_RATE: u64 = 10;

/// Share of the collateral, in percent, that a new vault counts toward a
/// loan's health.
pub const LIQUIDATION_THRESHOLD: u64 = 90;

/// The inputs of the health check that decides a liquidation, taken from
/// the position after accrual and from the vault.
#[derive(Clone, Copy, Debug, PartialEq, Eq)]
pub struct LiquidationCheck {
    pub collateral: u64,
    pub borrowed: u64,
    pub liquidation_threshold: u64,
    pub debt_interest_rate: u64,
}

/// A token transfer between two of the instruction's accounts.
pub open spec fn transfer(
    from: TokenAccountRole,
    to: TokenAccountRole,
    authority: Authority,
    amount: u64,
) -> TokenOp {
    TokenOp::Transfer { from, to, authority, amount }
}

/// A new vault, run by `admin`, with nothing deposited or borrowed and the
/// default rates.
pub fn init_vault(admin: Pubkey, collateral_vault: Pubkey, isol_token_mint: Pubkey, bump: u8) -> (r: (
    VaultState,
    CreateVault,
))
    ensures
        r.0 == (VaultState {
            admin,
            collateral_vault,
            isol_token_mint,
            total_deposited_sol: 0,
            total_borrowed_sol: 0,
            interest_rate: INTEREST_RATE,
            debt_interest_rate: DEBT_INTEREST_RATE,
            liquidation_threshold: LIQUIDATION_THRESHOLD,
            bump,
        }),
        r.1 == (CreateVault {
            admin,
            collateral_vault,
            isol_token_mint,
            interest_rate: INTEREST_RATE,
            debt_interest_rate: DEBT_INTEREST_RATE,
            liquidation_threshold: LIQUIDATION_THRESHOLD,
        }),
        r.0.interest_rate == 7 && r.0.debt_interest_rate == 10 && r.0.liquidation_threshold == 90,
        r.0.total_deposited_sol == 0 && r.0.total_borrowed_sol == 0,
        r.1.interest_rate == 7 && r.1.debt_interest_rate == 10 && r.1.liquidation_threshold == 90,
{
    let vault_state = VaultState {
        admin,
        collateral_vault,
        isol_token_mint,
        total_deposited_sol: 0,
        total_borrowed_sol: 0,
        interest_rate: INTEREST_RATE,
        debt_interest_rate: DEBT_INTEREST_RATE,
        liquidation_threshold: LIQUIDATION_THRESHOLD,
        bump,
    };
    let event = CreateVault {
        admin,
        collateral_vault,
        isol_token_mint,
        interest_rate: INTEREST_RATE,
        debt_interest_rate: DEBT_INTEREST_RATE,
        liquidation_threshold: LIQUIDATION_THRESHOLD,
    };
    (vault_state, event)
}

/// A new, empty position for `user`.
pub fn init_user_position(user: Pubkey, bump: u8) -> (position: UserPosition)
    ensures
        position == (UserPosition {
            user,
            deposited_sol: 0,
            borrowed_sol: 0,
            collateralized_isol_tokens: 0,
            last_borrowed_timestamp: 0,
            bump,
        }),
        position.deposited_sol == 0 && position.borrowed_sol == 0
            && position.collateralized_isol_tokens == 0 && position.last_borrowed_timestamp == 0,
{
    UserPosition {
        user,
        deposited_sol: 0,
        borrowed_sol: 0,
        collateralized_isol_tokens: 0,
        last_borrowed_timestamp: 0,
        bump,
    }
}

/// The vault and the position after a deposit of `amount`: both deposit
/// totals grow by `amount`.
pub open spec fn deposit_sol_state(vault: VaultState, position: UserPosition, amount: u64) -> (
    VaultState,
    UserPosition,
) {
    (
        VaultState { total_deposited_sol: (vault.total_deposited_sol + amount) as u64, ..vault },
        UserPosition { deposited_sol: (position.deposited_sol + amount) as u64, ..position },
    )
}

/// A deposit of `amount` would overflow the vault's or the user's total.
pub open spec fn deposit_sol_overflows(
    vault: VaultState,
    position: UserPosition,
    amount: u64,
) -> bool {
    vault.total_deposited_sol + amount > u64::MAX || position.deposited_sol + amount > u64::MAX
}

/// Whether `deposit_sol` would overflow (see `deposit_sol_overflows`).
pub fn check_deposit_sol_overflow(
    vault_state: &VaultState,
    user_position: &UserPosition,
    amount: u64,
) -> (overflows: bool)
    ensures
        overflows == deposit_sol_overflows(*vault_state, *user_position, amount),
        overflows == (vault_state.total_deposited_sol + amount > u64::MAX
            || user_position.deposited_sol + amount > u64::MAX),
{
    vault_state.total_deposited_sol.checked_add(amount).is_none()
        || user_position.deposited_sol.checked_add(amount).is_none()
}

/// Deposits `amount` SOL: the user's wrapped SOL moves into the vault,
/// the same amount of iSOL is minted to the user, and both the vault's
/// and the user's deposit totals grow by `amount`.
pub fn deposit_sol(
    vault_state: &mut VaultState,
    user_position: &mut UserPosition,
    user: &Pubkey,
    amount: u64,
) -> (r: (Vec<TokenOp>, Deposit))
    requires
        !deposit_sol_overflows(*old(vault_state), *old(user_position), amount),
    ensures
        r.0@ == seq![
            transfer(TokenAccountRole::UserWsol, TokenAccountRole::CollateralVault, Authority::User, amount),
            TokenOp::MintIsol { amount },
        ],
        (*final(vault_state), *final(user_position)) == deposit_sol_state(
            *old(vault_state),
            *old(user_position),
            amount,
        ),
        r.1 == (Deposit { user: *user, amount }),
        r.0@[0] == (TokenOp::Transfer { from: TokenAccountRole::UserWsol, to: TokenAccountRole::CollateralVault, authority: Authority::User, amount }),
        final(vault_state).total_deposited_sol == old(vault_state).total_deposited_sol + amount,
        final(user_position).deposited_sol == old(user_position).deposited_sol + amount,
        *final(vault_state) == (VaultState {
            total_deposited_sol: final(vault_state).total_deposited_sol,
            ..*old(vault_state)
        }),
        *final(user_position) == (UserPosition {
            deposited_sol: final(user_position).deposited_sol,
            ..*old(user_position)
        }),
{
    let mut ops: Vec<TokenOp> = Vec::new();
    ops.push(
        TokenOp::Transfer {
            from: TokenAccountRole::UserWsol,
            to: TokenAccountRole::CollateralVault,
            authority: Authority::User,
            amount,
        },
    );
    ops.push(TokenOp::MintIsol { amount });
    vault_state.total_deposited_sol = vault_state.total_deposited_sol + amount;
    user_position.deposited_sol = user_position.deposited_sol + amount;
    (ops, Deposit { user: *user, amount })
}


/// The position after `amount` iSOL is locked at `now`: accrued, with the
/// collateral grown by `amount`.
pub open spec fn add_collateral_position(
    vault: VaultState,
    position: UserPosition,
    now: i64,
    amount: u64,
) -> UserPosition {
    let after = accrued(vault, position, now);
    UserPosition {
        collateralized_isol_tokens: (after.collateralized_isol_tokens + amount) as u64,
        ..after
    }
}

/// Locking `amount` iSOL as collateral would overflow: accrual overflows,
/// or the collateral plus `amount` leaves `u64`. Nothing past the mint
/// check is computed for a wrong mint.
pub open spec fn add_collateral_overflows(
    vault: VaultState,
    position: UserPosition,
    isol_token_mint: Pubkey,
    now: i64,
    amount: u64,
) -> bool {
    &&& isol_token_mint == vault.isol_token_mint
    &&& (accrual_overflows(vault, position, now) || position.collateralized_isol_tokens + amount
        > u64::MAX)
}

/// Whether `add_collateral` would overflow (see `add_collateral_overflows`).
pub fn check_add_collateral_overflow(
    vault_state: &VaultState,
    user_position: &UserPosition,
    isol_token_mint: &Pubkey,
    now: i64,
    amount: u64,
) -> (overflows: bool)
    ensures
        overflows == add_collateral_overflows(
            *vault_state,
            *user_position,
            *isol_token_mint,
            now,
            amount,
        ),
        overflows == (*isol_token_mint == vault_state.isol_token_mint && (accrual_overflows(
            *vault_state,
            *user_position,
            now,
        ) || user_position.collateralized_isol_tokens + amount > u64::MAX)),
{
    isol_token_mint.same_key(&vault_state.isol_token_mint) && (check_accrual_overflow(
        vault_state,
        user_position,
        now,
    ) || user_position.collateralized_isol_tokens.checked_add(amount).is_none())
}

/// Locks `amount` iSOL as collateral, after accruing interest. The user's
/// iSOL balance (as read before the interest is minted) must cover the
/// collateral already locked plus `amount`; then the iSOL moves into the
/// vault and the collateral grows by `amount`. On an error nothing changes.
pub fn add_collateral(
    vault_state: &VaultState,
    user_position: &mut UserPosition,
    isol_token_mint: &Pubkey,
    user: &Pubkey,
    user_isol_balance: u64,
    now: i64,
    amount: u64,
) -> (r: Result<(Vec<TokenOp>, CollateralAdded), ErrorCode>)
    requires
        !add_collateral_overflows(*vault_state, *old(user_position), *isol_token_mint, now, amount),
    ensures
        *isol_token_mint != vault_state.isol_token_mint ==> r == Err::<
            (Vec<TokenOp>, CollateralAdded),
            ErrorCode,
        >(ErrorCode::InvalidMint),
        *isol_token_mint == vault_state.isol_token_mint && user_isol_balance
            < old(user_position).collateralized_isol_tokens + amount ==> r == Err::<
            (Vec<TokenOp>, CollateralAdded),
            ErrorCode,
        >(ErrorCode::InsufficientCollateral),
        r is Err ==> *final(user_position) == *old(user_position),
        *isol_token_mint == vault_state.isol_token_mint && user_isol_balance
            >= old(user_position).collateralized_isol_tokens + amount ==> {
            &&& r matches Ok(out) && out.0@ == seq![
                TokenOp::MintIsol { amount: deposit_interest(*vault_state, *old(user_position), now) },
                transfer(TokenAccountRole::UserIsol, TokenAccountRole::CollateralVault, Authority::User, amount),
            ] && out.1 == (CollateralAdded { user: *user, amount })
            &&& *final(user_position) == add_collateral_position(
                *vault_state,
                *old(user_position),
                now,
                amount,
            )
        },
        (r is Ok) <==> (*isol_token_mint == vault_state.isol_token_mint && user_isol_balance
            >= old(user_position).collateralized_isol_tokens + amount),
        r is Ok ==> {
            let after = accrued(*vault_state, *old(user_position), now);
            &&& final(user_position).collateralized_isol_tokens
                == old(user_position).collateralized_isol_tokens + amount
            &&& *final(user_position) == (UserPosition {
                collateralized_isol_tokens: final(user_position).collateralized_isol_tokens,
                ..after
            })
            &&& r matches Ok(out) && out.0@.len() == 2 && out.0@[1] == (TokenOp::Transfer { from: TokenAccountRole::UserIsol, to: TokenAccountRole::CollateralVault, authority: Authority::User, amount })
        },
{
    let mut position = *user_position;
    let interest = match add_interest_amount(vault_state, &mut position, isol_token_mint, now) {
        Ok(minted) => minted,
        Err(e) => return Err(e),
    };
    if user_isol_balance < position.collateralized_isol_tokens + amount {
        return Err(ErrorCode::InsufficientCollateral);
    }
    let mut ops: Vec<TokenOp> = Vec::new();
    ops.push(TokenOp::MintIsol { amount: interest });
    ops.push(
        TokenOp::Transfer {
            from: TokenAccountRole::UserIsol,
            to: TokenAccountRole::CollateralVault,
            authority: Authority::User,
            amount,
        },
    );
    position.collateralized_isol_tokens = position.collateralized_isol_tokens + amount;
    *user_position = position;
    Ok((ops, CollateralAdded { user: *user, amount }))
}

/// The collateral that a loan of `amount` needs: `amount * 100 / 75`.
pub open spec fn required_collateral(amount: u64) -> int {
    amount * 100 / 75
}

/// The vault and the position after `amount` is borrowed at `now`: both
/// debts grow by `amount`, on top of accrual, and the loan is stamped `now`.
pub open spec fn borrow_sol_state(
    vault: VaultState,
    position: UserPosition,
    now: i64,
    amount: u64,
) -> (VaultState, UserPosition) {
    let after = accrued(vault, position, now);
    (
        VaultState { total_borrowed_sol: (vault.total_borrowed_sol + amount) as u64, ..vault },
        UserPosition {
            borrowed_sol: (after.borrowed_sol + amount) as u64,
            last_borrowed_timestamp: now,
            ..after
        },
    )
}

/// Borrowing `amount` would overflow: accrual overflows; or, with some
/// collateral locked, `amount * 100` leaves `u64`; or, with enough
/// collateral, the vault's or the user's debt plus `amount` leaves `u64`.
pub open spec fn borrow_sol_overflows(
    vault: VaultState,
    position: UserPosition,
    isol_token_mint: Pubkey,
    now: i64,
    amount: u64,
) -> bool {
    let after = accrued(vault, position, now);
    &&& isol_token_mint == vault.isol_token_mint
    &&& {
        ||| accrual_overflows(vault, position, now)
        ||| position.collateralized_isol_tokens > 0 && amount * 100 > u64::MAX
        ||| {
            &&& position.collateralized_isol_tokens > 0
            &&& position.collateralized_isol_tokens >= required_collateral(amount)
            &&& (vault.total_borrowed_sol + amount > u64::MAX || after.borrowed_sol + amount
                > u64::MAX)
        }
    }
}

/// Whether `borrow_sol` would overflow (see `borrow_sol_overflows`).
pub fn check_borrow_sol_overflow(
    vault_state: &VaultState,
    user_position: &UserPosition,
    isol_token_mint: &Pubkey,
    now: i64,
    amount: u64,
) -> (overflows: bool)
    ensures
        overflows == borrow_sol_overflows(
            *vault_state,
            *user_position,
            *isol_token_mint,
            now,
            amount,
        ),
        overflows == (*isol_token_mint == vault_state.isol_token_mint && (accrual_overflows(
            *vault_state,
            *user_position,
            now,
        ) || (user_position.collateralized_isol_tokens > 0 && amount * 100 > u64::MAX) || (
        user_position.collateralized_isol_tokens > 0 && user_position.collateralized_isol_tokens
            >= amount * 100 / 75 && (vault_state.total_borrowed_sol + amount > u64::MAX
            || accrued(*vault_state, *user_position, now).borrowed_sol + amount > u64::MAX)))),
{
    if !isol_token_mint.same_key(&vault_state.isol_token_mint) {
        return false;
    }
    if check_accrual_overflow(vault_state, user_position, now) {
        return true;
    }
    let collateral = user_position.collateralized_isol_tokens;
    if collateral == 0 {
        return false;
    }
    let scaled = match amount.checked_mul(100) {
        Some(v) => v,
        None => return true,
    };
    if collateral < scaled / 75 {
        return false;
    }
    let mut position = *user_position;
    let _ = add_interest_amount(vault_state, &mut position, isol_token_mint, now);
    vault_state.total_borrowed_sol.checked_add(amount).is_none()
        || position.borrowed_sol.checked_add(amount).is_none()
}

/// Borrows `amount` SOL, after accruing interest. Some collateral must be
/// locked, and at least `amount * 100 / 75` of it; then the vault sends
/// `amount` wrapped SOL to the user, the vault's and the user's debt grow
/// by `amount`, and the loan is stamped with `now`. On an error nothing
/// changes.
pub fn borrow_sol(
    vault_state: &mut VaultState,
    user_position: &mut UserPosition,
    isol_token_mint: &Pubkey,
    now: i64,
    amount: u64,
) -> (r: Result<(Vec<TokenOp>, BorrowedSol), ErrorCode>)
    requires
        !borrow_sol_overflows(*old(vault_state), *old(user_position), *isol_token_mint, now, amount),
    ensures
        *isol_token_mint != old(vault_state).isol_token_mint ==> r == Err::<
            (Vec<TokenOp>, BorrowedSol),
            ErrorCode,
        >(ErrorCode::InvalidMint),
        *isol_token_mint == old(vault_state).isol_token_mint && (
        old(user_position).collateralized_isol_tokens == 0
            || old(user_position).collateralized_isol_tokens < required_collateral(amount))
            ==> r == Err::<(Vec<TokenOp>, BorrowedSol), ErrorCode>(
            ErrorCode::InsufficientCollateral,
        ),
        r is Err ==> *final(vault_state) == *old(vault_state) && *final(user_position) == *old(
            user_position,
        ),
        *isol_token_mint == old(vault_state).isol_token_mint
            && old(user_position).collateralized_isol_tokens > 0
            && old(user_position).collateralized_isol_tokens >= required_collateral(amount) ==> {
            &&& r matches Ok(out) && out.0@ == seq![
                TokenOp::MintIsol { amount: deposit_interest(*old(vault_state), *old(user_position), now) },
                transfer(TokenAccountRole::CollateralVault, TokenAccountRole::UserWsol, Authority::Vault, amount),
            ] && out.1 == (BorrowedSol { user: old(user_position).user, amount })
            &&& (*final(vault_state), *final(user_position)) == borrow_sol_state(
                *old(vault_state),
                *old(user_position),
                now,
                amount,
            )
        },
        (r is Ok) <==> (*isol_token_mint == old(vault_state).isol_token_mint
            && old(user_position).collateralized_isol_tokens > 0
            && old(user_position).collateralized_isol_tokens >= amount * 100 / 75),
        r is Ok ==> {
            let after = accrued(*old(vault_state), *old(user_position), now);
            &&& final(vault_state).total_borrowed_sol == old(vault_state).total_borrowed_sol + amount
            &&& *final(vault_state) == (VaultState {
                total_borrowed_sol: final(vault_state).total_borrowed_sol,
                ..*old(vault_state)
            })
            &&& final(user_position).borrowed_sol == after.borrowed_sol + amount
            &&& final(user_position).last_borrowed_timestamp == now
            &&& *final(user_position) == (UserPosition {
                borrowed_sol: final(user_position).borrowed_sol,
                ..after
            })
            &&& r matches Ok(out) && out.0@.len() == 2 && out.0@[1] == (TokenOp::Transfer { from: TokenAccountRole::CollateralVault, to: TokenAccountRole::UserWsol, authority: Authority::Vault, amount })
        },
{
    let mut position = *user_position;
    let interest = match add_interest_amount(vault_state, &mut position, isol_token_mint, now) {
        Ok(minted) => minted,
        Err(e) => return Err(e),
    };
    if !(position.collateralized_isol_tokens > 0) {
        return Err(ErrorCode::InsufficientCollateral);
    }
    if !(position.collateralized_isol_tokens >= amount * 100 / 75) {
        return Err(ErrorCode::InsufficientCollateral);
    }
    let mut ops: Vec<TokenOp> = Vec::new();
    ops.push(TokenOp::MintIsol { amount: interest });
    ops.push(
        TokenOp::Transfer {
            from: TokenAccountRole::CollateralVault,
            to: TokenAccountRole::UserWsol,
            authority: Authority::Vault,
            amount,
        },
    );
    vault_state.total_borrowed_sol = vault_state.total_borrowed_sol + amount;
    position.borrowed_sol = position.borrowed_sol + amount;
    position.last_borrowed_timestamp = now;
    *user_position = position;
    Ok((ops, BorrowedSol { user: position.user, amount }))
}

/// The vault and the position after `amount` is repaid at `now`: both
/// debts shrink by `amount`, on top of accrual.
pub open spec fn repay_sol_state(
    vault: VaultState,
    position: UserPosition,
    now: i64,
    amount: u64,
) -> (VaultState, UserPosition) {
    let after = accrued(vault, position, now);
    (
        VaultState { total_borrowed_sol: (vault.total_borrowed_sol - amount) as u64, ..vault },
        UserPosition { borrowed_sol: (after.borrowed_sol - amount) as u64, ..after },
    )
}

/// Repaying `amount` would overflow: accrual overflows, or the user owes
/// at least `amount` but the vault's recorded debt is less than `amount`.
pub open spec fn repay_sol_overflows(
    vault: VaultState,
    position: UserPosition,
    isol_token_mint: Pubkey,
    now: i64,
    amount: u64,
) -> bool {
    &&& isol_token_mint == vault.isol_token_mint
    &&& {
        ||| accrual_overflows(vault, position, now)
        ||| accrued(vault, position, now).borrowed_sol >= amount && vault.total_borrowed_sol
            < amount
    }
}

/// Whether `repay_sol` would overflow (see `repay_sol_overflows`).
pub fn check_repay_sol_overflow(
    vault_state: &VaultState,
    user_position: &UserPosition,
    isol_token_mint: &Pubkey,
    now: i64,
    amount: u64,
) -> (overflows: bool)
    ensures
        overflows == repay_sol_overflows(
            *vault_state,
            *user_position,
            *isol_token_mint,
            now,
            amount,
        ),
        overflows == (*isol_token_mint == vault_state.isol_token_mint && (accrual_overflows(
            *vault_state,
            *user_position,
            now,
        ) || (accrued(*vault_state, *user_position, now).borrowed_sol >= amount
            && vault_state.total_borrowed_sol < amount))),
{
    if !isol_token_mint.same_key(&vault_state.isol_token_mint) {
        return false;
    }
    if check_accrual_overflow(vault_state, user_position, now) {
        return true;
    }
    let mut position = *user_position;
    let _ = add_interest_amount(vault_state, &mut position, isol_token_mint, now);
    position.borrowed_sol >= amount && vault_state.total_borrowed_sol < amount
}

/// Repays `amount` SOL, after accruing interest. The user must owe at
/// least `amount`; then the user's wrapped SOL moves into the vault and
/// the vault's and the user's debt shrink by `amount`. On an error
/// nothing changes.
pub fn repay_sol(
    vault_state: &mut VaultState,
    user_position: &mut UserPosition,
    isol_token_mint: &Pubkey,
    user: &Pubkey,
    now: i64,
    amount: u64,
) -> (r: Result<(Vec<TokenOp>, Repayed), ErrorCode>)
    requires
        !repay_sol_overflows(*old(vault_state), *old(user_position), *isol_token_mint, now, amount),
    ensures
        *isol_token_mint != old(vault_state).isol_token_mint ==> r == Err::<
            (Vec<TokenOp>, Repayed),
            ErrorCode,
        >(ErrorCode::InvalidMint),
        *isol_token_mint == old(vault_state).isol_token_mint && accrued(
            *old(vault_state),
            *old(user_position),
            now,
        ).borrowed_sol < amount ==> r == Err::<(Vec<TokenOp>, Repayed), ErrorCode>(
            ErrorCode::NothingToRepay,
        ),
        r is Err ==> *final(vault_state) == *old(vault_state) && *final(user_position) == *old(
            user_position,
        ),
        *isol_token_mint == old(vault_state).isol_token_mint && accrued(
            *old(vault_state),
            *old(user_position),
            now,
        ).borrowed_sol >= amount ==> {
            &&& r matches Ok(out) && out.0@ == seq![
                TokenOp::MintIsol { amount: deposit_interest(*old(vault_state), *old(user_position), now) },
                transfer(TokenAccountRole::UserWsol, TokenAccountRole::CollateralVault, Authority::User, amount),
            ] && out.1 == (Repayed { user: *user, amount })
            &&& (*final(vault_state), *final(user_position)) == repay_sol_state(
                *old(vault_state),
                *old(user_position),
                now,
                amount,
            )
        },
        (r is Ok) <==> (*isol_token_mint == old(vault_state).isol_token_mint && accrued(
            *old(vault_state),
            *old(user_position),
            now,
        ).borrowed_sol >= amount),
        r is Ok ==> {
            let after = accrued(*old(vault_state), *old(user_position), now);
            &&& final(vault_state).total_borrowed_sol == old(vault_state).total_borrowed_sol - amount
            &&& *final(vault_state) == (VaultState {
                total_borrowed_sol: final(vault_state).total_borrowed_sol,
                ..*old(vault_state)
            })
            &&& final(user_position).borrowed_sol == after.borrowed_sol - amount
            &&& *final(user_position) == (UserPosition {
                borrowed_sol: final(user_position).borrowed_sol,
                ..after
            })
            &&& r matches Ok(out) && out.0@.len() == 2 && out.0@[1] == (TokenOp::Transfer { from: TokenAccountRole::UserWsol, to: TokenAccountRole::CollateralVault, authority: Authority::User, amount })
        },
{
    let mut position = *user_position;
    let interest = match add_interest_amount(vault_state, &mut position, isol_token_mint, now) {
        Ok(minted) => minted,
        Err(e) => return Err(e),
    };
    if !(position.borrowed_sol >= amount) {
        return Err(ErrorCode::NothingToRepay);
    }
    let mut ops: Vec<TokenOp> = Vec::new();
    ops.push(TokenOp::MintIsol { amount: interest });
    ops.push(
        TokenOp::Transfer {
            from: TokenAccountRole::UserWsol,
            to: TokenAccountRole::CollateralVault,
            authority: Authority::User,
            amount,
        },
    );
    vault_state.total_borrowed_sol = vault_state.total_borrowed_sol - amount;
    position.borrowed_sol = position.borrowed_sol - amount;
    *user_position = position;
    Ok((ops, Repayed { user: *user, amount }))
}

/// Starts a liquidation, after accruing interest: the price account handed
/// in must be the expected feed, and the user must owe something. Returns
/// the interest mint and what the health check needs: the collateral and
/// the debt after accrual, the vault's liquidation threshold and its debt
/// rate. On an error nothing changes.
pub fn liquidate(
    vault_state: &VaultState,
    user_position: &mut UserPosition,
    isol_token_mint: &Pubkey,
    price_account: &Pubkey,
    expected_price_account: &Pubkey,
    now: i64,
) -> (r: Result<(Vec<TokenOp>, LiquidationCheck), ErrorCode>)
    requires
        *isol_token_mint == vault_state.isol_token_mint ==> !accrual_overflows(
            *vault_state,
            *old(user_position),
            now,
        ),
    ensures
        *isol_token_mint != vault_state.isol_token_mint ==> r == Err::<
            (Vec<TokenOp>, LiquidationCheck),
            ErrorCode,
        >(ErrorCode::InvalidMint),
        *isol_token_mint == vault_state.isol_token_mint && *price_account
            != *expected_price_account ==> r == Err::<(Vec<TokenOp>, LiquidationCheck), ErrorCode>(
            ErrorCode::InvalidPriceFeed,
        ),
        *isol_token_mint == vault_state.isol_token_mint && *price_account
            == *expected_price_account && accrued(*vault_state, *old(user_position), now).borrowed_sol
            == 0 ==> r == Err::<(Vec<TokenOp>, LiquidationCheck), ErrorCode>(
            ErrorCode::NothingToRepay,
        ),
        r is Err ==> *final(user_position) == *old(user_position),
        *isol_token_mint == vault_state.isol_token_mint && *price_account
            == *expected_price_account && accrued(*vault_state, *old(user_position), now).borrowed_sol
            > 0 ==> {
            let after = accrued(*vault_state, *old(user_position), now);
            &&& r matches Ok(out) && out.0@ == seq![
                TokenOp::MintIsol { amount: deposit_interest(*vault_state, *old(user_position), now) },
            ] && out.1 == (LiquidationCheck {
                collateral: after.collateralized_isol_tokens,
                borrowed: after.borrowed_sol,
                liquidation_threshold: vault_state.liquidation_threshold,
                debt_interest_rate: vault_state.debt_interest_rate,
            })
            &&& *final(user_position) == after
        },
        (r is Ok) <==> (*isol_token_mint == vault_state.isol_token_mint && *price_account
            == *expected_price_account && accrued(*vault_state, *old(user_position), now).borrowed_sol
            > 0),
        r matches Ok(out) ==> out.1.collateral == old(user_position).collateralized_isol_tokens
            && out.1.borrowed == final(user_position).borrowed_sol
            && out.1.liquidation_threshold == vault_state.liquidation_threshold
            && out.1.debt_interest_rate == vault_state.debt_interest_rate,
{
    let mut position = *user_position;
    let interest = match add_interest_amount(vault_state, &mut position, isol_token_mint, now) {
        Ok(minted) => minted,
        Err(e) => return Err(e),
    };
    if !price_account.same_key(expected_price_account) {
        return Err(ErrorCode::InvalidPriceFeed);
    }
    if !(position.borrowed_sol > 0) {
        return Err(ErrorCode::NothingToRepay);
    }
    let mut ops: Vec<TokenOp> = Vec::new();
    ops.push(TokenOp::MintIsol { amount: interest });
    let check = LiquidationCheck {
        collateral: position.collateralized_isol_tokens,
        borrowed: position.borrowed_sol,
        liquidation_threshold: vault_state.liquidation_threshold,
        debt_interest_rate: vault_state.debt_interest_rate,
    };
    *user_position = position;
    Ok((ops, check))
}

/// The position after a liquidation of `amount`: collateral and debt both
/// shrink by `amount`.
pub open spec fn settle_liquidation_position(position: UserPosition, amount: u64) -> UserPosition {
    UserPosition {
        collateralized_isol_tokens: (position.collateralized_isol_tokens - amount) as u64,
        borrowed_sol: (position.borrowed_sol - amount) as u64,
        ..position
    }
}

/// Settling a liquidation of `amount` would take more than the collateral
/// or the debt holds.
pub open spec fn settle_liquidation_underflows(position: UserPosition, amount: u64) -> bool {
    position.collateralized_isol_tokens < amount || position.borrowed_sol < amount
}

/// Whether `settle_liquidation` would underflow (see
/// `settle_liquidation_underflows`).
pub fn check_settle_liquidation_underflow(user_position: &UserPosition, amount: u64) -> (underflows:
    bool)
    ensures
        underflows == settle_liquidation_underflows(*user_position, amount),
        underflows == (user_position.collateralized_isol_tokens < amount
            || user_position.borrowed_sol < amount),
{
    user_position.collateralized_isol_tokens.checked_sub(amount).is_none()
        || user_position.borrowed_sol.checked_sub(amount).is_none()
}

/// Ends a liquidation that the health check approved: `amount` is taken
/// from both the collateral and the debt.
pub fn settle_liquidation(user_position: &mut UserPosition, amount: u64) -> (event: Liquidated)
    requires
        !settle_liquidation_underflows(*old(user_position), amount),
    ensures
        *final(user_position) == settle_liquidation_position(*old(user_position), amount),
        event == (Liquidated { user: old(user_position).user, amount }),
        final(user_position).collateralized_isol_tokens
            == old(user_position).collateralized_isol_tokens - amount,
        final(user_position).borrowed_sol == old(user_position).borrowed_sol - amount,
        *final(user_position) == (UserPosition {
            collateralized_isol_tokens: final(user_position).collateralized_isol_tokens,
            borrowed_sol: final(user_position).borrowed_sol,
            ..*old(user_position)
        }),
{
    user_position.collateralized_isol_tokens = user_position.collateralized_isol_tokens - amount;
    user_position.borrowed_sol = user_position.borrowed_sol - amount;
    Liquidated { user: user_position.user, amount }
}

/// The vault and the position after `amount` is withdrawn at `now`: both
/// deposit totals shrink by `amount`, on top of accrual.
pub open spec fn withdraw_state(
    vault: VaultState,
    position: UserPosition,
    now: i64,
    amount: u64,
) -> (VaultState, UserPosition) {
    let after = accrued(vault, position, now);
    (
        VaultState { total_deposited_sol: (vault.total_deposited_sol - amount) as u64, ..vault },
        UserPosition { deposited_sol: (after.deposited_sol - amount) as u64, ..after },
    )
}

/// Withdrawing `amount` would overflow: accrual overflows; the collateral
/// plus `amount` leaves `u64`; or the balance suffices but the vault's or
/// the user's deposit is less than `amount`.
pub open spec fn withdraw_overflows(
    vault: VaultState,
    position: UserPosition,
    isol_token_mint: Pubkey,
    user_isol_balance: u64,
    now: i64,
    amount: u64,
) -> bool {
    let after = accrued(vault, position, now);
    &&& isol_token_mint == vault.isol_token_mint
    &&& {
        ||| accrual_overflows(vault, position, now)
        ||| position.collateralized_isol_tokens + amount > u64::MAX
        ||| {
            &&& user_isol_balance >= position.collateralized_isol_tokens + amount
            &&& (vault.total_deposited_sol < amount || after.deposited_sol < amount)
        }
    }
}

/// Whether `withdraw` would overflow (see `withdraw_overflows`).
pub fn check_withdraw_overflow(
    vault_state: &VaultState,
    user_position: &UserPosition,
    isol_token_mint: &Pubkey,
    user_isol_balance: u64,
    now: i64,
    amount: u64,
) -> (overflows: bool)
    ensures
        overflows == withdraw_overflows(
            *vault_state,
            *user_position,
            *isol_token_mint,
            user_isol_balance,
            now,
            amount,
        ),
        overflows == (*isol_token_mint == vault_state.isol_token_mint && (accrual_overflows(
            *vault_state,
            *user_position,
            now,
        ) || user_position.collateralized_isol_tokens + amount > u64::MAX || (user_isol_balance
            >= user_position.collateralized_isol_tokens + amount && (vault_state.total_deposited_sol
            < amount || accrued(*vault_state, *user_position, now).deposited_sol < amount)))),
{
    if !isol_token_mint.same_key(&vault_state.isol_token_mint) {
        return false;
    }
    if check_accrual_overflow(vault_state, user_position, now) {
        return true;
    }
    let needed = match user_position.collateralized_isol_tokens.checked_add(amount) {
        Some(v) => v,
        None => return true,
    };
    if user_isol_balance < needed {
        return false;
    }
    let mut position = *user_position;
    let _ = add_interest_amount(vault_state, &mut position, isol_token_mint, now);
    vault_state.total_deposited_sol < amount || position.deposited_sol < amount
}

/// Withdraws `amount` deposited SOL, after accruing interest. The user's
/// iSOL balance (as read before the interest is minted) must cover the
/// locked collateral plus `amount`; then `amount` iSOL is burned, the vault
/// sends `amount` wrapped SOL to the user, and the vault's and the user's
/// deposits shrink by `amount`. On an error nothing changes.
pub fn withdraw(
    vault_state: &mut VaultState,
    user_position: &mut UserPosition,
    isol_token_mint: &Pubkey,
    user_isol_balance: u64,
    now: i64,
    amount: u64,
) -> (r: Result<(Vec<TokenOp>, Withdrew), ErrorCode>)
    requires
        !withdraw_overflows(
            *old(vault_state),
            *old(user_position),
            *isol_token_mint,
            user_isol_balance,
            now,
            amount,
        ),
    ensures
        *isol_token_mint != old(vault_state).isol_token_mint ==> r == Err::<
            (Vec<TokenOp>, Withdrew),
            ErrorCode,
        >(ErrorCode::InvalidMint),
        *isol_token_mint == old(vault_state).isol_token_mint && user_isol_balance < old(
            user_position,
        ).collateralized_isol_tokens + amount ==> r == Err::<(Vec<TokenOp>, Withdrew), ErrorCode>(
            ErrorCode::CannotWithdrawCollateral,
        ),
        r is Err ==> *final(vault_state) == *old(vault_state) && *final(user_position) == *old(
            user_position,
        ),
        *isol_token_mint == old(vault_state).isol_token_mint && user_isol_balance >= old(
            user_position,
        ).collateralized_isol_tokens + amount ==> {
            &&& r matches Ok(out) && out.0@ == seq![
                TokenOp::MintIsol { amount: deposit_interest(*old(vault_state), *old(user_position), now) },
                TokenOp::BurnIsol { amount },
                transfer(TokenAccountRole::CollateralVault, TokenAccountRole::UserWsol, Authority::Vault, amount),
            ] && out.1 == (Withdrew { user: old(user_position).user, amount })
            &&& (*final(vault_state), *final(user_position)) == withdraw_state(
                *old(vault_state),
                *old(user_position),
                now,
                amount,
            )
        },
        (r is Ok) <==> (*isol_token_mint == old(vault_state).isol_token_mint && user_isol_balance
            >= old(user_position).collateralized_isol_tokens + amount),
        r is Ok ==> {
            let after = accrued(*old(vault_state), *old(user_position), now);
            &&& final(vault_state).total_deposited_sol == old(vault_state).total_deposited_sol
                - amount
            &&& *final(vault_state) == (VaultState {
                total_deposited_sol: final(vault_state).total_deposited_sol,
                ..*old(vault_state)
            })
            &&& final(user_position).deposited_sol == after.deposited_sol - amount
            &&& final(user_position).borrowed_sol == after.borrowed_sol
            &&& final(user_position).collateralized_isol_tokens
                == old(user_position).collateralized_isol_tokens
            &&& final(user_position).last_borrowed_timestamp == now
            &&& *final(user_position) == (UserPosition {
                deposited_sol: final(user_position).deposited_sol,
                ..after
            })
            &&& r matches Ok(out) && out.0@.len() == 3 && out.0@[1] == (TokenOp::BurnIsol {
                amount,
            }) && out.0@[2] == (TokenOp::Transfer { from: TokenAccountRole::CollateralVault, to: TokenAccountRole::UserWsol, authority: Authority::Vault, amount })
        },
{
    let mut position = *user_position;
    let interest = match add_interest_amount(vault_state, &mut position, isol_token_mint, now) {
        Ok(minted) => minted,
        Err(e) => return Err(e),
    };
    if !(user_isol_balance >= position.collateralized_isol_tokens + amount) {
        return Err(ErrorCode::CannotWithdrawCollateral);
    }
    let mut ops: Vec<TokenOp> = Vec::new();
    ops.push(TokenOp::MintIsol { amount: interest });
    ops.push(TokenOp::BurnIsol { amount });
    ops.push(
        TokenOp::Transfer {
            from: TokenAccountRole::CollateralVault,
            to: TokenAccountRole::UserWsol,
            authority: Authority::Vault,
            amount,
        },
    );
    vault_state.total_deposited_sol = vault_state.total_deposited_sol - amount;
    position.deposited_sol = position.deposited_sol - amount;
    *user_position = position;
    Ok((ops, Withdrew { user: position.user, amount }))
}

} // verus!
