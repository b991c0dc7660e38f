//! Verified core of the vaultix lending vault: account state, interest
//! accrual, and the decision logic of each instruction.
pub mod instructions;
pub mod interest;
pub mod laws;
pub mod oracle;
pub mod types;

pub use instructions::{
    add_collateral, borrow_sol, check_add_collateral_overflow, check_borrow_sol_overflow,
    check_deposit_sol_overflow, check_repay_sol_overflow, check_settle_liquidation_underflow,
    check_withdraw_overflow, deposit_sol, init_user_position, init_vault, liquidate, repay_sol,
    settle_liquidation, withdraw, LiquidationCheck, DEBT_INTEREST_RATE, INTEREST_RATE,
    LIQUIDATION_THRESHOLD,
};
pub use interest::{add_interest_amount, check_accrual_overflow, interest_amount, SECONDS_IN_YEAR};
pub use oracle::{
    check_current_price_overflow, current_price, expected_price_feed, OraclePrice, PriceFeedData,
    MAX_PRICE_AGE,
};
pub use types::{
    Authority, BorrowedSol, CollateralAdded, CreateVault, Deposit, ErrorCode, Liquidated, Pubkey,
    Repayed, TokenAccountRole, TokenOp, UserPosition, VaultState, Withdrew,
};
