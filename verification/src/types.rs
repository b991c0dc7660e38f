use vstd::prelude::*;

verus! {

broadcast use vstd::array::group_array_axioms;

/// A 32-byte account address, held as its raw bytes.
#[derive(Clone, Copy, Debug, PartialEq, Eq)]
pub struct Pubkey {
    pub bytes: [u8; 32],
}

impl Pubkey {
    /// Builds a key from its 32 bytes.
    pub fn new_from_array(bytes: [u8; 32]) -> (key: Pubkey)
        ensures
            key.bytes == bytes,
    {
        Pubkey { bytes }
    }

    /// The 32 bytes of the key.
    pub fn to_bytes(&self) -> (bytes: [u8; 32])
        ensures
            bytes == self.bytes,
    {
        self.bytes
    }

    /// Whether two keys are the same address.
    pub fn same_key(&self, other: &Pubkey) -> (same: bool)
        ensures
            same == (*self == *other),
    {
        let mut i: usize = 0;
        while i < 32
            invariant
                i <= 32,
                forall|j: int| 0 <= j < i ==> self.bytes[j] == other.bytes[j],
            decreases 32 - i,
        {
            if self.bytes[i] != other.bytes[i] {
                return false;
            }
            i = i + 1;
        }
        assert(self.bytes =~= other.bytes);
        true
    }
}


/// The vault's global account: who runs it, which accounts it owns, its
/// running totals and its rates (percent per year).
#[derive(Clone, Copy, Debug, PartialEq, Eq)]
pub struct VaultState {
    pub admin: Pubkey,
    pub collateral_vault: Pubkey,
    pub isol_token_mint: Pubkey,
    pub total_deposited_sol: u64,
    pub total_borrowed_sol: u64,
    /// Yearly interest, in percent, paid on deposited SOL.
    pub interest_rate: u64,
    /// Yearly interest, in percent, charged on borrowed SOL.
    pub debt_interest_rate: u64,
    /// Share of the collateral, in percent, that counts toward a loan's health.
    pub liquidation_threshold: u64,
    pub bump: u8,
}

/// One user's account with the vault.
#[derive(Clone, Copy, Debug, PartialEq, Eq)]
pub struct UserPosition {
    pub user: Pubkey,
    /// SOL deposited, which equals the iSOL issued for it (one to one).
    pub deposited_sol: u64,
    pub borrowed_sol: u64,
    /// iSOL held by the vault as collateral for this user.
    pub collateralized_isol_tokens: u64,
    /// Unix time up to which interest has been accrued.
    pub last_borrowed_timestamp: i64,
    pub bump: u8,
}

/// The ways an instruction is refused.
#[derive(Clone, Copy, Debug, PartialEq, Eq, Structural)]
pub enum ErrorCode {
    InsufficientCollateral,
    NothingToRepay,
    CannotWithdrawCollateral,
    InvalidMint,
    InvalidPriceFeed,
}

impl ErrorCode {
    /// The message that the program reports with the error.
    pub fn message(&self) -> (msg: &'static str)
        ensures
            msg@ == (match *self {
                ErrorCode::InsufficientCollateral => "User has insufficient collateral"@,
                ErrorCode::NothingToRepay => "User has nothing to repay"@,
                ErrorCode::CannotWithdrawCollateral => "Cannot withdraw collateral"@,
                ErrorCode::InvalidMint => "Invalid mint"@,
                ErrorCode::InvalidPriceFeed => "Invalid price feed"@,
            }),
    {
        match self {
            ErrorCode::InsufficientCollateral => "User has insufficient collateral",
            ErrorCode::NothingToRepay => "User has nothing to repay",
            ErrorCode::CannotWithdrawCollateral => "Cannot withdraw collateral",
            ErrorCode::InvalidMint => "Invalid mint",
            ErrorCode::InvalidPriceFeed => "Invalid price feed",
        }
    }
}

/// A token account that an instruction moves tokens between.
#[derive(Clone, Copy, Debug, PartialEq, Eq, Structural)]
pub enum TokenAccountRole {
    /// The user's wrapped-SOL account.
    UserWsol,
    /// The user's iSOL account.
    UserIsol,
    /// The vault's own token account.
    CollateralVault,
}

/// Who signs a token movement.
#[derive(Clone, Copy, Debug, PartialEq, Eq, Structural)]
pub enum Authority {
    /// The user who sent the instruction.
    User,
    /// The vault state account, signing with its derived address.
    Vault,
}

/// A token-program call that an instruction makes, in order.
#[derive(Clone, Copy, Debug, PartialEq, Eq, Structural)]
pub enum TokenOp {
    Transfer { from: TokenAccountRole, to: TokenAccountRole, authority: Authority, amount: u64 },
    /// Mint iSOL into the user's iSOL account, signed by the vault.
    MintIsol { amount: u64 },
    /// Burn iSOL from the user's iSOL account, signed by the user.
    BurnIsol { amount: u64 },
}

/// Emitted when the vault is created.
#[derive(Clone, Copy, Debug, PartialEq, Eq)]
pub struct CreateVault {
    pub admin: Pubkey,
    pub collateral_vault: Pubkey,
    pub isol_token_mint: Pubkey,
    pub interest_rate: u64,
    pub debt_interest_rate: u64,
    pub liquidation_threshold: u64,
}

/// Emitted on a deposit of SOL.
#[derive(Clone, Copy, Debug, PartialEq, Eq)]
pub struct Deposit {
    pub user: Pubkey,
    pub amount: u64,
}

/// Emitted when iSOL is locked as collateral.
#[derive(Clone, Copy, Debug, PartialEq, Eq)]
pub struct CollateralAdded {
    pub user: Pubkey,
    pub amount: u64,
}

/// Emitted when SOL is borrowed.
#[derive(Clone, Copy, Debug, PartialEq, Eq)]
pub struct BorrowedSol {
    pub user: Pubkey,
    pub amount: u64,
}

/// Emitted when borrowed SOL is paid back.
#[derive(Clone, Copy, Debug, PartialEq, Eq)]
pub struct Repayed {
    pub user: Pubkey,
    pub amount: u64,
}

/// Emitted when a position is liquidated.
#[derive(Clone, Copy, Debug, PartialEq, Eq)]
pub struct Liquidated {
    pub user: Pubkey,
    /// Amount taken from both the collateral and the debt.
    pub amount: u64,
}

/// Emitted when deposited SOL is withdrawn.
#[derive(Clone, Copy, Debug, PartialEq, Eq)]
pub struct Withdrew {
    pub user: Pubkey,
    pub amount: u64,
}

} // verus!
