//! Why an instruction is refused.
use vstd::prelude::*;

verus! {

/// The program's own errors, in the order of their codes.
#[derive(Clone, Copy, Debug, PartialEq, Eq, Structural)]
pub enum SettlError {
    FeeTooHigh,
    MerchantIdTooLong,
    Unauthorized,
    NoWalletUpdatePending,
    WalletUpdateNotReady,
    ZeroAmount,
    ZeroBalance,
    MerchantMismatch,
    MerchantInactive,
    Overflow,
}

/// The text that a client shows for an error.
pub open spec fn message_of(error: SettlError) -> Seq<char> {
    match error {
        SettlError::FeeTooHigh => "Fee cannot exceed 10% (1000 basis points)"@,
        SettlError::MerchantIdTooLong => "Merchant ID must be 64 characters or fewer"@,
        SettlError::Unauthorized => "Unauthorized — only the Settl authority can call this"@,
        SettlError::NoWalletUpdatePending => "No wallet update is pending"@,
        SettlError::WalletUpdateNotReady => "24-hour wallet update delay has not passed yet"@,
        SettlError::ZeroAmount => "Amount must be greater than zero"@,
        SettlError::ZeroBalance => "No pending balance to release"@,
        SettlError::MerchantMismatch => "Merchant ID does not match this escrow"@,
        SettlError::MerchantInactive => "Merchant is inactive — not accepting payments"@,
        SettlError::Overflow => "Arithmetic overflow"@,
    }
}

impl SettlError {
    /// The text that a client shows for this error.
    pub fn message(self) -> (text: &'static str)
        ensures
            text@ == message_of(self),
    {
        match self {
            SettlError::FeeTooHigh => "Fee cannot exceed 10% (1000 basis points)",
            SettlError::MerchantIdTooLong => "Merchant ID must be 64 characters or fewer",
            SettlError::Unauthorized => "Unauthorized — only the Settl authority can call this",
            SettlError::NoWalletUpdatePending => "No wallet update is pending",
            SettlError::WalletUpdateNotReady => "24-hour wallet update delay has not passed yet",
            SettlError::ZeroAmount => "Amount must be greater than zero",
            SettlError::ZeroBalance => "No pending balance to release",
            SettlError::MerchantMismatch => "Merchant ID does not match this escrow",
            SettlError::MerchantInactive => "Merchant is inactive — not accepting payments",
            SettlError::Overflow => "Arithmetic overflow",
        }
    }
}

/// The accounts that an account constraint can name in its error.
#[derive(Clone, Copy, Debug, PartialEq, Eq, Structural)]
pub enum AccountName {
    Config,
    Merchant,
    Escrow,
    Vault,
    MerchantAta,
    TreasuryAta,
}

/// Why an instruction as a whole is refused: by a constraint on one of its
/// accounts, or by its handler.
#[derive(Clone, Copy, Debug, PartialEq, Eq, Structural)]
pub enum InstructionError {
    /// The account is not the one whose address its seeds derive.
    ConstraintSeeds(AccountName),
    /// No bump turns the account's seeds into a program address, so the account
    /// can never be created. On chain the program aborts here.
    NoProgramAddress(AccountName),
    /// The token account is not owned by the wallet that it has to belong to.
    ConstraintTokenOwner(AccountName),
    /// The account was refused with one of the program's errors.
    Account(AccountName, SettlError),
    /// The handler refused the instruction.
    Handler(SettlError),
}

} // verus!
