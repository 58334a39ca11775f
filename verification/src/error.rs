//! Errors of the cash link program.

use vstd::prelude::*;

verus! {

/// What can go wrong in the cash link program. The position of a variant in
/// this list is its error code.
#[derive(Debug, Clone, Copy, PartialEq, Eq, Structural)]
pub enum CashError {
    /// An account is not owned by the program or wallet that must own it.
    InvalidOwner,
    /// The mint does not match the mint of the vault.
    InvalidMint,
    InvalidInstruction,
    NotRentExempt,
    ExpectedAmountMismatch,
    InvalidAuthorityId,
    AmountOverflow,
    /// The cash link is fully redeemed, or has redemptions and cannot be closed.
    AccountAlreadyRedeemed,
    /// The cash link was cancelled after its deadline.
    AccountAlreadyExpired,
    FeeOverflow,
    AccountNotRedeemedOrInitialized,
    AccountNotRedeemedOrCanceled,
    /// The cash link has not been cancelled yet.
    AccountNotExpired,
    AccountNotInitialized,
    InvalidDepositKey,
    InvalidWithdrawKey,
    InvalidEscrowKey,
    InvalidVaultOwner,
    InvalidVaultTokenOwner,
    InvalidVaultToken,
    InvalidSrcTokenOwner,
    InvalidDstTokenOwner,
    InvalidFeeTokenOwner,
    InvalidDepositTokenOwner,
    InvalidWithdrawTokenOwner,
    AccountAlreadyClosed,
    AccountInvalidState,
    /// The vault holds less than a settlement needs.
    InsufficientSettlementFunds,
    /// A checked operation left the range of its type.
    Overflow,
    Underflow,
    /// Every redemption slot is used.
    MaxRedemptionsReached,
    /// Nothing of the principal is left.
    NoRemainingAmount,
    InvalidSlotHashProgram,
    InvalidAmount,
    InvalidNumberOfRedemptions,
    MinAmountNotSet,
    MinAmountMustBeLessThanAmount,
    InvalidExpiryInDays,
    /// A redemption came after the deadline.
    CashlinkExpired,
    /// A cancellation came before the deadline had passed.
    CashlinkNotExpired,
    /// Fingerprinting is enabled and the redemption carries no fingerprint bump.
    FingerprintBumpNotFound,
    /// Fingerprinting is enabled and the redemption carries no fingerprint.
    FingerprintFound,
    InvalidFingerprint,
    InvalidCashLinkReference,
    InvalidPassKey,
}

impl CashError {
    /// The error code: the position of the variant, counted from zero.
    pub open spec fn spec_code(self) -> u32 {
        match self {
            CashError::InvalidOwner => 0,
            CashError::InvalidMint => 1,
            CashError::InvalidInstruction => 2,
            CashError::NotRentExempt => 3,
            CashError::ExpectedAmountMismatch => 4,
            CashError::InvalidAuthorityId => 5,
            CashError::AmountOverflow => 6,
            CashError::AccountAlreadyRedeemed => 7,
            CashError::AccountAlreadyExpired => 8,
            CashError::FeeOverflow => 9,
            CashError::AccountNotRedeemedOrInitialized => 10,
            CashError::AccountNotRedeemedOrCanceled => 11,
            CashError::AccountNotExpired => 12,
            CashError::AccountNotInitialized => 13,
            CashError::InvalidDepositKey => 14,
            CashError::InvalidWithdrawKey => 15,
            CashError::InvalidEscrowKey => 16,
            CashError::InvalidVaultOwner => 17,
            CashError::InvalidVaultTokenOwner => 18,
            CashError::InvalidVaultToken => 19,
            CashError::InvalidSrcTokenOwner => 20,
            CashError::InvalidDstTokenOwner => 21,
            CashError::InvalidFeeTokenOwner => 22,
            CashError::InvalidDepositTokenOwner => 23,
            CashError::InvalidWithdrawTokenOwner => 24,
            CashError::AccountAlreadyClosed => 25,
            CashError::AccountInvalidState => 26,
            CashError::InsufficientSettlementFunds => 27,
            CashError::Overflow => 28,
            CashError::Underflow => 29,
            CashError::MaxRedemptionsReached => 30,
            CashError::NoRemainingAmount => 31,
            CashError::InvalidSlotHashProgram => 32,
            CashError::InvalidAmount => 33,
            CashError::InvalidNumberOfRedemptions => 34,
            CashError::MinAmountNotSet => 35,
            CashError::MinAmountMustBeLessThanAmount => 36,
            CashError::InvalidExpiryInDays => 37,
            CashError::CashlinkExpired => 38,
            CashError::CashlinkNotExpired => 39,
            CashError::FingerprintBumpNotFound => 40,
            CashError::FingerprintFound => 41,
            CashError::InvalidFingerprint => 42,
            CashError::InvalidCashLinkReference => 43,
            CashError::InvalidPassKey => 44,
        }
    }

    /// The text that describes the error.
    pub open spec fn spec_message(self) -> Seq<char> {
        match self {
            CashError::InvalidOwner => "Invalid Owner"@,
            CashError::InvalidMint => "Invalid Mint"@,
            CashError::InvalidInstruction => "Invalid Instruction"@,
            CashError::NotRentExempt => "No rent exemption"@,
            CashError::ExpectedAmountMismatch => "Amount mismatch"@,
            CashError::InvalidAuthorityId => "Authority is invalid"@,
            CashError::AmountOverflow => "Amount overflow"@,
            CashError::AccountAlreadyRedeemed => "Account already settled"@,
            CashError::AccountAlreadyExpired => "Account already canceled"@,
            CashError::FeeOverflow => "Fee overflow"@,
            CashError::AccountNotRedeemedOrInitialized => "Account not redeemed or initialized"@,
            CashError::AccountNotRedeemedOrCanceled => "Account not redeemed or canceled"@,
            CashError::AccountNotExpired => "Account not canceled"@,
            CashError::AccountNotInitialized => "Account not initialized"@,
            CashError::InvalidDepositKey => "Invalid deposit key"@,
            CashError::InvalidWithdrawKey => "Invalid withdraw key"@,
            CashError::InvalidEscrowKey => "Invalid escrow key"@,
            CashError::InvalidVaultOwner => "Invalid vault owner"@,
            CashError::InvalidVaultTokenOwner => "Invalid vault token owner"@,
            CashError::InvalidVaultToken => "Invalid vault token"@,
            CashError::InvalidSrcTokenOwner => "Invalid source token owner"@,
            CashError::InvalidDstTokenOwner => "Invalid token owner"@,
            CashError::InvalidFeeTokenOwner => "Invalid fee token owner"@,
            CashError::InvalidDepositTokenOwner => "Invalid deposit token owner"@,
            CashError::InvalidWithdrawTokenOwner => "Invalid withdraw token owner"@,
            CashError::AccountAlreadyClosed => "Account is closed"@,
            CashError::AccountInvalidState => "Account is in an invalid state"@,
            CashError::InsufficientSettlementFunds => "Insufficient funds for settlement"@,
            CashError::Overflow => "Overflow"@,
            CashError::Underflow => "Underflow"@,
            CashError::MaxRedemptionsReached => "MaxRedemptionsReached"@,
            CashError::NoRemainingAmount => "NoRemainingAmount"@,
            CashError::InvalidSlotHashProgram => "InvalidSlotHashProgram"@,
            CashError::InvalidAmount => "InvalidAmount"@,
            CashError::InvalidNumberOfRedemptions => "InvalidNumberOfRedemptions"@,
            CashError::MinAmountNotSet => "Minimum amount must be set for random distribution"@,
            CashError::MinAmountMustBeLessThanAmount => "Minimum amount must be less than amount"@,
            CashError::InvalidExpiryInDays => "Number of days must be greater than 0"@,
            CashError::CashlinkExpired => "Cash link has expired"@,
            CashError::CashlinkNotExpired => "Cash link has not expired"@,
            CashError::FingerprintBumpNotFound => "Fingerprint bump cannot be null"@,
            CashError::FingerprintFound => "Required Fingerprint was not found"@,
            CashError::InvalidFingerprint => "Invalid fingerprint"@,
            CashError::InvalidCashLinkReference => "Cashink reference must be a valid base58 character"@,
            CashError::InvalidPassKey => "Pass Key is invalid"@,
        }
    }

    /// The code under which the error is reported to the caller of the program.
    pub fn code(&self) -> (c: u32)
        ensures
            c == self.spec_code(),
            c < 45,
    {
        match self {
            CashError::InvalidOwner => 0,
            CashError::InvalidMint => 1,
            CashError::InvalidInstruction => 2,
            CashError::NotRentExempt => 3,
            CashError::ExpectedAmountMismatch => 4,
            CashError::InvalidAuthorityId => 5,
            CashError::AmountOverflow => 6,
            CashError::AccountAlreadyRedeemed => 7,
            CashError::AccountAlreadyExpired => 8,
            CashError::FeeOverflow => 9,
            CashError::AccountNotRedeemedOrInitialized => 10,
            CashError::AccountNotRedeemedOrCanceled => 11,
            CashError::AccountNotExpired => 12,
            CashError::AccountNotInitialized => 13,
            CashError::InvalidDepositKey => 14,
            CashError::InvalidWithdrawKey => 15,
            CashError::InvalidEscrowKey => 16,
            CashError::InvalidVaultOwner => 17,
            CashError::InvalidVaultTokenOwner => 18,
            CashError::InvalidVaultToken => 19,
            CashError::InvalidSrcTokenOwner => 20,
            CashError::InvalidDstTokenOwner => 21,
            CashError::InvalidFeeTokenOwner => 22,
            CashError::InvalidDepositTokenOwner => 23,
            CashError::InvalidWithdrawTokenOwner => 24,
            CashError::AccountAlreadyClosed => 25,
            CashError::AccountInvalidState => 26,
            CashError::InsufficientSettlementFunds => 27,
            CashError::Overflow => 28,
            CashError::Underflow => 29,
            CashError::MaxRedemptionsReached => 30,
            CashError::NoRemainingAmount => 31,
            CashError::InvalidSlotHashProgram => 32,
            CashError::InvalidAmount => 33,
            CashError::InvalidNumberOfRedemptions => 34,
            CashError::MinAmountNotSet => 35,
            CashError::MinAmountMustBeLessThanAmount => 36,
            CashError::InvalidExpiryInDays => 37,
            CashError::CashlinkExpired => 38,
            CashError::CashlinkNotExpired => 39,
            CashError::FingerprintBumpNotFound => 40,
            CashError::FingerprintFound => 41,
            CashError::InvalidFingerprint => 42,
            CashError::InvalidCashLinkReference => 43,
            CashError::InvalidPassKey => 44,
        }
    }

    /// The text that describes the error.
    pub fn message(&self) -> (text: &'static str)
        ensures
            text@ == self.spec_message(),
    {
        match self {
            CashError::InvalidOwner => "Invalid Owner",
            CashError::InvalidMint => "Invalid Mint",
            CashError::InvalidInstruction => "Invalid Instruction",
            CashError::NotRentExempt => "No rent exemption",
            CashError::ExpectedAmountMismatch => "Amount mismatch",
            CashError::InvalidAuthorityId => "Authority is invalid",
            CashError::AmountOverflow => "Amount overflow",
            CashError::AccountAlreadyRedeemed => "Account already settled",
            CashError::AccountAlreadyExpired => "Account already canceled",
            CashError::FeeOverflow => "Fee overflow",
            CashError::AccountNotRedeemedOrInitialized => "Account not redeemed or initialized",
            CashError::AccountNotRedeemedOrCanceled => "Account not redeemed or canceled",
            CashError::AccountNotExpired => "Account not canceled",
            CashError::AccountNotInitialized => "Account not initialized",
            CashError::InvalidDepositKey => "Invalid deposit key",
            CashError::InvalidWithdrawKey => "Invalid withdraw key",
            CashError::InvalidEscrowKey => "Invalid escrow key",
            CashError::InvalidVaultOwner => "Invalid vault owner",
            CashError::InvalidVaultTokenOwner => "Invalid vault token owner",
            CashError::InvalidVaultToken => "Invalid vault token",
            CashError::InvalidSrcTokenOwner => "Invalid source token owner",
            CashError::InvalidDstTokenOwner => "Invalid token owner",
            CashError::InvalidFeeTokenOwner => "Invalid fee token owner",
            CashError::InvalidDepositTokenOwner => "Invalid deposit token owner",
            CashError::InvalidWithdrawTokenOwner => "Invalid withdraw token owner",
            CashError::AccountAlreadyClosed => "Account is closed",
            CashError::AccountInvalidState => "Account is in an invalid state",
            CashError::InsufficientSettlementFunds => "Insufficient funds for settlement",
            CashError::Overflow => "Overflow",
            CashError::Underflow => "Underflow",
            CashError::MaxRedemptionsReached => "MaxRedemptionsReached",
            CashError::NoRemainingAmount => "NoRemainingAmount",
            CashError::InvalidSlotHashProgram => "InvalidSlotHashProgram",
            CashError::InvalidAmount => "InvalidAmount",
            CashError::InvalidNumberOfRedemptions => "InvalidNumberOfRedemptions",
            CashError::MinAmountNotSet => "Minimum amount must be set for random distribution",
            CashError::MinAmountMustBeLessThanAmount => "Minimum amount must be less than amount",
            CashError::InvalidExpiryInDays => "Number of days must be greater than 0",
            CashError::CashlinkExpired => "Cash link has expired",
            CashError::CashlinkNotExpired => "Cash link has not expired",
            CashError::FingerprintBumpNotFound => "Fingerprint bump cannot be null",
            CashError::FingerprintFound => "Required Fingerprint was not found",
            CashError::InvalidFingerprint => "Invalid fingerprint",
            CashError::InvalidCashLinkReference => "Cashink reference must be a valid base58 character",
            CashError::InvalidPassKey => "Pass Key is invalid",
        }
    }
}

/// Distinct errors have distinct codes.
pub proof fn lemma_code_injective(a: CashError, b: CashError)
    ensures
        a.spec_code() == b.spec_code() <==> a == b,
{
}

/// Why an instruction was refused.
#[derive(Debug, Clone, Copy, PartialEq, Eq, Structural)]
pub enum ProcessError {
    /// An error of the cash link program itself.
    Cash(CashError),
    /// An account that must sign did not.
    MissingRequiredSignature,
    /// An account that must be empty already holds a record.
    AccountAlreadyInitialized,
    /// An account is not the one expected in its place.
    InvalidArgument,
    /// An account holds too little to be exempt from rent.
    AccountNotRentExempt,
    /// An account's data does not have the layout of the record read from it.
    InvalidAccountData,
    /// The instruction names fewer accounts than it needs.
    NotEnoughAccountKeys,
    /// A record's bytes do not decode.
    BorshIoError,
}

} // verus!
