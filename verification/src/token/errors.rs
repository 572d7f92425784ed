//! Error types for the invoice token.
use vstd::prelude::*;

verus! {

/// Errors that can occur during token operations.
#[derive(Clone, Copy, Debug, PartialEq, Eq, Structural)]
pub enum Error {
    /// Contract has already been initialized.
    AlreadyInit,
    /// Contract has not been initialized.
    NotInit,
    /// Caller is not authorized (e.g. not admin or minter).
    Unauthorized,
    /// No admin is recorded for the role.
    RoleNotGranted,
    /// Amount is zero or negative.
    InvalidAmount,
    /// Insufficient balance for transfer or burn.
    InsufficientBalance,
    /// The balance covers the amount but not the amount plus the transfer fee.
    InsufficientBalanceForFee,
    /// Insufficient allowance for transfer_from or burn_from.
    InsufficientAllowance,
    /// Allowance has expired (expiration_ledger passed).
    AllowanceExpired,
    /// Transfers are locked (pre-settlement restriction).
    TransferLocked,
    /// Arithmetic overflow.
    Overflow,
    /// Approval expiration_ledger must be >= current ledger unless setting amount to 0.
    InvalidExpiration,
    /// Contract is paused and the requested operation is temporarily disabled.
    Paused,
    /// Token decimals exceed the supported sub-asset precision.
    InvalidDecimals,
    /// Token name or symbol metadata is empty.
    InvalidMetadata,
    /// No allowance exists for (from, spender), so its expiration cannot be extended.
    AllowanceNotFound,
    /// Batch length mismatch between addresses and amounts.
    BatchLengthMismatch,
    /// Fee basis points exceed maximum.
    InvalidFeeBps,
    /// The account is frozen.
    AccountFrozen,
    /// The account is not frozen.
    AccountNotFrozen,
    /// The address is the all-zero address.
    InvalidAddress,
}

impl Error {
    /// The numeric code under which the error reaches clients.
    pub open spec fn spec_code(&self) -> u32 {
        match self {
            Error::AlreadyInit => 1,
            Error::NotInit => 2,
            Error::Unauthorized => 3,
            Error::RoleNotGranted => 4,
            Error::InvalidAmount => 5,
            Error::InsufficientBalance => 6,
            Error::InsufficientBalanceForFee => 7,
            Error::InsufficientAllowance => 8,
            Error::AllowanceExpired => 9,
            Error::TransferLocked => 10,
            Error::Overflow => 11,
            Error::InvalidExpiration => 12,
            Error::Paused => 13,
            Error::InvalidDecimals => 14,
            Error::InvalidMetadata => 15,
            Error::AllowanceNotFound => 16,
            Error::BatchLengthMismatch => 17,
            Error::InvalidFeeBps => 18,
            Error::AccountFrozen => 19,
            Error::AccountNotFrozen => 20,
            Error::InvalidAddress => 21,
        }
    }

    /// The numeric code under which the error reaches clients.
    #[verifier::when_used_as_spec(spec_code)]
    pub fn code(&self) -> (c: u32)
        ensures
            c == self.spec_code(),
    {
        match self {
            Error::AlreadyInit => 1,
            Error::NotInit => 2,
            Error::Unauthorized => 3,
            Error::RoleNotGranted => 4,
            Error::InvalidAmount => 5,
            Error::InsufficientBalance => 6,
            Error::InsufficientBalanceForFee => 7,
            Error::InsufficientAllowance => 8,
            Error::AllowanceExpired => 9,
            Error::TransferLocked => 10,
            Error::Overflow => 11,
            Error::InvalidExpiration => 12,
            Error::Paused => 13,
            Error::InvalidDecimals => 14,
            Error::InvalidMetadata => 15,
            Error::AllowanceNotFound => 16,
            Error::BatchLengthMismatch => 17,
            Error::InvalidFeeBps => 18,
            Error::AccountFrozen => 19,
            Error::AccountNotFrozen => 20,
            Error::InvalidAddress => 21,
        }
    }
}

} // verus!
