//! Error types for the invoice escrow.
use vstd::prelude::*;

verus! {

/// Errors that can occur during contract execution.
#[derive(Clone, Copy, Debug, PartialEq, Eq, Structural)]
pub enum Error {
    /// Contract has already been initialized.
    AlreadyInit,
    /// Contract has not been initialized.
    NotInit,
    /// Caller is not authorized (e.g. not admin).
    Unauthorized,
    /// Amount is zero or negative.
    InvalidAmount,
    /// Platform fee basis points exceed 10000 (100%), or an emergency threshold is invalid.
    InvalidFeeBps,
    /// No escrow (or funding invoice) exists for the given invoice.
    EscrowNotFound,
    /// Escrow (or funding invoice) already exists for this invoice (duplicate create).
    EscrowExists,
    /// Escrow has already been funded.
    EscrowFunded,
    /// Escrow has not been funded yet.
    EscrowNotFunded,
    /// Payment has already been settled or escrow refunded.
    AlreadySettled,
    /// Refund not allowed (e.g. not past due date or wrong status).
    RefundNotAllowed,
    /// Token transfer failed (e.g. insufficient balance).
    TransferFailed,
    /// Arithmetic overflow or invalid operation.
    Overflow,
    /// Escrow has been cancelled by the seller.
    EscrowCancelled,
    /// Contract is paused and the requested operation is temporarily disabled.
    Paused,
    /// Payer is not the authorized debtor for this invoice.
    InvalidPayer,
    /// Due date is invalid (e.g., in the past or zero).
    InvalidDueDate,
    /// Asset decimals for payment token and invoice token do not align.
    InvalidAssetDecimals,
    /// Nonce has already been consumed by a prior signed off-chain approval (replay attempt).
    NonceAlreadyUsed,
    /// Escrow is not yet in a terminal state (Settled, Refunded, or Cancelled) and cannot be cleaned up.
    EscrowNotSettled,
    /// Buyer is not whitelisted to fund escrows.
    NotWhitelisted,
    /// Off-chain signature has expired (timestamp too old).
    SignatureExpired,
    /// Funding amount does not meet the required milestone threshold.
    InvalidMilestoneAmount,
    /// Cannot cancel because escrow is not in the correct state.
    CancelNotAllowed,
    /// Penalty configuration is invalid (e.g. rate exceeds maximum).
    InvalidPenaltyConfig,
    /// Payment token contract is invalid or does not implement the token interface.
    InvalidPaymentToken,
    /// Invoice token contract is invalid or does not implement the required interface.
    InvalidInvoiceToken,
    /// Payment token and invoice token must be different contracts.
    IdenticalTokens,
    /// Investor has no position for this invoice.
    NoPositionFound,
    /// Invoice status does not allow this operation.
    InvalidInvoiceStatus,
    /// Remaining position after withdrawal is below the minimum investment floor.
    BelowMinimumInvestment,
    /// Maximum number of investors reached for this invoice.
    MaxInvestorsReached,
    /// Funding target has not yet been reached.
    FundingTargetNotReached,
    /// Deposit amount is zero (dust prevention: use a positive amount).
    ZeroAmount,
    /// Deposit amount is below the configured minimum investment.
    AmountBelowMinimum,
    /// Address is the zero address (all-zero 32-byte key).
    InvalidAddress,
    /// Escrow duration is outside the allowed [MIN, MAX] window.
    InvalidDuration,
    /// Caller is not a member of the emergency admin multi-sig set.
    NotEmergencyAdmin,
    /// Caller has already approved this emergency release (duplicate).
    AlreadyApproved,
    /// Emergency release threshold has not been reached yet.
    ThresholdNotMet,
    /// Emergency multi-sig config has not been set.
    EmergencyNotConfigured,
    /// Fee configuration is invalid (e.g. rate exceeds maximum).
    FeeTooHigh,
    /// Pagination limit is invalid (zero).
    InvalidLimit,
    /// Pagination limit exceeds maximum allowed page size.
    LimitExceeded,
    /// Invoice with the given ID already exists.
    InvoiceAlreadyExists,
    /// Yield basis points is invalid (must be between 1 and 5000).
    InvalidYield,
    /// Funding deadline has not passed yet.
    FundingDeadlineNotPassed,
    /// Repayment amount is less than the total raised amount.
    InsufficientRepayment,
    /// New funding deadline must be greater than the current deadline.
    DeadlineNotExtended,
    /// The escrow is not under dispute.
    NotDisputed,
    /// The dispute has already been resolved.
    AlreadyResolved,
}

impl Error {
    /// The numeric code under which the error reaches clients.
    /// Codes are not all distinct: a few pairs of errors share one.
    pub open spec fn spec_code(&self) -> u32 {
        match self {
            Error::AlreadyInit => 1,
            Error::NotInit => 2,
            Error::Unauthorized => 3,
            Error::InvalidAmount => 4,
            Error::InvalidFeeBps => 5,
            Error::EscrowNotFound => 6,
            Error::EscrowExists => 7,
            Error::EscrowFunded => 8,
            Error::EscrowNotFunded => 9,
            Error::AlreadySettled => 10,
            Error::RefundNotAllowed => 11,
            Error::TransferFailed => 12,
            Error::Overflow => 13,
            Error::EscrowCancelled => 14,
            Error::Paused => 15,
            Error::InvalidPayer => 16,
            Error::InvalidDueDate => 17,
            Error::InvalidAssetDecimals => 18,
            Error::NonceAlreadyUsed => 19,
            Error::EscrowNotSettled => 20,
            Error::NotWhitelisted => 21,
            Error::SignatureExpired => 22,
            Error::InvalidMilestoneAmount => 23,
            Error::CancelNotAllowed => 24,
            Error::InvalidPenaltyConfig => 25,
            Error::InvalidPaymentToken => 26,
            Error::InvalidInvoiceToken => 27,
            Error::IdenticalTokens => 28,
            Error::NoPositionFound => 29,
            Error::InvalidInvoiceStatus => 30,
            Error::BelowMinimumInvestment => 31,
            Error::MaxInvestorsReached => 32,
            Error::FundingTargetNotReached => 33,
            Error::ZeroAmount => 33,
            Error::AmountBelowMinimum => 34,
            Error::InvalidAddress => 35,
            Error::InvalidDuration => 36,
            Error::NotEmergencyAdmin => 37,
            Error::AlreadyApproved => 38,
            Error::ThresholdNotMet => 39,
            Error::EmergencyNotConfigured => 40,
            Error::FeeTooHigh => 43,
            Error::InvalidLimit => 41,
            Error::LimitExceeded => 42,
            Error::InvoiceAlreadyExists => 39,
            Error::InvalidYield => 40,
            Error::FundingDeadlineNotPassed => 41,
            Error::InsufficientRepayment => 44,
            Error::DeadlineNotExtended => 45,
            Error::NotDisputed => 46,
            Error::AlreadyResolved => 47,
        }
    }

    /// The numeric code under which the error reaches clients.
    #[verifier::when_used_as_spec(spec_code)]
    pub fn code(&self) -> (c: u32)
        ensures
            c == self.spec_code(),
    {
        match self {
            Error::AlreadyInit => 1,
            Error::NotInit => 2,
            Error::Unauthorized => 3,
            Error::InvalidAmount => 4,
            Error::InvalidFeeBps => 5,
            Error::EscrowNotFound => 6,
            Error::EscrowExists => 7,
            Error::EscrowFunded => 8,
            Error::EscrowNotFunded => 9,
            Error::AlreadySettled => 10,
            Error::RefundNotAllowed => 11,
            Error::TransferFailed => 12,
            Error::Overflow => 13,
            Error::EscrowCancelled => 14,
            Error::Paused => 15,
            Error::InvalidPayer => 16,
            Error::InvalidDueDate => 17,
            Error::InvalidAssetDecimals => 18,
            Error::NonceAlreadyUsed => 19,
            Error::EscrowNotSettled => 20,
            Error::NotWhitelisted => 21,
            Error::SignatureExpired => 22,
            Error::InvalidMilestoneAmount => 23,
            Error::CancelNotAllowed => 24,
            Error::InvalidPenaltyConfig => 25,
            Error::InvalidPaymentToken => 26,
            Error::InvalidInvoiceToken => 27,
            Error::IdenticalTokens => 28,
            Error::NoPositionFound => 29,
            Error::InvalidInvoiceStatus => 30,
            Error::BelowMinimumInvestment => 31,
            Error::MaxInvestorsReached => 32,
            Error::FundingTargetNotReached => 33,
            Error::ZeroAmount => 33,
            Error::AmountBelowMinimum => 34,
            Error::InvalidAddress => 35,
            Error::InvalidDuration => 36,
            Error::NotEmergencyAdmin => 37,
            Error::AlreadyApproved => 38,
            Error::ThresholdNotMet => 39,
            Error::EmergencyNotConfigured => 40,
            Error::FeeTooHigh => 43,
            Error::InvalidLimit => 41,
            Error::LimitExceeded => 42,
            Error::InvoiceAlreadyExists => 39,
            Error::InvalidYield => 40,
            Error::FundingDeadlineNotPassed => 41,
            Error::InsufficientRepayment => 44,
            Error::DeadlineNotExtended => 45,
            Error::NotDisputed => 46,
            Error::AlreadyResolved => 47,
        }
    }
}

} // verus!
