//! Data types of the invoice escrow.
use vstd::prelude::*;

use crate::address::Address;

verus! {

/// An escrow's invoice identifier.
pub type InvoiceId = u64;

/// A funding invoice's identifier (a 32-byte id on chain, named by a handle here).
pub type FundingInvoiceId = u64;

/// An invoice commitment: SHA-256 hash of the off-chain invoice data.
pub type Commitment = [u8; 32];

/// Global contract configuration.
#[derive(Clone, Copy, Debug, PartialEq, Eq)]
pub struct Config {
    /// Admin address (fee updates, platform recipient).
    pub admin: Address,
    /// Platform fee in basis points (e.g. 300 = 3%).
    pub fee_bps: u32,
    /// Optional payment distributor contract used for settlement/refund fan-out.
    pub payment_distributor: Option<Address>,
    /// Emergency pause flag for lifecycle-changing operations.
    pub paused: bool,
    /// When true, `fund_escrow` requires the buyer to be on the whitelist.
    pub whitelist_enabled: bool,
    /// Minimum investment amount accepted by `fund_escrow`; `0` disables the floor.
    pub min_investment: i128,
    /// Seconds after a dispute is raised past which it can only be resolved in the
    /// buyer's favour.
    pub dispute_timeout_secs: u64,
}

/// The dispute timeout set at initialization: one week.
pub const DEFAULT_DISPUTE_TIMEOUT_SECS: u64 = 604_800;

/// Lifecycle status of an escrow.
#[derive(Clone, Copy, Debug, PartialEq, Eq, Structural)]
pub enum EscrowStatus {
    /// Created, awaiting funding.
    Created,
    /// Funded by investors.
    Funded,
    /// Payment recorded and distributed.
    Settled,
    /// Refunded to investor after due date.
    Refunded,
    /// Cancelled by seller while in Created state.
    Cancelled,
    /// A dispute was raised on the funded escrow and awaits resolution.
    Disputed,
}

impl EscrowStatus {
    /// Whether the status is terminal (Settled, Refunded or Cancelled).
    pub open spec fn is_terminal(self) -> bool {
        self is Settled || self is Refunded || self is Cancelled
    }

    /// The status code published in events.
    pub open spec fn spec_code(&self) -> u32 {
        match self {
            EscrowStatus::Created => 0,
            EscrowStatus::Funded => 1,
            EscrowStatus::Settled => 2,
            EscrowStatus::Refunded => 3,
            EscrowStatus::Cancelled => 4,
            EscrowStatus::Disputed => 5,
        }
    }

    /// The status code published in events.
    #[verifier::when_used_as_spec(spec_code)]
    pub fn code(&self) -> (c: u32)
        ensures
            c == self.spec_code(),
    {
        match self {
            EscrowStatus::Created => 0,
            EscrowStatus::Funded => 1,
            EscrowStatus::Settled => 2,
            EscrowStatus::Refunded => 3,
            EscrowStatus::Cancelled => 4,
            EscrowStatus::Disputed => 5,
        }
    }
}

/// Per-invoice escrow data.
#[derive(Debug, PartialEq, Eq)]
pub struct EscrowData {
    /// Invoice identifier.
    pub inv_id: InvoiceId,
    /// Seller (invoice owner).
    pub seller: Address,
    /// Debtor (authorized payer of the invoice).
    pub debtor: Address,
    /// Face value: what the debtor owes (amount to be paid at settlement).
    pub face_value: i128,
    /// Purchase price: total amount to be funded by all investors (discount applied here).
    pub purchase_price: i128,
    /// Total amount funded so far by all investors.
    pub funded_amt: i128,
    /// Primary funder address (the first investor).
    pub funder: Option<Address>,
    /// Every funder that has contributed to this escrow, in order of first contribution.
    pub funders: Vec<Address>,
    /// Due date (ledger timestamp).
    pub due_dt: u64,
    /// Payment token contract address.
    pub token: Address,
    /// Invoice token contract address (ownership/claim).
    pub inv_token: Address,
    /// Amount already paid by payer.
    pub paid_amt: i128,
    /// Current status.
    pub status: EscrowStatus,
    /// Minimum chunk size required for each partial funding operation (except the final one).
    pub funding_milestone: Option<i128>,
    /// Commitment hash: immutable on-chain anchor for off-chain invoice data.
    pub commitment: Commitment,
}

/// The abstract value of an escrow record.
pub struct EscrowDataView {
    pub inv_id: InvoiceId,
    pub seller: Address,
    pub debtor: Address,
    pub face_value: i128,
    pub purchase_price: i128,
    pub funded_amt: i128,
    pub funder: Option<Address>,
    pub funders: Seq<Address>,
    pub due_dt: u64,
    pub token: Address,
    pub inv_token: Address,
    pub paid_amt: i128,
    pub status: EscrowStatus,
    pub funding_milestone: Option<i128>,
    pub commitment: Commitment,
}

impl View for EscrowData {
    type V = EscrowDataView;

    open spec fn view(&self) -> EscrowDataView {
        EscrowDataView {
            inv_id: self.inv_id,
            seller: self.seller,
            debtor: self.debtor,
            face_value: self.face_value,
            purchase_price: self.purchase_price,
            funded_amt: self.funded_amt,
            funder: self.funder,
            funders: self.funders@,
            due_dt: self.due_dt,
            token: self.token,
            inv_token: self.inv_token,
            paid_amt: self.paid_amt,
            status: self.status,
            funding_milestone: self.funding_milestone,
            commitment: self.commitment,
        }
    }
}

impl Clone for EscrowData {
    fn clone(&self) -> (r: Self)
        ensures
            r@ == self@,
    {
        let funders = self.funders.clone();
        assert(funders@ =~= self.funders@);
        EscrowData {
            inv_id: self.inv_id,
            seller: self.seller,
            debtor: self.debtor,
            face_value: self.face_value,
            purchase_price: self.purchase_price,
            funded_amt: self.funded_amt,
            funder: self.funder,
            funders,
            due_dt: self.due_dt,
            token: self.token,
            inv_token: self.inv_token,
            paid_amt: self.paid_amt,
            status: self.status,
            funding_milestone: self.funding_milestone,
            commitment: self.commitment,
        }
    }
}

/// The party in whose favour a dispute is to be resolved, as named by the admin.
#[derive(Clone, Copy, Debug, PartialEq, Eq, Structural)]
pub enum Favour {
    /// The investors are refunded.
    Buyer,
    /// The seller receives the funded amount.
    Seller,
    /// A name that is neither party.
    Other,
}

/// A dispute raised on an escrow.
#[derive(Debug, PartialEq, Eq)]
pub struct DisputeData {
    /// Who raised the dispute.
    pub raiser: Address,
    /// The reason given, as raw bytes.
    pub reason: Vec<u8>,
    /// Ledger timestamp at which the dispute was raised.
    pub raised_at: u64,
    /// Whether the dispute has been resolved.
    pub resolved: bool,
}

/// The abstract value of a dispute.
pub struct DisputeView {
    pub raiser: Address,
    pub reason: Seq<u8>,
    pub raised_at: u64,
    pub resolved: bool,
}

impl View for DisputeData {
    type V = DisputeView;

    open spec fn view(&self) -> DisputeView {
        DisputeView {
            raiser: self.raiser,
            reason: self.reason@,
            raised_at: self.raised_at,
            resolved: self.resolved,
        }
    }
}

impl Clone for DisputeData {
    fn clone(&self) -> (r: Self)
        ensures
            r@ == self@,
    {
        let reason = self.reason.clone();
        assert(reason@ =~= self.reason@);
        DisputeData { raiser: self.raiser, reason, raised_at: self.raised_at, resolved: self.resolved }
    }
}

/// Status of a funding invoice.
#[derive(Clone, Copy, Debug, PartialEq, Eq, Structural)]
pub enum InvoiceStatus {
    Open,
    Funded,
    Settled,
    Cancelled,
}

/// Funding invoice for secondary-market position management.
#[derive(Clone, Copy, Debug, PartialEq, Eq)]
pub struct FundingInvoice {
    /// Seller who will receive funds on finalisation.
    pub seller: Address,
    /// Total funding target.
    pub funding_target: i128,
    /// Total raised so far across all investors.
    pub total_raised: i128,
    /// Ledger deadline for funding (partial_refund only before this).
    pub deadline_ledger: u32,
    /// Minimum investment floor for remaining position after partial refund.
    pub min_investment: i128,
    /// Optional per-investor cap.
    pub per_investor_cap: Option<i128>,
    /// Current status.
    pub status: InvoiceStatus,
    /// Payment token contract address.
    pub token: Address,
}

/// Multi-signature configuration for emergency releases.
#[derive(Debug, PartialEq, Eq)]
pub struct MultiSigConfig {
    /// Set of admin addresses authorized to approve emergency releases.
    pub admins: Vec<Address>,
    /// Number of approvals required to trigger the emergency release (N-of-M).
    pub threshold: u32,
}

/// The abstract value of a multi-signature configuration.
pub struct MultiSigView {
    pub admins: Seq<Address>,
    pub threshold: u32,
}

impl View for MultiSigConfig {
    type V = MultiSigView;

    open spec fn view(&self) -> MultiSigView {
        MultiSigView { admins: self.admins@, threshold: self.threshold }
    }
}

/// The admins that have already approved an emergency release of one invoice.
#[derive(Debug, PartialEq, Eq)]
pub struct EmergencyApprovals {
    /// Admin addresses that have already approved, in order of approval.
    pub approvals: Vec<Address>,
}

} // verus!
