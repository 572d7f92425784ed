//! What the escrow publishes and asks of other contracts.
use vstd::prelude::*;

use crate::address::Address;
use crate::escrow::types::{Commitment, EscrowStatus, Favour, FundingInvoiceId, InvoiceId};

verus! {

/// An event published by the escrow.
#[derive(Clone, Copy, Debug, PartialEq, Eq)]
pub enum EscrowEvent {
    /// `escrow_status_changed`: a lifecycle transition with the ledger timestamp.
    StatusChanged { inv_id: InvoiceId, status: EscrowStatus, timestamp: u64 },
    /// `escrow_created`.
    Created {
        inv_id: InvoiceId,
        seller: Address,
        debtor: Address,
        face_value: i128,
        purchase_price: i128,
        due_dt: u64,
        token: Address,
        inv_token: Address,
        commitment: Commitment,
        funding_milestone: Option<i128>,
    },
    /// `escrow_funded`: a contribution and the funding progress.
    Funded {
        inv_id: InvoiceId,
        funder: Address,
        amount: i128,
        funded_amt: i128,
        purchase_price: i128,
    },
    /// `payment_settled`: a payment with its platform fee and investor share.
    PaymentSettled { inv_id: InvoiceId, amount: i128, platform_fee: i128, investor_amount: i128 },
    /// `escrow_refunded`.
    Refunded { inv_id: InvoiceId, amount: i128 },
    /// `escrow_cancelled`.
    Cancelled { inv_id: InvoiceId, seller: Address },
    /// `escrow_fund_sig`: a funding made through a signed approval, with its nonce.
    FundedSigned { inv_id: InvoiceId, buyer: Address, amount: i128, nonce: u64 },
    /// `escrow_cleaned`.
    CleanedUp { inv_id: InvoiceId },
    /// `platform_fee_updated`.
    PlatformFeeUpdated { old_fee_bps: u32, new_fee_bps: u32 },
    /// `distributor_updated`.
    DistributorUpdated { had_previous_distributor: bool, new_distributor: Address },
    /// `paused_updated`.
    PausedUpdated { old_paused: bool, new_paused: bool },
    /// `investment_topped_up`.
    InvestmentToppedUp {
        investor: Address,
        invoice_id: FundingInvoiceId,
        additional_amount: i128,
        new_total_position: i128,
    },
    /// `investment_partially_refunded`.
    InvestmentPartiallyRefunded {
        investor: Address,
        invoice_id: FundingInvoiceId,
        amount_refunded: i128,
        remaining_position: i128,
    },
    /// `position_transferred`.
    PositionTransferred {
        from: Address,
        to: Address,
        invoice_id: FundingInvoiceId,
        position_amount: i128,
        price: i128,
    },
    /// `funding_finalised`.
    FundingFinalised { invoice_id: FundingInvoiceId, total_raised: i128, seller: Address },
    /// `DisputeRaised`: who raised a dispute and when.
    DisputeRaised { inv_id: InvoiceId, raiser: Address, raised_at: u64 },
    /// `DisputeResolved`: the party favoured, and whether the timeout decided it.
    DisputeResolved { inv_id: InvoiceId, favour: Favour, timed_out: bool },
}

/// The name that leads the topics of each kind of escrow event.
#[derive(Clone, Copy, Debug, PartialEq, Eq)]
pub enum EventName {
    StatusChanged,
    Created,
    Funded,
    PaymentSettled,
    Refunded,
    Cancelled,
    FundedSigned,
    CleanedUp,
    PlatformFeeUpdated,
    DistributorUpdated,
    PausedUpdated,
    InvestmentToppedUp,
    InvestmentPartiallyRefunded,
    PositionTransferred,
    FundingFinalised,
    DisputeRaised,
    DisputeResolved,
}

/// The symbol under which an escrow event name is published.
pub open spec fn name_symbol(n: EventName) -> Seq<char> {
    match n {
        EventName::StatusChanged => "escrow_status_changed"@,
        EventName::Created => "escrow_created"@,
        EventName::Funded => "escrow_funded"@,
        EventName::PaymentSettled => "payment_settled"@,
        EventName::Refunded => "escrow_refunded"@,
        EventName::Cancelled => "escrow_cancelled"@,
        EventName::FundedSigned => "escrow_fund_sig"@,
        EventName::CleanedUp => "escrow_cleaned"@,
        EventName::PlatformFeeUpdated => "platform_fee_updated"@,
        EventName::DistributorUpdated => "distributor_updated"@,
        EventName::PausedUpdated => "paused_updated"@,
        EventName::InvestmentToppedUp => "investment_topped_up"@,
        EventName::InvestmentPartiallyRefunded => "investment_partially_refunded"@,
        EventName::PositionTransferred => "position_transferred"@,
        EventName::FundingFinalised => "funding_finalised"@,
        EventName::DisputeRaised => "DisputeRaised"@,
        EventName::DisputeResolved => "DisputeResolved"@,
    }
}

impl EventName {
    /// The symbol under which this name is published.
    pub fn symbol(&self) -> (r: &'static str)
        ensures
            r@ == name_symbol(*self),
    {
        match self {
            EventName::StatusChanged => "escrow_status_changed",
            EventName::Created => "escrow_created",
            EventName::Funded => "escrow_funded",
            EventName::PaymentSettled => "payment_settled",
            EventName::Refunded => "escrow_refunded",
            EventName::Cancelled => "escrow_cancelled",
            EventName::FundedSigned => "escrow_fund_sig",
            EventName::CleanedUp => "escrow_cleaned",
            EventName::PlatformFeeUpdated => "platform_fee_updated",
            EventName::DistributorUpdated => "distributor_updated",
            EventName::PausedUpdated => "paused_updated",
            EventName::InvestmentToppedUp => "investment_topped_up",
            EventName::InvestmentPartiallyRefunded => "investment_partially_refunded",
            EventName::PositionTransferred => "position_transferred",
            EventName::FundingFinalised => "funding_finalised",
            EventName::DisputeRaised => "DisputeRaised",
            EventName::DisputeResolved => "DisputeResolved",
        }
    }
}

/// One value among the topics or the data of a published escrow event.
#[derive(Clone, Copy, Debug, PartialEq, Eq)]
pub enum EventValue {
    /// The event's name, published as a symbol.
    Name(EventName),
    /// An escrow's or a funding invoice's identifier.
    Invoice(u64),
    /// An account or contract address.
    Addr(Address),
    /// An amount.
    I128(i128),
    /// A fee in basis points, or a status code.
    U32(u32),
    /// A timestamp or a nonce.
    U64(u64),
    /// A flag.
    Bool(bool),
    /// An invoice commitment.
    Commitment(Commitment),
    /// An optional funding milestone.
    OptionalI128(Option<i128>),
    /// The party a dispute was resolved for, published as its symbol.
    Favour(Favour),
}

/// The topics under which an escrow event is published, its name first.
pub open spec fn event_topics(e: EscrowEvent) -> Seq<EventValue> {
    match e {
        EscrowEvent::StatusChanged { .. } => seq![EventValue::Name(EventName::StatusChanged)],
        EscrowEvent::Created { .. } => seq![EventValue::Name(EventName::Created)],
        EscrowEvent::Funded { .. } => seq![EventValue::Name(EventName::Funded)],
        EscrowEvent::PaymentSettled { .. } => seq![EventValue::Name(EventName::PaymentSettled)],
        EscrowEvent::Refunded { .. } => seq![EventValue::Name(EventName::Refunded)],
        EscrowEvent::Cancelled { .. } => seq![EventValue::Name(EventName::Cancelled)],
        EscrowEvent::FundedSigned { .. } => seq![EventValue::Name(EventName::FundedSigned)],
        EscrowEvent::CleanedUp { .. } => seq![EventValue::Name(EventName::CleanedUp)],
        EscrowEvent::PlatformFeeUpdated { .. } => seq![
            EventValue::Name(EventName::PlatformFeeUpdated),
        ],
        EscrowEvent::DistributorUpdated { new_distributor, .. } => seq![
            EventValue::Name(EventName::DistributorUpdated),
            EventValue::Addr(new_distributor),
        ],
        EscrowEvent::PausedUpdated { .. } => seq![EventValue::Name(EventName::PausedUpdated)],
        EscrowEvent::InvestmentToppedUp { investor, invoice_id, .. } => seq![
            EventValue::Name(EventName::InvestmentToppedUp),
            EventValue::Addr(investor),
            EventValue::Invoice(invoice_id),
        ],
        EscrowEvent::InvestmentPartiallyRefunded { investor, invoice_id, .. } => seq![
            EventValue::Name(EventName::InvestmentPartiallyRefunded),
            EventValue::Addr(investor),
            EventValue::Invoice(invoice_id),
        ],
        EscrowEvent::PositionTransferred { from, to, invoice_id, .. } => seq![
            EventValue::Name(EventName::PositionTransferred),
            EventValue::Addr(from),
            EventValue::Addr(to),
            EventValue::Invoice(invoice_id),
        ],
        EscrowEvent::FundingFinalised { invoice_id, .. } => seq![
            EventValue::Name(EventName::FundingFinalised),
            EventValue::Invoice(invoice_id),
        ],
        EscrowEvent::DisputeRaised { .. } => seq![EventValue::Name(EventName::DisputeRaised)],
        EscrowEvent::DisputeResolved { .. } => seq![EventValue::Name(EventName::DisputeResolved)],
    }
}

/// The data published with an escrow event, in order.
pub open spec fn event_data(e: EscrowEvent) -> Seq<EventValue> {
    match e {
        EscrowEvent::StatusChanged { inv_id, timestamp, status } => seq![
            EventValue::Invoice(inv_id),
            EventValue::U32(status.spec_code()),
            EventValue::U64(timestamp),
        ],
        EscrowEvent::Created { inv_id, seller, debtor, face_value, purchase_price, due_dt, token, inv_token, commitment, funding_milestone } => seq![
            EventValue::Invoice(inv_id),
            EventValue::Addr(seller),
            EventValue::Addr(debtor),
            EventValue::I128(face_value),
            EventValue::I128(purchase_price),
            EventValue::U64(due_dt),
            EventValue::Addr(token),
            EventValue::Addr(inv_token),
            EventValue::Commitment(commitment),
            EventValue::OptionalI128(funding_milestone),
        ],
        EscrowEvent::Funded { inv_id, funder, amount, funded_amt, purchase_price } => seq![
            EventValue::Invoice(inv_id),
            EventValue::Addr(funder),
            EventValue::I128(amount),
            EventValue::I128(funded_amt),
            EventValue::I128(purchase_price),
        ],
        EscrowEvent::PaymentSettled { inv_id, amount, platform_fee, investor_amount } => seq![
            EventValue::Invoice(inv_id),
            EventValue::I128(amount),
            EventValue::I128(platform_fee),
            EventValue::I128(investor_amount),
        ],
        EscrowEvent::Refunded { inv_id, amount } => seq![
            EventValue::Invoice(inv_id),
            EventValue::I128(amount),
        ],
        EscrowEvent::Cancelled { inv_id, seller } => seq![
            EventValue::Invoice(inv_id),
            EventValue::Addr(seller),
        ],
        EscrowEvent::FundedSigned { inv_id, buyer, amount, nonce } => seq![
            EventValue::Invoice(inv_id),
            EventValue::Addr(buyer),
            EventValue::I128(amount),
            EventValue::U64(nonce),
        ],
        EscrowEvent::CleanedUp { inv_id } => seq![EventValue::Invoice(inv_id)],
        EscrowEvent::PlatformFeeUpdated { old_fee_bps, new_fee_bps } => seq![
            EventValue::U32(old_fee_bps),
            EventValue::U32(new_fee_bps),
        ],
        EscrowEvent::DistributorUpdated { had_previous_distributor, .. } => seq![
            EventValue::Bool(had_previous_distributor),
        ],
        EscrowEvent::PausedUpdated { old_paused, new_paused } => seq![
            EventValue::Bool(old_paused),
            EventValue::Bool(new_paused),
        ],
        EscrowEvent::InvestmentToppedUp { additional_amount, new_total_position, .. } => seq![
            EventValue::I128(additional_amount),
            EventValue::I128(new_total_position),
        ],
        EscrowEvent::InvestmentPartiallyRefunded { amount_refunded, remaining_position, .. } => seq![
            EventValue::I128(amount_refunded),
            EventValue::I128(remaining_position),
        ],
        EscrowEvent::PositionTransferred { position_amount, price, .. } => seq![
            EventValue::I128(position_amount),
            EventValue::I128(price),
        ],
        EscrowEvent::FundingFinalised { total_raised, seller, .. } => seq![
            EventValue::I128(total_raised),
            EventValue::Addr(seller),
        ],
        EscrowEvent::DisputeRaised { inv_id, raiser, raised_at } => seq![
            EventValue::Invoice(inv_id),
            EventValue::Addr(raiser),
            EventValue::U64(raised_at),
        ],
        EscrowEvent::DisputeResolved { inv_id, favour, timed_out } => seq![
            EventValue::Invoice(inv_id),
            EventValue::Favour(favour),
            EventValue::Bool(timed_out),
        ],
    }
}

impl EscrowEvent {
    /// The name that leads this event's topics.
    pub fn name(&self) -> (r: EventName)
        ensures
            event_topics(*self)[0] == EventValue::Name(r),
    {
        match self {
            EscrowEvent::StatusChanged { .. } => EventName::StatusChanged,
            EscrowEvent::Created { .. } => EventName::Created,
            EscrowEvent::Funded { .. } => EventName::Funded,
            EscrowEvent::PaymentSettled { .. } => EventName::PaymentSettled,
            EscrowEvent::Refunded { .. } => EventName::Refunded,
            EscrowEvent::Cancelled { .. } => EventName::Cancelled,
            EscrowEvent::FundedSigned { .. } => EventName::FundedSigned,
            EscrowEvent::CleanedUp { .. } => EventName::CleanedUp,
            EscrowEvent::PlatformFeeUpdated { .. } => EventName::PlatformFeeUpdated,
            EscrowEvent::DistributorUpdated { .. } => EventName::DistributorUpdated,
            EscrowEvent::PausedUpdated { .. } => EventName::PausedUpdated,
            EscrowEvent::InvestmentToppedUp { .. } => EventName::InvestmentToppedUp,
            EscrowEvent::InvestmentPartiallyRefunded { .. } => EventName::InvestmentPartiallyRefunded,
            EscrowEvent::PositionTransferred { .. } => EventName::PositionTransferred,
            EscrowEvent::FundingFinalised { .. } => EventName::FundingFinalised,
            EscrowEvent::DisputeRaised { .. } => EventName::DisputeRaised,
            EscrowEvent::DisputeResolved { .. } => EventName::DisputeResolved,
        }
    }

    /// The topics under which this event is published.
    pub fn topics(&self) -> (r: Vec<EventValue>)
        ensures
            r@ == event_topics(*self),
    {
        let mut r: Vec<EventValue> = Vec::new();
        r.push(EventValue::Name(self.name()));
        match *self {
            EscrowEvent::DistributorUpdated { new_distributor, .. } => {
                r.push(EventValue::Addr(new_distributor));
            },
            EscrowEvent::InvestmentToppedUp { investor, invoice_id, .. } => {
                r.push(EventValue::Addr(investor));
                r.push(EventValue::Invoice(invoice_id));
            },
            EscrowEvent::InvestmentPartiallyRefunded { investor, invoice_id, .. } => {
                r.push(EventValue::Addr(investor));
                r.push(EventValue::Invoice(invoice_id));
            },
            EscrowEvent::PositionTransferred { from, to, invoice_id, .. } => {
                r.push(EventValue::Addr(from));
                r.push(EventValue::Addr(to));
                r.push(EventValue::Invoice(invoice_id));
            },
            EscrowEvent::FundingFinalised { invoice_id, .. } => {
                r.push(EventValue::Invoice(invoice_id));
            },
            _ => {},
        }
        proof {
            assert(r@ =~= event_topics(*self));
        }
        r
    }

    /// The data published with this event.
    pub fn data(&self) -> (r: Vec<EventValue>)
        ensures
            r@ == event_data(*self),
    {
        let mut r: Vec<EventValue> = Vec::new();
        match *self {
            EscrowEvent::StatusChanged { inv_id, timestamp, status } => {
                r.push(EventValue::Invoice(inv_id));
                r.push(EventValue::U32(status.code()));
                r.push(EventValue::U64(timestamp));
            },
            EscrowEvent::Created { inv_id, seller, debtor, face_value, purchase_price, due_dt, token, inv_token, commitment, funding_milestone } => {
                r.push(EventValue::Invoice(inv_id));
                r.push(EventValue::Addr(seller));
                r.push(EventValue::Addr(debtor));
                r.push(EventValue::I128(face_value));
                r.push(EventValue::I128(purchase_price));
                r.push(EventValue::U64(due_dt));
                r.push(EventValue::Addr(token));
                r.push(EventValue::Addr(inv_token));
                r.push(EventValue::Commitment(commitment));
                r.push(EventValue::OptionalI128(funding_milestone));
            },
            EscrowEvent::Funded { inv_id, funder, amount, funded_amt, purchase_price } => {
                r.push(EventValue::Invoice(inv_id));
                r.push(EventValue::Addr(funder));
                r.push(EventValue::I128(amount));
                r.push(EventValue::I128(funded_amt));
                r.push(EventValue::I128(purchase_price));
            },
            EscrowEvent::PaymentSettled { inv_id, amount, platform_fee, investor_amount } => {
                r.push(EventValue::Invoice(inv_id));
                r.push(EventValue::I128(amount));
                r.push(EventValue::I128(platform_fee));
                r.push(EventValue::I128(investor_amount));
            },
            EscrowEvent::Refunded { inv_id, amount } => {
                r.push(EventValue::Invoice(inv_id));
                r.push(EventValue::I128(amount));
            },
            EscrowEvent::Cancelled { inv_id, seller } => {
                r.push(EventValue::Invoice(inv_id));
                r.push(EventValue::Addr(seller));
            },
            EscrowEvent::FundedSigned { inv_id, buyer, amount, nonce } => {
                r.push(EventValue::Invoice(inv_id));
                r.push(EventValue::Addr(buyer));
                r.push(EventValue::I128(amount));
                r.push(EventValue::U64(nonce));
            },
            EscrowEvent::CleanedUp { inv_id } => {
                r.push(EventValue::Invoice(inv_id));
            },
            EscrowEvent::PlatformFeeUpdated { old_fee_bps, new_fee_bps } => {
                r.push(EventValue::U32(old_fee_bps));
                r.push(EventValue::U32(new_fee_bps));
            },
            EscrowEvent::DistributorUpdated { had_previous_distributor, .. } => {
                r.push(EventValue::Bool(had_previous_distributor));
            },
            EscrowEvent::PausedUpdated { old_paused, new_paused } => {
                r.push(EventValue::Bool(old_paused));
                r.push(EventValue::Bool(new_paused));
            },
            EscrowEvent::InvestmentToppedUp { additional_amount, new_total_position, .. } => {
                r.push(EventValue::I128(additional_amount));
                r.push(EventValue::I128(new_total_position));
            },
            EscrowEvent::InvestmentPartiallyRefunded { amount_refunded, remaining_position, .. } => {
                r.push(EventValue::I128(amount_refunded));
                r.push(EventValue::I128(remaining_position));
            },
            EscrowEvent::PositionTransferred { position_amount, price, .. } => {
                r.push(EventValue::I128(position_amount));
                r.push(EventValue::I128(price));
            },
            EscrowEvent::FundingFinalised { total_raised, seller, .. } => {
                r.push(EventValue::I128(total_raised));
                r.push(EventValue::Addr(seller));
            },
            EscrowEvent::DisputeRaised { inv_id, raiser, raised_at } => {
                r.push(EventValue::Invoice(inv_id));
                r.push(EventValue::Addr(raiser));
                r.push(EventValue::U64(raised_at));
            },
            EscrowEvent::DisputeResolved { inv_id, favour, timed_out } => {
                r.push(EventValue::Invoice(inv_id));
                r.push(EventValue::Favour(favour));
                r.push(EventValue::Bool(timed_out));
            },
        }
        proof {
            assert(r@ =~= event_data(*self));
        }
        r
    }
}

/// Something the escrow does outside its own storage, in order: a token
/// transfer, a call to another contract, or a published event.
#[derive(Clone, Copy, Debug, PartialEq, Eq)]
pub enum Effect {
    /// `transfer(from, to, amount)` on the token contract `token`.
    Transfer { token: Address, from: Address, to: Address, amount: i128 },
    /// `mint(to, amount, by)` on the invoice token `inv_token`.
    Mint { inv_token: Address, to: Address, amount: i128, by: Address },
    /// `set_transfer_locked(caller, locked)` on the invoice token `inv_token`.
    SetTransferLocked { inv_token: Address, caller: Address, locked: bool },
    /// `distribute_refund` on the payment distributor.
    DistributeRefund {
        distributor: Address,
        escrow: Address,
        invoice_id: InvoiceId,
        token: Address,
        funder: Option<Address>,
        amount: i128,
        status: EscrowStatus,
    },
    /// `distribute_payment` on the payment distributor.
    DistributePayment {
        distributor: Address,
        escrow: Address,
        invoice_id: InvoiceId,
        token: Address,
        seller: Address,
        funder: Address,
        admin: Address,
        paid_amt: i128,
        amount: i128,
        investor_amount: i128,
        fee_bps: i128,
        status: EscrowStatus,
    },
    /// A published event.
    Event(EscrowEvent),
}

} // verus!
