//! The events the escrow publishes, one emitter per event.
use vstd::prelude::*;

use crate::address::Address;
use crate::escrow::effects::{Effect, EscrowEvent};
use crate::escrow::storage::{publish, EscrowStorage, EscrowView};
use crate::escrow::types::{Commitment, EscrowStatus, Favour, FundingInvoiceId, InvoiceId};

verus! {

/// Publish a lifecycle transition of an escrow, with the ledger timestamp.
pub fn escrow_status_changed(
    st: &mut EscrowStorage,
    inv_id: InvoiceId,
    status: EscrowStatus,
    timestamp: u64,
)
    ensures
        final(st)@ == (EscrowView {
            effects: old(st)@.effects.push(Effect::Event(EscrowEvent::StatusChanged { inv_id, status, timestamp })),
            ..old(st)@
        }),
{
    publish(st, Effect::Event(EscrowEvent::StatusChanged { inv_id, status, timestamp }));
}

/// Publish the creation of an escrow.
pub fn escrow_created(
    st: &mut EscrowStorage,
    inv_id: InvoiceId,
    seller: Address,
    debtor: Address,
    face_value: i128,
    purchase_price: i128,
    due_dt: u64,
    token: Address,
    inv_token: Address,
    commitment: Commitment,
    funding_milestone: Option<i128>,
)
    ensures
        final(st)@ == (EscrowView {
            effects: old(st)@.effects.push(Effect::Event(EscrowEvent::Created { inv_id, seller, debtor, face_value, purchase_price, due_dt, token, inv_token, commitment, funding_milestone })),
            ..old(st)@
        }),
{
    publish(st, Effect::Event(EscrowEvent::Created { inv_id, seller, debtor, face_value, purchase_price, due_dt, token, inv_token, commitment, funding_milestone }));
}

/// Publish a contribution to an escrow and the funding progress.
pub fn escrow_funded(
    st: &mut EscrowStorage,
    inv_id: InvoiceId,
    funder: Address,
    amount: i128,
    funded_amt: i128,
    purchase_price: i128,
)
    ensures
        final(st)@ == (EscrowView {
            effects: old(st)@.effects.push(Effect::Event(EscrowEvent::Funded { inv_id, funder, amount, funded_amt, purchase_price })),
            ..old(st)@
        }),
{
    publish(st, Effect::Event(EscrowEvent::Funded { inv_id, funder, amount, funded_amt, purchase_price }));
}

/// Publish a payment with its platform fee and investor share.
pub fn payment_settled(
    st: &mut EscrowStorage,
    inv_id: InvoiceId,
    amount: i128,
    platform_fee: i128,
    investor_amount: i128,
)
    ensures
        final(st)@ == (EscrowView {
            effects: old(st)@.effects.push(Effect::Event(EscrowEvent::PaymentSettled { inv_id, amount, platform_fee, investor_amount })),
            ..old(st)@
        }),
{
    publish(st, Effect::Event(EscrowEvent::PaymentSettled { inv_id, amount, platform_fee, investor_amount }));
}

/// Publish a refund of an escrow.
pub fn escrow_refunded(
    st: &mut EscrowStorage,
    inv_id: InvoiceId,
    amount: i128,
)
    ensures
        final(st)@ == (EscrowView {
            effects: old(st)@.effects.push(Effect::Event(EscrowEvent::Refunded { inv_id, amount })),
            ..old(st)@
        }),
{
    publish(st, Effect::Event(EscrowEvent::Refunded { inv_id, amount }));
}

/// Publish the cancellation of an escrow by its seller.
pub fn escrow_cancelled(
    st: &mut EscrowStorage,
    inv_id: InvoiceId,
    seller: Address,
)
    ensures
        final(st)@ == (EscrowView {
            effects: old(st)@.effects.push(Effect::Event(EscrowEvent::Cancelled { inv_id, seller })),
            ..old(st)@
        }),
{
    publish(st, Effect::Event(EscrowEvent::Cancelled { inv_id, seller }));
}

/// Publish a funding made through a signed approval.
pub fn escrow_funded_signed(
    st: &mut EscrowStorage,
    inv_id: InvoiceId,
    buyer: Address,
    amount: i128,
    nonce: u64,
)
    ensures
        final(st)@ == (EscrowView {
            effects: old(st)@.effects.push(Effect::Event(EscrowEvent::FundedSigned { inv_id, buyer, amount, nonce })),
            ..old(st)@
        }),
{
    publish(st, Effect::Event(EscrowEvent::FundedSigned { inv_id, buyer, amount, nonce }));
}

/// Publish the removal of a terminal escrow.
pub fn escrow_cleaned_up(
    st: &mut EscrowStorage,
    inv_id: InvoiceId,
)
    ensures
        final(st)@ == (EscrowView {
            effects: old(st)@.effects.push(Effect::Event(EscrowEvent::CleanedUp { inv_id })),
            ..old(st)@
        }),
{
    publish(st, Effect::Event(EscrowEvent::CleanedUp { inv_id }));
}

/// Publish a change of the platform fee.
pub fn platform_fee_updated(
    st: &mut EscrowStorage,
    old_fee_bps: u32,
    new_fee_bps: u32,
)
    ensures
        final(st)@ == (EscrowView {
            effects: old(st)@.effects.push(Effect::Event(EscrowEvent::PlatformFeeUpdated { old_fee_bps, new_fee_bps })),
            ..old(st)@
        }),
{
    publish(st, Effect::Event(EscrowEvent::PlatformFeeUpdated { old_fee_bps, new_fee_bps }));
}

/// Publish a change of the payment distributor.
pub fn payment_distributor_updated(
    st: &mut EscrowStorage,
    had_previous_distributor: bool,
    new_distributor: Address,
)
    ensures
        final(st)@ == (EscrowView {
            effects: old(st)@.effects.push(Effect::Event(EscrowEvent::DistributorUpdated { had_previous_distributor, new_distributor })),
            ..old(st)@
        }),
{
    publish(st, Effect::Event(EscrowEvent::DistributorUpdated { had_previous_distributor, new_distributor }));
}

/// Publish a change of the pause flag.
pub fn paused_updated(
    st: &mut EscrowStorage,
    old_paused: bool,
    new_paused: bool,
)
    ensures
        final(st)@ == (EscrowView {
            effects: old(st)@.effects.push(Effect::Event(EscrowEvent::PausedUpdated { old_paused, new_paused })),
            ..old(st)@
        }),
{
    publish(st, Effect::Event(EscrowEvent::PausedUpdated { old_paused, new_paused }));
}

/// Publish a top-up of a position.
pub fn investment_topped_up(
    st: &mut EscrowStorage,
    investor: Address,
    invoice_id: FundingInvoiceId,
    additional_amount: i128,
    new_total_position: i128,
)
    ensures
        final(st)@ == (EscrowView {
            effects: old(st)@.effects.push(Effect::Event(EscrowEvent::InvestmentToppedUp { investor, invoice_id, additional_amount, new_total_position })),
            ..old(st)@
        }),
{
    publish(st, Effect::Event(EscrowEvent::InvestmentToppedUp { investor, invoice_id, additional_amount, new_total_position }));
}

/// Publish a partial refund of a position.
pub fn investment_partially_refunded(
    st: &mut EscrowStorage,
    investor: Address,
    invoice_id: FundingInvoiceId,
    amount_refunded: i128,
    remaining_position: i128,
)
    ensures
        final(st)@ == (EscrowView {
            effects: old(st)@.effects.push(Effect::Event(EscrowEvent::InvestmentPartiallyRefunded { investor, invoice_id, amount_refunded, remaining_position })),
            ..old(st)@
        }),
{
    publish(st, Effect::Event(EscrowEvent::InvestmentPartiallyRefunded { investor, invoice_id, amount_refunded, remaining_position }));
}

/// Publish the sale of a position.
pub fn position_transferred(
    st: &mut EscrowStorage,
    from: Address,
    to: Address,
    invoice_id: FundingInvoiceId,
    position_amount: i128,
    price: i128,
)
    ensures
        final(st)@ == (EscrowView {
            effects: old(st)@.effects.push(Effect::Event(EscrowEvent::PositionTransferred { from, to, invoice_id, position_amount, price })),
            ..old(st)@
        }),
{
    publish(st, Effect::Event(EscrowEvent::PositionTransferred { from, to, invoice_id, position_amount, price }));
}

/// Publish the finalisation of a funding invoice.
pub fn funding_finalised(
    st: &mut EscrowStorage,
    invoice_id: FundingInvoiceId,
    total_raised: i128,
    seller: Address,
)
    ensures
        final(st)@ == (EscrowView {
            effects: old(st)@.effects.push(Effect::Event(EscrowEvent::FundingFinalised { invoice_id, total_raised, seller })),
            ..old(st)@
        }),
{
    publish(st, Effect::Event(EscrowEvent::FundingFinalised { invoice_id, total_raised, seller }));
}

/// Publish that a dispute was raised on an escrow, by whom and when.
pub fn dispute_raised(st: &mut EscrowStorage, inv_id: InvoiceId, raiser: Address, raised_at: u64)
    ensures
        final(st)@ == (EscrowView {
            effects: old(st)@.effects.push(Effect::Event(EscrowEvent::DisputeRaised { inv_id, raiser, raised_at })),
            ..old(st)@
        }),
{
    publish(st, Effect::Event(EscrowEvent::DisputeRaised { inv_id, raiser, raised_at }));
}

/// Publish that a dispute was resolved, in whose favour, and whether the timeout
/// decided it rather than the admin's choice.
pub fn dispute_resolved(st: &mut EscrowStorage, inv_id: InvoiceId, favour: Favour, timed_out: bool)
    ensures
        final(st)@ == (EscrowView {
            effects: old(st)@.effects.push(Effect::Event(EscrowEvent::DisputeResolved { inv_id, favour, timed_out })),
            ..old(st)@
        }),
{
    publish(st, Effect::Event(EscrowEvent::DisputeResolved { inv_id, favour, timed_out }));
}

} // verus!
