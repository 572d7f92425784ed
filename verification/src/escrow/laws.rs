//! Properties of the invoice escrow that span its entry points.
use vstd::prelude::*;

use crate::address::{lemma_pair_key_injective, Address};
use crate::env::Env;
use crate::escrow::effects::{Effect, EscrowEvent};
use crate::escrow::errors::Error;
use crate::escrow::model::{
    cancel_escrow_result, cleanup_escrow_result, create_escrow_result, emergency_release_outcome,
    escrow_of, fund_core_result, fund_escrow_signed_result, invest_result, new_escrow,
    partial_refund_result, platform_fee_on, record_payment_result, refund_result, top_up_result,
    transfer_position_result, MAX_BPS, dispute_deadline, raise_dispute_result,
    resolve_dispute_result, ev, fits, dispute_refund_payout, refund_payout, payment_payouts,
};
use crate::escrow::storage::EscrowView;
use crate::escrow::types::{
    Commitment, EscrowDataView, EscrowStatus, Favour, FundingInvoiceId, InvoiceId,
};

verus! {

/// A payment splits into a platform fee and an investor share that add up to it;
/// the fee is never negative and never exceeds the payment. (The fee is computed
/// whenever `amount * fee_bps` fits in an `i128`.)
pub proof fn law_payment_split(amount: i128, fee_bps: u32)
    requires
        amount > 0,
        fee_bps <= MAX_BPS,
        amount * fee_bps <= i128::MAX,
    ensures
        platform_fee_on(amount, fee_bps) is Some,
        0 <= platform_fee_on(amount, fee_bps)->0 <= amount,
        platform_fee_on(amount, fee_bps)->0 + (amount - platform_fee_on(amount, fee_bps)->0)
            == amount,
{
    assert(0 <= amount * fee_bps <= amount * 10_000) by (nonlinear_arith)
        requires
            amount > 0,
            fee_bps <= 10_000,
    ;
    let p = amount * fee_bps;
    assert(p / 10_000 <= amount) by (nonlinear_arith)
        requires
            0 <= p <= amount * 10_000,
    ;
    assert(p / 10_000 >= 0) by (nonlinear_arith)
        requires
            0 <= p,
    ;
}

/// An escrow in a terminal state (Settled, Refunded or Cancelled) is final: it can
/// no longer be funded, paid, refunded or cancelled, and an emergency release
/// leaves it as it is.
pub proof fn law_terminal_escrow_is_final(
    s: EscrowView,
    env: Env,
    inv_id: InvoiceId,
    who: Address,
    amount: i128,
)
    requires
        s.wf(),
        s.escrows.contains_key(inv_id),
        s.escrows[inv_id].status.is_terminal(),
    ensures
        fund_core_result(s, env, inv_id, who, amount) is Err,
        record_payment_result(s, env, inv_id, who, amount) is Err,
        refund_result(s, env, inv_id) is Err,
        cancel_escrow_result(s, env, inv_id, who) is Err,
        emergency_release_outcome(s, env, who, inv_id).0.escrows[inv_id] == s.escrows[inv_id],
        emergency_release_outcome(s, env, who, inv_id).1 is Err,
{
}

/// While the escrow is paused, no escrow is created, funded, paid, refunded or
/// cancelled.
pub proof fn law_paused_escrow_refuses_lifecycle(
    s: EscrowView,
    env: Env,
    inv_id: InvoiceId,
    a: Address,
    b: Address,
    face_value: i128,
    purchase_price: i128,
    due_date: u64,
    token: Address,
    inv_token: Address,
    commitment: Commitment,
    milestone: Option<i128>,
    inv_decimals: Option<u32>,
    pay_decimals: Option<u32>,
    amount: i128,
    reason: Seq<u8>,
)
    requires
        s.config is Some,
        s.config->0.paused,
    ensures
        create_escrow_result(
            s,
            env,
            inv_id,
            a,
            b,
            face_value,
            purchase_price,
            due_date,
            token,
            inv_token,
            commitment,
            milestone,
            inv_decimals,
            pay_decimals,
        ) is Err,
        fund_core_result(s, env, inv_id, a, amount) is Err,
        record_payment_result(s, env, inv_id, a, amount) is Err,
        refund_result(s, env, inv_id) is Err,
        cancel_escrow_result(s, env, inv_id, a) is Err,
        raise_dispute_result(s, env, a, inv_id, reason) is Err,
{
}

/// A signed approval cannot be replayed: once a signed funding with `nonce`
/// succeeds, any later signed funding by the same buyer with a nonce not above it
/// is refused as already used (unless it has expired).
pub proof fn law_signed_nonce_not_replayable(
    s: EscrowView,
    env: Env,
    inv_id: InvoiceId,
    buyer: Address,
    amount: i128,
    nonce: u64,
    expiry: u64,
    env2: Env,
    inv_id2: InvoiceId,
    amount2: i128,
    nonce2: u64,
    expiry2: u64,
)
    requires
        fund_escrow_signed_result(s, env, inv_id, buyer, amount, nonce, expiry) is Ok,
        nonce2 <= nonce,
        env2.timestamp <= expiry2,
    ensures
        fund_escrow_signed_result(
            fund_escrow_signed_result(s, env, inv_id, buyer, amount, nonce, expiry)->Ok_0,
            env2,
            inv_id2,
            buyer,
            amount2,
            nonce2,
            expiry2,
        ) == Err::<EscrowView, Error>(Error::NonceAlreadyUsed),
{
}

/// No refund before the due date.
pub proof fn law_no_refund_before_due(s: EscrowView, env: Env, inv_id: InvoiceId)
    requires
        s.escrows.contains_key(inv_id),
        env.timestamp < s.escrows[inv_id].due_dt,
    ensures
        refund_result(s, env, inv_id) is Err,
{
}

/// A contribution adds exactly its amount to the escrow's funding and to the
/// buyer's contribution, and the escrow becomes Funded exactly when its purchase
/// price is reached.
pub proof fn law_funding_accounting(
    s: EscrowView,
    env: Env,
    inv_id: InvoiceId,
    buyer: Address,
    amount: i128,
)
    requires
        s.wf(),
        fund_core_result(s, env, inv_id, buyer, amount) is Ok,
    ensures
        ({
            let s1 = fund_core_result(s, env, inv_id, buyer, amount)->Ok_0;
            let d = s.escrows[inv_id];
            let d1 = s1.escrows[inv_id];
            &&& d1.funded_amt == d.funded_amt + amount
            &&& s1.funder_amount(inv_id, buyer) == s.funder_amount(inv_id, buyer) + amount
            &&& (d1.status is Funded <==> d1.funded_amt == d1.purchase_price)
            &&& d1.status is Funded || d1.status is Created
            &&& d1.commitment == d.commitment
        }),
{
}

/// A payment adds exactly its amount to the amount paid, never beyond the face
/// value, and the escrow settles exactly when the face value is paid.
pub proof fn law_payment_accounting(
    s: EscrowView,
    env: Env,
    inv_id: InvoiceId,
    payer: Address,
    amount: i128,
)
    requires
        s.wf(),
        record_payment_result(s, env, inv_id, payer, amount) is Ok,
    ensures
        ({
            let s1 = record_payment_result(s, env, inv_id, payer, amount)->Ok_0;
            let d = s.escrows[inv_id];
            let d1 = s1.escrows[inv_id];
            &&& d1.paid_amt == d.paid_amt + amount <= d.face_value
            &&& (d1.status is Settled <==> d1.paid_amt == d1.face_value)
            &&& d1.funded_amt == d.funded_amt
            &&& d1.commitment == d.commitment
        }),
{
}

/// A created escrow reads back as created: awaiting funding, nothing funded or
/// paid, with the given terms and commitment, recorded at the next creation index.
pub proof fn law_create_then_get(
    s: EscrowView,
    env: Env,
    inv_id: InvoiceId,
    seller: Address,
    debtor: Address,
    face_value: i128,
    purchase_price: i128,
    due_date: u64,
    token: Address,
    inv_token: Address,
    commitment: Commitment,
    milestone: Option<i128>,
    inv_decimals: Option<u32>,
    pay_decimals: Option<u32>,
)
    requires
        create_escrow_result(
            s,
            env,
            inv_id,
            seller,
            debtor,
            face_value,
            purchase_price,
            due_date,
            token,
            inv_token,
            commitment,
            milestone,
            inv_decimals,
            pay_decimals,
        ) is Ok,
    ensures
        ({
            let s1 = create_escrow_result(
                s,
                env,
                inv_id,
                seller,
                debtor,
                face_value,
                purchase_price,
                due_date,
                token,
                inv_token,
                commitment,
                milestone,
                inv_decimals,
                pay_decimals,
            )->Ok_0;
            &&& escrow_of(s1, inv_id) == Ok::<_, Error>(
                new_escrow(
                    inv_id,
                    seller,
                    debtor,
                    face_value,
                    purchase_price,
                    due_date,
                    token,
                    inv_token,
                    commitment,
                    milestone,
                ),
            )
            &&& s1.escrows[inv_id].status is Created
            &&& s1.escrow_ids[s.escrow_count] == inv_id
        }),
{
}

/// Only an escrow in a terminal state is cleaned up, and afterwards it is gone.
pub proof fn law_cleanup_only_terminal(s: EscrowView, inv_id: InvoiceId, caller: Address)
    requires
        cleanup_escrow_result(s, inv_id, caller) is Ok,
    ensures
        s.escrows[inv_id].status.is_terminal(),
        escrow_of(cleanup_escrow_result(s, inv_id, caller)->Ok_0, inv_id) == Err::<
            crate::escrow::types::EscrowDataView,
            Error,
        >(Error::EscrowNotFound),
{
}

/// Investing, topping up and partially refunding change an invoice's total raised
/// by exactly the change in the investor's position.
pub proof fn law_position_accounting(
    s: EscrowView,
    env: Env,
    investor: Address,
    invoice_id: FundingInvoiceId,
    amount: i128,
)
    ensures
        invest_result(s, env, investor, invoice_id, amount) is Ok ==> ({
            let s1 = invest_result(s, env, investor, invoice_id, amount)->Ok_0;
            &&& s1.invoices[invoice_id].total_raised == s.invoices[invoice_id].total_raised + amount
            &&& s1.position(invoice_id, investor) == s.position(invoice_id, investor) + amount
        }),
        top_up_result(s, env, investor, invoice_id, amount) is Ok ==> ({
            let s1 = top_up_result(s, env, investor, invoice_id, amount)->Ok_0;
            &&& s1.invoices[invoice_id].total_raised == s.invoices[invoice_id].total_raised + amount
            &&& s1.position(invoice_id, investor) == s.position(invoice_id, investor) + amount
        }),
        partial_refund_result(s, env, investor, invoice_id, amount) is Ok ==> ({
            let s1 = partial_refund_result(s, env, investor, invoice_id, amount)->Ok_0;
            &&& s1.invoices[invoice_id].total_raised == s.invoices[invoice_id].total_raised - amount
            &&& s1.position(invoice_id, investor) == s.position(invoice_id, investor) - amount
        }),
{
}

/// Transferring a position between two different investors moves it whole: the
/// seller's position drops to zero, the buyer's grows by it, and their sum and
/// everyone else's positions are unchanged.
pub proof fn law_transfer_position_conserves(
    s: EscrowView,
    from: Address,
    invoice_id: FundingInvoiceId,
    to: Address,
    price: i128,
    other: Address,
)
    requires
        from != to,
        other != from,
        other != to,
        transfer_position_result(s, from, invoice_id, to, price) is Ok,
    ensures
        ({
            let s1 = transfer_position_result(s, from, invoice_id, to, price)->Ok_0;
            &&& s1.position(invoice_id, from) == 0
            &&& s1.position(invoice_id, to) == s.position(invoice_id, to) + s.position(
                invoice_id,
                from,
            )
            &&& s1.position(invoice_id, other) == s.position(invoice_id, other)
        }),
{
    lemma_pair_key_injective(invoice_id, from, invoice_id, to);
    lemma_pair_key_injective(invoice_id, other, invoice_id, to);
    lemma_pair_key_injective(invoice_id, other, invoice_id, from);
}

/// The terms an escrow was created with: its parties, amounts, due date, tokens,
/// funding milestone and commitment.
pub open spec fn same_terms(a: EscrowDataView, b: EscrowDataView) -> bool {
    &&& a.inv_id == b.inv_id
    &&& a.seller == b.seller
    &&& a.debtor == b.debtor
    &&& a.face_value == b.face_value
    &&& a.purchase_price == b.purchase_price
    &&& a.due_dt == b.due_dt
    &&& a.token == b.token
    &&& a.inv_token == b.inv_token
    &&& a.funding_milestone == b.funding_milestone
    &&& a.commitment == b.commitment
}

/// The terms of an escrow are immutable: funding, paying, refunding, cancelling
/// and an emergency release keep its parties, amounts, due date, tokens,
/// milestone and commitment; only its progress and status move.
pub proof fn law_escrow_terms_are_immutable(
    s: EscrowView,
    env: Env,
    inv_id: InvoiceId,
    who: Address,
    amount: i128,
)
    requires
        s.wf(),
        s.escrows.contains_key(inv_id),
    ensures
        fund_core_result(s, env, inv_id, who, amount) is Ok ==> same_terms(
            fund_core_result(s, env, inv_id, who, amount)->Ok_0.escrows[inv_id],
            s.escrows[inv_id],
        ),
        record_payment_result(s, env, inv_id, who, amount) is Ok ==> same_terms(
            record_payment_result(s, env, inv_id, who, amount)->Ok_0.escrows[inv_id],
            s.escrows[inv_id],
        ),
        refund_result(s, env, inv_id) is Ok ==> same_terms(
            refund_result(s, env, inv_id)->Ok_0.escrows[inv_id],
            s.escrows[inv_id],
        ),
        cancel_escrow_result(s, env, inv_id, who) is Ok ==> same_terms(
            cancel_escrow_result(s, env, inv_id, who)->Ok_0.escrows[inv_id],
            s.escrows[inv_id],
        ),
        same_terms(emergency_release_outcome(s, env, who, inv_id).0.escrows[inv_id], s.escrows[inv_id]),
{
}

/// While the whitelist is enabled, only whitelisted buyers can fund; and no
/// contribution below the configured minimum investment is accepted unless it
/// exactly completes the escrow.
pub proof fn law_funding_gates(s: EscrowView, env: Env, inv_id: InvoiceId, buyer: Address, amount: i128)
    requires
        s.config is Some,
        fund_core_result(s, env, inv_id, buyer, amount) is Ok,
    ensures
        s.config->0.whitelist_enabled ==> s.whitelist.contains(buyer),
        s.config->0.min_investment > 0 && amount < s.config->0.min_investment ==> amount
            == s.escrows[inv_id].purchase_price - s.escrows[inv_id].funded_amt,
{
}

/// Raising a dispute takes a funded escrow to `Disputed` with an open dispute
/// record; while it is disputed, funding, payment, refund and cancellation are all
/// refused, so only the dispute's resolution moves it on.
pub proof fn law_disputed_escrow_waits_for_resolution(
    s: EscrowView,
    env: Env,
    later: Env,
    caller: Address,
    inv_id: InvoiceId,
    reason: Seq<u8>,
    a: Address,
    amount: i128,
)
    requires
        s.wf(),
        raise_dispute_result(s, env, caller, inv_id, reason) is Ok,
    ensures
        ({
            let s2 = raise_dispute_result(s, env, caller, inv_id, reason)->Ok_0;
            &&& s.escrows[inv_id].status is Funded
            &&& s2.escrows[inv_id].status is Disputed
            &&& s2.disputes[inv_id].raiser == caller
            &&& s2.disputes[inv_id].raised_at == env.timestamp
            &&& !s2.disputes[inv_id].resolved
            &&& fund_core_result(s2, later, inv_id, a, amount) is Err
            &&& record_payment_result(s2, later, inv_id, a, amount) is Err
            &&& refund_result(s2, later, inv_id) is Err
            &&& cancel_escrow_result(s2, later, inv_id, a) is Err
        }),
{
}

/// Resolving a dispute ends the escrow: it is refunded when the buyer is favoured
/// and settled when the seller is, the dispute is marked resolved, and once the
/// dispute timeout has passed the buyer is favoured whatever the admin chose.
pub proof fn law_dispute_resolution(
    s: EscrowView,
    env: Env,
    admin: Address,
    inv_id: InvoiceId,
    favour: Favour,
)
    requires
        resolve_dispute_result(s, env, admin, inv_id, favour) is Ok,
    ensures
        ({
            let s2 = resolve_dispute_result(s, env, admin, inv_id, favour)->Ok_0;
            let deadline = dispute_deadline(s.disputes[inv_id].raised_at, s.config->0.dispute_timeout_secs);
            let status = s2.escrows[inv_id].status;
            &&& s.escrows[inv_id].status is Disputed
            &&& status.is_terminal()
            &&& s2.disputes[inv_id].resolved
            &&& env.timestamp > deadline ==> status is Refunded
            &&& env.timestamp <= deadline ==> (status is Refunded <==> favour is Buyer)
        }),
{
}

/// What one effect moves of `token` from `from` to `to`.
pub open spec fn transfer_value(e: Effect, token: Address, from: Address, to: Address) -> int {
    match e {
        Effect::Transfer { token: t, from: f, to: r, amount } => if t == token && f == from && r == to {
            amount as int
        } else {
            0
        },
        _ => 0,
    }
}

/// The total that `effects` transfer of `token` from `from` to `to`.
pub open spec fn transferred(effects: Seq<Effect>, token: Address, from: Address, to: Address) -> int
    decreases effects.len(),
{
    if effects.len() == 0 {
        0
    } else {
        transferred(effects.drop_last(), token, from, to) + transfer_value(
            effects.last(),
            token,
            from,
            to,
        )
    }
}

/// What one effect mints of invoice token `inv_token` to `to`.
pub open spec fn mint_value(e: Effect, inv_token: Address, to: Address) -> int {
    match e {
        Effect::Mint { inv_token: t, to: r, amount, .. } => if t == inv_token && r == to {
            amount as int
        } else {
            0
        },
        _ => 0,
    }
}

/// The total that `effects` mint of invoice token `inv_token` to `to`.
pub open spec fn minted(effects: Seq<Effect>, inv_token: Address, to: Address) -> int
    decreases effects.len(),
{
    if effects.len() == 0 {
        0
    } else {
        minted(effects.drop_last(), inv_token, to) + mint_value(effects.last(), inv_token, to)
    }
}

/// Transfers and mints add up over consecutive effects.
pub proof fn lemma_totals_concat(a: Seq<Effect>, b: Seq<Effect>, token: Address, from: Address, to: Address)
    ensures
        transferred(a + b, token, from, to) == transferred(a, token, from, to) + transferred(
            b,
            token,
            from,
            to,
        ),
        minted(a + b, token, to) == minted(a, token, to) + minted(b, token, to),
    decreases b.len(),
{
    if b.len() == 0 {
        assert(a + b =~= a);
    } else {
        lemma_totals_concat(a, b.drop_last(), token, from, to);
        assert((a + b).drop_last() =~= a + b.drop_last());
    }
}

/// The totals of a single effect.
pub proof fn lemma_totals_single(e: Effect, token: Address, from: Address, to: Address)
    ensures
        transferred(seq![e], token, from, to) == transfer_value(e, token, from, to),
        minted(seq![e], token, to) == mint_value(e, token, to),
{
    let none = Seq::<Effect>::empty();
    assert(seq![e].drop_last() =~= none);
    assert(seq![e].last() == e);
    assert(transferred(none, token, from, to) == 0);
    assert(minted(none, token, to) == 0);
}

/// A successful funding takes exactly `amount` of the payment token from the buyer
/// into the escrow and mints exactly `amount` invoice tokens to the buyer: as many
/// tokens as it paid in, never the escrow's whole funded amount. The escrow's funded
/// amount and the buyer's recorded contribution both grow by `amount`.
pub proof fn law_funding_mints_what_it_takes(
    s: EscrowView,
    env: Env,
    inv_id: InvoiceId,
    buyer: Address,
    amount: i128,
)
    requires
        fund_core_result(s, env, inv_id, buyer, amount) is Ok,
    ensures
        ({
            let s2 = fund_core_result(s, env, inv_id, buyer, amount)->Ok_0;
            let d = s.escrows[inv_id];
            &&& minted(s2.effects, d.inv_token, buyer) == minted(s.effects, d.inv_token, buyer) + amount
            &&& transferred(s2.effects, d.token, buyer, env.contract) == transferred(
                s.effects,
                d.token,
                buyer,
                env.contract,
            ) + amount
            &&& s2.escrows[inv_id].funded_amt == d.funded_amt + amount
            &&& s2.funder_amount(inv_id, buyer) == s.funder_amount(inv_id, buyer) + amount
        }),
{
    let s2 = fund_core_result(s, env, inv_id, buyer, amount)->Ok_0;
    let d = s.escrows[inv_id];
    let new_effects = s2.effects.subrange(s.effects.len() as int, s2.effects.len() as int);
    assert(s2.effects =~= s.effects + new_effects);
    let t = Effect::Transfer { token: d.token, from: buyer, to: env.contract, amount };
    let m = Effect::Mint { inv_token: d.inv_token, to: buyer, amount, by: env.contract };
    let e = new_effects[2];
    let tail = new_effects.subrange(3, new_effects.len() as int);
    assert(new_effects =~= seq![t] + seq![m] + seq![e] + tail);
    lemma_totals_concat(s.effects, new_effects, d.inv_token, buyer, buyer);
    lemma_totals_concat(s.effects, new_effects, d.token, buyer, env.contract);
    lemma_totals_concat(seq![t] + seq![m] + seq![e], tail, d.inv_token, buyer, buyer);
    lemma_totals_concat(seq![t] + seq![m] + seq![e], tail, d.token, buyer, env.contract);
    lemma_totals_concat(seq![t] + seq![m], seq![e], d.inv_token, buyer, buyer);
    lemma_totals_concat(seq![t] + seq![m], seq![e], d.token, buyer, env.contract);
    lemma_totals_concat(seq![t], seq![m], d.inv_token, buyer, buyer);
    lemma_totals_concat(seq![t], seq![m], d.token, buyer, env.contract);
    lemma_totals_single(t, d.inv_token, buyer, buyer);
    lemma_totals_single(t, d.token, buyer, env.contract);
    lemma_totals_single(m, d.inv_token, buyer, buyer);
    lemma_totals_single(m, d.token, buyer, env.contract);
    lemma_totals_single(e, d.inv_token, buyer, buyer);
    lemma_totals_single(e, d.token, buyer, env.contract);
    if tail.len() > 0 {
        assert(tail =~= seq![tail[0]]);
        lemma_totals_single(tail[0], d.inv_token, buyer, buyer);
        lemma_totals_single(tail[0], d.token, buyer, env.contract);
    }
    lemma_pair_key_injective(inv_id, buyer, inv_id, buyer);
}

/// A signed funding takes, mints and records exactly what a direct funding of the
/// same amount would: `amount`, to and from the buyer.
pub proof fn law_signed_funding_mints_what_it_takes(
    s: EscrowView,
    env: Env,
    inv_id: InvoiceId,
    buyer: Address,
    amount: i128,
    nonce: u64,
    expiry: u64,
)
    requires
        fund_escrow_signed_result(s, env, inv_id, buyer, amount, nonce, expiry) is Ok,
    ensures
        ({
            let s2 = fund_escrow_signed_result(s, env, inv_id, buyer, amount, nonce, expiry)->Ok_0;
            let d = s.escrows[inv_id];
            &&& minted(s2.effects, d.inv_token, buyer) == minted(s.effects, d.inv_token, buyer) + amount
            &&& transferred(s2.effects, d.token, buyer, env.contract) == transferred(
                s.effects,
                d.token,
                buyer,
                env.contract,
            ) + amount
            &&& s2.escrows[inv_id].funded_amt == d.funded_amt + amount
        }),
{
    law_funding_mints_what_it_takes(s, env, inv_id, buyer, amount);
    let s1 = fund_core_result(s, env, inv_id, buyer, amount)->Ok_0;
    let s2 = fund_escrow_signed_result(s, env, inv_id, buyer, amount, nonce, expiry)->Ok_0;
    let d = s.escrows[inv_id];
    let e = s2.effects.last();
    assert(s2.effects =~= s1.effects + seq![e]);
    lemma_totals_concat(s1.effects, seq![e], d.inv_token, buyer, buyer);
    lemma_totals_concat(s1.effects, seq![e], d.token, buyer, env.contract);
    lemma_totals_single(e, d.inv_token, buyer, buyer);
    lemma_totals_single(e, d.token, buyer, env.contract);
}

/// Cancelling without a payment distributor returns to the primary funder exactly
/// its own recorded contribution, never the escrow's whole funded amount.
pub proof fn law_cancel_returns_the_primary_contribution(
    s: EscrowView,
    env: Env,
    inv_id: InvoiceId,
    seller: Address,
)
    requires
        s.wf(),
        cancel_escrow_result(s, env, inv_id, seller) is Ok,
        s.config->0.payment_distributor is None,
        s.escrows[inv_id].funder is Some,
    ensures
        ({
            let s2 = cancel_escrow_result(s, env, inv_id, seller)->Ok_0;
            let d = s.escrows[inv_id];
            let f = d.funder->0;
            transferred(s2.effects, d.token, env.contract, f) == transferred(
                s.effects,
                d.token,
                env.contract,
                f,
            ) + if d.funded_amt > 0 {
                s.funder_amount(inv_id, f) as int
            } else {
                0
            }
        }),
{
    let s2 = cancel_escrow_result(s, env, inv_id, seller)->Ok_0;
    let d = s.escrows[inv_id];
    let f = d.funder->0;
    let c = s.config->0;
    let fx = env.contract;
    let new_effects = s2.effects.subrange(s.effects.len() as int, s2.effects.len() as int);
    assert(s2.effects =~= s.effects + new_effects);
    lemma_totals_concat(s.effects, new_effects, d.token, fx, f);
    let tail = seq![
        ev(EscrowEvent::Cancelled { inv_id, seller }),
        ev(EscrowEvent::StatusChanged { inv_id, status: EscrowStatus::Cancelled, timestamp: env.timestamp }),
    ];
    lemma_totals_concat(seq![tail[0]], seq![tail[1]], d.token, fx, f);
    assert(tail =~= seq![tail[0]] + seq![tail[1]]);
    lemma_totals_single(tail[0], d.token, fx, f);
    lemma_totals_single(tail[1], d.token, fx, f);
    if d.funded_amt > 0 {
        let contribution = s.funder_amount(inv_id, f);
        let payout = if contribution > 0 {
            seq![Effect::Transfer { token: d.token, from: fx, to: f, amount: contribution }]
        } else {
            Seq::empty()
        };
        let mid = seq![
            Effect::SetTransferLocked { inv_token: d.inv_token, caller: fx, locked: false },
            ev(EscrowEvent::Refunded { inv_id, amount: d.funded_amt }),
        ];
        assert(new_effects =~= payout + mid + tail);
        lemma_totals_concat(payout + mid, tail, d.token, fx, f);
        lemma_totals_concat(payout, mid, d.token, fx, f);
        lemma_totals_concat(seq![mid[0]], seq![mid[1]], d.token, fx, f);
        assert(mid =~= seq![mid[0]] + seq![mid[1]]);
        lemma_totals_single(mid[0], d.token, fx, f);
        lemma_totals_single(mid[1], d.token, fx, f);
        if contribution > 0 {
            lemma_totals_single(payout[0], d.token, fx, f);
            assert(payout =~= seq![payout[0]]);
        } else {
            assert(transferred(payout, d.token, fx, f) == 0);
            assert(contribution == 0);
        }
    } else {
        assert(new_effects =~= tail);
    }
}

/// A payment recorded without a payment distributor splits as follows: the admin
/// receives the platform fee `amount * fee_bps / 10_000`, the primary funder its
/// share of the rest in proportion to its own contribution,
/// `(amount - fee) * contribution / funded_amt`, and the seller the payment. The
/// primary funder is never paid the share of the other funders.
pub proof fn law_payment_pays_pro_rata(
    s: EscrowView,
    env: Env,
    inv_id: InvoiceId,
    payer: Address,
    amount: i128,
)
    requires
        s.wf(),
        record_payment_result(s, env, inv_id, payer, amount) is Ok,
        s.config->0.payment_distributor is None,
        s.escrows[inv_id].funder is Some,
        s.escrows[inv_id].funder->0 != s.escrows[inv_id].seller,
        s.escrows[inv_id].funder->0 != s.config->0.admin,
        s.escrows[inv_id].seller != s.config->0.admin,
        s.escrows[inv_id].funder->0 != env.contract,
        s.escrows[inv_id].seller != env.contract,
        s.config->0.admin != env.contract,
    ensures
        ({
            let s2 = record_payment_result(s, env, inv_id, payer, amount)->Ok_0;
            let d = s.escrows[inv_id];
            let c = s.config->0;
            let f = d.funder->0;
            let fee = amount * c.fee_bps / 10_000;
            let contribution = s.funder_amount(inv_id, f);
            &&& d.funded_amt > 0
            &&& transferred(s2.effects, d.token, env.contract, c.admin) == transferred(
                s.effects,
                d.token,
                env.contract,
                c.admin,
            ) + fee
            &&& transferred(s2.effects, d.token, env.contract, f) == transferred(
                s.effects,
                d.token,
                env.contract,
                f,
            ) + (amount - fee) * contribution / (d.funded_amt as int)
            &&& transferred(s2.effects, d.token, env.contract, d.seller) == transferred(
                s.effects,
                d.token,
                env.contract,
                d.seller,
            ) + amount
        }),
{
    let s2 = record_payment_result(s, env, inv_id, payer, amount)->Ok_0;
    let d = s.escrows[inv_id];
    let c = s.config->0;
    let f = d.funder->0;
    let fx = env.contract;
    let tok = d.token;
    let fee = platform_fee_on(amount, c.fee_bps)->0;
    let investor_amount = (amount - fee) as i128;
    let contribution = s.funder_amount(inv_id, f);
    assert(d.funded_amt > 0);
    assert(contribution >= 0);
    assert(0 <= amount * c.fee_bps) by (nonlinear_arith)
        requires
            amount > 0,
    ;
    assert(amount * c.fee_bps / 10_000 <= amount) by (nonlinear_arith)
        requires
            amount > 0,
            c.fee_bps <= 10_000,
    ;
    let product = investor_amount * contribution;
    assert(product >= 0) by (nonlinear_arith)
        requires
            investor_amount >= 0,
            contribution >= 0,
            product == investor_amount * contribution,
    ;
    let share: int = if d.funded_amt > 0 && investor_amount > 0 {
        product / (d.funded_amt as int)
    } else {
        0
    };
    assert(share == (amount - fee) * contribution / (d.funded_amt as int)) by {
        if investor_amount == 0 {
            assert((amount - fee) * contribution == 0) by (nonlinear_arith)
                requires
                    amount - fee == 0,
            ;
        }
    }
    let fee_payout = seq![Effect::Transfer { token: tok, from: fx, to: c.admin, amount: fee }];
    let seller_payout = seq![Effect::Transfer { token: tok, from: fx, to: d.seller, amount }];
    let share_payout = if share > 0 {
        seq![Effect::Transfer { token: tok, from: fx, to: f, amount: share as i128 }]
    } else {
        Seq::<Effect>::empty()
    };
    let incoming = seq![Effect::Transfer { token: tok, from: payer, to: fx, amount }];
    let new_effects = s2.effects.subrange(s.effects.len() as int, s2.effects.len() as int);
    assert(s2.effects =~= s.effects + new_effects);
    let rest = new_effects.subrange(
        (1 + fee_payout.len() + share_payout.len() + seller_payout.len()) as int,
        new_effects.len() as int,
    );
    assert(new_effects =~= incoming + fee_payout + share_payout + seller_payout + rest);
    assert forall|k: int| 0 <= k < rest.len() implies !(#[trigger] rest[k] is Transfer) by {}
    assert forall|who: Address| transferred(rest, tok, fx, who) == 0 by {
        lemma_no_transfers(rest, tok, fx, who);
    }
    assert forall|who: Address|
        who == c.admin || who == f || who == d.seller implies transferred(
            s2.effects,
            tok,
            fx,
            who,
        ) == transferred(s.effects, tok, fx, who) + transfer_value(incoming[0], tok, fx, who)
            + transfer_value(fee_payout[0], tok, fx, who) + transferred(share_payout, tok, fx, who)
            + transfer_value(seller_payout[0], tok, fx, who) by {
        lemma_totals_concat(s.effects, new_effects, tok, fx, who);
        lemma_totals_concat(incoming + fee_payout + share_payout + seller_payout, rest, tok, fx, who);
        lemma_totals_concat(incoming + fee_payout + share_payout, seller_payout, tok, fx, who);
        lemma_totals_concat(incoming + fee_payout, share_payout, tok, fx, who);
        lemma_totals_concat(incoming, fee_payout, tok, fx, who);
        lemma_totals_single(incoming[0], tok, fx, who);
        lemma_totals_single(fee_payout[0], tok, fx, who);
        lemma_totals_single(seller_payout[0], tok, fx, who);
        assert(incoming =~= seq![incoming[0]]);
        assert(fee_payout =~= seq![fee_payout[0]]);
        assert(seller_payout =~= seq![seller_payout[0]]);
    }
    if share > 0 {
        assert(share_payout =~= seq![share_payout[0]]);
        lemma_totals_single(share_payout[0], tok, fx, f);
        lemma_totals_single(share_payout[0], tok, fx, c.admin);
        lemma_totals_single(share_payout[0], tok, fx, d.seller);
    }
}

/// A sequence of effects without transfers transfers nothing.
pub proof fn lemma_no_transfers(effects: Seq<Effect>, token: Address, from: Address, to: Address)
    requires
        forall|k: int| 0 <= k < effects.len() ==> !(#[trigger] effects[k] is Transfer),
    ensures
        transferred(effects, token, from, to) == 0,
    decreases effects.len(),
{
    if effects.len() > 0 {
        let init = effects.drop_last();
        assert forall|k: int| 0 <= k < init.len() implies !(#[trigger] init[k] is Transfer) by {
            assert(init[k] == effects[k]);
        }
        lemma_no_transfers(init, token, from, to);
        assert(!(effects[effects.len() - 1] is Transfer));
    }
}

/// A dispute resolved without a payment distributor pays out as follows. Resolved
/// for the buyer (the escrow ends `Refunded`), the primary funder gets back exactly
/// its own contribution, `funded_amt * contribution / funded_amt` (nothing when
/// that product overflows), never the other funders' money. Resolved for the
/// seller (the escrow ends `Settled`), the seller receives the whole funded amount.
pub proof fn law_dispute_payout(
    s: EscrowView,
    env: Env,
    admin: Address,
    inv_id: InvoiceId,
    favour: Favour,
)
    requires
        s.wf(),
        resolve_dispute_result(s, env, admin, inv_id, favour) is Ok,
        s.config->0.payment_distributor is None,
        s.escrows[inv_id].funder is Some,
    ensures
        ({
            let s2 = resolve_dispute_result(s, env, admin, inv_id, favour)->Ok_0;
            let d = s.escrows[inv_id];
            let f = d.funder->0;
            let contribution = s.funder_amount(inv_id, f);
            &&& s2.escrows[inv_id].status is Refunded ==> transferred(
                s2.effects,
                d.token,
                env.contract,
                f,
            ) == transferred(s.effects, d.token, env.contract, f) + if d.funded_amt > 0 && fits(
                d.funded_amt * contribution,
            ) {
                contribution as int
            } else {
                0
            }
            &&& s2.escrows[inv_id].status is Settled ==> transferred(
                s2.effects,
                d.token,
                env.contract,
                d.seller,
            ) == transferred(s.effects, d.token, env.contract, d.seller) + d.funded_amt
        }),
{
    let s2 = resolve_dispute_result(s, env, admin, inv_id, favour)->Ok_0;
    let d = s.escrows[inv_id];
    let c = s.config->0;
    let f = d.funder->0;
    let fx = env.contract;
    let tok = d.token;
    let contribution = s.funder_amount(inv_id, f);
    assert(contribution >= 0);
    let new_effects = s2.effects.subrange(s.effects.len() as int, s2.effects.len() as int);
    assert(s2.effects =~= s.effects + new_effects);
    if s2.escrows[inv_id].status is Refunded {
        let payout = dispute_refund_payout(s, c, fx, inv_id, d);
        let rest = new_effects.subrange(payout.len() as int, new_effects.len() as int);
        assert(new_effects =~= payout + rest);
        assert forall|k: int| 0 <= k < rest.len() implies !(#[trigger] rest[k] is Transfer) by {}
        lemma_no_transfers(rest, tok, fx, f);
        lemma_totals_concat(s.effects, new_effects, tok, fx, f);
        lemma_totals_concat(payout, rest, tok, fx, f);
        if d.funded_amt > 0 {
            let product = d.funded_amt * contribution;
            if fits(product) {
                assert(product / (d.funded_amt as int) == contribution) by (nonlinear_arith)
                    requires
                        d.funded_amt > 0,
                        product == d.funded_amt * contribution,
                ;
                if contribution > 0 {
                    assert(payout =~= seq![payout[0]]);
                    lemma_totals_single(payout[0], tok, fx, f);
                }
            }
        }
    } else if s2.escrows[inv_id].status is Settled {
        let payout = if d.funded_amt > 0 {
            seq![Effect::Transfer { token: tok, from: fx, to: d.seller, amount: d.funded_amt }]
        } else {
            Seq::<Effect>::empty()
        };
        let rest = new_effects.subrange(payout.len() as int, new_effects.len() as int);
        assert(new_effects =~= payout + rest);
        assert forall|k: int| 0 <= k < rest.len() implies !(#[trigger] rest[k] is Transfer) by {}
        lemma_no_transfers(rest, tok, fx, d.seller);
        lemma_totals_concat(s.effects, new_effects, tok, fx, d.seller);
        lemma_totals_concat(payout, rest, tok, fx, d.seller);
        if d.funded_amt > 0 {
            lemma_totals_single(payout[0], tok, fx, d.seller);
            assert(payout =~= seq![payout[0]]);
        }
    }
}

/// A refund after the due date, without a payment distributor, returns to the
/// primary funder its share of the unpaid collateral `purchase_price - paid_amt`
/// in proportion to its own contribution: `collateral * contribution / funded_amt`
/// (nothing when no collateral is left).
pub proof fn law_refund_pays_pro_rata(s: EscrowView, env: Env, inv_id: InvoiceId)
    requires
        s.wf(),
        refund_result(s, env, inv_id) is Ok,
        s.config->0.payment_distributor is None,
        s.escrows[inv_id].funder is Some,
    ensures
        ({
            let s2 = refund_result(s, env, inv_id)->Ok_0;
            let d = s.escrows[inv_id];
            let f = d.funder->0;
            let collateral = d.purchase_price - d.paid_amt;
            transferred(s2.effects, d.token, env.contract, f) == transferred(
                s.effects,
                d.token,
                env.contract,
                f,
            ) + if collateral > 0 {
                collateral * s.funder_amount(inv_id, f) / (d.funded_amt as int)
            } else {
                0
            }
        }),
{
    let s2 = refund_result(s, env, inv_id)->Ok_0;
    let d = s.escrows[inv_id];
    let c = s.config->0;
    let f = d.funder->0;
    let fx = env.contract;
    let tok = d.token;
    let collateral = d.purchase_price - d.paid_amt;
    let contribution = s.funder_amount(inv_id, f);
    assert(contribution >= 0);
    assert(d.funded_amt > 0);
    let payout = refund_payout(s, c, env, inv_id, d, collateral as i128)->Ok_0;
    let new_effects = s2.effects.subrange(s.effects.len() as int, s2.effects.len() as int);
    assert(s2.effects =~= s.effects + new_effects);
    let rest = new_effects.subrange(payout.len() as int, new_effects.len() as int);
    assert(new_effects =~= payout + rest);
    assert forall|k: int| 0 <= k < rest.len() implies !(#[trigger] rest[k] is Transfer) by {}
    lemma_no_transfers(rest, tok, fx, f);
    lemma_totals_concat(s.effects, new_effects, tok, fx, f);
    lemma_totals_concat(payout, rest, tok, fx, f);
    if collateral > 0 && payout.len() > 0 {
        assert(payout =~= seq![payout[0]]);
        lemma_totals_single(payout[0], tok, fx, f);
    }
}

/// With a payment distributor, the money leaving the escrow goes to the
/// distributor: a refund sends it the unpaid collateral, a cancellation and a
/// dispute resolved for the buyer send it the funded amount, and a payment sends it
/// twice the payment (the payment itself for the seller, and the same again out of
/// the held funding for the investors and the fee).
pub proof fn law_distributor_receives_the_payouts(
    s: EscrowView,
    env: Env,
    inv_id: InvoiceId,
    caller: Address,
    amount: i128,
    favour: Favour,
)
    requires
        s.wf(),
        s.config is Some,
        s.config->0.payment_distributor is Some,
        s.config->0.payment_distributor->0 != env.contract,
    ensures
        ({
            let d = s.escrows[inv_id];
            let dist = s.config->0.payment_distributor->0;
            let before = transferred(s.effects, d.token, env.contract, dist);
            &&& refund_result(s, env, inv_id) is Ok ==> transferred(
                refund_result(s, env, inv_id)->Ok_0.effects,
                d.token,
                env.contract,
                dist,
            ) == before + if d.purchase_price - d.paid_amt > 0 {
                d.purchase_price - d.paid_amt
            } else {
                0
            }
            &&& cancel_escrow_result(s, env, inv_id, caller) is Ok ==> transferred(
                cancel_escrow_result(s, env, inv_id, caller)->Ok_0.effects,
                d.token,
                env.contract,
                dist,
            ) == before + if d.funded_amt > 0 {
                d.funded_amt as int
            } else {
                0
            }
            &&& (resolve_dispute_result(s, env, caller, inv_id, favour) is Ok
                && resolve_dispute_result(s, env, caller, inv_id, favour)->Ok_0.escrows[inv_id].status is Refunded)
                ==> transferred(
                resolve_dispute_result(s, env, caller, inv_id, favour)->Ok_0.effects,
                d.token,
                env.contract,
                dist,
            ) == before + d.funded_amt
            &&& record_payment_result(s, env, inv_id, caller, amount) is Ok ==> transferred(
                record_payment_result(s, env, inv_id, caller, amount)->Ok_0.effects,
                d.token,
                env.contract,
                dist,
            ) == before + 2 * amount
        }),
{
    let d = s.escrows[inv_id];
    let c = s.config->0;
    let dist = c.payment_distributor->0;
    let fx = env.contract;
    let tok = d.token;
    if refund_result(s, env, inv_id) is Ok {
        let s2 = refund_result(s, env, inv_id)->Ok_0;
        let collateral = d.purchase_price - d.paid_amt;
        let payout = refund_payout(s, c, env, inv_id, d, collateral as i128)->Ok_0;
        assert(s2.effects.subrange(0, s.effects.len() as int) =~= s.effects);
        assert(s2.effects.subrange(s.effects.len() as int, (s.effects.len() + payout.len()) as int)
            =~= payout);
        lemma_payout_then_rest(s.effects, s2.effects, payout, tok, fx, dist);
        if collateral > 0 {
            lemma_pair_to(payout, tok, fx, dist);
        }
    }
    if cancel_escrow_result(s, env, inv_id, caller) is Ok {
        let s2 = cancel_escrow_result(s, env, inv_id, caller)->Ok_0;
        if d.funded_amt > 0 {
            let payout = crate::escrow::model::refund_payouts(
                s,
                c,
                fx,
                inv_id,
                d,
                d.funded_amt,
                EscrowStatus::Cancelled,
            );
            assert(s2.effects.subrange(0, s.effects.len() as int) =~= s.effects);
            assert(s2.effects.subrange(s.effects.len() as int, (s.effects.len() + payout.len()) as int)
            =~= payout);
            lemma_payout_then_rest(s.effects, s2.effects, payout, tok, fx, dist);
            lemma_pair_to(payout, tok, fx, dist);
        } else {
            let none = Seq::<Effect>::empty();
            assert(s2.effects.subrange(0, s.effects.len() as int) =~= s.effects);
            assert(s2.effects.subrange(s.effects.len() as int, s.effects.len() as int) =~= none);
            lemma_payout_then_rest(s.effects, s2.effects, none, tok, fx, dist);
        }
    }
    if resolve_dispute_result(s, env, caller, inv_id, favour) is Ok
        && resolve_dispute_result(s, env, caller, inv_id, favour)->Ok_0.escrows[inv_id].status is Refunded {
        let s2 = resolve_dispute_result(s, env, caller, inv_id, favour)->Ok_0;
        let payout = dispute_refund_payout(s, c, fx, inv_id, d);
        assert(s2.effects.subrange(0, s.effects.len() as int) =~= s.effects);
        assert(s2.effects.subrange(s.effects.len() as int, (s.effects.len() + payout.len()) as int)
            =~= payout);
        lemma_payout_then_rest(s.effects, s2.effects, payout, tok, fx, dist);
        lemma_pair_to(payout, tok, fx, dist);
    }
    if record_payment_result(s, env, inv_id, caller, amount) is Ok {
        let s2 = record_payment_result(s, env, inv_id, caller, amount)->Ok_0;
        let incoming = seq![Effect::Transfer { token: tok, from: caller, to: fx, amount }];
        let new_effects = s2.effects.subrange(s.effects.len() as int, s2.effects.len() as int);
        assert(s2.effects =~= s.effects + new_effects);
        let shifted = s.effects + incoming;
        assert(s2.effects =~= shifted + new_effects.subrange(1, new_effects.len() as int));
        lemma_totals_concat(s.effects, incoming, tok, fx, dist);
        lemma_totals_single(incoming[0], tok, fx, dist);
        assert(incoming =~= seq![incoming[0]]);
        let tail = s2.effects.subrange(shifted.len() as int, s2.effects.len() as int);
        let payout = tail.subrange(0, 2);
        assert(s2.effects.subrange(0, shifted.len() as int) =~= shifted);
        assert(s2.effects.subrange(shifted.len() as int, (shifted.len() + payout.len()) as int) =~= payout);
        lemma_payout_then_rest(shifted, s2.effects, payout, tok, fx, dist);
        lemma_pair_to(payout, tok, fx, dist);
    }
}

/// When `after` is `before` followed by `payout` and then only non-transfers, the
/// transfers it adds are those of `payout`.
proof fn lemma_payout_then_rest(
    before: Seq<Effect>,
    after: Seq<Effect>,
    payout: Seq<Effect>,
    token: Address,
    from: Address,
    to: Address,
)
    requires
        before.len() + payout.len() <= after.len(),
        after.subrange(0, before.len() as int) == before,
        after.subrange(before.len() as int, (before.len() + payout.len()) as int) == payout,
        forall|k: int|
            before.len() + payout.len() <= k < after.len() ==> !(#[trigger] after[k] is Transfer),
    ensures
        transferred(after, token, from, to) == transferred(before, token, from, to) + transferred(
            payout,
            token,
            from,
            to,
        ),
{
    let rest = after.subrange((before.len() + payout.len()) as int, after.len() as int);
    assert(after =~= before + payout + rest);
    assert forall|k: int| 0 <= k < rest.len() implies !(#[trigger] rest[k] is Transfer) by {
        assert(rest[k] == after[before.len() + payout.len() + k]);
    }
    lemma_no_transfers(rest, token, from, to);
    lemma_totals_concat(before + payout, rest, token, from, to);
    lemma_totals_concat(before, payout, token, from, to);
}

/// The transfers of a two-effect payout whose second effect is not a transfer.
proof fn lemma_pair_to(payout: Seq<Effect>, token: Address, from: Address, to: Address)
    requires
        payout.len() == 2,
        !(payout[1] is Transfer),
    ensures
        transferred(payout, token, from, to) == transfer_value(payout[0], token, from, to),
{
    assert(payout =~= seq![payout[0]] + seq![payout[1]]);
    lemma_totals_concat(seq![payout[0]], seq![payout[1]], token, from, to);
    lemma_totals_single(payout[0], token, from, to);
    lemma_totals_single(payout[1], token, from, to);
}

} // verus!
