//! What each escrow entry point does to the escrow's abstract state.
//!
//! Each function gives, for an entry point and its arguments, either the state
//! after a successful call or the error that the call returns; checks are made in
//! the order in which the escrow makes them.
use vstd::prelude::*;

use crate::address::{pair_key, Address, ZERO_ADDRESS};
use crate::auth::{consent_of, AuthRequest};
use crate::env::Env;
use crate::escrow::effects::{Effect, EscrowEvent};
use crate::escrow::errors::Error;
use crate::escrow::storage::{amount_in, funder_keys, with_amount, EscrowView};
use crate::escrow::types::{
    Commitment, Config, EscrowDataView, EscrowStatus, FundingInvoice, FundingInvoiceId,
    InvoiceId, InvoiceStatus, MultiSigView, DisputeView, Favour, DEFAULT_DISPUTE_TIMEOUT_SECS,
};

verus! {

/// Largest platform fee, in basis points (100%).
pub const MAX_BPS: u32 = 10_000;
/// Minimum escrow duration: 1 hour (3600 seconds).
pub const MIN_ESCROW_DURATION_SECS: u64 = 3_600;
/// Maximum escrow duration: 365 days (31,536,000 seconds).
pub const MAX_ESCROW_DURATION_SECS: u64 = 31_536_000;
/// Largest page of `get_escrows`.
pub const MAX_PAGE_SIZE: u32 = 100;

/// Whether an integer fits in `i128` (the checked arithmetic succeeds).
pub open spec fn fits(x: int) -> bool {
    i128::MIN <= x <= i128::MAX
}

/// An effect that publishes `e`.
pub open spec fn ev(e: EscrowEvent) -> Effect {
    Effect::Event(e)
}

/// The configuration, or `NotInit`.
pub open spec fn config_of(s: EscrowView) -> Result<Config, Error> {
    match s.config {
        Some(c) => Ok(c),
        None => Err(Error::NotInit),
    }
}

/// The configuration of an initialized, unpaused contract, or the error.
pub open spec fn active_config(s: EscrowView) -> Result<Config, Error> {
    match s.config {
        Some(c) => if c.paused {
            Err(Error::Paused)
        } else {
            Ok(c)
        },
        None => Err(Error::NotInit),
    }
}

/// The escrow of an invoice, or `EscrowNotFound`.
pub open spec fn escrow_of(s: EscrowView, inv_id: InvoiceId) -> Result<EscrowDataView, Error> {
    if s.escrows.contains_key(inv_id) {
        Ok(s.escrows[inv_id])
    } else {
        Err(Error::EscrowNotFound)
    }
}

/// The funding invoice, or `EscrowNotFound`.
pub open spec fn invoice_of(s: EscrowView, invoice_id: FundingInvoiceId) -> Result<
    FundingInvoice,
    Error,
> {
    if s.invoices.contains_key(invoice_id) {
        Ok(s.invoices[invoice_id])
    } else {
        Err(Error::EscrowNotFound)
    }
}

/// The state with an escrow replaced and effects appended.
pub open spec fn store_escrow(
    s: EscrowView,
    inv_id: InvoiceId,
    d: EscrowDataView,
    effects: Seq<Effect>,
) -> EscrowView {
    EscrowView { escrows: s.escrows.insert(inv_id, d), effects: s.effects + effects, ..s }
}

/// The state with a new configuration and one more event.
pub open spec fn store_config(s: EscrowView, c: Config, effects: Seq<Effect>) -> EscrowView {
    EscrowView { config: Some(c), effects: s.effects + effects, ..s }
}

/// `initialize`.
pub open spec fn initialize_result(s: EscrowView, admin: Address, platform_fee_bps: u32) -> Result<
    EscrowView,
    Error,
> {
    if admin == ZERO_ADDRESS {
        Err(Error::InvalidAddress)
    } else if s.config is Some {
        Err(Error::AlreadyInit)
    } else if platform_fee_bps > MAX_BPS {
        Err(Error::InvalidFeeBps)
    } else {
        Ok(
            store_config(
                s,
                Config {
                    admin,
                    fee_bps: platform_fee_bps,
                    payment_distributor: None,
                    paused: false,
                    whitelist_enabled: false,
                    min_investment: 0,
                    dispute_timeout_secs: DEFAULT_DISPUTE_TIMEOUT_SECS,
                },
                Seq::empty(),
            ),
        )
    }
}

/// `set_min_investment`.
pub open spec fn set_min_investment_result(s: EscrowView, admin: Address, min_investment: i128) -> Result<
    EscrowView,
    Error,
> {
    if min_investment < 0 {
        Err(Error::InvalidAmount)
    } else {
        match config_of(s) {
            Err(e) => Err(e),
            Ok(c) => if c.admin != admin {
                Err(Error::Unauthorized)
            } else {
                Ok(store_config(s, Config { min_investment, ..c }, Seq::empty()))
            },
        }
    }
}

/// `set_whitelist_enabled`.
pub open spec fn set_whitelist_enabled_result(s: EscrowView, admin: Address, enabled: bool) -> Result<
    EscrowView,
    Error,
> {
    match config_of(s) {
        Err(e) => Err(e),
        Ok(c) => if c.admin != admin {
            Err(Error::Unauthorized)
        } else {
            Ok(store_config(s, Config { whitelist_enabled: enabled, ..c }, Seq::empty()))
        },
    }
}

/// `set_buyer_whitelisted`.
pub open spec fn set_buyer_whitelisted_result(
    s: EscrowView,
    admin: Address,
    buyer: Address,
    allowed: bool,
) -> Result<EscrowView, Error> {
    match config_of(s) {
        Err(e) => Err(e),
        Ok(c) => if c.admin != admin {
            Err(Error::Unauthorized)
        } else {
            Ok(
                EscrowView {
                    whitelist: if allowed {
                        s.whitelist.insert(buyer)
                    } else {
                        s.whitelist.remove(buyer)
                    },
                    ..s
                },
            )
        },
    }
}

/// The record of a newly created escrow.
pub open spec fn new_escrow(
    inv_id: InvoiceId,
    seller: Address,
    debtor: Address,
    face_value: i128,
    purchase_price: i128,
    due_date: u64,
    payment_token: Address,
    invoice_token: Address,
    commitment: Commitment,
    funding_milestone: Option<i128>,
) -> EscrowDataView {
    EscrowDataView {
        inv_id,
        seller,
        debtor,
        face_value,
        purchase_price,
        funded_amt: 0,
        funder: None,
        funders: Seq::empty(),
        due_dt: due_date,
        token: payment_token,
        inv_token: invoice_token,
        paid_amt: 0,
        status: EscrowStatus::Created,
        funding_milestone,
        commitment,
    }
}

/// `create_escrow`. `inv_decimals` and `pay_decimals` are the `decimals` that the
/// invoice token and the payment token report, when they answer.
pub open spec fn create_escrow_result(
    s: EscrowView,
    env: Env,
    invoice_id: InvoiceId,
    seller: Address,
    debtor: Address,
    face_value: i128,
    purchase_price: i128,
    due_date: u64,
    payment_token: Address,
    invoice_token: Address,
    commitment: Commitment,
    funding_milestone: Option<i128>,
    inv_decimals: Option<u32>,
    pay_decimals: Option<u32>,
) -> Result<EscrowView, Error> {
    if face_value <= 0 || purchase_price <= 0 {
        Err(Error::InvalidAmount)
    } else if due_date == 0 || due_date <= env.timestamp {
        Err(Error::InvalidDueDate)
    } else if due_date - env.timestamp < MIN_ESCROW_DURATION_SECS || due_date - env.timestamp
        > MAX_ESCROW_DURATION_SECS {
        Err(Error::InvalidDuration)
    } else {
        match active_config(s) {
            Err(e) => Err(e),
            Ok(_) => if s.escrows.contains_key(invoice_id) {
                Err(Error::EscrowExists)
            } else if inv_decimals is Some && pay_decimals is Some && inv_decimals->0
                != pay_decimals->0 {
                Err(Error::InvalidAssetDecimals)
            } else {
                Ok(
                    EscrowView {
                        escrows: s.escrows.insert(
                            invoice_id,
                            new_escrow(
                                invoice_id,
                                seller,
                                debtor,
                                face_value,
                                purchase_price,
                                due_date,
                                payment_token,
                                invoice_token,
                                commitment,
                                funding_milestone,
                            ),
                        ),
                        escrow_ids: s.escrow_ids.insert(s.escrow_count, invoice_id),
                        escrow_count: (s.escrow_count + 1) as u32,
                        effects: s.effects + seq![
                            ev(
                                EscrowEvent::Created {
                                    inv_id: invoice_id,
                                    seller,
                                    debtor,
                                    face_value,
                                    purchase_price,
                                    due_dt: due_date,
                                    token: payment_token,
                                    inv_token: invoice_token,
                                    commitment,
                                    funding_milestone,
                                },
                            ),
                            ev(
                                EscrowEvent::StatusChanged {
                                    inv_id: invoice_id,
                                    status: EscrowStatus::Created,
                                    timestamp: env.timestamp,
                                },
                            ),
                        ],
                        ..s
                    },
                )
            },
        }
    }
}

/// The payouts that return `amount` of held funding through the payment
/// distributor: a transfer to it and its `distribute_refund` call with `status`.
/// Without a distributor there are none here; the callers pay the funder directly.
pub open spec fn refund_payouts(
    s: EscrowView,
    c: Config,
    contract: Address,
    inv_id: InvoiceId,
    d: EscrowDataView,
    amount: i128,
    status: EscrowStatus,
) -> Seq<Effect> {
    match c.payment_distributor {
        Some(dist) => seq![
            Effect::Transfer { token: d.token, from: contract, to: dist, amount },
            Effect::DistributeRefund {
                distributor: dist,
                escrow: contract,
                invoice_id: inv_id,
                token: d.token,
                funder: d.funder,
                amount,
                status,
            },
        ],
        None => Seq::empty(),
    }
}

/// The effects of cancelling escrow `d`.
pub open spec fn cancel_effects(
    s: EscrowView,
    c: Config,
    env: Env,
    inv_id: InvoiceId,
    d: EscrowDataView,
    seller: Address,
) -> Seq<Effect> {
    let refund = if d.funded_amt > 0 {
        let payout = match c.payment_distributor {
            Some(_) => refund_payouts(s, c, env.contract, inv_id, d, d.funded_amt, EscrowStatus::Cancelled),
            None => match d.funder {
                Some(f) => if s.funder_amount(inv_id, f) > 0 {
                    seq![
                        Effect::Transfer {
                            token: d.token,
                            from: env.contract,
                            to: f,
                            amount: s.funder_amount(inv_id, f),
                        },
                    ]
                } else {
                    Seq::empty()
                },
                None => Seq::empty(),
            },
        };
        payout + seq![
            Effect::SetTransferLocked { inv_token: d.inv_token, caller: env.contract, locked: false },
            ev(EscrowEvent::Refunded { inv_id, amount: d.funded_amt }),
        ]
    } else {
        Seq::empty()
    };
    refund + seq![
        ev(EscrowEvent::Cancelled { inv_id, seller }),
        ev(
            EscrowEvent::StatusChanged {
                inv_id,
                status: EscrowStatus::Cancelled,
                timestamp: env.timestamp,
            },
        ),
    ]
}

/// `cancel_escrow`.
pub open spec fn cancel_escrow_result(
    s: EscrowView,
    env: Env,
    invoice_id: InvoiceId,
    seller: Address,
) -> Result<EscrowView, Error> {
    match active_config(s) {
        Err(e) => Err(e),
        Ok(c) => match escrow_of(s, invoice_id) {
            Err(e) => Err(e),
            Ok(d) => if d.seller != seller {
                Err(Error::Unauthorized)
            } else if d.status is Cancelled {
                Err(Error::EscrowCancelled)
            } else if d.status is Funded {
                Err(Error::EscrowFunded)
            } else if !(d.status is Created) {
                Err(Error::CancelNotAllowed)
            } else {
                Ok(
                    store_escrow(
                        s,
                        invoice_id,
                        EscrowDataView { status: EscrowStatus::Cancelled, ..d },
                        cancel_effects(s, c, env, invoice_id, d, seller),
                    ),
                )
            },
        },
    }
}

/// The escrow after `buyer` contributes so that `new_funded` is funded.
pub open spec fn funded_escrow(d: EscrowDataView, buyer: Address, new_funded: i128) -> EscrowDataView {
    EscrowDataView {
        funded_amt: new_funded,
        funders: if d.funders.contains(buyer) {
            d.funders
        } else {
            d.funders.push(buyer)
        },
        funder: if d.funder is None {
            Some(buyer)
        } else {
            d.funder
        },
        status: if new_funded == d.purchase_price {
            EscrowStatus::Funded
        } else {
            d.status
        },
        ..d
    }
}

/// Whether a contribution of `amount` reaches the milestone check of an escrow
/// whose milestone is zero: the escrow divides by zero there.
pub open spec fn fund_divides_by_zero(
    s: EscrowView,
    invoice_id: InvoiceId,
    buyer: Address,
    amount: i128,
) -> bool {
    &&& amount > 0
    &&& active_config(s) is Ok
    &&& !(active_config(s)->Ok_0.whitelist_enabled && !s.whitelist.contains(buyer))
    &&& s.escrows.contains_key(invoice_id)
    &&& {
        let c = active_config(s)->Ok_0;
        let d = s.escrows[invoice_id];
        let remaining = d.purchase_price - d.funded_amt;
        &&& d.status is Created
        &&& fits(d.funded_amt + amount)
        &&& d.funded_amt + amount <= d.purchase_price
        &&& fits(remaining)
        &&& !(c.min_investment > 0 && amount != remaining && amount < c.min_investment)
        &&& d.funding_milestone == Some(0i128)
        &&& amount != remaining
    }
}

/// The funding logic shared by `fund_escrow` and `fund_escrow_signed`.
pub open spec fn fund_core_result(
    s: EscrowView,
    env: Env,
    invoice_id: InvoiceId,
    buyer: Address,
    amount: i128,
) -> Result<EscrowView, Error> {
    if amount == 0 {
        Err(Error::ZeroAmount)
    } else if amount < 0 {
        Err(Error::InvalidAmount)
    } else {
        match active_config(s) {
            Err(e) => Err(e),
            Ok(c) => if c.whitelist_enabled && !s.whitelist.contains(buyer) {
                Err(Error::NotWhitelisted)
            } else {
                match escrow_of(s, invoice_id) {
                    Err(e) => Err(e),
                    Ok(d) => {
                        let new_funded = d.funded_amt + amount;
                        let remaining = d.purchase_price - d.funded_amt;
                        let contributed = s.funder_amount(invoice_id, buyer) + amount;
                        if d.status is Cancelled {
                            Err(Error::EscrowCancelled)
                        } else if !(d.status is Created) {
                            Err(Error::EscrowFunded)
                        } else if !fits(new_funded) {
                            Err(Error::Overflow)
                        } else if new_funded > d.purchase_price {
                            Err(Error::InvalidAmount)
                        } else if !fits(remaining) {
                            Err(Error::Overflow)
                        } else if c.min_investment > 0 && amount != remaining && amount
                            < c.min_investment {
                            Err(Error::AmountBelowMinimum)
                        } else if d.funding_milestone is Some && amount != remaining && (amount
                            < d.funding_milestone->0 || amount % d.funding_milestone->0 != 0) {
                            Err(Error::InvalidMilestoneAmount)
                        } else if !fits(contributed) {
                            Err(Error::Overflow)
                        } else {
                            let nd = funded_escrow(d, buyer, new_funded as i128);
                            let effects = seq![
                                Effect::Transfer {
                                    token: d.token,
                                    from: buyer,
                                    to: env.contract,
                                    amount,
                                },
                                Effect::Mint {
                                    inv_token: d.inv_token,
                                    to: buyer,
                                    amount,
                                    by: env.contract,
                                },
                                ev(
                                    EscrowEvent::Funded {
                                        inv_id: invoice_id,
                                        funder: buyer,
                                        amount,
                                        funded_amt: new_funded as i128,
                                        purchase_price: d.purchase_price,
                                    },
                                ),
                            ] + if nd.status is Funded {
                                seq![
                                    ev(
                                        EscrowEvent::StatusChanged {
                                            inv_id: invoice_id,
                                            status: EscrowStatus::Funded,
                                            timestamp: env.timestamp,
                                        },
                                    ),
                                ]
                            } else {
                                Seq::<Effect>::empty()
                            };
                            Ok(
                                EscrowView {
                                    funder_amounts: with_amount(
                                        s.funder_amounts,
                                        pair_key(invoice_id, buyer),
                                        contributed as i128,
                                    ),
                                    ..store_escrow(s, invoice_id, nd, effects)
                                },
                            )
                        }
                    },
                }
            },
        }
    }
}

/// `fund_escrow_signed`.
pub open spec fn fund_escrow_signed_result(
    s: EscrowView,
    env: Env,
    invoice_id: InvoiceId,
    buyer: Address,
    amount: i128,
    nonce: u64,
    expiry: u64,
) -> Result<EscrowView, Error> {
    if env.timestamp > expiry {
        Err(Error::SignatureExpired)
    } else if nonce <= s.nonce(buyer) {
        Err(Error::NonceAlreadyUsed)
    } else {
        match fund_core_result(s, env, invoice_id, buyer, amount) {
            Err(e) => Err(e),
            Ok(s1) => Ok(
                EscrowView {
                    nonces: s1.nonces.insert(buyer, nonce),
                    effects: s1.effects.push(
                        ev(EscrowEvent::FundedSigned { inv_id: invoice_id, buyer, amount, nonce }),
                    ),
                    ..s1
                },
            ),
        }
    }
}

/// The platform fee on a payment: `amount * fee_bps / 10_000`, or `None` when the
/// product overflows.
pub open spec fn platform_fee_on(amount: i128, fee_bps: u32) -> Option<i128> {
    if fits(amount * fee_bps) {
        Some(((amount * fee_bps) / 10_000) as i128)
    } else {
        None
    }
}

/// The payouts of a payment of `amount` on escrow `d` (whose paid amount becomes
/// `paid_amt` and status `status`), or `Overflow`.
pub open spec fn payment_payouts(
    s: EscrowView,
    c: Config,
    env: Env,
    inv_id: InvoiceId,
    d: EscrowDataView,
    amount: i128,
    platform_fee: i128,
    investor_amount: i128,
    paid_amt: i128,
    status: EscrowStatus,
) -> Result<Seq<Effect>, Error> {
    let funder_addr = match d.funder {
        Some(f) => f,
        None => d.seller,
    };
    match c.payment_distributor {
        Some(dist) => if !fits(amount + amount) {
            Err(Error::Overflow)
        } else {
            Ok(
                seq![
                    Effect::Transfer {
                        token: d.token,
                        from: env.contract,
                        to: dist,
                        amount: (amount + amount) as i128,
                    },
                    Effect::DistributePayment {
                        distributor: dist,
                        escrow: env.contract,
                        invoice_id: inv_id,
                        token: d.token,
                        seller: d.seller,
                        funder: funder_addr,
                        admin: c.admin,
                        paid_amt,
                        amount,
                        investor_amount,
                        fee_bps: c.fee_bps as i128,
                        status,
                    },
                ],
            )
        },
        None => {
            let fee_payout = seq![
                Effect::Transfer { token: d.token, from: env.contract, to: c.admin, amount: platform_fee },
            ];
            let seller_payout = seq![
                Effect::Transfer { token: d.token, from: env.contract, to: d.seller, amount },
            ];
            match d.funder {
                Some(f) => if d.funded_amt > 0 && investor_amount > 0 {
                    let product = investor_amount * s.funder_amount(inv_id, f);
                    if !fits(product) {
                        Err(Error::Overflow)
                    } else {
                        let share = product / (d.funded_amt as int);
                        Ok(
                            fee_payout + if share > 0 {
                                seq![
                                    Effect::Transfer {
                                        token: d.token,
                                        from: env.contract,
                                        to: f,
                                        amount: share as i128,
                                    },
                                ]
                            } else {
                                Seq::<Effect>::empty()
                            } + seller_payout,
                        )
                    }
                } else {
                    Ok(fee_payout + seller_payout)
                },
                None => Ok(fee_payout + seller_payout),
            }
        },
    }
}

/// `record_payment`.
pub open spec fn record_payment_result(
    s: EscrowView,
    env: Env,
    invoice_id: InvoiceId,
    payer: Address,
    amount: i128,
) -> Result<EscrowView, Error> {
    if amount <= 0 {
        Err(Error::InvalidAmount)
    } else {
        match active_config(s) {
            Err(e) => Err(e),
            Ok(c) => match escrow_of(s, invoice_id) {
                Err(e) => Err(e),
                Ok(d) => {
                    let remaining = d.face_value - d.paid_amt;
                    if payer != d.debtor {
                        Err(Error::InvalidPayer)
                    } else if !(d.status is Funded) {
                        Err(Error::AlreadySettled)
                    } else if !fits(remaining) {
                        Err(Error::Overflow)
                    } else if amount > remaining {
                        Err(Error::InvalidAmount)
                    } else {
                        match platform_fee_on(amount, c.fee_bps) {
                            None => Err(Error::Overflow),
                            Some(platform_fee) => {
                                let investor_amount = (amount - platform_fee) as i128;
                                let paid_amt = d.paid_amt + amount;
                                if !fits(paid_amt) {
                                    Err(Error::Overflow)
                                } else {
                                    let status = if paid_amt == d.face_value {
                                        EscrowStatus::Settled
                                    } else {
                                        d.status
                                    };
                                    match payment_payouts(
                                        s,
                                        c,
                                        env,
                                        invoice_id,
                                        d,
                                        amount,
                                        platform_fee,
                                        investor_amount,
                                        paid_amt as i128,
                                        status,
                                    ) {
                                        Err(e) => Err(e),
                                        Ok(payouts) => {
                                            let settled = status is Settled;
                                            let effects = seq![
                                                Effect::Transfer {
                                                    token: d.token,
                                                    from: payer,
                                                    to: env.contract,
                                                    amount,
                                                },
                                            ] + payouts + if settled {
                                                seq![
                                                    Effect::SetTransferLocked {
                                                        inv_token: d.inv_token,
                                                        caller: env.contract,
                                                        locked: false,
                                                    },
                                                ]
                                            } else {
                                                Seq::<Effect>::empty()
                                            } + seq![
                                                ev(
                                                    EscrowEvent::PaymentSettled {
                                                        inv_id: invoice_id,
                                                        amount,
                                                        platform_fee,
                                                        investor_amount,
                                                    },
                                                ),
                                            ] + if settled {
                                                seq![
                                                    ev(
                                                        EscrowEvent::StatusChanged {
                                                            inv_id: invoice_id,
                                                            status: EscrowStatus::Settled,
                                                            timestamp: env.timestamp,
                                                        },
                                                    ),
                                                ]
                                            } else {
                                                Seq::<Effect>::empty()
                                            };
                                            Ok(
                                                store_escrow(
                                                    s,
                                                    invoice_id,
                                                    EscrowDataView {
                                                        paid_amt: paid_amt as i128,
                                                        status,
                                                        ..d
                                                    },
                                                    effects,
                                                ),
                                            )
                                        },
                                    }
                                }
                            },
                        }
                    }
                },
            },
        }
    }
}

/// The payouts of a refund of `amount` after the due date, or `Overflow`.
pub open spec fn refund_payout(
    s: EscrowView,
    c: Config,
    env: Env,
    inv_id: InvoiceId,
    d: EscrowDataView,
    amount: i128,
) -> Result<Seq<Effect>, Error> {
    if amount <= 0 {
        Ok(Seq::empty())
    } else {
        match c.payment_distributor {
            Some(_) => Ok(refund_payouts(s, c, env.contract, inv_id, d, amount, EscrowStatus::Refunded)),
            None => match d.funder {
                Some(f) => if d.funded_amt > 0 {
                    let product = amount * s.funder_amount(inv_id, f);
                    if !fits(product) {
                        Err(Error::Overflow)
                    } else {
                        let share = product / (d.funded_amt as int);
                        if share > 0 {
                            Ok(
                                seq![
                                    Effect::Transfer {
                                        token: d.token,
                                        from: env.contract,
                                        to: f,
                                        amount: share as i128,
                                    },
                                ],
                            )
                        } else {
                            Ok(Seq::empty())
                        }
                    }
                } else {
                    Ok(Seq::empty())
                },
                None => Ok(Seq::empty()),
            },
        }
    }
}

/// `refund`.
pub open spec fn refund_result(s: EscrowView, env: Env, invoice_id: InvoiceId) -> Result<
    EscrowView,
    Error,
> {
    match active_config(s) {
        Err(e) => Err(e),
        Ok(c) => match escrow_of(s, invoice_id) {
            Err(e) => Err(e),
            Ok(d) => {
                let amount = d.purchase_price - d.paid_amt;
                if !(d.status is Funded) {
                    Err(Error::RefundNotAllowed)
                } else if env.timestamp < d.due_dt {
                    Err(Error::RefundNotAllowed)
                } else if !fits(amount) {
                    Err(Error::Overflow)
                } else {
                    match refund_payout(s, c, env, invoice_id, d, amount as i128) {
                        Err(e) => Err(e),
                        Ok(payout) => Ok(
                            store_escrow(
                                s,
                                invoice_id,
                                EscrowDataView { status: EscrowStatus::Refunded, ..d },
                                payout + seq![
                                    Effect::SetTransferLocked {
                                        inv_token: d.inv_token,
                                        caller: env.contract,
                                        locked: false,
                                    },
                                    ev(EscrowEvent::Refunded { inv_id: invoice_id, amount: amount as i128 }),
                                    ev(
                                        EscrowEvent::StatusChanged {
                                            inv_id: invoice_id,
                                            status: EscrowStatus::Refunded,
                                            timestamp: env.timestamp,
                                        },
                                    ),
                                ],
                            ),
                        ),
                    }
                }
            },
        },
    }
}

/// `raise_dispute`: a funded escrow becomes disputed, with a record of who raised
/// the dispute, why and when.
pub open spec fn raise_dispute_result(
    s: EscrowView,
    env: Env,
    caller: Address,
    invoice_id: InvoiceId,
    reason: Seq<u8>,
) -> Result<EscrowView, Error> {
    match active_config(s) {
        Err(e) => Err(e),
        Ok(_) => match escrow_of(s, invoice_id) {
            Err(e) => Err(e),
            Ok(d) => if !(d.status is Funded) {
                Err(Error::EscrowNotFunded)
            } else {
                let dispute = DisputeView { raiser: caller, reason, raised_at: env.timestamp, resolved: false };
                Ok(store_escrow(
                    EscrowView { disputes: s.disputes.insert(invoice_id, dispute), ..s },
                    invoice_id,
                    EscrowDataView { status: EscrowStatus::Disputed, ..d },
                    seq![
                        ev(EscrowEvent::DisputeRaised { inv_id: invoice_id, raiser: caller, raised_at: env.timestamp }),
                        ev(
                            EscrowEvent::StatusChanged {
                                inv_id: invoice_id,
                                status: EscrowStatus::Disputed,
                                timestamp: env.timestamp,
                            },
                        ),
                    ],
                ))
            },
        },
    }
}

/// The moment past which a dispute raised at `raised_at` can only go to the buyer
/// (the sum saturates at the largest timestamp).
pub open spec fn dispute_deadline(raised_at: u64, timeout_secs: u64) -> u64 {
    if raised_at + timeout_secs > u64::MAX {
        u64::MAX
    } else {
        (raised_at + timeout_secs) as u64
    }
}

/// The payouts of a dispute resolved for the buyer: the whole funded amount goes
/// through the distributor, or the primary funder receives
/// `funded_amt * contribution / funded_amt` when that product fits (nothing when it
/// does not, or when the share is zero).
pub open spec fn dispute_refund_payout(
    s: EscrowView,
    c: Config,
    contract: Address,
    inv_id: InvoiceId,
    d: EscrowDataView,
) -> Seq<Effect> {
    match c.payment_distributor {
        Some(_) => refund_payouts(s, c, contract, inv_id, d, d.funded_amt, EscrowStatus::Refunded),
        None => match d.funder {
            Some(f) => if d.funded_amt > 0 {
                let product = d.funded_amt * s.funder_amount(inv_id, f);
                let share = if fits(product) {
                    product / (d.funded_amt as int)
                } else {
                    0
                };
                if share > 0 {
                    seq![Effect::Transfer { token: d.token, from: contract, to: f, amount: share as i128 }]
                } else {
                    Seq::empty()
                }
            } else {
                Seq::empty()
            },
            None => Seq::empty(),
        },
    }
}

/// `resolve_dispute`: the admin decides a dispute. Once the timeout has passed the
/// buyer is favoured whatever the admin chose. For the buyer the escrow is
/// refunded; for the seller it is settled and the funded amount goes to the seller.
/// Either way the dispute is marked resolved and the invoice token is unlocked. A
/// favour naming neither party is refused as `Unauthorized` unless the timeout has
/// already decided for the buyer.
pub open spec fn resolve_dispute_result(
    s: EscrowView,
    env: Env,
    admin: Address,
    invoice_id: InvoiceId,
    favour: Favour,
) -> Result<EscrowView, Error> {
    match config_of(s) {
        Err(e) => Err(e),
        Ok(c) => if c.admin != admin {
            Err(Error::Unauthorized)
        } else {
            match escrow_of(s, invoice_id) {
                Err(e) => Err(e),
                Ok(d) => if !(d.status is Disputed) {
                    Err(Error::NotDisputed)
                } else if !s.disputes.contains_key(invoice_id) {
                    Err(Error::NotDisputed)
                } else if s.disputes[invoice_id].resolved {
                    Err(Error::AlreadyResolved)
                } else {
                    let dispute = s.disputes[invoice_id];
                    let timed_out = env.timestamp > dispute_deadline(dispute.raised_at, c.dispute_timeout_secs);
                    let actual = if timed_out {
                        Favour::Buyer
                    } else {
                        favour
                    };
                    if actual is Other {
                        Err(Error::Unauthorized)
                    } else {
                    let status = match actual {
                        Favour::Buyer => EscrowStatus::Refunded,
                        _ => EscrowStatus::Settled,
                    };
                    let outcome = match actual {
                        Favour::Buyer => dispute_refund_payout(s, c, env.contract, invoice_id, d).push(
                            ev(EscrowEvent::Refunded { inv_id: invoice_id, amount: d.funded_amt }),
                        ),
                        _ => (if d.funded_amt > 0 {
                            seq![
                                Effect::Transfer {
                                    token: d.token,
                                    from: env.contract,
                                    to: d.seller,
                                    amount: d.funded_amt,
                                },
                            ]
                        } else {
                            Seq::empty()
                        }).push(
                            ev(
                                EscrowEvent::PaymentSettled {
                                    inv_id: invoice_id,
                                    amount: d.funded_amt,
                                    platform_fee: 0,
                                    investor_amount: 0,
                                },
                            ),
                        ),
                    };
                    Ok(
                        store_escrow(
                            EscrowView {
                                disputes: s.disputes.insert(invoice_id, DisputeView { resolved: true, ..dispute }),
                                ..s
                            },
                            invoice_id,
                            EscrowDataView { status, ..d },
                            outcome + seq![
                                Effect::SetTransferLocked { inv_token: d.inv_token, caller: env.contract, locked: false },
                                ev(EscrowEvent::DisputeResolved { inv_id: invoice_id, favour: actual, timed_out }),
                                ev(EscrowEvent::StatusChanged { inv_id: invoice_id, status, timestamp: env.timestamp }),
                            ],
                        ),
                    )
                    }
                },
            }
        },
    }
}

/// `update_platform_fee_bps`.
pub open spec fn update_platform_fee_bps_result(s: EscrowView, new_fee_bps: u32) -> Result<
    EscrowView,
    Error,
> {
    match config_of(s) {
        Err(e) => Err(e),
        Ok(c) => if new_fee_bps > MAX_BPS {
            Err(Error::InvalidFeeBps)
        } else {
            Ok(
                store_config(
                    s,
                    Config { fee_bps: new_fee_bps, ..c },
                    seq![
                        ev(
                            EscrowEvent::PlatformFeeUpdated { old_fee_bps: c.fee_bps, new_fee_bps },
                        ),
                    ],
                ),
            )
        },
    }
}

/// `set_payment_distributor`.
pub open spec fn set_payment_distributor_result(s: EscrowView, payment_distributor: Address) -> Result<
    EscrowView,
    Error,
> {
    match config_of(s) {
        Err(e) => Err(e),
        Ok(c) => Ok(
            store_config(
                s,
                Config { payment_distributor: Some(payment_distributor), ..c },
                seq![
                    ev(
                        EscrowEvent::DistributorUpdated {
                            had_previous_distributor: c.payment_distributor is Some,
                            new_distributor: payment_distributor,
                        },
                    ),
                ],
            ),
        ),
    }
}

/// `set_paused`.
pub open spec fn set_paused_result(s: EscrowView, paused: bool) -> Result<EscrowView, Error> {
    match config_of(s) {
        Err(e) => Err(e),
        Ok(c) => Ok(
            store_config(
                s,
                Config { paused, ..c },
                seq![ev(EscrowEvent::PausedUpdated { old_paused: c.paused, new_paused: paused })],
            ),
        ),
    }
}

/// `set_emergency_config`.
pub open spec fn set_emergency_config_result(s: EscrowView, admin: Address, config: MultiSigView) -> Result<
    EscrowView,
    Error,
> {
    match config_of(s) {
        Err(e) => Err(e),
        Ok(c) => if c.admin != admin {
            Err(Error::Unauthorized)
        } else if config.threshold == 0 || config.threshold > config.admins.len() {
            Err(Error::InvalidFeeBps)
        } else {
            Ok(EscrowView { emergency_config: Some(config), ..s })
        },
    }
}

/// `emergency_release`: the state after the call and its result. An approval by a
/// configured emergency admin who has not yet approved is recorded when it leaves
/// the count below the threshold (the call then reports `ThresholdNotMet`), so
/// approvals accumulate across calls; it is also recorded when the release goes
/// ahead. Every other failure leaves the state unchanged.
pub open spec fn emergency_release_outcome(
    s: EscrowView,
    env: Env,
    caller: Address,
    invoice_id: InvoiceId,
) -> (EscrowView, Result<(), Error>) {
    match s.emergency_config {
        None => (s, Err(Error::EmergencyNotConfigured)),
        Some(cfg) => if !cfg.admins.contains(caller) {
            (s, Err(Error::NotEmergencyAdmin))
        } else if s.approvals_of(invoice_id).contains(caller) {
            (s, Err(Error::AlreadyApproved))
        } else {
            let approvals = s.approvals_of(invoice_id).push(caller);
            let s1 = EscrowView { approvals: s.approvals.insert(invoice_id, approvals), ..s };
            if approvals.len() < cfg.threshold {
                (s1, Err(Error::ThresholdNotMet))
            } else {
                match escrow_of(s, invoice_id) {
                    Err(e) => (s, Err(e)),
                    Ok(d) => {
                        let remaining = d.purchase_price - d.paid_amt;
                        if d.status.is_terminal() {
                            (s, Err(Error::AlreadySettled))
                        } else if !fits(remaining) {
                            (s, Err(Error::Overflow))
                        } else {
                            (
                                store_escrow(
                                    s1,
                                    invoice_id,
                                    EscrowDataView { status: EscrowStatus::Settled, ..d },
                                    if remaining > 0 {
                                        seq![
                                            Effect::Transfer {
                                                token: d.token,
                                                from: env.contract,
                                                to: d.seller,
                                                amount: remaining as i128,
                                            },
                                        ]
                                    } else {
                                        Seq::<Effect>::empty()
                                    } + seq![
                                        ev(
                                            EscrowEvent::StatusChanged {
                                                inv_id: invoice_id,
                                                status: EscrowStatus::Settled,
                                                timestamp: env.timestamp,
                                            },
                                        ),
                                    ],
                                ),
                                Ok(()),
                            )
                        }
                    },
                }
            }
        },
    }
}

/// `cleanup_escrow`.
pub open spec fn cleanup_escrow_result(s: EscrowView, invoice_id: InvoiceId, caller: Address) -> Result<
    EscrowView,
    Error,
> {
    match config_of(s) {
        Err(e) => Err(e),
        Ok(c) => match escrow_of(s, invoice_id) {
            Err(e) => Err(e),
            Ok(d) => if caller != d.seller && caller != c.admin {
                Err(Error::Unauthorized)
            } else if !d.status.is_terminal() {
                Err(Error::EscrowNotSettled)
            } else {
                Ok(
                    EscrowView {
                        escrows: s.escrows.remove(invoice_id),
                        funder_amounts: s.funder_amounts.remove_keys(
                            funder_keys(invoice_id, d.funders),
                        ),
                        effects: s.effects.push(ev(EscrowEvent::CleanedUp { inv_id: invoice_id })),
                        ..s
                    },
                )
            },
        },
    }
}

/// `create_invoice`.
pub open spec fn create_invoice_result(
    s: EscrowView,
    invoice_id: FundingInvoiceId,
    seller: Address,
    funding_target: i128,
    deadline_ledger: u32,
    min_investment: i128,
    per_investor_cap: Option<i128>,
    token: Address,
) -> Result<EscrowView, Error> {
    if funding_target <= 0 || min_investment < 0 {
        Err(Error::InvalidAmount)
    } else if s.invoices.contains_key(invoice_id) {
        Err(Error::EscrowExists)
    } else {
        Ok(
            EscrowView {
                invoices: s.invoices.insert(
                    invoice_id,
                    FundingInvoice {
                        seller,
                        funding_target,
                        total_raised: 0,
                        deadline_ledger,
                        min_investment,
                        per_investor_cap,
                        status: InvoiceStatus::Open,
                        token,
                    },
                ),
                ..s
            },
        )
    }
}

/// Whether `amount` exceeds an optional per-investor cap.
pub open spec fn over_cap(cap: Option<i128>, amount: int) -> bool {
    match cap {
        Some(c) => amount > c,
        None => false,
    }
}

/// The state with a position, an invoice and appended effects.
pub open spec fn store_position(
    s: EscrowView,
    invoice_id: FundingInvoiceId,
    investor: Address,
    position: i128,
    invoice: FundingInvoice,
    effects: Seq<Effect>,
) -> EscrowView {
    EscrowView {
        positions: with_amount(s.positions, pair_key(invoice_id, investor), position),
        invoices: s.invoices.insert(invoice_id, invoice),
        effects: s.effects + effects,
        ..s
    }
}

/// `top_up`.
pub open spec fn top_up_result(
    s: EscrowView,
    env: Env,
    investor: Address,
    invoice_id: FundingInvoiceId,
    additional_amount: i128,
) -> Result<EscrowView, Error> {
    if additional_amount <= 0 {
        Err(Error::InvalidAmount)
    } else {
        match invoice_of(s, invoice_id) {
            Err(e) => Err(e),
            Ok(inv) => {
                let current = s.position(invoice_id, investor);
                let new_position = current + additional_amount;
                let new_raised = inv.total_raised + additional_amount;
                if !(inv.status is Open) {
                    Err(Error::InvalidInvoiceStatus)
                } else if current == 0 {
                    Err(Error::NoPositionFound)
                } else if !fits(new_position) {
                    Err(Error::Overflow)
                } else if over_cap(inv.per_investor_cap, new_position) {
                    Err(Error::InvalidAmount)
                } else if !fits(new_raised) {
                    Err(Error::Overflow)
                } else if new_raised > inv.funding_target {
                    Err(Error::InvalidAmount)
                } else {
                    Ok(
                        store_position(
                            s,
                            invoice_id,
                            investor,
                            new_position as i128,
                            FundingInvoice { total_raised: new_raised as i128, ..inv },
                            seq![
                                Effect::Transfer {
                                    token: inv.token,
                                    from: investor,
                                    to: env.contract,
                                    amount: additional_amount,
                                },
                                ev(
                                    EscrowEvent::InvestmentToppedUp {
                                        investor,
                                        invoice_id,
                                        additional_amount,
                                        new_total_position: new_position as i128,
                                    },
                                ),
                            ],
                        ),
                    )
                }
            },
        }
    }
}

/// `invest`.
pub open spec fn invest_result(
    s: EscrowView,
    env: Env,
    investor: Address,
    invoice_id: FundingInvoiceId,
    amount: i128,
) -> Result<EscrowView, Error> {
    if amount <= 0 {
        Err(Error::InvalidAmount)
    } else {
        match invoice_of(s, invoice_id) {
            Err(e) => Err(e),
            Ok(inv) => {
                let new_total = inv.total_raised + amount;
                let new_position = s.position(invoice_id, investor) + amount;
                if !(inv.status is Open) {
                    Err(Error::InvalidInvoiceStatus)
                } else if amount < inv.min_investment {
                    Err(Error::BelowMinimumInvestment)
                } else if over_cap(inv.per_investor_cap, amount as int) {
                    Err(Error::InvalidAmount)
                } else if !fits(new_total) {
                    Err(Error::Overflow)
                } else if new_total > inv.funding_target {
                    Err(Error::InvalidAmount)
                } else if !fits(new_position) {
                    Err(Error::Overflow)
                } else if over_cap(inv.per_investor_cap, new_position) {
                    Err(Error::InvalidAmount)
                } else {
                    Ok(
                        store_position(
                            s,
                            invoice_id,
                            investor,
                            new_position as i128,
                            FundingInvoice { total_raised: new_total as i128, ..inv },
                            seq![
                                Effect::Transfer {
                                    token: inv.token,
                                    from: investor,
                                    to: env.contract,
                                    amount,
                                },
                            ],
                        ),
                    )
                }
            },
        }
    }
}

/// `partial_refund`.
pub open spec fn partial_refund_result(
    s: EscrowView,
    env: Env,
    investor: Address,
    invoice_id: FundingInvoiceId,
    amount: i128,
) -> Result<EscrowView, Error> {
    if amount <= 0 {
        Err(Error::InvalidAmount)
    } else {
        match invoice_of(s, invoice_id) {
            Err(e) => Err(e),
            Ok(inv) => {
                let current = s.position(invoice_id, investor);
                let remaining = current - amount;
                let new_raised = inv.total_raised - amount;
                if !(inv.status is Open) {
                    Err(Error::InvalidInvoiceStatus)
                } else if env.sequence >= inv.deadline_ledger {
                    Err(Error::InvalidInvoiceStatus)
                } else if current == 0 {
                    Err(Error::NoPositionFound)
                } else if amount > current {
                    Err(Error::InvalidAmount)
                } else if !fits(remaining) {
                    Err(Error::Overflow)
                } else if remaining != 0 && remaining < inv.min_investment {
                    Err(Error::BelowMinimumInvestment)
                } else if !fits(new_raised) {
                    Err(Error::Overflow)
                } else {
                    Ok(
                        store_position(
                            s,
                            invoice_id,
                            investor,
                            remaining as i128,
                            FundingInvoice { total_raised: new_raised as i128, ..inv },
                            seq![
                                Effect::Transfer {
                                    token: inv.token,
                                    from: env.contract,
                                    to: investor,
                                    amount,
                                },
                                ev(
                                    EscrowEvent::InvestmentPartiallyRefunded {
                                        investor,
                                        invoice_id,
                                        amount_refunded: amount,
                                        remaining_position: remaining as i128,
                                    },
                                ),
                            ],
                        ),
                    )
                }
            },
        }
    }
}

/// `transfer_position`.
pub open spec fn transfer_position_result(
    s: EscrowView,
    from: Address,
    invoice_id: FundingInvoiceId,
    to: Address,
    price: i128,
) -> Result<EscrowView, Error> {
    if price < 0 {
        Err(Error::InvalidAmount)
    } else {
        match invoice_of(s, invoice_id) {
            Err(e) => Err(e),
            Ok(inv) => {
                let position = s.position(invoice_id, from);
                let new_buyer_position = s.position(invoice_id, to) + position;
                if !(inv.status is Funded) {
                    Err(Error::InvalidInvoiceStatus)
                } else if position == 0 {
                    Err(Error::NoPositionFound)
                } else if !fits(new_buyer_position) {
                    Err(Error::Overflow)
                } else if over_cap(inv.per_investor_cap, new_buyer_position) {
                    Err(Error::InvalidAmount)
                } else {
                    Ok(
                        EscrowView {
                            positions: with_amount(
                                with_amount(s.positions, pair_key(invoice_id, from), 0),
                                pair_key(invoice_id, to),
                                new_buyer_position as i128,
                            ),
                            effects: s.effects + if price > 0 {
                                seq![Effect::Transfer { token: inv.token, from: to, to: from, amount: price }]
                            } else {
                                Seq::<Effect>::empty()
                            } + seq![
                                ev(
                                    EscrowEvent::PositionTransferred {
                                        from,
                                        to,
                                        invoice_id,
                                        position_amount: position,
                                        price,
                                    },
                                ),
                            ],
                            ..s
                        },
                    )
                }
            },
        }
    }
}

/// `finalise_funding`.
pub open spec fn finalise_funding_result(s: EscrowView, env: Env, invoice_id: FundingInvoiceId) -> Result<
    EscrowView,
    Error,
> {
    match config_of(s) {
        Err(e) => Err(e),
        Ok(_) => match invoice_of(s, invoice_id) {
            Err(e) => Err(e),
            Ok(inv) => if !(inv.status is Open) {
                Err(Error::InvalidInvoiceStatus)
            } else if inv.total_raised < inv.funding_target {
                Err(Error::FundingTargetNotReached)
            } else {
                Ok(
                    EscrowView {
                        invoices: s.invoices.insert(
                            invoice_id,
                            FundingInvoice { status: InvoiceStatus::Funded, ..inv },
                        ),
                        effects: s.effects + if inv.total_raised > 0 {
                            seq![
                                Effect::Transfer {
                                    token: inv.token,
                                    from: env.contract,
                                    to: inv.seller,
                                    amount: inv.total_raised,
                                },
                            ]
                        } else {
                            Seq::<Effect>::empty()
                        } + seq![
                            ev(
                                EscrowEvent::FundingFinalised {
                                    invoice_id,
                                    total_raised: inv.total_raised,
                                    seller: inv.seller,
                                },
                            ),
                        ],
                        ..s
                    },
                )
            },
        },
    }
}

/// The escrows recorded at creation indices `start..end` that still exist, in order.
pub open spec fn page(s: EscrowView, start: int, end: int) -> Seq<EscrowDataView>
    decreases end - start,
{
    if end <= start {
        Seq::empty()
    } else {
        let prev = page(s, start, end - 1);
        let index = (end - 1) as u32;
        if s.escrow_ids.contains_key(index) && s.escrows.contains_key(s.escrow_ids[index]) {
            prev.push(s.escrows[s.escrow_ids[index]])
        } else {
            prev
        }
    }
}

/// `get_escrows`: the page `[start, min(start + limit, count))`.
pub open spec fn get_escrows_result(s: EscrowView, start: u32, limit: u32) -> Result<
    Seq<EscrowDataView>,
    Error,
> {
    if limit == 0 {
        Err(Error::InvalidLimit)
    } else if limit > MAX_PAGE_SIZE {
        Err(Error::LimitExceeded)
    } else if start >= s.escrow_count {
        Ok(Seq::empty())
    } else {
        let end = if start + limit < s.escrow_count {
            start + limit
        } else {
            s.escrow_count as int
        };
        Ok(page(s, start as int, end))
    }
}

/// Ties a call's result and final state to its outcome: on success the state is
/// the outcome's; on failure the error is the outcome's and the state is unchanged.
pub open spec fn applied(
    old_s: EscrowView,
    new_s: EscrowView,
    r: Result<(), Error>,
    outcome: Result<EscrowView, Error>,
) -> bool {
    match outcome {
        Ok(s) => r is Ok && new_s == s,
        Err(e) => r == Err::<(), Error>(e) && new_s == old_s,
    }
}

/// The configured admin's consent, which the admin-only calls of an initialized
/// escrow ask for.
pub open spec fn admin_consent(s: EscrowView) -> Seq<AuthRequest> {
    match s.config {
        Some(c) => consent_of(c.admin),
        None => Seq::empty(),
    }
}

/// Whether a position transfer gets far enough to ask the receiving party's consent:
/// the price is not negative, the funding invoice exists and is funded, and the
/// sender holds a position in it.
pub open spec fn position_reaches_counterparty(
    s: EscrowView,
    from: Address,
    invoice_id: FundingInvoiceId,
    price: i128,
) -> bool {
    &&& price >= 0
    &&& s.invoices.contains_key(invoice_id)
    &&& s.invoices[invoice_id].status is Funded
    &&& s.position(invoice_id, from) != 0
}

} // verus!
