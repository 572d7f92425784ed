//! The invoice escrow's entry points.
use vstd::prelude::*;

use crate::address::{Address, ZERO_ADDRESS};
use crate::auth::{consent_of, consent_unless, AuthRequest};
use crate::env::Env;
use crate::escrow::effects::{Effect, EscrowEvent};
use crate::escrow::errors::Error;
use crate::escrow::events;
use crate::escrow::model::{
    create_invoice_result, finalise_funding_result, get_escrows_result, invest_result,
    invoice_of, over_cap, page, partial_refund_result, top_up_result, transfer_position_result,
    MAX_PAGE_SIZE, cleanup_escrow_result, emergency_release_outcome, payment_payouts, platform_fee_on,
    record_payment_result, refund_payout, refund_result, set_emergency_config_result,
    raise_dispute_result, resolve_dispute_result, dispute_deadline,
    set_paused_result, set_payment_distributor_result, store_config,
    update_platform_fee_bps_result, active_config, admin_consent, position_reaches_counterparty, applied, cancel_effects, cancel_escrow_result, config_of, create_escrow_result,
    escrow_of, fits, fund_core_result, fund_divides_by_zero, fund_escrow_signed_result,
    funded_escrow, initialize_result, new_escrow, refund_payouts, set_buyer_whitelisted_result,
    set_min_investment_result, set_whitelist_enabled_result, store_escrow, MAX_BPS,
    MAX_ESCROW_DURATION_SECS, MIN_ESCROW_DURATION_SECS,
};
use crate::escrow::storage::{self, escrow_wf, EscrowStorage, EscrowView};
use crate::escrow::types::{
    FundingInvoice, FundingInvoiceId, InvoiceStatus, Commitment, Config, EmergencyApprovals, EscrowData, EscrowDataView, EscrowStatus, InvoiceId,
    MultiSigConfig, DisputeData, Favour, DEFAULT_DISPUTE_TIMEOUT_SECS,
};

verus! {

/// The invoice escrow contract: escrow creation, funding by investors, payment
/// settlement, and refunds when invoices are not paid by due date.
pub struct InvoiceEscrow {
    st: EscrowStorage,
    auths: Vec<AuthRequest>,
}

impl Clone for InvoiceEscrow {
    /// A copy of the contract with all of its state. A caller that carries out the
    /// effects a call records keeps such a copy from before the call, and goes back
    /// to it when one of those effects cannot be carried out: the call has then
    /// failed as a whole. The same holds of a consent it asked for that the host
    /// cannot find.
    fn clone(&self) -> (r: Self)
        ensures
            r@ == self@,
            r.auth_requests() == self.auth_requests(),
    {
        let auths = self.auths.clone();
        assert(auths@ =~= self.auths@);
        InvoiceEscrow { st: self.st.clone(), auths }
    }
}

impl View for InvoiceEscrow {
    type V = EscrowView;

    closed spec fn view(&self) -> EscrowView {
        self.st@
    }
}

/// Reject the all-zero account address, which is never a valid participant. (The
/// escrow compares against that account only; the all-zero contract is accepted.)
fn ensure_non_zero_address(address: Address) -> (r: Result<(), Error>)
    ensures
        r == (if address == ZERO_ADDRESS {
            Err::<(), Error>(Error::InvalidAddress)
        } else {
            Ok(())
        }),
{
    if address == ZERO_ADDRESS {
        return Err(Error::InvalidAddress);
    }
    Ok(())
}

/// Reject a paused contract.
fn ensure_not_paused(config: &Config) -> (r: Result<(), Error>)
    ensures
        r == (if config.paused {
            Err::<(), Error>(Error::Paused)
        } else {
            Ok(())
        }),
{
    if config.paused {
        return Err(Error::Paused);
    }
    Ok(())
}

/// The configuration, or `NotInit`.
fn load_config(st: &EscrowStorage) -> (r: Result<Config, Error>)
    ensures
        r == config_of(st@),
{
    match storage::get_config(st) {
        Some(c) => Ok(c),
        None => Err(Error::NotInit),
    }
}

/// The configuration of an initialized, unpaused contract.
fn load_active_config(st: &EscrowStorage) -> (r: Result<Config, Error>)
    ensures
        r == active_config(st@),
{
    let config = load_config(st)?;
    ensure_not_paused(&config)?;
    Ok(config)
}

/// The escrow of an invoice, or `EscrowNotFound`.
fn load_escrow(st: &EscrowStorage, invoice_id: InvoiceId) -> (r: Result<EscrowData, Error>)
    ensures
        match escrow_of(st@, invoice_id) {
            Ok(d) => r is Ok && r->Ok_0@ == d,
            Err(e) => r == Err::<EscrowData, Error>(e),
        },
{
    match storage::get_escrow(st, invoice_id) {
        Some(d) => Ok(d),
        None => Err(Error::EscrowNotFound),
    }
}

/// Whether `a` occurs in `v`.
fn contains_address(v: &Vec<Address>, a: Address) -> (r: bool)
    ensures
        r == v@.contains(a),
{
    let mut i: usize = 0;
    while i < v.len()
        invariant
            i <= v@.len(),
            forall|j: int| 0 <= j < i ==> v@[j] != a,
        decreases v@.len() - i,
    {
        if v[i] == a {
            assert(v@[i as int] == a);
            return true;
        }
        i = i + 1;
    }
    false
}

/// The funding invoice, or `EscrowNotFound`.
fn load_invoice(st: &EscrowStorage, invoice_id: FundingInvoiceId) -> (r: Result<FundingInvoice, Error>)
    ensures
        r == invoice_of(st@, invoice_id),
{
    match storage::get_invoice(st, invoice_id) {
        Some(i) => Ok(i),
        None => Err(Error::EscrowNotFound),
    }
}

impl InvoiceEscrow {
    /// An escrow contract that has not been initialized yet.
    pub fn new() -> (r: InvoiceEscrow)
        ensures
            r@.config is None,
            r@.escrows.is_empty(),
            r@.funder_amounts.is_empty(),
            r@.nonces.is_empty(),
            r@.whitelist.is_empty(),
            r@.invoices.is_empty(),
            r@.positions.is_empty(),
            r@.emergency_config is None,
            r@.approvals.is_empty(),
            r@.escrow_count == 0,
            r@.escrow_ids.is_empty(),
            r@.effects.len() == 0,
            r@.wf(),
            r.auth_requests().len() == 0,
    {
        InvoiceEscrow { st: EscrowStorage::new(), auths: Vec::new() }
    }

    /// The consents asked for so far, oldest first.
    pub closed spec fn auth_requests(&self) -> Seq<AuthRequest> {
        self.auths@
    }

    /// The consents asked for so far, oldest first: the host checks those of each
    /// invocation against its signatures.
    pub fn required_auths(&self) -> (r: Vec<AuthRequest>)
        ensures
            r@ == self.auth_requests(),
    {
        self.auths.clone()
    }

    /// Ask for a consent to this invocation.
    fn ask(&mut self, request: AuthRequest)
        ensures
            final(self)@ == old(self)@,
            final(self).auth_requests() == old(self).auth_requests().push(request),
    {
        self.auths.push(request);
    }

    /// Ask for `a`'s consent to this invocation.
    fn require_auth(&mut self, a: Address)
        ensures
            final(self)@ == old(self)@,
            final(self).auth_requests() == old(self).auth_requests().push(AuthRequest::Invocation(a)),
    {
        self.ask(AuthRequest::Invocation(a));
    }

    /// The transfers, calls and events so far, oldest first.
    pub fn effects(&self) -> (r: Vec<Effect>)
        ensures
            r@ == self@.effects,
    {
        storage::effects(&self.st).clone()
    }

    /// Read access to the contract's storage.
    pub fn storage(&self) -> (r: &EscrowStorage)
        ensures
            r@ == self@,
    {
        &self.st
    }

    /// Initialize the contract with admin and platform fee (basis points, e.g. 300 = 3%).
    pub fn initialize(&mut self, admin: Address, platform_fee_bps: u32) -> (r: Result<(), Error>)
        requires
            old(self)@.wf(),
        ensures
            final(self).auth_requests() == old(self).auth_requests() + (
                consent_unless(admin == ZERO_ADDRESS, admin)
            ),
            final(self)@.wf(),
            applied(old(self)@, final(self)@, r, initialize_result(old(self)@, admin, platform_fee_bps)),
    {
        ensure_non_zero_address(admin)?;
        self.require_auth(admin);
        if storage::get_config(&self.st).is_some() {
            return Err(Error::AlreadyInit);
        }
        if platform_fee_bps > MAX_BPS {
            return Err(Error::InvalidFeeBps);
        }
        let config = Config {
            admin,
            fee_bps: platform_fee_bps,
            payment_distributor: None,
            paused: false,
            whitelist_enabled: false,
            min_investment: 0,
            dispute_timeout_secs: DEFAULT_DISPUTE_TIMEOUT_SECS,
        };
        storage::set_config(&mut self.st, config);
        assert(self.st@.effects =~= old(self)@.effects + Seq::<Effect>::empty());
        Ok(())
    }

    /// Admin-only: set the minimum investment amount for `fund_escrow`. `0` disables
    /// the floor (deposits must still be strictly positive).
    pub fn set_min_investment(&mut self, admin: Address, min_investment: i128) -> (r: Result<
        (),
        Error,
    >)
        requires
            old(self)@.wf(),
        ensures
            final(self).auth_requests() == old(self).auth_requests() + (consent_of(admin)),
            final(self)@.wf(),
            applied(
                old(self)@,
                final(self)@,
                r,
                set_min_investment_result(old(self)@, admin, min_investment),
            ),
    {
        self.require_auth(admin);
        if min_investment < 0 {
            return Err(Error::InvalidAmount);
        }
        let mut config = load_config(&self.st)?;
        if config.admin != admin {
            return Err(Error::Unauthorized);
        }
        config.min_investment = min_investment;
        storage::set_config(&mut self.st, config);
        assert(self.st@.effects =~= old(self)@.effects + Seq::<Effect>::empty());
        Ok(())
    }

    /// Admin-only: enable/disable buyer whitelist enforcement on `fund_escrow`.
    pub fn set_whitelist_enabled(&mut self, admin: Address, enabled: bool) -> (r: Result<(), Error>)
        requires
            old(self)@.wf(),
        ensures
            final(self).auth_requests() == old(self).auth_requests() + (consent_of(admin)),
            final(self)@.wf(),
            applied(
                old(self)@,
                final(self)@,
                r,
                set_whitelist_enabled_result(old(self)@, admin, enabled),
            ),
    {
        self.require_auth(admin);
        let mut config = load_config(&self.st)?;
        if config.admin != admin {
            return Err(Error::Unauthorized);
        }
        config.whitelist_enabled = enabled;
        storage::set_config(&mut self.st, config);
        assert(self.st@.effects =~= old(self)@.effects + Seq::<Effect>::empty());
        Ok(())
    }

    /// Admin-only: add or remove a buyer from the whitelist.
    pub fn set_buyer_whitelisted(&mut self, admin: Address, buyer: Address, allowed: bool) -> (r:
        Result<(), Error>)
        requires
            old(self)@.wf(),
        ensures
            final(self).auth_requests() == old(self).auth_requests() + (consent_of(admin)),
            final(self)@.wf(),
            applied(
                old(self)@,
                final(self)@,
                r,
                set_buyer_whitelisted_result(old(self)@, admin, buyer, allowed),
            ),
    {
        self.require_auth(admin);
        let config = load_config(&self.st)?;
        if config.admin != admin {
            return Err(Error::Unauthorized);
        }
        storage::set_whitelisted(&mut self.st, buyer, allowed);
        Ok(())
    }

    /// Whether `buyer` is whitelisted to fund escrows.
    pub fn is_buyer_whitelisted(&self, buyer: Address) -> (r: bool)
        ensures
            r == self@.whitelist.contains(buyer),
    {
        storage::is_whitelisted(&self.st, buyer)
    }

    /// Create an escrow for an invoice. `face_value` is what the debtor owes,
    /// `purchase_price` what investors pay in total, `commitment` the immutable
    /// anchor of the off-chain invoice data. `inv_decimals` and `pay_decimals` are the
    /// `decimals` reported by the invoice token and the payment token, when they
    /// answer; when both answer they must agree.
    pub fn create_escrow(
        &mut self,
        env: &Env,
        invoice_id: InvoiceId,
        seller: Address,
        debtor: Address,
        face_value: i128,
        purchase_price: i128,
        due_date: u64,
        payment_token: Address,
        invoice_token: Address,
        commitment: Commitment,
        funding_milestone: Option<i128>,
        inv_decimals: Option<u32>,
        pay_decimals: Option<u32>,
    ) -> (r: Result<(), Error>)
        requires
            old(self)@.wf(),
            old(self)@.escrow_count < u32::MAX,
        ensures
            final(self).auth_requests() == old(self).auth_requests() + (consent_of(seller)),
            final(self)@.wf(),
            applied(
                old(self)@,
                final(self)@,
                r,
                create_escrow_result(
                    old(self)@,
                    *env,
                    invoice_id,
                    seller,
                    debtor,
                    face_value,
                    purchase_price,
                    due_date,
                    payment_token,
                    invoice_token,
                    commitment,
                    funding_milestone,
                    inv_decimals,
                    pay_decimals,
                ),
            ),
    {
        self.require_auth(seller);
        if face_value <= 0 || purchase_price <= 0 {
            return Err(Error::InvalidAmount);
        }
        if due_date == 0 {
            return Err(Error::InvalidDueDate);
        }
        let current_timestamp = env.timestamp;
        if due_date <= current_timestamp {
            return Err(Error::InvalidDueDate);
        }
        let duration = due_date - current_timestamp;
        if duration < MIN_ESCROW_DURATION_SECS || duration > MAX_ESCROW_DURATION_SECS {
            return Err(Error::InvalidDuration);
        }
        load_active_config(&self.st)?;
        if storage::has_escrow(&self.st, invoice_id) {
            return Err(Error::EscrowExists);
        }
        if let (Some(inv_d), Some(pay_d)) = (inv_decimals, pay_decimals) {
            if inv_d != pay_d {
                return Err(Error::InvalidAssetDecimals);
            }
        }
        let ghost s0 = self.st@;
        let data = EscrowData {
            inv_id: invoice_id,
            seller,
            debtor,
            face_value,
            purchase_price,
            funded_amt: 0,
            funder: None,
            funders: Vec::new(),
            due_dt: due_date,
            token: payment_token,
            inv_token: invoice_token,
            paid_amt: 0,
            status: EscrowStatus::Created,
            funding_milestone,
            commitment,
        };
        assert(data@ =~= new_escrow(
            invoice_id,
            seller,
            debtor,
            face_value,
            purchase_price,
            due_date,
            payment_token,
            invoice_token,
            commitment,
            funding_milestone,
        ));
        storage::set_escrow(&mut self.st, invoice_id, data);
        let current_count = storage::get_escrow_count(&self.st);
        storage::set_escrow_id_by_index(&mut self.st, current_count, invoice_id);
        storage::increment_escrow_count(&mut self.st);
        events::escrow_created(&mut self.st, invoice_id, seller, debtor, face_value, purchase_price, due_date, payment_token, invoice_token, commitment, funding_milestone);
        events::escrow_status_changed(&mut self.st, invoice_id, EscrowStatus::Created, current_timestamp);
        proof {
            let expect = create_escrow_result(
                s0,
                *env,
                invoice_id,
                seller,
                debtor,
                face_value,
                purchase_price,
                due_date,
                payment_token,
                invoice_token,
                commitment,
                funding_milestone,
                inv_decimals,
                pay_decimals,
            )->Ok_0;
            assert(self.st@.effects =~= expect.effects);
            assert(self.st@.escrows =~= expect.escrows);
        }
        Ok(())
    }

    /// Cancel an escrow that awaits funding. Only the seller may cancel. Funds already
    /// contributed are returned (through the distributor, or to the primary funder)
    /// and the invoice token is unlocked. A partly funded escrow can therefore be
    /// cancelled: its contributions are refunded, rather than the cancel being
    /// refused; only an escrow that no longer awaits funding is refused.
    pub fn cancel_escrow(&mut self, env: &Env, invoice_id: InvoiceId, seller: Address) -> (r: Result<
        (),
        Error,
    >)
        requires
            old(self)@.wf(),
        ensures
            final(self).auth_requests() == old(self).auth_requests() + (consent_of(seller)),
            final(self)@.wf(),
            applied(
                old(self)@,
                final(self)@,
                r,
                cancel_escrow_result(old(self)@, *env, invoice_id, seller),
            ),
    {
        self.require_auth(seller);
        let config = load_active_config(&self.st)?;
        let mut data = load_escrow(&self.st, invoice_id)?;
        if data.seller != seller {
            return Err(Error::Unauthorized);
        }
        if data.status == EscrowStatus::Cancelled {
            return Err(Error::EscrowCancelled);
        }
        if data.status == EscrowStatus::Funded {
            return Err(Error::EscrowFunded);
        }
        if data.status != EscrowStatus::Created {
            return Err(Error::CancelNotAllowed);
        }
        let ghost s0 = self.st@;
        let ghost d0 = data@;
        let contract = env.contract;
        if data.funded_amt > 0 {
            let amount_to_refund = data.funded_amt;
            match config.payment_distributor {
                Some(distributor) => {
                    storage::publish(
                        &mut self.st,
                        Effect::Transfer {
                            token: data.token,
                            from: contract,
                            to: distributor,
                            amount: amount_to_refund,
                        },
                    );
                    storage::publish(
                        &mut self.st,
                        Effect::DistributeRefund {
                            distributor,
                            escrow: contract,
                            invoice_id,
                            token: data.token,
                            funder: data.funder,
                            amount: amount_to_refund,
                            status: EscrowStatus::Cancelled,
                        },
                    );
                },
                None => {
                    if let Some(funder) = data.funder {
                        let funder_amt = storage::get_funder_amount(&self.st, invoice_id, funder);
                        if funder_amt > 0 {
                            storage::publish(
                                &mut self.st,
                                Effect::Transfer {
                                    token: data.token,
                                    from: contract,
                                    to: funder,
                                    amount: funder_amt,
                                },
                            );
                        }
                    }
                },
            }
            storage::publish(
                &mut self.st,
                Effect::SetTransferLocked { inv_token: data.inv_token, caller: contract, locked: false },
            );
            events::escrow_refunded(&mut self.st, invoice_id, amount_to_refund);
        }
        data.status = EscrowStatus::Cancelled;
        storage::set_escrow(&mut self.st, invoice_id, data);
        events::escrow_cancelled(&mut self.st, invoice_id, seller);
        events::escrow_status_changed(&mut self.st, invoice_id, EscrowStatus::Cancelled, env.timestamp);
        proof {
            assert(self.st@.effects =~= s0.effects + cancel_effects(s0, config, *env, invoice_id, d0, seller));
            assert(self.st@.escrows =~= s0.escrows.insert(
                invoice_id,
                EscrowDataView { status: EscrowStatus::Cancelled, ..d0 },
            ));
            assert(escrow_wf(self.st@.escrows[invoice_id]));
        }
        Ok(())
    }

    /// Fund the escrow: `buyer` contributes `amount` toward the purchase price and
    /// receives as many invoice tokens. Several investors can fund until the escrow is
    /// fully subscribed, at which point it becomes Funded.
    pub fn fund_escrow(&mut self, env: &Env, invoice_id: InvoiceId, buyer: Address, amount: i128) -> (r:
        Result<(), Error>)
        requires
            old(self)@.wf(),
            !fund_divides_by_zero(old(self)@, invoice_id, buyer, amount),
        ensures
            final(self).auth_requests() == old(self).auth_requests() + (consent_of(buyer)),
            final(self)@.wf(),
            applied(
                old(self)@,
                final(self)@,
                r,
                fund_core_result(old(self)@, *env, invoice_id, buyer, amount),
            ),
    {
        self.require_auth(buyer);
        self.fund_escrow_core(env, invoice_id, buyer, amount)
    }

    /// Fund the escrow on behalf of `buyer` through a signed off-chain approval of
    /// `(invoice_id, amount, nonce, expiry)`. The approval must not have expired and
    /// `nonce` must exceed the last nonce consumed by `buyer`, so that the same
    /// approval cannot be replayed.
    pub fn fund_escrow_signed(
        &mut self,
        env: &Env,
        invoice_id: InvoiceId,
        buyer: Address,
        amount: i128,
        nonce: u64,
        expiry: u64,
    ) -> (r: Result<(), Error>)
        requires
            old(self)@.wf(),
            env.timestamp <= expiry && nonce > old(self)@.nonce(buyer) ==> !fund_divides_by_zero(
                old(self)@,
                invoice_id,
                buyer,
                amount,
            ),
        ensures
            final(self).auth_requests() == old(self).auth_requests() + (
                seq![AuthRequest::FundingApproval { buyer, invoice_id, amount, nonce, expiry }]
            ),
            final(self)@.wf(),
            applied(
                old(self)@,
                final(self)@,
                r,
                fund_escrow_signed_result(old(self)@, *env, invoice_id, buyer, amount, nonce, expiry),
            ),
    {
        self.ask(AuthRequest::FundingApproval { buyer, invoice_id, amount, nonce, expiry });
        if env.timestamp > expiry {
            return Err(Error::SignatureExpired);
        }
        let last_nonce = storage::get_nonce(&self.st, buyer);
        if nonce <= last_nonce {
            return Err(Error::NonceAlreadyUsed);
        }
        self.fund_escrow_core(env, invoice_id, buyer, amount)?;
        storage::set_nonce(&mut self.st, buyer, nonce);
        events::escrow_funded_signed(&mut self.st, invoice_id, buyer, amount, nonce);
        Ok(())
    }

    /// Shared funding logic used by both the directly-authorized and signed-approval
    /// entry points.
    fn fund_escrow_core(&mut self, env: &Env, invoice_id: InvoiceId, buyer: Address, amount: i128) -> (r:
        Result<(), Error>)
        requires
            old(self)@.wf(),
            !fund_divides_by_zero(old(self)@, invoice_id, buyer, amount),
        ensures
            final(self).auth_requests() == old(self).auth_requests(),
            final(self)@.wf(),
            applied(
                old(self)@,
                final(self)@,
                r,
                fund_core_result(old(self)@, *env, invoice_id, buyer, amount),
            ),
    {
        if amount == 0 {
            return Err(Error::ZeroAmount);
        }
        if amount < 0 {
            return Err(Error::InvalidAmount);
        }
        let config = load_active_config(&self.st)?;
        if config.whitelist_enabled && !storage::is_whitelisted(&self.st, buyer) {
            return Err(Error::NotWhitelisted);
        }
        let mut data = load_escrow(&self.st, invoice_id)?;
        if data.status == EscrowStatus::Cancelled {
            return Err(Error::EscrowCancelled);
        }
        if data.status != EscrowStatus::Created {
            return Err(Error::EscrowFunded);
        }
        let new_funded = match data.funded_amt.checked_add(amount) {
            Some(v) => v,
            None => return Err(Error::Overflow),
        };
        if new_funded > data.purchase_price {
            return Err(Error::InvalidAmount);
        }
        let remaining_to_fund = match data.purchase_price.checked_sub(data.funded_amt) {
            Some(v) => v,
            None => return Err(Error::Overflow),
        };
        if config.min_investment > 0 && amount != remaining_to_fund && amount < config.min_investment {
            return Err(Error::AmountBelowMinimum);
        }
        if let Some(milestone) = data.funding_milestone {
            if amount != remaining_to_fund && (amount < milestone || amount % milestone != 0) {
                return Err(Error::InvalidMilestoneAmount);
            }
        }
        let current_funder_amt = storage::get_funder_amount(&self.st, invoice_id, buyer);
        let new_funder_amt = match current_funder_amt.checked_add(amount) {
            Some(v) => v,
            None => return Err(Error::Overflow),
        };
        let ghost s0 = self.st@;
        let ghost d0 = data@;
        let contract = env.contract;
        storage::publish(
            &mut self.st,
            Effect::Transfer { token: data.token, from: buyer, to: contract, amount },
        );
        storage::publish(
            &mut self.st,
            Effect::Mint { inv_token: data.inv_token, to: buyer, amount, by: contract },
        );
        storage::set_funder_amount(&mut self.st, invoice_id, buyer, new_funder_amt);
        data.funded_amt = new_funded;
        if !contains_address(&data.funders, buyer) {
            data.funders.push(buyer);
        }
        if data.funder.is_none() {
            data.funder = Some(buyer);
        }
        if data.funded_amt == data.purchase_price {
            data.status = EscrowStatus::Funded;
        }
        let purchase_price = data.purchase_price;
        let status = data.status;
        assert(data@ =~= funded_escrow(d0, buyer, new_funded));
        storage::set_escrow(&mut self.st, invoice_id, data);
        events::escrow_funded(&mut self.st, invoice_id, buyer, amount, new_funded, purchase_price);
        if status == EscrowStatus::Funded {
            events::escrow_status_changed(&mut self.st, invoice_id, EscrowStatus::Funded, env.timestamp);
        }
        proof {
            let expect = fund_core_result(s0, *env, invoice_id, buyer, amount)->Ok_0;
            assert(self.st@.effects =~= expect.effects);
            assert(self.st@.escrows =~= expect.escrows);
            assert(self.st@.funder_amounts =~= expect.funder_amounts);
            assert(escrow_wf(self.st@.escrows[invoice_id]));
        }
        Ok(())
    }

    /// Record a payment by the debtor toward the face value. The platform fee is
    /// `amount * fee_bps / 10_000`; the rest is the investors' share, paid pro rata to
    /// the primary funder, and the seller receives the full payment amount (or all of
    /// it goes to the payment distributor). The escrow settles when the face value is
    /// fully paid, which unlocks the invoice token.
    pub fn record_payment(&mut self, env: &Env, invoice_id: InvoiceId, payer: Address, amount: i128) -> (r:
        Result<(), Error>)
        requires
            old(self)@.wf(),
        ensures
            final(self).auth_requests() == old(self).auth_requests() + (consent_of(payer)),
            final(self)@.wf(),
            applied(
                old(self)@,
                final(self)@,
                r,
                record_payment_result(old(self)@, *env, invoice_id, payer, amount),
            ),
    {
        self.require_auth(payer);
        if amount <= 0 {
            return Err(Error::InvalidAmount);
        }
        let config = load_active_config(&self.st)?;
        let mut data = load_escrow(&self.st, invoice_id)?;
        if payer != data.debtor {
            return Err(Error::InvalidPayer);
        }
        if data.status != EscrowStatus::Funded {
            return Err(Error::AlreadySettled);
        }
        let remaining = match data.face_value.checked_sub(data.paid_amt) {
            Some(v) => v,
            None => return Err(Error::Overflow),
        };
        if amount > remaining {
            return Err(Error::InvalidAmount);
        }
        let fee_bps = config.fee_bps as i128;
        let platform_fee = match amount.checked_mul(fee_bps) {
            Some(v) => v / 10_000,
            None => return Err(Error::Overflow),
        };
        proof {
            assert(amount * fee_bps >= 0) by (nonlinear_arith)
                requires
                    amount > 0,
                    fee_bps >= 0,
            ;
            assert(amount * fee_bps <= amount * 10_000) by (nonlinear_arith)
                requires
                    amount > 0,
                    fee_bps <= 10_000,
            ;
        }
        let investor_amount = amount - platform_fee;
        let new_paid = match data.paid_amt.checked_add(amount) {
            Some(v) => v,
            None => return Err(Error::Overflow),
        };
        let status = if new_paid == data.face_value {
            EscrowStatus::Settled
        } else {
            data.status
        };
        let ghost s0 = self.st@;
        let ghost d0 = data@;
        let contract = env.contract;
        let payouts = self.payment_payouts(
            &config,
            env,
            invoice_id,
            &data,
            amount,
            platform_fee,
            investor_amount,
            new_paid,
            status,
        )?;
        storage::publish(
            &mut self.st,
            Effect::Transfer { token: data.token, from: payer, to: contract, amount },
        );
        let mut i: usize = 0;
        assert(self.st@.effects =~= s0.effects + seq![
            Effect::Transfer { token: d0.token, from: payer, to: contract, amount },
        ] + payouts@.subrange(0, 0));
        while i < payouts.len()
            invariant
                i <= payouts@.len(),
                self.st@ == (EscrowView {
                    effects: s0.effects + seq![
                        Effect::Transfer { token: d0.token, from: payer, to: contract, amount },
                    ] + payouts@.subrange(0, i as int),
                    ..s0
                }),
                self.auth_requests() == old(self).auth_requests() + consent_of(payer),
            decreases payouts@.len() - i,
        {
            storage::publish(&mut self.st, payouts[i]);
            i = i + 1;
            assert(self.st@.effects =~= s0.effects + seq![
                Effect::Transfer { token: d0.token, from: payer, to: contract, amount },
            ] + payouts@.subrange(0, i as int));
        }
        assert(payouts@.subrange(0, payouts@.len() as int) =~= payouts@);
        let inv_token = data.inv_token;
        data.paid_amt = new_paid;
        data.status = status;
        storage::set_escrow(&mut self.st, invoice_id, data);
        if status == EscrowStatus::Settled {
            storage::publish(
                &mut self.st,
                Effect::SetTransferLocked { inv_token, caller: contract, locked: false },
            );
        }
        events::payment_settled(&mut self.st, invoice_id, amount, platform_fee, investor_amount);
        if status == EscrowStatus::Settled {
            events::escrow_status_changed(&mut self.st, invoice_id, EscrowStatus::Settled, env.timestamp);
        }
        proof {
            let expect = record_payment_result(s0, *env, invoice_id, payer, amount)->Ok_0;
            assert(self.st@.effects =~= expect.effects);
            assert(self.st@.escrows =~= expect.escrows);
            assert(escrow_wf(self.st@.escrows[invoice_id]));
        }
        Ok(())
    }

    /// The payouts of a payment (see `record_payment`), computed without writing.
    fn payment_payouts(
        &self,
        config: &Config,
        env: &Env,
        invoice_id: InvoiceId,
        data: &EscrowData,
        amount: i128,
        platform_fee: i128,
        investor_amount: i128,
        paid_amt: i128,
        status: EscrowStatus,
    ) -> (r: Result<Vec<Effect>, Error>)
        requires
            self@.wf(),
            data@.funded_amt >= 0,
        ensures
            match payment_payouts(
                self@,
                *config,
                *env,
                invoice_id,
                data@,
                amount,
                platform_fee,
                investor_amount,
                paid_amt,
                status,
            ) {
                Ok(p) => r is Ok && r->Ok_0@ == p,
                Err(e) => r == Err::<Vec<Effect>, Error>(e),
            },
    {
        let contract = env.contract;
        let funder_addr = match data.funder {
            Some(f) => f,
            None => data.seller,
        };
        let mut out: Vec<Effect> = Vec::new();
        match config.payment_distributor {
            Some(distributor) => {
                let total_to_distributor = match amount.checked_add(amount) {
                    Some(v) => v,
                    None => return Err(Error::Overflow),
                };
                out.push(
                    Effect::Transfer {
                        token: data.token,
                        from: contract,
                        to: distributor,
                        amount: total_to_distributor,
                    },
                );
                out.push(
                    Effect::DistributePayment {
                        distributor,
                        escrow: contract,
                        invoice_id,
                        token: data.token,
                        seller: data.seller,
                        funder: funder_addr,
                        admin: config.admin,
                        paid_amt,
                        amount,
                        investor_amount,
                        fee_bps: config.fee_bps as i128,
                        status,
                    },
                );
            },
            None => {
                out.push(
                    Effect::Transfer {
                        token: data.token,
                        from: contract,
                        to: config.admin,
                        amount: platform_fee,
                    },
                );
                if let Some(funder) = data.funder {
                    if data.funded_amt > 0 && investor_amount > 0 {
                        let funder_amt = storage::get_funder_amount(&self.st, invoice_id, funder);
                        let product = match investor_amount.checked_mul(funder_amt) {
                            Some(v) => v,
                            None => return Err(Error::Overflow),
                        };
                        proof {
                            assert(product >= 0) by (nonlinear_arith)
                                requires
                                    product == investor_amount * funder_amt,
                                    investor_amount > 0,
                                    funder_amt >= 0,
                            ;
                        }
                        let pro_rata_share = product / data.funded_amt;
                        if pro_rata_share > 0 {
                            out.push(
                                Effect::Transfer {
                                    token: data.token,
                                    from: contract,
                                    to: funder,
                                    amount: pro_rata_share,
                                },
                            );
                        }
                    }
                }
                out.push(
                    Effect::Transfer { token: data.token, from: contract, to: data.seller, amount },
                );
            },
        }
        proof {
            let p = payment_payouts(
                self@,
                *config,
                *env,
                invoice_id,
                data@,
                amount,
                platform_fee,
                investor_amount,
                paid_amt,
                status,
            );
            assert(out@ =~= p->Ok_0);
        }
        Ok(out)
    }

    /// Refund the investors when the invoice was not paid by the due date. Anyone may
    /// call. The remaining collateral (`purchase_price - paid_amt`) goes to the
    /// distributor, or pro rata to the primary funder; the invoice token is unlocked.
    pub fn refund(&mut self, env: &Env, invoice_id: InvoiceId) -> (r: Result<(), Error>)
        requires
            old(self)@.wf(),
        ensures
            final(self).auth_requests() == old(self).auth_requests(),
            final(self)@.wf(),
            applied(old(self)@, final(self)@, r, refund_result(old(self)@, *env, invoice_id)),
    {
        let config = load_active_config(&self.st)?;
        let mut data = load_escrow(&self.st, invoice_id)?;
        if data.status != EscrowStatus::Funded {
            return Err(Error::RefundNotAllowed);
        }
        if env.timestamp < data.due_dt {
            return Err(Error::RefundNotAllowed);
        }
        let amount_to_refund = match data.purchase_price.checked_sub(data.paid_amt) {
            Some(v) => v,
            None => return Err(Error::Overflow),
        };
        let ghost s0 = self.st@;
        let ghost d0 = data@;
        let contract = env.contract;
        let mut payout: Vec<Effect> = Vec::new();
        if amount_to_refund > 0 {
            match config.payment_distributor {
                Some(distributor) => {
                    payout.push(
                        Effect::Transfer {
                            token: data.token,
                            from: contract,
                            to: distributor,
                            amount: amount_to_refund,
                        },
                    );
                    payout.push(
                        Effect::DistributeRefund {
                            distributor,
                            escrow: contract,
                            invoice_id,
                            token: data.token,
                            funder: data.funder,
                            amount: amount_to_refund,
                            status: EscrowStatus::Refunded,
                        },
                    );
                },
                None => {
                    if let Some(funder) = data.funder {
                        if data.funded_amt > 0 {
                            let funder_amt = storage::get_funder_amount(&self.st, invoice_id, funder);
                            let product = match amount_to_refund.checked_mul(funder_amt) {
                                Some(v) => v,
                                None => return Err(Error::Overflow),
                            };
                            proof {
                                assert(product >= 0) by (nonlinear_arith)
                                    requires
                                        product == amount_to_refund * funder_amt,
                                        amount_to_refund > 0,
                                        funder_amt >= 0,
                                ;
                            }
                            let pro_rata_refund = product / data.funded_amt;
                            if pro_rata_refund > 0 {
                                payout.push(
                                    Effect::Transfer {
                                        token: data.token,
                                        from: contract,
                                        to: funder,
                                        amount: pro_rata_refund,
                                    },
                                );
                            }
                        }
                    }
                },
            }
        }
        assert(payout@ =~= refund_payout(s0, config, *env, invoice_id, d0, amount_to_refund)->Ok_0);
        let mut i: usize = 0;
        assert(self.st@.effects =~= s0.effects + payout@.subrange(0, 0));
        while i < payout.len()
            invariant
                i <= payout@.len(),
                self.st@ == (EscrowView { effects: s0.effects + payout@.subrange(0, i as int), ..s0 }),
                self.auth_requests() == old(self).auth_requests(),
            decreases payout@.len() - i,
        {
            storage::publish(&mut self.st, payout[i]);
            i = i + 1;
            assert(self.st@.effects =~= s0.effects + payout@.subrange(0, i as int));
        }
        assert(payout@.subrange(0, payout@.len() as int) =~= payout@);
        let inv_token = data.inv_token;
        data.status = EscrowStatus::Refunded;
        storage::set_escrow(&mut self.st, invoice_id, data);
        storage::publish(
            &mut self.st,
            Effect::SetTransferLocked { inv_token, caller: contract, locked: false },
        );
        events::escrow_refunded(&mut self.st, invoice_id, amount_to_refund);
        events::escrow_status_changed(&mut self.st, invoice_id, EscrowStatus::Refunded, env.timestamp);
        proof {
            let expect = refund_result(s0, *env, invoice_id)->Ok_0;
            assert(self.st@.effects =~= expect.effects);
            assert(self.st@.escrows =~= expect.escrows);
            assert(escrow_wf(self.st@.escrows[invoice_id]));
        }
        Ok(())
    }

    /// Raise a dispute on a funded escrow. The escrow becomes `Disputed`, and the
    /// dispute records who raised it, the reason and the ledger timestamp.
    pub fn raise_dispute(
        &mut self,
        env: &Env,
        caller: Address,
        invoice_id: InvoiceId,
        reason: Vec<u8>,
    ) -> (r: Result<(), Error>)
        requires
            old(self)@.wf(),
        ensures
            final(self).auth_requests() == old(self).auth_requests() + (consent_of(caller)),
            final(self)@.wf(),
            applied(
                old(self)@,
                final(self)@,
                r,
                raise_dispute_result(old(self)@, *env, caller, invoice_id, reason@),
            ),
    {
        self.require_auth(caller);
        let _config = load_active_config(&self.st)?;
        let mut data = load_escrow(&self.st, invoice_id)?;
        if data.status != EscrowStatus::Funded {
            return Err(Error::EscrowNotFunded);
        }
        let ghost s0 = self.st@;
        let ghost reason_view = reason@;
        storage::set_dispute(
            &mut self.st,
            invoice_id,
            DisputeData { raiser: caller, reason, raised_at: env.timestamp, resolved: false },
        );
        data.status = EscrowStatus::Disputed;
        storage::set_escrow(&mut self.st, invoice_id, data);
        events::dispute_raised(&mut self.st, invoice_id, caller, env.timestamp);
        events::escrow_status_changed(&mut self.st, invoice_id, EscrowStatus::Disputed, env.timestamp);
        proof {
            let expect = raise_dispute_result(s0, *env, caller, invoice_id, reason_view)->Ok_0;
            assert(self.st@.effects =~= expect.effects);
            assert(self.st@.escrows =~= expect.escrows);
            assert(self.st@.disputes =~= expect.disputes);
            assert(escrow_wf(self.st@.escrows[invoice_id]));
        }
        Ok(())
    }

    /// Resolve a dispute. Only the configured admin may, with its consent. Past the dispute timeout the buyer is favoured
    /// whatever `favour` says. For the buyer, the funded amount is refunded through
    /// the distributor or pro rata to the primary funder and the escrow is
    /// `Refunded`; for the seller, the funded amount goes to the seller and the
    /// escrow is `Settled`. The invoice token is unlocked either way. A favour that
    /// names neither party is refused as `Unauthorized`, unless the timeout has
    /// already decided for the buyer.
    pub fn resolve_dispute(
        &mut self,
        env: &Env,
        admin: Address,
        invoice_id: InvoiceId,
        favour: Favour,
    ) -> (r: Result<(), Error>)
        requires
            old(self)@.wf(),
        ensures
            final(self).auth_requests() == old(self).auth_requests() + (consent_of(admin)),
            final(self)@.wf(),
            applied(
                old(self)@,
                final(self)@,
                r,
                resolve_dispute_result(old(self)@, *env, admin, invoice_id, favour),
            ),
    {
        self.require_auth(admin);
        let config = load_config(&self.st)?;
        if config.admin != admin {
            return Err(Error::Unauthorized);
        }
        let mut data = load_escrow(&self.st, invoice_id)?;
        if data.status != EscrowStatus::Disputed {
            return Err(Error::NotDisputed);
        }
        let mut dispute = match storage::get_dispute(&self.st, invoice_id) {
            Some(d) => d,
            None => return Err(Error::NotDisputed),
        };
        if dispute.resolved {
            return Err(Error::AlreadyResolved);
        }
        let timeout = if dispute.raised_at > u64::MAX - config.dispute_timeout_secs {
            u64::MAX
        } else {
            dispute.raised_at + config.dispute_timeout_secs
        };
        assert(timeout == dispute_deadline(dispute.raised_at, config.dispute_timeout_secs));
        let timed_out = env.timestamp > timeout;
        let actual = if timed_out {
            Favour::Buyer
        } else {
            favour
        };
        if actual == Favour::Other {
            return Err(Error::Unauthorized);
        }
        let ghost s0 = self.st@;
        let ghost d0 = data@;
        let contract = env.contract;
        let mut payout: Vec<Effect> = Vec::new();
        let status: EscrowStatus;
        match actual {
            Favour::Buyer => {
                let amount_to_refund = data.funded_amt;
                match config.payment_distributor {
                    Some(distributor) => {
                        payout.push(
                            Effect::Transfer {
                                token: data.token,
                                from: contract,
                                to: distributor,
                                amount: amount_to_refund,
                            },
                        );
                        payout.push(
                            Effect::DistributeRefund {
                                distributor,
                                escrow: contract,
                                invoice_id,
                                token: data.token,
                                funder: data.funder,
                                amount: amount_to_refund,
                                status: EscrowStatus::Refunded,
                            },
                        );
                    },
                    None => {
                        if let Some(funder) = data.funder {
                            if data.funded_amt > 0 {
                                let funder_amt = storage::get_funder_amount(&self.st, invoice_id, funder);
                                let pro_rata_refund = match amount_to_refund.checked_mul(funder_amt) {
                                    Some(product) => {
                                        proof {
                                            assert(product >= 0) by (nonlinear_arith)
                                                requires
                                                    product == amount_to_refund * funder_amt,
                                                    amount_to_refund > 0,
                                                    funder_amt >= 0,
                                            ;
                                        }
                                        product / data.funded_amt
                                    },
                                    None => 0,
                                };
                                if pro_rata_refund > 0 {
                                    payout.push(
                                        Effect::Transfer {
                                            token: data.token,
                                            from: contract,
                                            to: funder,
                                            amount: pro_rata_refund,
                                        },
                                    );
                                }
                            }
                        }
                    },
                }
                status = EscrowStatus::Refunded;
            },
            _ => {
                if data.funded_amt > 0 {
                    payout.push(
                        Effect::Transfer {
                            token: data.token,
                            from: contract,
                            to: data.seller,
                            amount: data.funded_amt,
                        },
                    );
                }
                status = EscrowStatus::Settled;
            },
        }
        dispute.resolved = true;
        storage::set_dispute(&mut self.st, invoice_id, dispute);
        let ghost s1 = self.st@;
        let mut i: usize = 0;
        assert(self.st@.effects =~= s1.effects + payout@.subrange(0, 0));
        while i < payout.len()
            invariant
                i <= payout@.len(),
                self.st@ == (EscrowView { effects: s1.effects + payout@.subrange(0, i as int), ..s1 }),
                self.auth_requests() == old(self).auth_requests() + consent_of(admin),
            decreases payout@.len() - i,
        {
            storage::publish(&mut self.st, payout[i]);
            i = i + 1;
            assert(self.st@.effects =~= s1.effects + payout@.subrange(0, i as int));
        }
        assert(payout@.subrange(0, payout@.len() as int) =~= payout@);
        match actual {
            Favour::Buyer => events::escrow_refunded(&mut self.st, invoice_id, data.funded_amt),
            _ => events::payment_settled(&mut self.st, invoice_id, data.funded_amt, 0, 0),
        }
        let inv_token = data.inv_token;
        data.status = status;
        storage::set_escrow(&mut self.st, invoice_id, data);
        storage::publish(
            &mut self.st,
            Effect::SetTransferLocked { inv_token, caller: contract, locked: false },
        );
        events::dispute_resolved(&mut self.st, invoice_id, actual, timed_out);
        events::escrow_status_changed(&mut self.st, invoice_id, status, env.timestamp);
        proof {
            let expect = resolve_dispute_result(s0, *env, admin, invoice_id, favour)->Ok_0;
            assert(self.st@.effects =~= expect.effects);
            assert(self.st@.escrows =~= expect.escrows);
            assert(self.st@.disputes =~= expect.disputes);
            assert(escrow_wf(self.st@.escrows[invoice_id]));
        }
        Ok(())
    }

    /// Update the platform fee (basis points). Asks for the configured admin's consent.
    pub fn update_platform_fee_bps(&mut self, new_fee_bps: u32) -> (r: Result<(), Error>)
        requires
            old(self)@.wf(),
        ensures
            final(self).auth_requests() == old(self).auth_requests() + (admin_consent(old(self)@)),
            final(self)@.wf(),
            applied(old(self)@, final(self)@, r, update_platform_fee_bps_result(old(self)@, new_fee_bps)),
    {
        let mut config = load_config(&self.st)?;
        self.require_auth(config.admin);
        if new_fee_bps > MAX_BPS {
            return Err(Error::InvalidFeeBps);
        }
        let old_fee_bps = config.fee_bps;
        config.fee_bps = new_fee_bps;
        storage::set_config(&mut self.st, config);
        events::platform_fee_updated(&mut self.st, old_fee_bps, new_fee_bps);
        assert(self.st@.effects =~= old(self)@.effects + seq![
            Effect::Event(EscrowEvent::PlatformFeeUpdated { old_fee_bps, new_fee_bps }),
        ]);
        Ok(())
    }

    /// Set the payment distributor used for settlement and refund fan-out. Asks for
    /// the configured admin's consent.
    pub fn set_payment_distributor(&mut self, payment_distributor: Address) -> (r: Result<(), Error>)
        requires
            old(self)@.wf(),
        ensures
            final(self).auth_requests() == old(self).auth_requests() + (admin_consent(old(self)@)),
            final(self)@.wf(),
            applied(
                old(self)@,
                final(self)@,
                r,
                set_payment_distributor_result(old(self)@, payment_distributor),
            ),
    {
        let mut config = load_config(&self.st)?;
        self.require_auth(config.admin);
        let had_previous = config.payment_distributor.is_some();
        config.payment_distributor = Some(payment_distributor);
        storage::set_config(&mut self.st, config);
        events::payment_distributor_updated(&mut self.st, had_previous, payment_distributor);
        assert(self.st@.effects =~= old(self)@.effects + seq![
            Effect::Event(
                EscrowEvent::DistributorUpdated {
                    had_previous_distributor: had_previous,
                    new_distributor: payment_distributor,
                },
            ),
        ]);
        Ok(())
    }

    /// Toggle the emergency pause flag. Asks for the configured admin's consent.
    pub fn set_paused(&mut self, paused: bool) -> (r: Result<(), Error>)
        requires
            old(self)@.wf(),
        ensures
            final(self).auth_requests() == old(self).auth_requests() + (admin_consent(old(self)@)),
            final(self)@.wf(),
            applied(old(self)@, final(self)@, r, set_paused_result(old(self)@, paused)),
    {
        let mut config = load_config(&self.st)?;
        self.require_auth(config.admin);
        let old_paused = config.paused;
        config.paused = paused;
        storage::set_config(&mut self.st, config);
        events::paused_updated(&mut self.st, old_paused, paused);
        assert(self.st@.effects =~= old(self)@.effects + seq![
            Effect::Event(EscrowEvent::PausedUpdated { old_paused, new_paused: paused }),
        ]);
        Ok(())
    }

    /// The escrow data of an invoice.
    pub fn get_escrow(&self, invoice_id: InvoiceId) -> (r: Result<EscrowData, Error>)
        ensures
            match escrow_of(self@, invoice_id) {
                Ok(d) => r is Ok && r->Ok_0@ == d,
                Err(e) => r == Err::<EscrowData, Error>(e),
            },
    {
        load_escrow(&self.st, invoice_id)
    }

    /// The current configuration.
    pub fn get_config(&self) -> (r: Result<Config, Error>)
        ensures
            r == config_of(self@),
    {
        load_config(&self.st)
    }

    /// The status of an invoice's escrow.
    pub fn get_escrow_status(&self, invoice_id: InvoiceId) -> (r: Result<EscrowStatus, Error>)
        ensures
            r == (match escrow_of(self@, invoice_id) {
                Ok(d) => Ok(d.status),
                Err(e) => Err(e),
            }),
    {
        let data = load_escrow(&self.st, invoice_id)?;
        Ok(data.status)
    }

    /// The current pause state.
    pub fn paused(&self) -> (r: Result<bool, Error>)
        ensures
            r == (match config_of(self@) {
                Ok(c) => Ok(c.paused),
                Err(e) => Err(e),
            }),
    {
        let config = load_config(&self.st)?;
        Ok(config.paused)
    }

    /// Admin-only: configure the emergency multi-sig admin set and its threshold,
    /// which must lie between 1 and the number of admins.
    pub fn set_emergency_config(&mut self, admin: Address, config: MultiSigConfig) -> (r: Result<
        (),
        Error,
    >)
        requires
            old(self)@.wf(),
        ensures
            final(self).auth_requests() == old(self).auth_requests() + (consent_of(admin)),
            final(self)@.wf(),
            applied(
                old(self)@,
                final(self)@,
                r,
                set_emergency_config_result(old(self)@, admin, config@),
            ),
    {
        self.require_auth(admin);
        let stored_config = load_config(&self.st)?;
        if stored_config.admin != admin {
            return Err(Error::Unauthorized);
        }
        if config.threshold == 0 || config.threshold as usize > config.admins.len() {
            return Err(Error::InvalidFeeBps);
        }
        storage::set_emergency_config(&mut self.st, config);
        Ok(())
    }

    /// Emergency multi-sig release: an emergency admin approves releasing the funds of
    /// an invoice. Once the approvals reach the threshold, the remaining collateral
    /// (`purchase_price - paid_amt`) is paid to the seller and the escrow is Settled.
    /// An approval that leaves the count below the threshold is recorded and the call
    /// reports `ThresholdNotMet`; every other failure leaves the state unchanged.
    pub fn emergency_release(&mut self, env: &Env, caller: Address, invoice_id: InvoiceId) -> (r:
        Result<(), Error>)
        requires
            old(self)@.wf(),
        ensures
            final(self).auth_requests() == old(self).auth_requests() + (consent_of(caller)),
            final(self)@.wf(),
            (final(self)@, r) == emergency_release_outcome(old(self)@, *env, caller, invoice_id),
    {
        self.require_auth(caller);
        let ghost s0 = self.st@;
        let config = match storage::get_emergency_config(&self.st) {
            Some(c) => c,
            None => return Err(Error::EmergencyNotConfigured),
        };
        if !contains_address(&config.admins, caller) {
            return Err(Error::NotEmergencyAdmin);
        }
        let mut approvals = storage::get_emergency_approvals(&self.st, invoice_id);
        if contains_address(&approvals.approvals, caller) {
            return Err(Error::AlreadyApproved);
        }
        approvals.approvals.push(caller);
        let count = approvals.approvals.len();
        if count < config.threshold as usize {
            storage::set_emergency_approvals(&mut self.st, invoice_id, approvals);
            return Err(Error::ThresholdNotMet);
        }
        let mut data = match storage::get_escrow(&self.st, invoice_id) {
            Some(d) => d,
            None => return Err(Error::EscrowNotFound),
        };
        if data.status == EscrowStatus::Settled || data.status == EscrowStatus::Refunded
            || data.status == EscrowStatus::Cancelled {
            return Err(Error::AlreadySettled);
        }
        let remaining = match data.purchase_price.checked_sub(data.paid_amt) {
            Some(v) => v,
            None => return Err(Error::Overflow),
        };
        storage::set_emergency_approvals(&mut self.st, invoice_id, approvals);
        let ghost d0 = data@;
        if remaining > 0 {
            storage::publish(
                &mut self.st,
                Effect::Transfer { token: data.token, from: env.contract, to: data.seller, amount: remaining },
            );
        }
        data.status = EscrowStatus::Settled;
        storage::set_escrow(&mut self.st, invoice_id, data);
        events::escrow_status_changed(&mut self.st, invoice_id, EscrowStatus::Settled, env.timestamp);
        proof {
            let expect = emergency_release_outcome(s0, *env, caller, invoice_id).0;
            assert(self.st@.effects =~= expect.effects);
            assert(self.st@.escrows =~= expect.escrows);
            assert(escrow_wf(self.st@.escrows[invoice_id]));
        }
        Ok(())
    }

    /// Reclaim the storage of an escrow in a terminal state (Settled, Refunded or
    /// Cancelled): the escrow and its funders' contribution records are removed.
    /// Callable only by the seller or the admin.
    pub fn cleanup_escrow(&mut self, invoice_id: InvoiceId, caller: Address) -> (r: Result<(), Error>)
        requires
            old(self)@.wf(),
        ensures
            final(self).auth_requests() == old(self).auth_requests() + (consent_of(caller)),
            final(self)@.wf(),
            applied(old(self)@, final(self)@, r, cleanup_escrow_result(old(self)@, invoice_id, caller)),
    {
        self.require_auth(caller);
        let config = load_config(&self.st)?;
        let data = load_escrow(&self.st, invoice_id)?;
        if caller != data.seller && caller != config.admin {
            return Err(Error::Unauthorized);
        }
        match data.status {
            EscrowStatus::Settled | EscrowStatus::Refunded | EscrowStatus::Cancelled => {},
            _ => return Err(Error::EscrowNotSettled),
        }
        storage::remove_escrow_state(&mut self.st, invoice_id, &data.funders);
        events::escrow_cleaned_up(&mut self.st, invoice_id);
        Ok(())
    }

    // ── Position management: funding invoices ──

    /// Create a funding invoice for the position-management flows.
    pub fn create_invoice(
        &mut self,
        invoice_id: FundingInvoiceId,
        seller: Address,
        funding_target: i128,
        deadline_ledger: u32,
        min_investment: i128,
        per_investor_cap: Option<i128>,
        token: Address,
    ) -> (r: Result<(), Error>)
        requires
            old(self)@.wf(),
        ensures
            final(self).auth_requests() == old(self).auth_requests() + (consent_of(seller)),
            final(self)@.wf(),
            applied(
                old(self)@,
                final(self)@,
                r,
                create_invoice_result(
                    old(self)@,
                    invoice_id,
                    seller,
                    funding_target,
                    deadline_ledger,
                    min_investment,
                    per_investor_cap,
                    token,
                ),
            ),
    {
        self.require_auth(seller);
        if funding_target <= 0 {
            return Err(Error::InvalidAmount);
        }
        if min_investment < 0 {
            return Err(Error::InvalidAmount);
        }
        if storage::has_invoice(&self.st, invoice_id) {
            return Err(Error::EscrowExists);
        }
        let invoice = FundingInvoice {
            seller,
            funding_target,
            total_raised: 0,
            deadline_ledger,
            min_investment,
            per_investor_cap,
            status: InvoiceStatus::Open,
            token,
        };
        storage::set_invoice(&mut self.st, invoice_id, invoice);
        Ok(())
    }

    /// Top up an existing position in an open funding invoice, within the
    /// per-investor cap and the funding target.
    pub fn top_up(
        &mut self,
        env: &Env,
        investor: Address,
        invoice_id: FundingInvoiceId,
        additional_amount: i128,
    ) -> (r: Result<(), Error>)
        requires
            old(self)@.wf(),
        ensures
            final(self).auth_requests() == old(self).auth_requests() + (consent_of(investor)),
            final(self)@.wf(),
            applied(
                old(self)@,
                final(self)@,
                r,
                top_up_result(old(self)@, *env, investor, invoice_id, additional_amount),
            ),
    {
        self.require_auth(investor);
        if additional_amount <= 0 {
            return Err(Error::InvalidAmount);
        }
        let mut invoice = load_invoice(&self.st, invoice_id)?;
        if invoice.status != InvoiceStatus::Open {
            return Err(Error::InvalidInvoiceStatus);
        }
        let current = storage::get_investor_position(&self.st, invoice_id, investor);
        if current == 0 {
            return Err(Error::NoPositionFound);
        }
        let new_total_position = match current.checked_add(additional_amount) {
            Some(v) => v,
            None => return Err(Error::Overflow),
        };
        if let Some(cap) = invoice.per_investor_cap {
            if new_total_position > cap {
                return Err(Error::InvalidAmount);
            }
        }
        let new_total_raised = match invoice.total_raised.checked_add(additional_amount) {
            Some(v) => v,
            None => return Err(Error::Overflow),
        };
        if new_total_raised > invoice.funding_target {
            return Err(Error::InvalidAmount);
        }
        let ghost s0 = self.st@;
        let e1 = Effect::Transfer {
            token: invoice.token,
            from: investor,
            to: env.contract,
            amount: additional_amount,
        };
        let e2 = Effect::Event(
            EscrowEvent::InvestmentToppedUp {
                investor,
                invoice_id,
                additional_amount,
                new_total_position,
            },
        );
        storage::publish(&mut self.st, e1);
        storage::set_investor_position(&mut self.st, invoice_id, investor, new_total_position);
        invoice.total_raised = new_total_raised;
        storage::set_invoice(&mut self.st, invoice_id, invoice);
        events::investment_topped_up(&mut self.st, investor, invoice_id, additional_amount, new_total_position);
        assert(self.st@.effects =~= s0.effects + seq![e1, e2]);
        Ok(())
    }

    /// Initial investment in an open funding invoice: at least the minimum
    /// investment, within the per-investor cap and the funding target.
    pub fn invest(&mut self, env: &Env, investor: Address, invoice_id: FundingInvoiceId, amount: i128) -> (r:
        Result<(), Error>)
        requires
            old(self)@.wf(),
        ensures
            final(self).auth_requests() == old(self).auth_requests() + (consent_of(investor)),
            final(self)@.wf(),
            applied(
                old(self)@,
                final(self)@,
                r,
                invest_result(old(self)@, *env, investor, invoice_id, amount),
            ),
    {
        self.require_auth(investor);
        if amount <= 0 {
            return Err(Error::InvalidAmount);
        }
        let mut invoice = load_invoice(&self.st, invoice_id)?;
        if invoice.status != InvoiceStatus::Open {
            return Err(Error::InvalidInvoiceStatus);
        }
        if amount < invoice.min_investment {
            return Err(Error::BelowMinimumInvestment);
        }
        if let Some(cap) = invoice.per_investor_cap {
            if amount > cap {
                return Err(Error::InvalidAmount);
            }
        }
        let new_total = match invoice.total_raised.checked_add(amount) {
            Some(v) => v,
            None => return Err(Error::Overflow),
        };
        if new_total > invoice.funding_target {
            return Err(Error::InvalidAmount);
        }
        let current = storage::get_investor_position(&self.st, invoice_id, investor);
        let new_pos = match current.checked_add(amount) {
            Some(v) => v,
            None => return Err(Error::Overflow),
        };
        if let Some(cap) = invoice.per_investor_cap {
            if new_pos > cap {
                return Err(Error::InvalidAmount);
            }
        }
        let ghost s0 = self.st@;
        let e1 = Effect::Transfer { token: invoice.token, from: investor, to: env.contract, amount };
        storage::publish(&mut self.st, e1);
        storage::set_investor_position(&mut self.st, invoice_id, investor, new_pos);
        invoice.total_raised = new_total;
        storage::set_invoice(&mut self.st, invoice_id, invoice);
        assert(self.st@.effects =~= s0.effects + seq![e1]);
        Ok(())
    }

    /// Withdraw part of a position before the funding deadline. What remains must
    /// be zero or at least the minimum investment.
    pub fn partial_refund(
        &mut self,
        env: &Env,
        investor: Address,
        invoice_id: FundingInvoiceId,
        amount: i128,
    ) -> (r: Result<(), Error>)
        requires
            old(self)@.wf(),
        ensures
            final(self).auth_requests() == old(self).auth_requests() + (consent_of(investor)),
            final(self)@.wf(),
            applied(
                old(self)@,
                final(self)@,
                r,
                partial_refund_result(old(self)@, *env, investor, invoice_id, amount),
            ),
    {
        self.require_auth(investor);
        if amount <= 0 {
            return Err(Error::InvalidAmount);
        }
        let mut invoice = load_invoice(&self.st, invoice_id)?;
        if invoice.status != InvoiceStatus::Open {
            return Err(Error::InvalidInvoiceStatus);
        }
        if env.sequence >= invoice.deadline_ledger {
            return Err(Error::InvalidInvoiceStatus);
        }
        let current = storage::get_investor_position(&self.st, invoice_id, investor);
        if current == 0 {
            return Err(Error::NoPositionFound);
        }
        if amount > current {
            return Err(Error::InvalidAmount);
        }
        let remaining = match current.checked_sub(amount) {
            Some(v) => v,
            None => return Err(Error::Overflow),
        };
        if remaining != 0 && remaining < invoice.min_investment {
            return Err(Error::BelowMinimumInvestment);
        }
        let new_total_raised = match invoice.total_raised.checked_sub(amount) {
            Some(v) => v,
            None => return Err(Error::Overflow),
        };
        let ghost s0 = self.st@;
        let e1 = Effect::Transfer { token: invoice.token, from: env.contract, to: investor, amount };
        let e2 = Effect::Event(
            EscrowEvent::InvestmentPartiallyRefunded {
                investor,
                invoice_id,
                amount_refunded: amount,
                remaining_position: remaining,
            },
        );
        storage::publish(&mut self.st, e1);
        storage::set_investor_position(&mut self.st, invoice_id, investor, remaining);
        invoice.total_raised = new_total_raised;
        storage::set_invoice(&mut self.st, invoice_id, invoice);
        events::investment_partially_refunded(&mut self.st, investor, invoice_id, amount, remaining);
        assert(self.st@.effects =~= s0.effects + seq![e1, e2]);
        Ok(())
    }

    /// Transfer a position in a funded invoice from `from` to `to` for an agreed
    /// price, paid by `to` to `from`. `to`'s resulting position must respect the cap.
    pub fn transfer_position(
        &mut self,
        from: Address,
        invoice_id: FundingInvoiceId,
        to: Address,
        price: i128,
    ) -> (r: Result<(), Error>)
        requires
            old(self)@.wf(),
        ensures
            final(self).auth_requests() == old(self).auth_requests() + (
                consent_of(from) + if position_reaches_counterparty(old(self)@, from, invoice_id, price) {
                    consent_of(to)
                } else {
                    Seq::empty()
                }
            ),
            final(self)@.wf(),
            applied(
                old(self)@,
                final(self)@,
                r,
                transfer_position_result(old(self)@, from, invoice_id, to, price),
            ),
    {
        self.require_auth(from);
        if price < 0 {
            return Err(Error::InvalidAmount);
        }
        let invoice = load_invoice(&self.st, invoice_id)?;
        if invoice.status != InvoiceStatus::Funded {
            return Err(Error::InvalidInvoiceStatus);
        }
        let position = storage::get_investor_position(&self.st, invoice_id, from);
        if position == 0 {
            return Err(Error::NoPositionFound);
        }
        self.require_auth(to);
        let buyer_existing = storage::get_investor_position(&self.st, invoice_id, to);
        let new_buyer_pos = match buyer_existing.checked_add(position) {
            Some(v) => v,
            None => return Err(Error::Overflow),
        };
        if let Some(cap) = invoice.per_investor_cap {
            if new_buyer_pos > cap {
                return Err(Error::InvalidAmount);
            }
        }
        let ghost s0 = self.st@;
        if price > 0 {
            storage::publish(
                &mut self.st,
                Effect::Transfer { token: invoice.token, from: to, to: from, amount: price },
            );
        }
        storage::set_investor_position(&mut self.st, invoice_id, from, 0);
        storage::set_investor_position(&mut self.st, invoice_id, to, new_buyer_pos);
        events::position_transferred(&mut self.st, from, to, invoice_id, position, price);
        proof {
            let expect = transfer_position_result(s0, from, invoice_id, to, price)->Ok_0;
            assert(self.st@.effects =~= expect.effects);
        }
        Ok(())
    }

    /// Finalise funding: an open invoice whose target is reached becomes Funded and
    /// the proceeds are released to the seller. Asks for the configured admin's consent.
    pub fn finalise_funding(&mut self, env: &Env, invoice_id: FundingInvoiceId) -> (r: Result<(), Error>)
        requires
            old(self)@.wf(),
        ensures
            final(self).auth_requests() == old(self).auth_requests() + (admin_consent(old(self)@)),
            final(self)@.wf(),
            applied(old(self)@, final(self)@, r, finalise_funding_result(old(self)@, *env, invoice_id)),
    {
        let config = load_config(&self.st)?;
        self.require_auth(config.admin);
        let mut invoice = load_invoice(&self.st, invoice_id)?;
        if invoice.status != InvoiceStatus::Open {
            return Err(Error::InvalidInvoiceStatus);
        }
        if invoice.total_raised < invoice.funding_target {
            return Err(Error::FundingTargetNotReached);
        }
        let ghost s0 = self.st@;
        invoice.status = InvoiceStatus::Funded;
        let total_raised = invoice.total_raised;
        let seller = invoice.seller;
        let token = invoice.token;
        storage::set_invoice(&mut self.st, invoice_id, invoice);
        if total_raised > 0 {
            storage::publish(
                &mut self.st,
                Effect::Transfer { token, from: env.contract, to: seller, amount: total_raised },
            );
        }
        events::funding_finalised(&mut self.st, invoice_id, total_raised, seller);
        proof {
            let expect = finalise_funding_result(s0, *env, invoice_id)->Ok_0;
            assert(self.st@.effects =~= expect.effects);
        }
        Ok(())
    }

    /// A funding invoice.
    pub fn get_invoice(&self, invoice_id: FundingInvoiceId) -> (r: Result<FundingInvoice, Error>)
        ensures
            r == invoice_of(self@, invoice_id),
    {
        load_invoice(&self.st, invoice_id)
    }

    /// An investor's position in a funding invoice (zero when none).
    pub fn get_investor_position(&self, invoice_id: FundingInvoiceId, investor: Address) -> (r:
        Result<i128, Error>)
        ensures
            r == (match invoice_of(self@, invoice_id) {
                Ok(_) => Ok(self@.position(invoice_id, investor)),
                Err(e) => Err(e),
            }),
    {
        load_invoice(&self.st, invoice_id)?;
        Ok(storage::get_investor_position(&self.st, invoice_id, investor))
    }

    /// Escrows by creation order: those created at indices `[start, start + limit)`
    /// that still exist. At most 100 per page; empty past the end.
    pub fn get_escrows(&self, start: u32, limit: u32) -> (r: Result<Vec<EscrowData>, Error>)
        requires
            (limit <= MAX_PAGE_SIZE && start < self@.escrow_count) ==> start + limit <= u32::MAX,
        ensures
            match get_escrows_result(self@, start, limit) {
                Ok(p) => r is Ok && r->Ok_0@.map_values(|d: EscrowData| d@) == p,
                Err(e) => r is Err && r->Err_0 == e,
            },
    {
        if limit == 0 {
            return Err(Error::InvalidLimit);
        }
        if limit > MAX_PAGE_SIZE {
            return Err(Error::LimitExceeded);
        }
        let total_count = storage::get_escrow_count(&self.st);
        let mut results: Vec<EscrowData> = Vec::new();
        if start >= total_count {
            assert(results@.map_values(|d: EscrowData| d@) =~= Seq::<EscrowDataView>::empty());
            return Ok(results);
        }
        let end = if start + limit < total_count {
            start + limit
        } else {
            total_count
        };
        let mut index = start;
        assert(results@.map_values(|d: EscrowData| d@) =~= page(self@, start as int, start as int));
        while index < end
            invariant
                start <= index <= end,
                results@.map_values(|d: EscrowData| d@) == page(self@, start as int, index as int),
            decreases end - index,
        {
            if let Some(invoice_id) = storage::get_escrow_id_by_index(&self.st, index) {
                if let Some(escrow_data) = storage::get_escrow(&self.st, invoice_id) {
                    results.push(escrow_data);
                }
            }
            index = index + 1;
            assert(results@.map_values(|d: EscrowData| d@) =~= page(self@, start as int, index as int));
        }
        Ok(results)
    }
}

} // verus!
