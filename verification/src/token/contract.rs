//! The invoice token's entry points.
use vstd::prelude::*;

use crate::address::{any_zero_payload, is_zero_handle, zero_payload, Address};
use crate::auth::{consent_of, consent_unless, AuthRequest};
use crate::env::Env;
use crate::token::errors::Error;
use crate::token::events::{
    account_frozen_event, account_unfrozen_event, allowance_extended_event, approval_revoked_event,
    approve_event, burn_event, decimals_updated_event, fee_deducted_event, fee_updated_event,
    history_appended_event, mint_event, minter_updated_event, nonce_queried_event,
    paused_updated_event, role_admin_updated_event, role_granted_event, transfer_event,
    transfer_locked_updated_event, TokenEvent,
};
use crate::token::model::{
    admin_consent, append_history, applied, burn_from_result, burn_result, extend_allowance_result, fee_on,
    freeze_account_result, guarded_read, history_in, initialize_result, meta_of, mint_batch_prefix,
    mint_batch_result, mint_result, move_balances, revoke_approval_result, role_admin_of,
    set_decimals_result, set_fee_bps_result, set_minter_result, set_paused_result,
    set_role_admin_result, set_role_result, set_transfer_locked_result, settle_transfer,
    transfer_events, transfer_from_result, transfer_result, unfreeze_account_result,
    approve_result,
};
use crate::token::storage::{
    self, balance_in, lemma_sum_with_balance, sum_balances, with_balance, TokenStorage, TokenView,
};
use crate::token::types::{
    OwnershipHistoryRecord, Role, TokenMetadata, ADMIN_ROLE, MAX_DECIMALS, MAX_FEE_BPS,
    MINTER_ROLE, PAUSER_ROLE, TRANSFER_LOCKER_ROLE,
};

verus! {

/// The invoice token contract: a fungible token representing fractional
/// ownership of an invoice.
pub struct InvoiceToken {
    st: TokenStorage,
    auths: Vec<AuthRequest>,
}

impl Clone for InvoiceToken {
    /// A copy of the contract with all of its state. A caller that finds a consent
    /// missing, among those an invocation asked for, goes back to the copy it took
    /// before the invocation: the invocation has failed as a whole.
    fn clone(&self) -> (r: Self)
        ensures
            r@ == self@,
            r.auth_requests() == self.auth_requests(),
    {
        let auths = self.auths.clone();
        assert(auths@ =~= self.auths@);
        InvoiceToken { st: self.st.clone(), auths }
    }
}

impl View for InvoiceToken {
    type V = TokenView;

    closed spec fn view(&self) -> TokenView {
        self.st@
    }
}

/// Reject an address with an all-zero payload, account or contract.
fn ensure_non_zero_address(address: Address) -> (r: Result<(), Error>)
    ensures
        r == (if zero_payload(address) {
            Err::<(), Error>(Error::InvalidAddress)
        } else {
            Ok(())
        }),
{
    if is_zero_handle(address) {
        return Err(Error::InvalidAddress);
    }
    Ok(())
}

/// Reject a list of addresses if any has an all-zero payload.
fn ensure_non_zero_addresses(addresses: &Vec<Address>) -> (r: Result<(), Error>)
    ensures
        r == (if any_zero_payload(addresses@) {
            Err::<(), Error>(Error::InvalidAddress)
        } else {
            Ok(())
        }),
{
    let mut i: usize = 0;
    while i < addresses.len()
        invariant
            i <= addresses@.len(),
            forall|j: int| 0 <= j < i ==> !zero_payload(#[trigger] addresses@[j]),
        decreases addresses@.len() - i,
    {
        if is_zero_handle(addresses[i]) {
            assert(zero_payload(addresses@[i as int]));
            return Err(Error::InvalidAddress);
        }
        i = i + 1;
    }
    Ok(())
}

/// Reject a frozen account.
fn ensure_account_not_frozen(st: &TokenStorage, account: Address) -> (r: Result<(), Error>)
    ensures
        r == (if st@.is_frozen(account) {
            Err::<(), Error>(Error::AccountFrozen)
        } else {
            Ok(())
        }),
{
    if storage::is_account_frozen(st, account) {
        return Err(Error::AccountFrozen);
    }
    Ok(())
}

/// A copy of the metadata, or `NotInit`.
fn load_metadata(st: &TokenStorage) -> (r: Result<TokenMetadata, Error>)
    ensures
        r == meta_of(st@),
{
    match storage::get_metadata(st) {
        Some(m) => Ok(m.clone()),
        None => Err(Error::NotInit),
    }
}

/// The transfer fee on `amount`.
fn compute_fee(fee_bps: i128, amount: i128) -> (r: Option<i128>)
    requires
        amount > 0,
    ensures
        r == fee_on(fee_bps, amount),
{
    if fee_bps > 0 {
        match amount.checked_mul(fee_bps) {
            Some(v) => {
                assert(v == amount * fee_bps);
                assert(v > 0) by (nonlinear_arith)
                    requires
                        v == amount * fee_bps,
                        amount > 0,
                        fee_bps > 0,
                ;
                Some(v / 10_000)
            },
            None => None,
        }
    } else {
        Some(0)
    }
}


/// Moves `amount` from `from` to `to` and `fee` to `admin`, records the transfer in
/// both histories and publishes its events; fails, changing nothing, when a
/// balance is short or a sum overflows.
fn move_and_record(
    st: &mut TokenStorage,
    ledger: u32,
    from: Address,
    to: Address,
    admin: Address,
    amount: i128,
    fee: i128,
) -> (r: Result<(), Error>)
    requires
        old(st)@.wf(),
        amount > 0,
        fee >= 0,
    ensures
        final(st)@.wf(),
        match move_balances(old(st)@.balances, from, to, admin, amount, fee) {
            Err(e) => r == Err::<(), Error>(e) && final(st)@ == old(st)@,
            Ok(bal) => r is Ok && final(st)@ == settle_transfer(
                old(st)@,
                bal,
                from,
                to,
                amount,
                fee,
                ledger,
            ),
        },
{
    let ghost s0 = st@;
    let total_debit = match amount.checked_add(fee) {
        Some(t) => t,
        None => return Err(Error::Overflow),
    };
    let from_balance = storage::get_balance(st, from);
    if from_balance < total_debit {
        if fee > 0 && from_balance >= amount {
            return Err(Error::InsufficientBalanceForFee);
        }
        return Err(Error::InsufficientBalance);
    }
    let new_from = from_balance - total_debit;
    let to_before = if to == from {
        new_from
    } else {
        storage::get_balance(st, to)
    };
    assert(to_before == balance_in(with_balance(s0.balances, from, new_from), to));
    let new_to = match to_before.checked_add(amount) {
        Some(v) => v,
        None => return Err(Error::Overflow),
    };
    let ghost b2 = with_balance(with_balance(s0.balances, from, new_from), to, new_to);
    let mut new_admin: i128 = 0;
    if fee > 0 {
        let admin_before = if admin == to {
            new_to
        } else if admin == from {
            new_from
        } else {
            storage::get_balance(st, admin)
        };
        assert(admin_before == balance_in(b2, admin));
        new_admin = match admin_before.checked_add(fee) {
            Some(v) => v,
            None => return Err(Error::Overflow),
        };
    }
    storage::set_balance(st, from, new_from);
    storage::set_balance(st, to, new_to);
    if fee > 0 {
        storage::set_balance(st, admin, new_admin);
        fee_deducted_event(st, from, fee);
    }
    let record = OwnershipHistoryRecord { from, to, amount, ledger };
    storage::append_token_history(st, from, record);
    storage::append_token_history(st, to, record);
    history_appended_event(st, from, to, amount);
    transfer_event(st, from, to, amount);
    proof {
        lemma_sum_with_balance(s0.balances, from, new_from);
        lemma_sum_with_balance(with_balance(s0.balances, from, new_from), to, new_to);
        if fee > 0 {
            lemma_sum_with_balance(b2, admin, new_admin);
        }
        let bal = move_balances(s0.balances, from, to, admin, amount, fee)->Ok_0;
        let expect = settle_transfer(s0, bal, from, to, amount, fee, ledger);
        assert(st@.balances =~= expect.balances);
        assert(st@.histories =~= expect.histories);
        assert(st@.events =~= expect.events);
    }
    Ok(())
}

/// The error that moving `amount` plus `fee` would meet, found without writing.
fn check_movement(
    st: &TokenStorage,
    from: Address,
    to: Address,
    admin: Address,
    amount: i128,
    fee: i128,
) -> (r: Result<(), Error>)
    requires
        st@.wf(),
        amount > 0,
        fee >= 0,
    ensures
        match move_balances(st@.balances, from, to, admin, amount, fee) {
            Err(e) => r == Err::<(), Error>(e),
            Ok(_) => r is Ok,
        },
{
    let total_debit = match amount.checked_add(fee) {
        Some(t) => t,
        None => return Err(Error::Overflow),
    };
    let from_balance = storage::get_balance(st, from);
    if from_balance < total_debit {
        if fee > 0 && from_balance >= amount {
            return Err(Error::InsufficientBalanceForFee);
        }
        return Err(Error::InsufficientBalance);
    }
    let new_from = from_balance - total_debit;
    let to_before = if to == from {
        new_from
    } else {
        storage::get_balance(st, to)
    };
    let new_to = match to_before.checked_add(amount) {
        Some(v) => v,
        None => return Err(Error::Overflow),
    };
    if fee > 0 {
        let admin_before = if admin == to {
            new_to
        } else if admin == from {
            new_from
        } else {
            storage::get_balance(st, admin)
        };
        if admin_before.checked_add(fee).is_none() {
            return Err(Error::Overflow);
        }
    }
    Ok(())
}

/// Once a step of a batch mint fails, the batch fails with that error.
proof fn lemma_mint_batch_error_persists(
    s: TokenView,
    to: Seq<Address>,
    amounts: Seq<i128>,
    i: nat,
    n: nat,
)
    requires
        i <= n,
        mint_batch_prefix(s, to, amounts, i) is Err,
    ensures
        mint_batch_prefix(s, to, amounts, n) == mint_batch_prefix(s, to, amounts, i),
    decreases n - i,
{
    if i < n {
        lemma_mint_batch_error_persists(s, to, amounts, i, (n - 1) as nat);
    }
}

impl InvoiceToken {
    /// A token contract that has not been initialized yet.
    pub fn new() -> (r: InvoiceToken)
        ensures
            r@.metadata is None,
            r@.total_supply == 0,
            r@.balances == Map::<u64, i128>::empty(),
            r@.allowances.is_empty(),
            r@.fee_bps == 0,
            r@.role_admins.is_empty(),
            r@.role_grants.is_empty(),
            r@.nonces.is_empty(),
            r@.histories.is_empty(),
            r@.frozen.is_empty(),
            r@.events.len() == 0,
            r@.wf(),
            r.auth_requests().len() == 0,
    {
        InvoiceToken { st: TokenStorage::new(), auths: Vec::new() }
    }

    /// The consents asked for so far, oldest first.
    pub closed spec fn auth_requests(&self) -> Seq<AuthRequest> {
        self.auths@
    }

    /// The consents asked for so far, oldest first: the host checks those of each
    /// invocation against its signatures.
    pub fn required_auths(&self) -> (r: Vec<AuthRequest>)
        ensures
            r@ == self.auth_requests(),
    {
        self.auths.clone()
    }

    /// Ask for `a`'s consent to this invocation.
    fn require_auth(&mut self, a: Address)
        ensures
            final(self)@ == old(self)@,
            final(self).auth_requests() == old(self).auth_requests().push(AuthRequest::Invocation(a)),
    {
        self.auths.push(AuthRequest::Invocation(a));
    }

    /// The events published so far, oldest first.
    pub fn events(&self) -> (r: Vec<TokenEvent>)
        ensures
            r@ == self@.events,
    {
        storage::events(&self.st).clone()
    }

    /// Initialize the token with admin, metadata, and minter (escrow) address.
    /// Transfers start locked; the admin administers and holds every role, and the
    /// minter holds the minter role.
    pub fn initialize(
        &mut self,
        admin: Address,
        name: String,
        symbol: String,
        decimals: u32,
        invoice_id: String,
        minter: Address,
    ) -> (r: Result<(), Error>)
        requires
            old(self)@.wf(),
        ensures
            final(self).auth_requests() == old(self).auth_requests(),
            final(self)@.wf(),
            applied(
                old(self)@,
                final(self)@,
                r,
                initialize_result(old(self)@, admin, name, symbol, decimals, invoice_id, minter),
            ),
    {
        ensure_non_zero_address(admin)?;
        ensure_non_zero_address(minter)?;
        if storage::get_metadata(&self.st).is_some() {
            return Err(Error::AlreadyInit);
        }
        if decimals > MAX_DECIMALS {
            return Err(Error::InvalidDecimals);
        }
        if name.as_str().is_empty() || symbol.as_str().is_empty() {
            return Err(Error::InvalidMetadata);
        }
        let meta = TokenMetadata {
            admin,
            minter,
            name,
            symbol,
            decimals,
            invoice_id,
            transfer_locked: true,
            paused: false,
        };
        storage::set_metadata(&mut self.st, meta);
        storage::set_total_supply(&mut self.st, 0);
        storage::set_role_admin(&mut self.st, ADMIN_ROLE, admin);
        storage::set_role_grant(&mut self.st, ADMIN_ROLE, admin, true);
        storage::set_role_admin(&mut self.st, MINTER_ROLE, admin);
        storage::set_role_grant(&mut self.st, MINTER_ROLE, admin, true);
        storage::set_role_admin(&mut self.st, PAUSER_ROLE, admin);
        storage::set_role_grant(&mut self.st, PAUSER_ROLE, admin, true);
        storage::set_role_admin(&mut self.st, TRANSFER_LOCKER_ROLE, admin);
        storage::set_role_grant(&mut self.st, TRANSFER_LOCKER_ROLE, admin, true);
        storage::set_role_grant(&mut self.st, MINTER_ROLE, minter, true);
        Ok(())
    }

    /// The token name.
    pub fn name(&self) -> (r: Result<String, Error>)
        ensures
            r == (match meta_of(self@) {
                Ok(m) => Ok(m.name),
                Err(e) => Err(e),
            }),
    {
        let meta = load_metadata(&self.st)?;
        Ok(meta.name)
    }

    /// The token symbol.
    pub fn symbol(&self) -> (r: Result<String, Error>)
        ensures
            r == (match meta_of(self@) {
                Ok(m) => Ok(m.symbol),
                Err(e) => Err(e),
            }),
    {
        let meta = load_metadata(&self.st)?;
        Ok(meta.symbol)
    }

    /// The number of decimals.
    pub fn decimals(&self) -> (r: Result<u32, Error>)
        ensures
            r == (match meta_of(self@) {
                Ok(m) => Ok(m.decimals),
                Err(e) => Err(e),
            }),
    {
        let meta = load_metadata(&self.st)?;
        Ok(meta.decimals)
    }

    /// The total supply.
    pub fn total_supply(&self) -> (r: Result<i128, Error>)
        ensures
            r == (match meta_of(self@) {
                Ok(_) => Ok(self@.total_supply),
                Err(e) => Err(e),
            }),
    {
        load_metadata(&self.st)?;
        Ok(storage::get_total_supply(&self.st))
    }

    /// The balance of `id`.
    pub fn balance(&self, id: Address) -> (r: Result<i128, Error>)
        ensures
            r == guarded_read(self@, id, self@.balance(id)),
    {
        ensure_non_zero_address(id)?;
        load_metadata(&self.st)?;
        Ok(storage::get_balance(&self.st, id))
    }

    /// Return balances for a batch of addresses, preserving the input order.
    pub fn balance_batch(&self, ids: &Vec<Address>) -> (r: Result<Vec<i128>, Error>)
        ensures
            any_zero_payload(ids@) ==> r == Err::<Vec<i128>, Error>(Error::InvalidAddress),
            !any_zero_payload(ids@) && self@.metadata is None ==> r == Err::<Vec<i128>, Error>(
                Error::NotInit,
            ),
            !any_zero_payload(ids@) && self@.metadata is Some ==> r is Ok && r->Ok_0@
                == ids@.map_values(|a: Address| self@.balance(a)),
    {
        ensure_non_zero_addresses(ids)?;
        load_metadata(&self.st)?;
        let mut balances: Vec<i128> = Vec::new();
        let mut i: usize = 0;
        while i < ids.len()
            invariant
                i <= ids@.len(),
                balances@ == ids@.subrange(0, i as int).map_values(|a: Address| self@.balance(a)),
            decreases ids@.len() - i,
        {
            let b = storage::get_balance(&self.st, ids[i]);
            balances.push(b);
            i = i + 1;
            assert(balances@ =~= ids@.subrange(0, i as int).map_values(
                |a: Address| self@.balance(a),
            ));
        }
        assert(ids@.subrange(0, ids@.len() as int) =~= ids@);
        Ok(balances)
    }

    /// The allowance from `from` to `spender` usable at the current ledger: zero when
    /// absent or expired.
    pub fn allowance(&self, env: &Env, from: Address, spender: Address) -> (r: Result<i128, Error>)
        ensures
            r == (if zero_payload(from) {
                Err(Error::InvalidAddress)
            } else {
                guarded_read(self@, spender, self@.allowance_at(from, spender, env.sequence))
            }),
    {
        ensure_non_zero_address(from)?;
        ensure_non_zero_address(spender)?;
        load_metadata(&self.st)?;
        Ok(storage::get_allowance(&self.st, from, spender, env.sequence))
    }

    /// Returns the current nonce for the given address, and publishes a
    /// `nonce_queried` event.
    pub fn get_nonce(&mut self, account: Address) -> (r: Result<u64, Error>)
        requires
            old(self)@.wf(),
        ensures
            final(self).auth_requests() == old(self).auth_requests(),
            final(self)@.wf(),
            r == guarded_read(old(self)@, account, old(self)@.nonce(account)),
            r is Ok ==> final(self)@ == (TokenView {
                events: old(self)@.events.push(
                    TokenEvent::NonceQueried { account, nonce: old(self)@.nonce(account) },
                ),
                ..old(self)@
            }),
            r is Err ==> final(self)@ == old(self)@,
    {
        ensure_non_zero_address(account)?;
        load_metadata(&self.st)?;
        let nonce = storage::get_nonce(&self.st, account);
        nonce_queried_event(&mut self.st, account, nonce);
        Ok(nonce)
    }

    /// Transfer `amount` from `from` to `to`. When a fee is configured, the fee is
    /// charged to `from` on top of the amount and paid to the admin.
    pub fn transfer(&mut self, env: &Env, from: Address, to: Address, amount: i128) -> (r: Result<
        (),
        Error,
    >)
        requires
            old(self)@.wf(),
        ensures
            final(self).auth_requests() == old(self).auth_requests() + (
                consent_unless(zero_payload(from) || zero_payload(to), from)
            ),
            final(self)@.wf(),
            applied(
                old(self)@,
                final(self)@,
                r,
                transfer_result(old(self)@, env.sequence, from, to, amount),
            ),
    {
        ensure_non_zero_address(from)?;
        ensure_non_zero_address(to)?;
        self.require_auth(from);
        if amount <= 0 {
            return Err(Error::InvalidAmount);
        }
        let meta = load_metadata(&self.st)?;
        if meta.paused {
            return Err(Error::Paused);
        }
        ensure_account_not_frozen(&self.st, from)?;
        ensure_account_not_frozen(&self.st, to)?;
        if meta.transfer_locked && from != meta.admin {
            return Err(Error::TransferLocked);
        }
        let fee_bps = storage::get_fee_bps(&self.st);
        let fee_amount = match compute_fee(fee_bps, amount) {
            Some(f) => f,
            None => return Err(Error::Overflow),
        };
        if fee_amount > 0 {
            ensure_account_not_frozen(&self.st, meta.admin)?;
        }
        move_and_record(&mut self.st, env.sequence, from, to, meta.admin, amount, fee_amount)
    }

    /// Set allowance for spender. A zero amount clears the allowance and may carry
    /// any expiration; a positive amount must not expire before the current ledger.
    pub fn approve(
        &mut self,
        env: &Env,
        from: Address,
        spender: Address,
        amount: i128,
        expiration_ledger: u32,
    ) -> (r: Result<(), Error>)
        requires
            old(self)@.wf(),
        ensures
            final(self).auth_requests() == old(self).auth_requests() + (
                consent_unless(zero_payload(from) || zero_payload(spender), from)
            ),
            final(self)@.wf(),
            applied(
                old(self)@,
                final(self)@,
                r,
                approve_result(old(self)@, env.sequence, from, spender, amount, expiration_ledger),
            ),
    {
        ensure_non_zero_address(from)?;
        ensure_non_zero_address(spender)?;
        self.require_auth(from);
        if amount < 0 {
            return Err(Error::InvalidAmount);
        }
        let meta = load_metadata(&self.st)?;
        if meta.paused {
            return Err(Error::Paused);
        }
        ensure_account_not_frozen(&self.st, from)?;
        ensure_account_not_frozen(&self.st, spender)?;
        if amount != 0 && expiration_ledger < env.sequence {
            return Err(Error::InvalidExpiration);
        }
        storage::set_allowance(&mut self.st, from, spender, amount, expiration_ledger);
        approve_event(&mut self.st, from, spender, amount, expiration_ledger);
        Ok(())
    }

    /// Extend the expiration ledger of an existing allowance without changing its
    /// amount. The new expiration must be strictly later than the current one, and the
    /// allowance must not already be expired.
    pub fn extend_allowance(
        &mut self,
        env: &Env,
        from: Address,
        spender: Address,
        new_expiration_ledger: u32,
    ) -> (r: Result<(), Error>)
        requires
            old(self)@.wf(),
        ensures
            final(self).auth_requests() == old(self).auth_requests() + (
                consent_unless(zero_payload(from) || zero_payload(spender), from)
            ),
            final(self)@.wf(),
            applied(
                old(self)@,
                final(self)@,
                r,
                extend_allowance_result(old(self)@, env.sequence, from, spender, new_expiration_ledger),
            ),
    {
        ensure_non_zero_address(from)?;
        ensure_non_zero_address(spender)?;
        self.require_auth(from);
        let meta = load_metadata(&self.st)?;
        if meta.paused {
            return Err(Error::Paused);
        }
        ensure_account_not_frozen(&self.st, from)?;
        ensure_account_not_frozen(&self.st, spender)?;
        let allow = match storage::get_allowance_data(&self.st, from, spender) {
            Some(a) => a,
            None => return Err(Error::AllowanceNotFound),
        };
        if allow.expiration_ledger < env.sequence {
            return Err(Error::AllowanceExpired);
        }
        if new_expiration_ledger <= allow.expiration_ledger {
            return Err(Error::InvalidExpiration);
        }
        storage::extend_allowance_expiration(&mut self.st, from, spender, new_expiration_ledger);
        allowance_extended_event(&mut self.st, from, spender, new_expiration_ledger);
        Ok(())
    }

    /// Revoke `spender`'s allowance.
    pub fn revoke_approval(&mut self, from: Address, spender: Address) -> (r: Result<(), Error>)
        requires
            old(self)@.wf(),
        ensures
            final(self).auth_requests() == old(self).auth_requests() + (
                consent_unless(zero_payload(from) || zero_payload(spender), from)
            ),
            final(self)@.wf(),
            applied(old(self)@, final(self)@, r, revoke_approval_result(old(self)@, from, spender)),
    {
        ensure_non_zero_address(from)?;
        ensure_non_zero_address(spender)?;
        self.require_auth(from);
        let meta = load_metadata(&self.st)?;
        if meta.paused {
            return Err(Error::Paused);
        }
        storage::set_allowance(&mut self.st, from, spender, 0, 0);
        approval_revoked_event(&mut self.st, from, spender);
        Ok(())
    }

    /// Transfer from `from` to `to` using `spender`'s allowance, which decreases by
    /// `amount` (the fee, if any, is not taken from the allowance).
    pub fn transfer_from(
        &mut self,
        env: &Env,
        spender: Address,
        from: Address,
        to: Address,
        amount: i128,
    ) -> (r: Result<(), Error>)
        requires
            old(self)@.wf(),
        ensures
            final(self).auth_requests() == old(self).auth_requests() + (
                consent_unless(zero_payload(spender) || zero_payload(from) || zero_payload(to), spender)
            ),
            final(self)@.wf(),
            applied(
                old(self)@,
                final(self)@,
                r,
                transfer_from_result(old(self)@, env.sequence, spender, from, to, amount),
            ),
    {
        ensure_non_zero_address(spender)?;
        ensure_non_zero_address(from)?;
        ensure_non_zero_address(to)?;
        self.require_auth(spender);
        if amount <= 0 {
            return Err(Error::InvalidAmount);
        }
        let meta = load_metadata(&self.st)?;
        if meta.paused {
            return Err(Error::Paused);
        }
        ensure_account_not_frozen(&self.st, spender)?;
        ensure_account_not_frozen(&self.st, from)?;
        ensure_account_not_frozen(&self.st, to)?;
        if meta.transfer_locked && from != meta.admin {
            return Err(Error::TransferLocked);
        }
        let allow = match storage::get_allowance_data(&self.st, from, spender) {
            Some(a) => a,
            None => return Err(Error::InsufficientAllowance),
        };
        if allow.expiration_ledger < env.sequence {
            return Err(Error::AllowanceExpired);
        }
        if allow.amount < amount {
            return Err(Error::InsufficientAllowance);
        }
        let fee_bps = storage::get_fee_bps(&self.st);
        let fee_amount = match compute_fee(fee_bps, amount) {
            Some(f) => f,
            None => return Err(Error::Overflow),
        };
        if fee_amount > 0 {
            ensure_account_not_frozen(&self.st, meta.admin)?;
        }
        let probe = check_movement(&self.st, from, to, meta.admin, amount, fee_amount);
        if let Err(e) = probe {
            return Err(e);
        }
        storage::set_allowance(
            &mut self.st,
            from,
            spender,
            allow.amount - amount,
            allow.expiration_ledger,
        );
        let moved = move_and_record(
            &mut self.st,
            env.sequence,
            from,
            to,
            meta.admin,
            amount,
            fee_amount,
        );
        assert(moved is Ok);
        Ok(())
    }

    /// Burn `amount` from `from`.
    pub fn burn(&mut self, from: Address, amount: i128) -> (r: Result<(), Error>)
        requires
            old(self)@.wf(),
        ensures
            final(self).auth_requests() == old(self).auth_requests() + (
                consent_unless(zero_payload(from), from)
            ),
            final(self)@.wf(),
            applied(old(self)@, final(self)@, r, burn_result(old(self)@, from, amount)),
    {
        ensure_non_zero_address(from)?;
        self.require_auth(from);
        if amount <= 0 {
            return Err(Error::InvalidAmount);
        }
        let meta = load_metadata(&self.st)?;
        if meta.paused {
            return Err(Error::Paused);
        }
        ensure_account_not_frozen(&self.st, from)?;
        let balance = storage::get_balance(&self.st, from);
        if balance < amount {
            return Err(Error::InsufficientBalance);
        }
        let new_supply = match storage::get_total_supply(&self.st).checked_sub(amount) {
            Some(v) => v,
            None => return Err(Error::Overflow),
        };
        proof {
            lemma_sum_with_balance(self.st@.balances, from, (balance - amount) as i128);
        }
        storage::set_balance(&mut self.st, from, balance - amount);
        storage::set_total_supply(&mut self.st, new_supply);
        burn_event(&mut self.st, from, amount);
        Ok(())
    }

    /// Burn from `from` using `spender`'s allowance.
    pub fn burn_from(&mut self, env: &Env, spender: Address, from: Address, amount: i128) -> (r:
        Result<(), Error>)
        requires
            old(self)@.wf(),
        ensures
            final(self).auth_requests() == old(self).auth_requests() + (
                consent_unless(zero_payload(spender) || zero_payload(from), spender)
            ),
            final(self)@.wf(),
            applied(
                old(self)@,
                final(self)@,
                r,
                burn_from_result(old(self)@, env.sequence, spender, from, amount),
            ),
    {
        ensure_non_zero_address(spender)?;
        ensure_non_zero_address(from)?;
        self.require_auth(spender);
        if amount <= 0 {
            return Err(Error::InvalidAmount);
        }
        let meta = load_metadata(&self.st)?;
        if meta.paused {
            return Err(Error::Paused);
        }
        ensure_account_not_frozen(&self.st, spender)?;
        ensure_account_not_frozen(&self.st, from)?;
        let allow = match storage::get_allowance_data(&self.st, from, spender) {
            Some(a) => a,
            None => return Err(Error::InsufficientAllowance),
        };
        if allow.expiration_ledger < env.sequence {
            return Err(Error::AllowanceExpired);
        }
        if allow.amount < amount {
            return Err(Error::InsufficientAllowance);
        }
        let balance = storage::get_balance(&self.st, from);
        if balance < amount {
            return Err(Error::InsufficientBalance);
        }
        let new_supply = match storage::get_total_supply(&self.st).checked_sub(amount) {
            Some(v) => v,
            None => return Err(Error::Overflow),
        };
        storage::set_allowance(
            &mut self.st,
            from,
            spender,
            allow.amount - amount,
            allow.expiration_ledger,
        );
        proof {
            lemma_sum_with_balance(self.st@.balances, from, (balance - amount) as i128);
        }
        storage::set_balance(&mut self.st, from, balance - amount);
        storage::set_total_supply(&mut self.st, new_supply);
        burn_event(&mut self.st, from, amount);
        Ok(())
    }

    /// Mint `amount` to `to`. `by` must be the admin or the minter.
    pub fn mint(&mut self, to: Address, amount: i128, by: Address) -> (r: Result<(), Error>)
        requires
            old(self)@.wf(),
        ensures
            final(self).auth_requests() == old(self).auth_requests() + (
                consent_unless(zero_payload(to) || zero_payload(by), by)
            ),
            final(self)@.wf(),
            applied(old(self)@, final(self)@, r, mint_result(old(self)@, to, amount, by)),
    {
        ensure_non_zero_address(to)?;
        ensure_non_zero_address(by)?;
        self.require_auth(by);
        let meta = load_metadata(&self.st)?;
        if meta.paused {
            return Err(Error::Paused);
        }
        if by != meta.admin && by != meta.minter {
            return Err(Error::Unauthorized);
        }
        ensure_account_not_frozen(&self.st, by)?;
        if amount <= 0 {
            return Err(Error::InvalidAmount);
        }
        ensure_account_not_frozen(&self.st, to)?;
        let new_balance = match storage::get_balance(&self.st, to).checked_add(amount) {
            Some(v) => v,
            None => return Err(Error::Overflow),
        };
        let new_supply = match storage::get_total_supply(&self.st).checked_add(amount) {
            Some(v) => v,
            None => return Err(Error::Overflow),
        };
        proof {
            lemma_sum_with_balance(self.st@.balances, to, new_balance);
        }
        storage::set_balance(&mut self.st, to, new_balance);
        storage::set_total_supply(&mut self.st, new_supply);
        mint_event(&mut self.st, to, amount);
        Ok(())
    }

    /// Mint to several addresses in a batch. `to` and `amounts` must have equal
    /// lengths and each amount must be > 0. The batch either mints everything or
    /// nothing.
    #[verifier::loop_isolation(false)]
    pub fn mint_batch(&mut self, to: &Vec<Address>, amounts: &Vec<i128>, by: Address) -> (r: Result<
        (),
        Error,
    >)
        requires
            old(self)@.wf(),
        ensures
            final(self).auth_requests() == old(self).auth_requests() + (
                consent_unless(zero_payload(by) || any_zero_payload(to@), by)
            ),
            final(self)@.wf(),
            applied(
                old(self)@,
                final(self)@,
                r,
                mint_batch_result(old(self)@, to@, amounts@, by),
            ),
    {
        ensure_non_zero_address(by)?;
        ensure_non_zero_addresses(to)?;
        self.require_auth(by);
        if to.len() != amounts.len() {
            return Err(Error::BatchLengthMismatch);
        }
        let meta = load_metadata(&self.st)?;
        if meta.paused {
            return Err(Error::Paused);
        }
        if by != meta.admin && by != meta.minter {
            return Err(Error::Unauthorized);
        }
        ensure_account_not_frozen(&self.st, by)?;
        let ghost s0 = self.st@;
        let snap = storage::snapshot(&self.st);
        let mut total_amount: i128 = 0;
        let mut i: usize = 0;
        assert(self.st@.events.subrange(0, s0.events.len() as int) =~= s0.events);
        while i < amounts.len()
            invariant
                i <= amounts@.len(),
                to@.len() == amounts@.len(),
                s0.wf(),
                forall|a: u64| #[trigger] self.st@.balances.contains_key(a) ==> self.st@.balances[a] > 0,
                self.st@.balances.dom().finite(),
                sum_balances(self.st@.balances) == sum_balances(s0.balances) + total_amount,
                total_amount >= 0,
                mint_batch_prefix(s0, to@, amounts@, i as nat) == Ok::<
                    (Map<u64, i128>, Seq<TokenEvent>, i128),
                    Error,
                >((self.st@.balances, self.st@.events, total_amount)),
                self.st@ == (TokenView {
                    balances: self.st@.balances,
                    events: self.st@.events,
                    ..s0
                }),
                snap.balances() == s0.balances,
                snap.events_len() == s0.events.len(),
                s0.events.len() <= self.st@.events.len(),
                self.st@.events.subrange(0, s0.events.len() as int) == s0.events,
                self.auth_requests() == old(self).auth_requests() + consent_of(by),
            decreases amounts@.len() - i,
        {
            let amount = amounts[i];
            let recipient = to[i];
            let ghost cur = self.st@;
            if amount <= 0 {
                proof {
                    lemma_mint_batch_error_persists(s0, to@, amounts@, (i + 1) as nat, amounts@.len());
                }
                storage::restore(&mut self.st, snap);
                assert(self.st@.balances =~= s0.balances);
                assert(self.st@.events =~= s0.events);
                return Err(Error::InvalidAmount);
            }
            {
                if storage::is_account_frozen(&self.st, recipient) {
                    proof {
                        lemma_mint_batch_error_persists(s0, to@, amounts@, (i + 1) as nat, amounts@.len());
                    }
                    storage::restore(&mut self.st, snap);
                    assert(self.st@.balances =~= s0.balances);
                    assert(self.st@.events =~= s0.events);
                    return Err(Error::AccountFrozen);
                }
                total_amount = match total_amount.checked_add(amount) {
                    Some(t) => t,
                    None => {
                        proof {
                            lemma_mint_batch_error_persists(s0, to@, amounts@, (i + 1) as nat, amounts@.len());
                        }
                        storage::restore(&mut self.st, snap);
                        assert(self.st@.balances =~= s0.balances);
                        assert(self.st@.events =~= s0.events);
                        return Err(Error::Overflow);
                    },
                };
                let new_bal = match storage::get_balance(&self.st, recipient).checked_add(amount) {
                    Some(v) => v,
                    None => {
                        proof {
                            lemma_mint_batch_error_persists(s0, to@, amounts@, (i + 1) as nat, amounts@.len());
                        }
                        storage::restore(&mut self.st, snap);
                        assert(self.st@.balances =~= s0.balances);
                        assert(self.st@.events =~= s0.events);
                        return Err(Error::Overflow);
                    },
                };
                proof {
                    lemma_sum_with_balance(self.st@.balances, recipient, new_bal);
                }
                storage::set_balance(&mut self.st, recipient, new_bal);
                mint_event(&mut self.st, recipient, amount);
                assert(self.st@.events.subrange(0, s0.events.len() as int) =~= s0.events);
            }
            i = i + 1;
        }
        let new_total_supply = match storage::get_total_supply(&self.st).checked_add(total_amount) {
            Some(v) => v,
            None => {
                storage::restore(&mut self.st, snap);
                assert(self.st@.balances =~= s0.balances);
                assert(self.st@.events =~= s0.events);
                return Err(Error::Overflow);
            },
        };
        storage::set_total_supply(&mut self.st, new_total_supply);
        Ok(())
    }

    /// Set the transfer lock. Callable by the admin or the minter. When locked,
    /// only the admin can send tokens.
    pub fn set_transfer_locked(&mut self, caller: Address, locked: bool) -> (r: Result<(), Error>)
        requires
            old(self)@.wf(),
        ensures
            final(self).auth_requests() == old(self).auth_requests() + (
                consent_unless(zero_payload(caller), caller)
            ),
            final(self)@.wf(),
            applied(
                old(self)@,
                final(self)@,
                r,
                set_transfer_locked_result(old(self)@, caller, locked),
            ),
    {
        ensure_non_zero_address(caller)?;
        self.require_auth(caller);
        let mut meta = load_metadata(&self.st)?;
        if caller != meta.admin && caller != meta.minter {
            return Err(Error::Unauthorized);
        }
        let old_locked = meta.transfer_locked;
        meta.transfer_locked = locked;
        storage::set_metadata(&mut self.st, meta);
        transfer_locked_updated_event(&mut self.st, old_locked, locked);
        Ok(())
    }

    /// Set the minter address; asks for the token admin's consent. The minter role
    /// moves from the old minter to the new one.
    pub fn set_minter(&mut self, new_minter: Address) -> (r: Result<(), Error>)
        requires
            old(self)@.wf(),
        ensures
            final(self).auth_requests() == old(self).auth_requests() + (
                if zero_payload(new_minter) {
                    Seq::empty()
                } else {
                    admin_consent(old(self)@)
                }
            ),
            final(self)@.wf(),
            applied(old(self)@, final(self)@, r, set_minter_result(old(self)@, new_minter)),
    {
        ensure_non_zero_address(new_minter)?;
        let mut meta = load_metadata(&self.st)?;
        self.require_auth(meta.admin);
        let old_minter = meta.minter;
        meta.minter = new_minter;
        storage::set_metadata(&mut self.st, meta);
        storage::set_role_grant(&mut self.st, MINTER_ROLE, old_minter, false);
        storage::set_role_grant(&mut self.st, MINTER_ROLE, new_minter, true);
        minter_updated_event(&mut self.st, old_minter, new_minter);
        Ok(())
    }

    /// Update the fractional precision for this invoice sub-asset. Asks for the token admin's consent.
    pub fn set_decimals(&mut self, decimals: u32) -> (r: Result<(), Error>)
        requires
            old(self)@.wf(),
        ensures
            final(self).auth_requests() == old(self).auth_requests() + (admin_consent(old(self)@)),
            final(self)@.wf(),
            applied(old(self)@, final(self)@, r, set_decimals_result(old(self)@, decimals)),
    {
        let mut meta = load_metadata(&self.st)?;
        self.require_auth(meta.admin);
        if decimals > MAX_DECIMALS {
            return Err(Error::InvalidDecimals);
        }
        let old_decimals = meta.decimals;
        meta.decimals = decimals;
        storage::set_metadata(&mut self.st, meta);
        decimals_updated_event(&mut self.st, old_decimals, decimals);
        Ok(())
    }

    /// Set the emergency pause state. Asks for the token admin's consent.
    pub fn set_paused(&mut self, paused: bool) -> (r: Result<(), Error>)
        requires
            old(self)@.wf(),
        ensures
            final(self).auth_requests() == old(self).auth_requests() + (admin_consent(old(self)@)),
            final(self)@.wf(),
            applied(old(self)@, final(self)@, r, set_paused_result(old(self)@, paused)),
    {
        let mut meta = load_metadata(&self.st)?;
        self.require_auth(meta.admin);
        let old_paused = meta.paused;
        meta.paused = paused;
        storage::set_metadata(&mut self.st, meta);
        paused_updated_event(&mut self.st, old_paused, paused);
        Ok(())
    }

    /// The invoice this token represents.
    pub fn invoice_id(&self) -> (r: Result<String, Error>)
        ensures
            r == (match meta_of(self@) {
                Ok(m) => Ok(m.invoice_id),
                Err(e) => Err(e),
            }),
    {
        let meta = load_metadata(&self.st)?;
        Ok(meta.invoice_id)
    }

    /// Whether transfers are locked.
    pub fn transfer_locked(&self) -> (r: Result<bool, Error>)
        ensures
            r == (match meta_of(self@) {
                Ok(m) => Ok(m.transfer_locked),
                Err(e) => Err(e),
            }),
    {
        let meta = load_metadata(&self.st)?;
        Ok(meta.transfer_locked)
    }

    /// Whether the token is paused.
    pub fn paused(&self) -> (r: Result<bool, Error>)
        ensures
            r == (match meta_of(self@) {
                Ok(m) => Ok(m.paused),
                Err(e) => Err(e),
            }),
    {
        let meta = load_metadata(&self.st)?;
        Ok(meta.paused)
    }

    /// Freeze an account. Asks for the token admin's consent.
    pub fn freeze_account(&mut self, account: Address) -> (r: Result<(), Error>)
        requires
            old(self)@.wf(),
        ensures
            final(self).auth_requests() == old(self).auth_requests() + (
                if zero_payload(account) {
                    Seq::empty()
                } else {
                    admin_consent(old(self)@)
                }
            ),
            final(self)@.wf(),
            applied(old(self)@, final(self)@, r, freeze_account_result(old(self)@, account)),
    {
        ensure_non_zero_address(account)?;
        let meta = load_metadata(&self.st)?;
        self.require_auth(meta.admin);
        if storage::is_account_frozen(&self.st, account) {
            return Err(Error::AccountFrozen);
        }
        storage::set_account_frozen(&mut self.st, account, true);
        account_frozen_event(&mut self.st, account);
        Ok(())
    }

    /// Unfreeze an account. Asks for the token admin's consent.
    pub fn unfreeze_account(&mut self, account: Address) -> (r: Result<(), Error>)
        requires
            old(self)@.wf(),
        ensures
            final(self).auth_requests() == old(self).auth_requests() + (
                if zero_payload(account) {
                    Seq::empty()
                } else {
                    admin_consent(old(self)@)
                }
            ),
            final(self)@.wf(),
            applied(old(self)@, final(self)@, r, unfreeze_account_result(old(self)@, account)),
    {
        ensure_non_zero_address(account)?;
        let meta = load_metadata(&self.st)?;
        self.require_auth(meta.admin);
        if !storage::is_account_frozen(&self.st, account) {
            return Err(Error::AccountNotFrozen);
        }
        storage::set_account_frozen(&mut self.st, account, false);
        account_unfrozen_event(&mut self.st, account);
        Ok(())
    }

    /// Whether an account is frozen.
    pub fn is_account_frozen(&self, account: Address) -> (r: Result<bool, Error>)
        ensures
            r == guarded_read(self@, account, self@.is_frozen(account)),
    {
        ensure_non_zero_address(account)?;
        load_metadata(&self.st)?;
        Ok(storage::is_account_frozen(&self.st, account))
    }

    /// Whether an account is frozen (same as `is_account_frozen`).
    pub fn is_frozen(&self, account: Address) -> (r: Result<bool, Error>)
        ensures
            r == guarded_read(self@, account, self@.is_frozen(account)),
    {
        self.is_account_frozen(account)
    }

    /// The current fee in basis points (0 = no fee, 100 = 1%).
    pub fn get_fee_bps(&self) -> (r: Result<i128, Error>)
        ensures
            r == (match meta_of(self@) {
                Ok(_) => Ok(self@.fee_bps),
                Err(e) => Err(e),
            }),
    {
        load_metadata(&self.st)?;
        Ok(storage::get_fee_bps(&self.st))
    }

    /// Set the fee in basis points. Only the admin may, with its consent. Valid range: 0..=10_000.
    pub fn set_fee_bps(&mut self, caller: Address, new_bps: i128) -> (r: Result<(), Error>)
        requires
            old(self)@.wf(),
        ensures
            final(self).auth_requests() == old(self).auth_requests() + (
                consent_unless(zero_payload(caller), caller)
            ),
            final(self)@.wf(),
            applied(old(self)@, final(self)@, r, set_fee_bps_result(old(self)@, caller, new_bps)),
    {
        ensure_non_zero_address(caller)?;
        self.require_auth(caller);
        let meta = load_metadata(&self.st)?;
        if caller != meta.admin {
            return Err(Error::Unauthorized);
        }
        if !(0 <= new_bps && new_bps <= MAX_FEE_BPS) {
            return Err(Error::InvalidFeeBps);
        }
        let old_bps = storage::get_fee_bps(&self.st);
        storage::set_fee_bps(&mut self.st, new_bps);
        fee_updated_event(&mut self.st, old_bps, new_bps);
        Ok(())
    }

    /// The admin of a role (who can grant and revoke it).
    pub fn get_role_admin(&self, role: Role) -> (r: Result<Address, Error>)
        ensures
            r == (match meta_of(self@) {
                Ok(_) => role_admin_of(self@, role),
                Err(e) => Err(e),
            }),
    {
        load_metadata(&self.st)?;
        match storage::get_role_admin(&self.st, role) {
            Some(a) => Ok(a),
            None => Err(Error::RoleNotGranted),
        }
    }

    /// Set the admin of a role. The caller must be the current admin of that role.
    pub fn set_role_admin(&mut self, caller: Address, role: Role, new_admin: Address) -> (r: Result<
        (),
        Error,
    >)
        requires
            old(self)@.wf(),
        ensures
            final(self).auth_requests() == old(self).auth_requests() + (
                consent_unless(zero_payload(caller) || zero_payload(new_admin), caller)
            ),
            final(self)@.wf(),
            applied(
                old(self)@,
                final(self)@,
                r,
                set_role_admin_result(old(self)@, caller, role, new_admin),
            ),
    {
        ensure_non_zero_address(caller)?;
        ensure_non_zero_address(new_admin)?;
        self.require_auth(caller);
        load_metadata(&self.st)?;
        let current_admin = match storage::get_role_admin(&self.st, role) {
            Some(a) => a,
            None => return Err(Error::RoleNotGranted),
        };
        if caller != current_admin {
            return Err(Error::Unauthorized);
        }
        storage::set_role_admin(&mut self.st, role, new_admin);
        role_admin_updated_event(&mut self.st, role, current_admin, new_admin);
        Ok(())
    }

    /// Grant a role to an account. The caller must be the admin of that role.
    pub fn grant_role(&mut self, caller: Address, role: Role, account: Address) -> (r: Result<
        (),
        Error,
    >)
        requires
            old(self)@.wf(),
        ensures
            final(self).auth_requests() == old(self).auth_requests() + (
                consent_unless(zero_payload(caller) || zero_payload(account), caller)
            ),
            final(self)@.wf(),
            applied(
                old(self)@,
                final(self)@,
                r,
                set_role_result(old(self)@, caller, role, account, true),
            ),
    {
        self.set_role(caller, role, account, true)
    }

    /// Revoke a role from an account. The caller must be the admin of that role.
    pub fn revoke_role(&mut self, caller: Address, role: Role, account: Address) -> (r: Result<
        (),
        Error,
    >)
        requires
            old(self)@.wf(),
        ensures
            final(self).auth_requests() == old(self).auth_requests() + (
                consent_unless(zero_payload(caller) || zero_payload(account), caller)
            ),
            final(self)@.wf(),
            applied(
                old(self)@,
                final(self)@,
                r,
                set_role_result(old(self)@, caller, role, account, false),
            ),
    {
        self.set_role(caller, role, account, false)
    }

    fn set_role(&mut self, caller: Address, role: Role, account: Address, granted: bool) -> (r:
        Result<(), Error>)
        requires
            old(self)@.wf(),
        ensures
            final(self).auth_requests() == old(self).auth_requests() + (
                consent_unless(zero_payload(caller) || zero_payload(account), caller)
            ),
            final(self)@.wf(),
            applied(
                old(self)@,
                final(self)@,
                r,
                set_role_result(old(self)@, caller, role, account, granted),
            ),
    {
        ensure_non_zero_address(caller)?;
        ensure_non_zero_address(account)?;
        self.require_auth(caller);
        load_metadata(&self.st)?;
        let role_admin = match storage::get_role_admin(&self.st, role) {
            Some(a) => a,
            None => return Err(Error::RoleNotGranted),
        };
        if caller != role_admin {
            return Err(Error::Unauthorized);
        }
        storage::set_role_grant(&mut self.st, role, account, granted);
        role_granted_event(&mut self.st, role, account, granted);
        Ok(())
    }

    /// Whether an account has been granted a role.
    pub fn has_role(&self, role: Role, account: Address) -> (r: Result<bool, Error>)
        ensures
            r == guarded_read(self@, account, self@.has_role(role, account)),
    {
        ensure_non_zero_address(account)?;
        load_metadata(&self.st)?;
        Ok(storage::has_role(&self.st, role, account))
    }

    /// The full ownership history of an address, oldest record first.
    pub fn get_token_history(&self, account: Address) -> (r: Result<Vec<OwnershipHistoryRecord>, Error>)
        ensures
            match guarded_read(self@, account, self@.history(account)) {
                Ok(h) => r is Ok && r->Ok_0@ == h,
                Err(e) => r is Err && r->Err_0 == e,
            },
    {
        ensure_non_zero_address(account)?;
        load_metadata(&self.st)?;
        Ok(storage::get_token_history(&self.st, account))
    }
}

} // verus!
