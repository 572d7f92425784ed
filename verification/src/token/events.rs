//! Events published by the invoice token.
use vstd::prelude::*;

use crate::address::Address;
use crate::token::storage::{publish, TokenStorage, TokenView};
use crate::token::types::Role;

verus! {

/// An event published by the token, with its topics and data.
#[derive(Clone, Copy, Debug, PartialEq, Eq)]
pub enum TokenEvent {
    /// `["transfer", from, to]`, data `amount`.
    Transfer { from: Address, to: Address, amount: i128 },
    /// `["approve", from, spender]`, data `(amount, expiration_ledger)`.
    Approve { from: Address, spender: Address, amount: i128, expiration_ledger: u32 },
    /// `["mint", to]`, data `amount`.
    Mint { to: Address, amount: i128 },
    /// `["burn", from]`, data `amount`.
    Burn { from: Address, amount: i128 },
    /// `["transfer_locked_updated"]`, data `(old, new)`.
    TransferLockedUpdated { old_value: bool, new_value: bool },
    /// `["minter_updated"]`, data `(old, new)`.
    MinterUpdated { old_minter: Address, new_minter: Address },
    /// `["paused_updated"]`, data `(old, new)`.
    PausedUpdated { old_value: bool, new_value: bool },
    /// `["allowance_extended", from, spender]`, data `new_expiration_ledger`.
    AllowanceExtended { from: Address, spender: Address, new_expiration_ledger: u32 },
    /// `["decimals_updated"]`, data `(old, new)`.
    DecimalsUpdated { old_value: u32, new_value: u32 },
    /// `["approval_revoked", from, spender]`, no data.
    ApprovalRevoked { from: Address, spender: Address },
    /// `["nonce_queried"]`, data `(account, nonce)`.
    NonceQueried { account: Address, nonce: u64 },
    /// `["fee_deducted", from]`, data `amount`.
    FeeDeducted { from: Address, amount: i128 },
    /// `["history_appended", from, to]`, data `amount`.
    HistoryAppended { from: Address, to: Address, amount: i128 },
    /// `["fee_updated"]`, data `(old_bps, new_bps)`.
    FeeUpdated { old_bps: i128, new_bps: i128 },
    /// `["role_admin_updated"]`, data `(role, old_admin, new_admin)`.
    RoleAdminUpdated { role: Role, old_admin: Address, new_admin: Address },
    /// `["role_granted"]`, data `(role, account, granted)`.
    RoleGranted { role: Role, account: Address, granted: bool },
    /// `["account_frozen", account]`, no data.
    AccountFrozen { account: Address },
    /// `["account_unfrozen", account]`, no data.
    AccountUnfrozen { account: Address },
}

/// The name that leads the topics of each kind of event.
#[derive(Clone, Copy, Debug, PartialEq, Eq)]
pub enum EventName {
    Transfer,
    Approve,
    Mint,
    Burn,
    TransferLockedUpdated,
    MinterUpdated,
    PausedUpdated,
    AllowanceExtended,
    DecimalsUpdated,
    ApprovalRevoked,
    NonceQueried,
    FeeDeducted,
    HistoryAppended,
    FeeUpdated,
    RoleAdminUpdated,
    RoleGranted,
    AccountFrozen,
    AccountUnfrozen,
}

/// The symbol under which an event name is published.
pub open spec fn name_symbol(n: EventName) -> Seq<char> {
    match n {
        EventName::Transfer => "transfer"@,
        EventName::Approve => "approve"@,
        EventName::Mint => "mint"@,
        EventName::Burn => "burn"@,
        EventName::TransferLockedUpdated => "transfer_locked_updated"@,
        EventName::MinterUpdated => "minter_updated"@,
        EventName::PausedUpdated => "paused_updated"@,
        EventName::AllowanceExtended => "allowance_extended"@,
        EventName::DecimalsUpdated => "decimals_updated"@,
        EventName::ApprovalRevoked => "approval_revoked"@,
        EventName::NonceQueried => "nonce_queried"@,
        EventName::FeeDeducted => "fee_deducted"@,
        EventName::HistoryAppended => "history_appended"@,
        EventName::FeeUpdated => "fee_updated"@,
        EventName::RoleAdminUpdated => "role_admin_updated"@,
        EventName::RoleGranted => "role_granted"@,
        EventName::AccountFrozen => "account_frozen"@,
        EventName::AccountUnfrozen => "account_unfrozen"@,
    }
}

impl EventName {
    /// The symbol under which this name is published.
    pub fn symbol(&self) -> (r: &'static str)
        ensures
            r@ == name_symbol(*self),
    {
        match self {
            EventName::Transfer => "transfer",
            EventName::Approve => "approve",
            EventName::Mint => "mint",
            EventName::Burn => "burn",
            EventName::TransferLockedUpdated => "transfer_locked_updated",
            EventName::MinterUpdated => "minter_updated",
            EventName::PausedUpdated => "paused_updated",
            EventName::AllowanceExtended => "allowance_extended",
            EventName::DecimalsUpdated => "decimals_updated",
            EventName::ApprovalRevoked => "approval_revoked",
            EventName::NonceQueried => "nonce_queried",
            EventName::FeeDeducted => "fee_deducted",
            EventName::HistoryAppended => "history_appended",
            EventName::FeeUpdated => "fee_updated",
            EventName::RoleAdminUpdated => "role_admin_updated",
            EventName::RoleGranted => "role_granted",
            EventName::AccountFrozen => "account_frozen",
            EventName::AccountUnfrozen => "account_unfrozen",
        }
    }
}

/// One value among the topics or the data of a published event.
#[derive(Clone, Copy, Debug, PartialEq, Eq)]
pub enum EventValue {
    /// The event's name, published as a symbol.
    Name(EventName),
    /// An account or contract address.
    Addr(Address),
    /// A role, published as its symbol.
    Role(Role),
    /// An amount or a fee in basis points.
    I128(i128),
    /// A ledger sequence number or a decimals count.
    U32(u32),
    /// A nonce.
    U64(u64),
    /// A flag.
    Bool(bool),
}

/// The topics under which an event is published, its name first.
pub open spec fn event_topics(e: TokenEvent) -> Seq<EventValue> {
    match e {
        TokenEvent::Transfer { from, to, .. } => seq![
            EventValue::Name(EventName::Transfer),
            EventValue::Addr(from),
            EventValue::Addr(to),
        ],
        TokenEvent::Approve { from, spender, .. } => seq![
            EventValue::Name(EventName::Approve),
            EventValue::Addr(from),
            EventValue::Addr(spender),
        ],
        TokenEvent::Mint { to, .. } => seq![EventValue::Name(EventName::Mint), EventValue::Addr(to)],
        TokenEvent::Burn { from, .. } => seq![EventValue::Name(EventName::Burn), EventValue::Addr(from)],
        TokenEvent::TransferLockedUpdated { .. } => seq![EventValue::Name(EventName::TransferLockedUpdated)],
        TokenEvent::MinterUpdated { .. } => seq![EventValue::Name(EventName::MinterUpdated)],
        TokenEvent::PausedUpdated { .. } => seq![EventValue::Name(EventName::PausedUpdated)],
        TokenEvent::AllowanceExtended { from, spender, .. } => seq![
            EventValue::Name(EventName::AllowanceExtended),
            EventValue::Addr(from),
            EventValue::Addr(spender),
        ],
        TokenEvent::DecimalsUpdated { .. } => seq![EventValue::Name(EventName::DecimalsUpdated)],
        TokenEvent::ApprovalRevoked { from, spender } => seq![
            EventValue::Name(EventName::ApprovalRevoked),
            EventValue::Addr(from),
            EventValue::Addr(spender),
        ],
        TokenEvent::NonceQueried { .. } => seq![EventValue::Name(EventName::NonceQueried)],
        TokenEvent::FeeDeducted { from, .. } => seq![
            EventValue::Name(EventName::FeeDeducted),
            EventValue::Addr(from),
        ],
        TokenEvent::HistoryAppended { from, to, .. } => seq![
            EventValue::Name(EventName::HistoryAppended),
            EventValue::Addr(from),
            EventValue::Addr(to),
        ],
        TokenEvent::FeeUpdated { .. } => seq![EventValue::Name(EventName::FeeUpdated)],
        TokenEvent::RoleAdminUpdated { .. } => seq![EventValue::Name(EventName::RoleAdminUpdated)],
        TokenEvent::RoleGranted { .. } => seq![EventValue::Name(EventName::RoleGranted)],
        TokenEvent::AccountFrozen { account } => seq![
            EventValue::Name(EventName::AccountFrozen),
            EventValue::Addr(account),
        ],
        TokenEvent::AccountUnfrozen { account } => seq![
            EventValue::Name(EventName::AccountUnfrozen),
            EventValue::Addr(account),
        ],
    }
}

/// The data published with an event, in order.
pub open spec fn event_data(e: TokenEvent) -> Seq<EventValue> {
    match e {
        TokenEvent::Transfer { amount, .. } => seq![EventValue::I128(amount)],
        TokenEvent::Approve { amount, expiration_ledger, .. } => seq![
            EventValue::I128(amount),
            EventValue::U32(expiration_ledger),
        ],
        TokenEvent::Mint { amount, .. } => seq![EventValue::I128(amount)],
        TokenEvent::Burn { amount, .. } => seq![EventValue::I128(amount)],
        TokenEvent::TransferLockedUpdated { old_value, new_value } => seq![
            EventValue::Bool(old_value),
            EventValue::Bool(new_value),
        ],
        TokenEvent::MinterUpdated { old_minter, new_minter } => seq![
            EventValue::Addr(old_minter),
            EventValue::Addr(new_minter),
        ],
        TokenEvent::PausedUpdated { old_value, new_value } => seq![
            EventValue::Bool(old_value),
            EventValue::Bool(new_value),
        ],
        TokenEvent::AllowanceExtended { new_expiration_ledger, .. } => seq![
            EventValue::U32(new_expiration_ledger),
        ],
        TokenEvent::DecimalsUpdated { old_value, new_value } => seq![
            EventValue::U32(old_value),
            EventValue::U32(new_value),
        ],
        TokenEvent::ApprovalRevoked { .. } => Seq::empty(),
        TokenEvent::NonceQueried { account, nonce } => seq![
            EventValue::Addr(account),
            EventValue::U64(nonce),
        ],
        TokenEvent::FeeDeducted { amount, .. } => seq![EventValue::I128(amount)],
        TokenEvent::HistoryAppended { amount, .. } => seq![EventValue::I128(amount)],
        TokenEvent::FeeUpdated { old_bps, new_bps } => seq![
            EventValue::I128(old_bps),
            EventValue::I128(new_bps),
        ],
        TokenEvent::RoleAdminUpdated { role, old_admin, new_admin } => seq![
            EventValue::Role(role),
            EventValue::Addr(old_admin),
            EventValue::Addr(new_admin),
        ],
        TokenEvent::RoleGranted { role, account, granted } => seq![
            EventValue::Role(role),
            EventValue::Addr(account),
            EventValue::Bool(granted),
        ],
        TokenEvent::AccountFrozen { .. } => Seq::empty(),
        TokenEvent::AccountUnfrozen { .. } => Seq::empty(),
    }
}

impl TokenEvent {
    /// The name that leads this event's topics.
    pub fn name(&self) -> (r: EventName)
        ensures
            event_topics(*self)[0] == EventValue::Name(r),
    {
        match self {
            TokenEvent::Transfer { .. } => EventName::Transfer,
            TokenEvent::Approve { .. } => EventName::Approve,
            TokenEvent::Mint { .. } => EventName::Mint,
            TokenEvent::Burn { .. } => EventName::Burn,
            TokenEvent::TransferLockedUpdated { .. } => EventName::TransferLockedUpdated,
            TokenEvent::MinterUpdated { .. } => EventName::MinterUpdated,
            TokenEvent::PausedUpdated { .. } => EventName::PausedUpdated,
            TokenEvent::AllowanceExtended { .. } => EventName::AllowanceExtended,
            TokenEvent::DecimalsUpdated { .. } => EventName::DecimalsUpdated,
            TokenEvent::ApprovalRevoked { .. } => EventName::ApprovalRevoked,
            TokenEvent::NonceQueried { .. } => EventName::NonceQueried,
            TokenEvent::FeeDeducted { .. } => EventName::FeeDeducted,
            TokenEvent::HistoryAppended { .. } => EventName::HistoryAppended,
            TokenEvent::FeeUpdated { .. } => EventName::FeeUpdated,
            TokenEvent::RoleAdminUpdated { .. } => EventName::RoleAdminUpdated,
            TokenEvent::RoleGranted { .. } => EventName::RoleGranted,
            TokenEvent::AccountFrozen { .. } => EventName::AccountFrozen,
            TokenEvent::AccountUnfrozen { .. } => EventName::AccountUnfrozen,
        }
    }

    /// The topics under which this event is published.
    pub fn topics(&self) -> (r: Vec<EventValue>)
        ensures
            r@ == event_topics(*self),
    {
        let mut r: Vec<EventValue> = Vec::new();
        r.push(EventValue::Name(self.name()));
        match *self {
            TokenEvent::Transfer { from, to, .. } | TokenEvent::HistoryAppended { from, to, .. } => {
                r.push(EventValue::Addr(from));
                r.push(EventValue::Addr(to));
            },
            TokenEvent::Approve { from, spender, .. }
            | TokenEvent::AllowanceExtended { from, spender, .. }
            | TokenEvent::ApprovalRevoked { from, spender } => {
                r.push(EventValue::Addr(from));
                r.push(EventValue::Addr(spender));
            },
            TokenEvent::Mint { to, .. } => {
                r.push(EventValue::Addr(to));
            },
            TokenEvent::Burn { from, .. } | TokenEvent::FeeDeducted { from, .. } => {
                r.push(EventValue::Addr(from));
            },
            TokenEvent::AccountFrozen { account } | TokenEvent::AccountUnfrozen { account } => {
                r.push(EventValue::Addr(account));
            },
            _ => {},
        }
        proof {
            assert(r@ =~= event_topics(*self));
        }
        r
    }

    /// The data published with this event.
    pub fn data(&self) -> (r: Vec<EventValue>)
        ensures
            r@ == event_data(*self),
    {
        let mut r: Vec<EventValue> = Vec::new();
        match *self {
            TokenEvent::Transfer { amount, .. }
            | TokenEvent::Mint { amount, .. }
            | TokenEvent::Burn { amount, .. }
            | TokenEvent::FeeDeducted { amount, .. }
            | TokenEvent::HistoryAppended { amount, .. } => {
                r.push(EventValue::I128(amount));
            },
            TokenEvent::Approve { amount, expiration_ledger, .. } => {
                r.push(EventValue::I128(amount));
                r.push(EventValue::U32(expiration_ledger));
            },
            TokenEvent::TransferLockedUpdated { old_value, new_value }
            | TokenEvent::PausedUpdated { old_value, new_value } => {
                r.push(EventValue::Bool(old_value));
                r.push(EventValue::Bool(new_value));
            },
            TokenEvent::MinterUpdated { old_minter, new_minter } => {
                r.push(EventValue::Addr(old_minter));
                r.push(EventValue::Addr(new_minter));
            },
            TokenEvent::AllowanceExtended { new_expiration_ledger, .. } => {
                r.push(EventValue::U32(new_expiration_ledger));
            },
            TokenEvent::DecimalsUpdated { old_value, new_value } => {
                r.push(EventValue::U32(old_value));
                r.push(EventValue::U32(new_value));
            },
            TokenEvent::NonceQueried { account, nonce } => {
                r.push(EventValue::Addr(account));
                r.push(EventValue::U64(nonce));
            },
            TokenEvent::FeeUpdated { old_bps, new_bps } => {
                r.push(EventValue::I128(old_bps));
                r.push(EventValue::I128(new_bps));
            },
            TokenEvent::RoleAdminUpdated { role, old_admin, new_admin } => {
                r.push(EventValue::Role(role));
                r.push(EventValue::Addr(old_admin));
                r.push(EventValue::Addr(new_admin));
            },
            TokenEvent::RoleGranted { role, account, granted } => {
                r.push(EventValue::Role(role));
                r.push(EventValue::Addr(account));
                r.push(EventValue::Bool(granted));
            },
            _ => {},
        }
        proof {
            assert(r@ =~= event_data(*self));
        }
        r
    }
}

/// Emit transfer event.
pub fn transfer_event(st: &mut TokenStorage, from: Address, to: Address, amount: i128)
    ensures
        final(st)@ == (TokenView { events: old(st)@.events.push(TokenEvent::Transfer { from, to, amount }), ..old(st)@ }),
{
    publish(st, TokenEvent::Transfer { from, to, amount });
}

/// Emit approve event.
pub fn approve_event(
    st: &mut TokenStorage,
    from: Address,
    spender: Address,
    amount: i128,
    expiration_ledger: u32,
)
    ensures
        final(st)@ == (TokenView { events: old(st)@.events.push(
            TokenEvent::Approve { from, spender, amount, expiration_ledger },
        ), ..old(st)@ }),
{
    publish(st, TokenEvent::Approve { from, spender, amount, expiration_ledger });
}

/// Emit mint event.
pub fn mint_event(st: &mut TokenStorage, to: Address, amount: i128)
    ensures
        final(st)@ == (TokenView { events: old(st)@.events.push(TokenEvent::Mint { to, amount }), ..old(st)@ }),
{
    publish(st, TokenEvent::Mint { to, amount });
}

/// Emit burn event.
pub fn burn_event(st: &mut TokenStorage, from: Address, amount: i128)
    ensures
        final(st)@ == (TokenView { events: old(st)@.events.push(TokenEvent::Burn { from, amount }), ..old(st)@ }),
{
    publish(st, TokenEvent::Burn { from, amount });
}

/// Emit transfer_locked update event with previous and new values.
pub fn transfer_locked_updated_event(st: &mut TokenStorage, old_value: bool, new_value: bool)
    ensures
        final(st)@ == (TokenView { events: old(st)@.events.push(TokenEvent::TransferLockedUpdated { old_value, new_value }), ..old(st)@ }),
{
    publish(st, TokenEvent::TransferLockedUpdated { old_value, new_value });
}

/// Emit minter update event with previous and new minter addresses.
pub fn minter_updated_event(st: &mut TokenStorage, old_minter: Address, new_minter: Address)
    ensures
        final(st)@ == (TokenView { events: old(st)@.events.push(TokenEvent::MinterUpdated { old_minter, new_minter }), ..old(st)@ }),
{
    publish(st, TokenEvent::MinterUpdated { old_minter, new_minter });
}

/// Emit pause state updates.
pub fn paused_updated_event(st: &mut TokenStorage, old_value: bool, new_value: bool)
    ensures
        final(st)@ == (TokenView { events: old(st)@.events.push(TokenEvent::PausedUpdated { old_value, new_value }), ..old(st)@ }),
{
    publish(st, TokenEvent::PausedUpdated { old_value, new_value });
}

/// Emit an allowance expiration extension.
pub fn allowance_extended_event(
    st: &mut TokenStorage,
    from: Address,
    spender: Address,
    new_expiration_ledger: u32,
)
    ensures
        final(st)@ == (TokenView { events: old(st)@.events.push(
            TokenEvent::AllowanceExtended { from, spender, new_expiration_ledger },
        ), ..old(st)@ }),
{
    publish(st, TokenEvent::AllowanceExtended { from, spender, new_expiration_ledger });
}

/// Emit a token-decimal configuration update.
pub fn decimals_updated_event(st: &mut TokenStorage, old_value: u32, new_value: u32)
    ensures
        final(st)@ == (TokenView { events: old(st)@.events.push(TokenEvent::DecimalsUpdated { old_value, new_value }), ..old(st)@ }),
{
    publish(st, TokenEvent::DecimalsUpdated { old_value, new_value });
}

/// Emit an explicit allowance revocation.
pub fn approval_revoked_event(st: &mut TokenStorage, from: Address, spender: Address)
    ensures
        final(st)@ == (TokenView { events: old(st)@.events.push(TokenEvent::ApprovalRevoked { from, spender }), ..old(st)@ }),
{
    publish(st, TokenEvent::ApprovalRevoked { from, spender });
}

/// Emit a nonce query event for audit/tracking purposes.
pub fn nonce_queried_event(st: &mut TokenStorage, account: Address, nonce: u64)
    ensures
        final(st)@ == (TokenView { events: old(st)@.events.push(TokenEvent::NonceQueried { account, nonce }), ..old(st)@ }),
{
    publish(st, TokenEvent::NonceQueried { account, nonce });
}

/// Emit a fee deduction event when a transfer fee is charged.
pub fn fee_deducted_event(st: &mut TokenStorage, from: Address, amount: i128)
    ensures
        final(st)@ == (TokenView { events: old(st)@.events.push(TokenEvent::FeeDeducted { from, amount }), ..old(st)@ }),
{
    publish(st, TokenEvent::FeeDeducted { from, amount });
}

/// Emit an ownership history record appended event.
pub fn history_appended_event(st: &mut TokenStorage, from: Address, to: Address, amount: i128)
    ensures
        final(st)@ == (TokenView { events: old(st)@.events.push(TokenEvent::HistoryAppended { from, to, amount }), ..old(st)@ }),
{
    publish(st, TokenEvent::HistoryAppended { from, to, amount });
}

/// Emit a fee configuration update event.
pub fn fee_updated_event(st: &mut TokenStorage, old_bps: i128, new_bps: i128)
    ensures
        final(st)@ == (TokenView { events: old(st)@.events.push(TokenEvent::FeeUpdated { old_bps, new_bps }), ..old(st)@ }),
{
    publish(st, TokenEvent::FeeUpdated { old_bps, new_bps });
}

/// Emit a role admin update event.
pub fn role_admin_updated_event(
    st: &mut TokenStorage,
    role: Role,
    old_admin: Address,
    new_admin: Address,
)
    ensures
        final(st)@ == (TokenView { events: old(st)@.events.push(TokenEvent::RoleAdminUpdated { role, old_admin, new_admin }), ..old(st)@ }),
{
    publish(st, TokenEvent::RoleAdminUpdated { role, old_admin, new_admin });
}

/// Emit a role grant/revoke event.
pub fn role_granted_event(st: &mut TokenStorage, role: Role, account: Address, granted: bool)
    ensures
        final(st)@ == (TokenView { events: old(st)@.events.push(TokenEvent::RoleGranted { role, account, granted }), ..old(st)@ }),
{
    publish(st, TokenEvent::RoleGranted { role, account, granted });
}

/// Emit an account freeze.
pub fn account_frozen_event(st: &mut TokenStorage, account: Address)
    ensures
        final(st)@ == (TokenView { events: old(st)@.events.push(TokenEvent::AccountFrozen { account }), ..old(st)@ }),
{
    publish(st, TokenEvent::AccountFrozen { account });
}

/// Emit an account unfreeze.
pub fn account_unfrozen_event(st: &mut TokenStorage, account: Address)
    ensures
        final(st)@ == (TokenView { events: old(st)@.events.push(TokenEvent::AccountUnfrozen { account }), ..old(st)@ }),
{
    publish(st, TokenEvent::AccountUnfrozen { account });
}

} // verus!
