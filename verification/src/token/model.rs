//! What each token entry point does to the token's abstract state.
//!
//! Each function here gives, for an entry point and its arguments, either the
//! state after a successful call or the error the call returns. Checks are made in
//! the order in which the token makes them, so the first failing check decides
//! the error.
use vstd::prelude::*;

use crate::address::{any_zero_payload, pair_key, zero_payload, Address};
use crate::auth::{consent_of, AuthRequest};
use crate::token::errors::Error;
use crate::token::events::TokenEvent;
use crate::token::storage::{balance_in, with_allowance, with_balance, TokenView};
use crate::token::types::{
    AllowanceData, OwnershipHistoryRecord, Role, TokenMetadata, ADMIN_ROLE, MAX_DECIMALS,
    MAX_FEE_BPS, MINTER_ROLE, PAUSER_ROLE, TRANSFER_LOCKER_ROLE,
};

verus! {

/// The metadata, or `NotInit`.
pub open spec fn meta_of(s: TokenView) -> Result<TokenMetadata, Error> {
    match s.metadata {
        Some(m) => Ok(m),
        None => Err(Error::NotInit),
    }
}

/// The transfer fee on `amount`: `amount * fee_bps / 10_000` when a fee is
/// configured, zero otherwise; `None` when the product overflows.
pub open spec fn fee_on(fee_bps: i128, amount: i128) -> Option<i128> {
    if fee_bps > 0 {
        if amount * fee_bps > i128::MAX || amount * fee_bps < i128::MIN {
            None
        } else {
            Some(((amount * fee_bps) / 10_000) as i128)
        }
    } else {
        Some(0)
    }
}

/// Balances after `from` pays `amount` to `to` and `fee` to `admin`, one update
/// after the other, or the error met on the way.
pub open spec fn move_balances(
    bal: Map<u64, i128>,
    from: Address,
    to: Address,
    admin: Address,
    amount: i128,
    fee: i128,
) -> Result<Map<u64, i128>, Error> {
    let total = amount + fee;
    let fb = balance_in(bal, from);
    if total > i128::MAX {
        Err(Error::Overflow)
    } else if fb < total {
        if fee > 0 && fb >= amount {
            Err(Error::InsufficientBalanceForFee)
        } else {
            Err(Error::InsufficientBalance)
        }
    } else {
        let b1 = with_balance(bal, from, (fb - total) as i128);
        let tb = balance_in(b1, to) + amount;
        if tb > i128::MAX {
            Err(Error::Overflow)
        } else {
            let b2 = with_balance(b1, to, tb as i128);
            if fee > 0 {
                let ab = balance_in(b2, admin) + fee;
                if ab > i128::MAX {
                    Err(Error::Overflow)
                } else {
                    Ok(with_balance(b2, admin, ab as i128))
                }
            } else {
                Ok(b2)
            }
        }
    }
}

/// The history of `a` in a history map.
pub open spec fn history_in(h: Map<u64, Seq<OwnershipHistoryRecord>>, a: u64) -> Seq<
    OwnershipHistoryRecord,
> {
    if h.contains_key(a) {
        h[a]
    } else {
        Seq::empty()
    }
}

/// A history map after appending `rec` to the history of `a`.
pub open spec fn append_history(
    h: Map<u64, Seq<OwnershipHistoryRecord>>,
    a: u64,
    rec: OwnershipHistoryRecord,
) -> Map<u64, Seq<OwnershipHistoryRecord>> {
    h.insert(a, history_in(h, a).push(rec))
}

/// The events of a completed transfer of `amount` with fee `fee`.
pub open spec fn transfer_events(from: Address, to: Address, amount: i128, fee: i128) -> Seq<
    TokenEvent,
> {
    let tail = seq![
        TokenEvent::HistoryAppended { from, to, amount },
        TokenEvent::Transfer { from, to, amount },
    ];
    if fee > 0 {
        seq![TokenEvent::FeeDeducted { from, amount: fee }] + tail
    } else {
        tail
    }
}

/// The state after the balance movement, history and events of a transfer.
pub open spec fn settle_transfer(
    s: TokenView,
    bal: Map<u64, i128>,
    from: Address,
    to: Address,
    amount: i128,
    fee: i128,
    ledger: u32,
) -> TokenView {
    let rec = OwnershipHistoryRecord { from, to, amount, ledger };
    TokenView {
        balances: bal,
        histories: append_history(append_history(s.histories, from, rec), to, rec),
        events: s.events + transfer_events(from, to, amount, fee),
        ..s
    }
}

/// `initialize`.
pub open spec fn initialize_result(
    s: TokenView,
    admin: Address,
    name: String,
    symbol: String,
    decimals: u32,
    invoice_id: String,
    minter: Address,
) -> Result<TokenView, Error> {
    if zero_payload(admin) || zero_payload(minter) {
        Err(Error::InvalidAddress)
    } else if s.metadata is Some {
        Err(Error::AlreadyInit)
    } else if decimals > MAX_DECIMALS {
        Err(Error::InvalidDecimals)
    } else if name@.len() == 0 || symbol@.len() == 0 {
        Err(Error::InvalidMetadata)
    } else {
        Ok(
            TokenView {
                metadata: Some(
                    TokenMetadata {
                        admin,
                        minter,
                        name,
                        symbol,
                        decimals,
                        invoice_id,
                        transfer_locked: true,
                        paused: false,
                    },
                ),
                total_supply: 0,
                role_admins: s.role_admins.insert(ADMIN_ROLE, admin).insert(
                    MINTER_ROLE,
                    admin,
                ).insert(PAUSER_ROLE, admin).insert(TRANSFER_LOCKER_ROLE, admin),
                role_grants: s.role_grants.insert(pair_key(ADMIN_ROLE, admin)).insert(
                    pair_key(MINTER_ROLE, admin),
                ).insert(pair_key(PAUSER_ROLE, admin)).insert(
                    pair_key(TRANSFER_LOCKER_ROLE, admin),
                ).insert(pair_key(MINTER_ROLE, minter)),
                ..s
            },
        )
    }
}

/// `transfer`.
pub open spec fn transfer_result(
    s: TokenView,
    ledger: u32,
    from: Address,
    to: Address,
    amount: i128,
) -> Result<TokenView, Error> {
    if zero_payload(from) || zero_payload(to) {
        Err(Error::InvalidAddress)
    } else if amount <= 0 {
        Err(Error::InvalidAmount)
    } else {
        match meta_of(s) {
            Err(e) => Err(e),
            Ok(m) => if m.paused {
                Err(Error::Paused)
            } else if s.is_frozen(from) || s.is_frozen(to) {
                Err(Error::AccountFrozen)
            } else if m.transfer_locked && from != m.admin {
                Err(Error::TransferLocked)
            } else {
                match fee_on(s.fee_bps, amount) {
                    None => Err(Error::Overflow),
                    Some(fee) => if fee > 0 && s.is_frozen(m.admin) {
                        Err(Error::AccountFrozen)
                    } else {
                        match move_balances(s.balances, from, to, m.admin, amount, fee) {
                            Err(e) => Err(e),
                            Ok(bal) => Ok(settle_transfer(s, bal, from, to, amount, fee, ledger)),
                        }
                    },
                }
            },
        }
    }
}

/// `transfer_from`.
pub open spec fn transfer_from_result(
    s: TokenView,
    ledger: u32,
    spender: Address,
    from: Address,
    to: Address,
    amount: i128,
) -> Result<TokenView, Error> {
    if zero_payload(spender) || zero_payload(from) || zero_payload(to) {
        Err(Error::InvalidAddress)
    } else if amount <= 0 {
        Err(Error::InvalidAmount)
    } else {
        match meta_of(s) {
            Err(e) => Err(e),
            Ok(m) => if m.paused {
                Err(Error::Paused)
            } else if s.is_frozen(spender) || s.is_frozen(from) || s.is_frozen(to) {
                Err(Error::AccountFrozen)
            } else if m.transfer_locked && from != m.admin {
                Err(Error::TransferLocked)
            } else {
                match s.allowance_data(from, spender) {
                    None => Err(Error::InsufficientAllowance),
                    Some(allow) => if allow.expiration_ledger < ledger {
                        Err(Error::AllowanceExpired)
                    } else if allow.amount < amount {
                        Err(Error::InsufficientAllowance)
                    } else {
                        match fee_on(s.fee_bps, amount) {
                            None => Err(Error::Overflow),
                            Some(fee) => if fee > 0 && s.is_frozen(m.admin) {
                                Err(Error::AccountFrozen)
                            } else {
                                match move_balances(s.balances, from, to, m.admin, amount, fee) {
                                    Err(e) => Err(e),
                                    Ok(bal) => Ok(
                                        settle_transfer(
                                            TokenView {
                                                allowances: with_allowance(
                                                    s.allowances,
                                                    from,
                                                    spender,
                                                    (allow.amount - amount) as i128,
                                                    allow.expiration_ledger,
                                                ),
                                                ..s
                                            },
                                            bal,
                                            from,
                                            to,
                                            amount,
                                            fee,
                                            ledger,
                                        ),
                                    ),
                                }
                            },
                        }
                    },
                }
            },
        }
    }
}

/// `approve`.
pub open spec fn approve_result(
    s: TokenView,
    ledger: u32,
    from: Address,
    spender: Address,
    amount: i128,
    expiration_ledger: u32,
) -> Result<TokenView, Error> {
    if zero_payload(from) || zero_payload(spender) {
        Err(Error::InvalidAddress)
    } else if amount < 0 {
        Err(Error::InvalidAmount)
    } else {
        match meta_of(s) {
            Err(e) => Err(e),
            Ok(m) => if m.paused {
                Err(Error::Paused)
            } else if s.is_frozen(from) || s.is_frozen(spender) {
                Err(Error::AccountFrozen)
            } else if amount != 0 && expiration_ledger < ledger {
                Err(Error::InvalidExpiration)
            } else {
                Ok(
                    TokenView {
                        allowances: with_allowance(
                            s.allowances,
                            from,
                            spender,
                            amount,
                            expiration_ledger,
                        ),
                        events: s.events.push(
                            TokenEvent::Approve { from, spender, amount, expiration_ledger },
                        ),
                        ..s
                    },
                )
            },
        }
    }
}

/// `extend_allowance`.
pub open spec fn extend_allowance_result(
    s: TokenView,
    ledger: u32,
    from: Address,
    spender: Address,
    new_expiration_ledger: u32,
) -> Result<TokenView, Error> {
    if zero_payload(from) || zero_payload(spender) {
        Err(Error::InvalidAddress)
    } else {
        match meta_of(s) {
            Err(e) => Err(e),
            Ok(m) => if m.paused {
                Err(Error::Paused)
            } else if s.is_frozen(from) || s.is_frozen(spender) {
                Err(Error::AccountFrozen)
            } else {
                match s.allowance_data(from, spender) {
                    None => Err(Error::AllowanceNotFound),
                    Some(allow) => if allow.expiration_ledger < ledger {
                        Err(Error::AllowanceExpired)
                    } else if new_expiration_ledger <= allow.expiration_ledger {
                        Err(Error::InvalidExpiration)
                    } else {
                        Ok(
                            TokenView {
                                allowances: s.allowances.insert(
                                    pair_key(from, spender),
                                    AllowanceData {
                                        amount: allow.amount,
                                        expiration_ledger: new_expiration_ledger,
                                    },
                                ),
                                events: s.events.push(
                                    TokenEvent::AllowanceExtended {
                                        from,
                                        spender,
                                        new_expiration_ledger,
                                    },
                                ),
                                ..s
                            },
                        )
                    },
                }
            },
        }
    }
}

/// `revoke_approval`.
pub open spec fn revoke_approval_result(s: TokenView, from: Address, spender: Address) -> Result<
    TokenView,
    Error,
> {
    if zero_payload(from) || zero_payload(spender) {
        Err(Error::InvalidAddress)
    } else {
        match meta_of(s) {
            Err(e) => Err(e),
            Ok(m) => if m.paused {
                Err(Error::Paused)
            } else {
                Ok(
                    TokenView {
                        allowances: s.allowances.remove(pair_key(from, spender)),
                        events: s.events.push(TokenEvent::ApprovalRevoked { from, spender }),
                        ..s
                    },
                )
            },
        }
    }
}

/// `burn`.
pub open spec fn burn_result(s: TokenView, from: Address, amount: i128) -> Result<TokenView, Error> {
    if zero_payload(from) {
        Err(Error::InvalidAddress)
    } else if amount <= 0 {
        Err(Error::InvalidAmount)
    } else {
        match meta_of(s) {
            Err(e) => Err(e),
            Ok(m) => if m.paused {
                Err(Error::Paused)
            } else if s.is_frozen(from) {
                Err(Error::AccountFrozen)
            } else if s.balance(from) < amount {
                Err(Error::InsufficientBalance)
            } else if s.total_supply - amount < i128::MIN {
                Err(Error::Overflow)
            } else {
                Ok(
                    TokenView {
                        balances: with_balance(s.balances, from, (s.balance(from) - amount) as i128),
                        total_supply: (s.total_supply - amount) as i128,
                        events: s.events.push(TokenEvent::Burn { from, amount }),
                        ..s
                    },
                )
            },
        }
    }
}

/// `burn_from`.
pub open spec fn burn_from_result(
    s: TokenView,
    ledger: u32,
    spender: Address,
    from: Address,
    amount: i128,
) -> Result<TokenView, Error> {
    if zero_payload(spender) || zero_payload(from) {
        Err(Error::InvalidAddress)
    } else if amount <= 0 {
        Err(Error::InvalidAmount)
    } else {
        match meta_of(s) {
            Err(e) => Err(e),
            Ok(m) => if m.paused {
                Err(Error::Paused)
            } else if s.is_frozen(spender) || s.is_frozen(from) {
                Err(Error::AccountFrozen)
            } else {
                match s.allowance_data(from, spender) {
                    None => Err(Error::InsufficientAllowance),
                    Some(allow) => if allow.expiration_ledger < ledger {
                        Err(Error::AllowanceExpired)
                    } else if allow.amount < amount {
                        Err(Error::InsufficientAllowance)
                    } else if s.balance(from) < amount {
                        Err(Error::InsufficientBalance)
                    } else if s.total_supply - amount < i128::MIN {
                        Err(Error::Overflow)
                    } else {
                        Ok(
                            TokenView {
                                allowances: with_allowance(
                                    s.allowances,
                                    from,
                                    spender,
                                    (allow.amount - amount) as i128,
                                    allow.expiration_ledger,
                                ),
                                balances: with_balance(
                                    s.balances,
                                    from,
                                    (s.balance(from) - amount) as i128,
                                ),
                                total_supply: (s.total_supply - amount) as i128,
                                events: s.events.push(TokenEvent::Burn { from, amount }),
                                ..s
                            },
                        )
                    },
                }
            },
        }
    }
}

/// `mint`.
pub open spec fn mint_result(s: TokenView, to: Address, amount: i128, by: Address) -> Result<
    TokenView,
    Error,
> {
    if zero_payload(to) || zero_payload(by) {
        Err(Error::InvalidAddress)
    } else {
        match meta_of(s) {
            Err(e) => Err(e),
            Ok(m) => if m.paused {
                Err(Error::Paused)
            } else if by != m.admin && by != m.minter {
                Err(Error::Unauthorized)
            } else if s.is_frozen(by) {
                Err(Error::AccountFrozen)
            } else if amount <= 0 {
                Err(Error::InvalidAmount)
            } else if s.is_frozen(to) {
                Err(Error::AccountFrozen)
            } else if s.balance(to) + amount > i128::MAX {
                Err(Error::Overflow)
            } else if s.total_supply + amount > i128::MAX {
                Err(Error::Overflow)
            } else {
                Ok(
                    TokenView {
                        balances: with_balance(s.balances, to, (s.balance(to) + amount) as i128),
                        total_supply: (s.total_supply + amount) as i128,
                        events: s.events.push(TokenEvent::Mint { to, amount }),
                        ..s
                    },
                )
            },
        }
    }
}

/// The first `n` steps of a batch mint: balances, events and running total, or the
/// error of the first failing step. Every amount must be positive.
pub open spec fn mint_batch_prefix(
    s: TokenView,
    to: Seq<Address>,
    amounts: Seq<i128>,
    n: nat,
) -> Result<(Map<u64, i128>, Seq<TokenEvent>, i128), Error>
    decreases n,
{
    if n == 0 {
        Ok((s.balances, s.events, 0i128))
    } else {
        match mint_batch_prefix(s, to, amounts, (n - 1) as nat) {
            Err(e) => Err(e),
            Ok((bal, ev, total)) => {
                let i = n - 1;
                let amount = amounts[i];
                let recipient = to[i];
                if amount <= 0 {
                    Err(Error::InvalidAmount)
                } else if s.is_frozen(recipient) {
                    Err(Error::AccountFrozen)
                } else if total + amount > i128::MAX {
                    Err(Error::Overflow)
                } else if balance_in(bal, recipient) + amount > i128::MAX {
                    Err(Error::Overflow)
                } else {
                    Ok(
                        (
                            with_balance(
                                bal,
                                recipient,
                                (balance_in(bal, recipient) + amount) as i128,
                            ),
                            ev.push(TokenEvent::Mint { to: recipient, amount }),
                            (total + amount) as i128,
                        ),
                    )
                }
            },
        }
    }
}

/// `mint_batch`.
pub open spec fn mint_batch_result(
    s: TokenView,
    to: Seq<Address>,
    amounts: Seq<i128>,
    by: Address,
) -> Result<TokenView, Error> {
    if zero_payload(by) || any_zero_payload(to) {
        Err(Error::InvalidAddress)
    } else if to.len() != amounts.len() {
        Err(Error::BatchLengthMismatch)
    } else {
        match meta_of(s) {
            Err(e) => Err(e),
            Ok(m) => if m.paused {
                Err(Error::Paused)
            } else if by != m.admin && by != m.minter {
                Err(Error::Unauthorized)
            } else if s.is_frozen(by) {
                Err(Error::AccountFrozen)
            } else {
                match mint_batch_prefix(s, to, amounts, amounts.len()) {
                    Err(e) => Err(e),
                    Ok((bal, ev, total)) => if s.total_supply + total > i128::MAX {
                        Err(Error::Overflow)
                    } else {
                        Ok(
                            TokenView {
                                balances: bal,
                                events: ev,
                                total_supply: (s.total_supply + total) as i128,
                                ..s
                            },
                        )
                    },
                }
            },
        }
    }
}

/// The state with new metadata and one more event.
pub open spec fn with_meta(s: TokenView, m: TokenMetadata, e: TokenEvent) -> TokenView {
    TokenView { metadata: Some(m), events: s.events.push(e), ..s }
}

/// `set_transfer_locked`.
pub open spec fn set_transfer_locked_result(s: TokenView, caller: Address, locked: bool) -> Result<
    TokenView,
    Error,
> {
    if zero_payload(caller) {
        Err(Error::InvalidAddress)
    } else {
        match meta_of(s) {
            Err(e) => Err(e),
            Ok(m) => if caller != m.admin && caller != m.minter {
                Err(Error::Unauthorized)
            } else {
                Ok(
                    with_meta(
                        s,
                        TokenMetadata { transfer_locked: locked, ..m },
                        TokenEvent::TransferLockedUpdated {
                            old_value: m.transfer_locked,
                            new_value: locked,
                        },
                    ),
                )
            },
        }
    }
}

/// `set_minter`.
pub open spec fn set_minter_result(s: TokenView, new_minter: Address) -> Result<TokenView, Error> {
    if zero_payload(new_minter) {
        Err(Error::InvalidAddress)
    } else {
        match meta_of(s) {
            Err(e) => Err(e),
            Ok(m) => {
                let s1 = with_meta(
                    s,
                    TokenMetadata { minter: new_minter, ..m },
                    TokenEvent::MinterUpdated { old_minter: m.minter, new_minter },
                );
                Ok(
                    TokenView {
                        role_grants: s.role_grants.remove(pair_key(MINTER_ROLE, m.minter)).insert(
                            pair_key(MINTER_ROLE, new_minter),
                        ),
                        ..s1
                    },
                )
            },
        }
    }
}

/// `set_decimals`.
pub open spec fn set_decimals_result(s: TokenView, decimals: u32) -> Result<TokenView, Error> {
    match meta_of(s) {
        Err(e) => Err(e),
        Ok(m) => if decimals > MAX_DECIMALS {
            Err(Error::InvalidDecimals)
        } else {
            Ok(
                with_meta(
                    s,
                    TokenMetadata { decimals, ..m },
                    TokenEvent::DecimalsUpdated { old_value: m.decimals, new_value: decimals },
                ),
            )
        },
    }
}

/// `set_paused`.
pub open spec fn set_paused_result(s: TokenView, paused: bool) -> Result<TokenView, Error> {
    match meta_of(s) {
        Err(e) => Err(e),
        Ok(m) => Ok(
            with_meta(
                s,
                TokenMetadata { paused, ..m },
                TokenEvent::PausedUpdated { old_value: m.paused, new_value: paused },
            ),
        ),
    }
}

/// `freeze_account`.
pub open spec fn freeze_account_result(s: TokenView, account: Address) -> Result<TokenView, Error> {
    if zero_payload(account) {
        Err(Error::InvalidAddress)
    } else {
        match meta_of(s) {
            Err(e) => Err(e),
            Ok(m) => if s.is_frozen(account) {
                Err(Error::AccountFrozen)
            } else {
                Ok(
                    TokenView {
                        frozen: s.frozen.insert(account),
                        events: s.events.push(TokenEvent::AccountFrozen { account }),
                        ..s
                    },
                )
            },
        }
    }
}

/// `unfreeze_account`.
pub open spec fn unfreeze_account_result(s: TokenView, account: Address) -> Result<TokenView, Error> {
    if zero_payload(account) {
        Err(Error::InvalidAddress)
    } else {
        match meta_of(s) {
            Err(e) => Err(e),
            Ok(m) => if !s.is_frozen(account) {
                Err(Error::AccountNotFrozen)
            } else {
                Ok(
                    TokenView {
                        frozen: s.frozen.remove(account),
                        events: s.events.push(TokenEvent::AccountUnfrozen { account }),
                        ..s
                    },
                )
            },
        }
    }
}

/// `set_fee_bps`.
pub open spec fn set_fee_bps_result(s: TokenView, caller: Address, new_bps: i128) -> Result<
    TokenView,
    Error,
> {
    if zero_payload(caller) {
        Err(Error::InvalidAddress)
    } else {
        match meta_of(s) {
            Err(e) => Err(e),
            Ok(m) => if caller != m.admin {
                Err(Error::Unauthorized)
            } else if !(0 <= new_bps <= MAX_FEE_BPS) {
                Err(Error::InvalidFeeBps)
            } else {
                Ok(
                    TokenView {
                        fee_bps: new_bps,
                        events: s.events.push(TokenEvent::FeeUpdated { old_bps: s.fee_bps, new_bps }),
                        ..s
                    },
                )
            },
        }
    }
}

/// The admin of `role`, or `RoleNotGranted`.
pub open spec fn role_admin_of(s: TokenView, role: Role) -> Result<Address, Error> {
    if s.role_admins.contains_key(role) {
        Ok(s.role_admins[role])
    } else {
        Err(Error::RoleNotGranted)
    }
}

/// `set_role_admin`.
pub open spec fn set_role_admin_result(
    s: TokenView,
    caller: Address,
    role: Role,
    new_admin: Address,
) -> Result<TokenView, Error> {
    if zero_payload(caller) || zero_payload(new_admin) {
        Err(Error::InvalidAddress)
    } else {
        match meta_of(s) {
            Err(e) => Err(e),
            Ok(_) => match role_admin_of(s, role) {
                Err(e) => Err(e),
                Ok(current) => if caller != current {
                    Err(Error::Unauthorized)
                } else {
                    Ok(
                        TokenView {
                            role_admins: s.role_admins.insert(role, new_admin),
                            events: s.events.push(
                                TokenEvent::RoleAdminUpdated { role, old_admin: current, new_admin },
                            ),
                            ..s
                        },
                    )
                },
            },
        }
    }
}

/// `grant_role` (when `granted`) and `revoke_role` (otherwise).
pub open spec fn set_role_result(
    s: TokenView,
    caller: Address,
    role: Role,
    account: Address,
    granted: bool,
) -> Result<TokenView, Error> {
    if zero_payload(caller) || zero_payload(account) {
        Err(Error::InvalidAddress)
    } else {
        match meta_of(s) {
            Err(e) => Err(e),
            Ok(_) => match role_admin_of(s, role) {
                Err(e) => Err(e),
                Ok(current) => if caller != current {
                    Err(Error::Unauthorized)
                } else {
                    Ok(
                        TokenView {
                            role_grants: if granted {
                                s.role_grants.insert(pair_key(role, account))
                            } else {
                                s.role_grants.remove(pair_key(role, account))
                            },
                            events: s.events.push(TokenEvent::RoleGranted { role, account, granted }),
                            ..s
                        },
                    )
                },
            },
        }
    }
}

/// A read that checks one address and initialization, then yields `v`.
pub open spec fn guarded_read<T>(s: TokenView, account: Address, v: T) -> Result<T, Error> {
    if zero_payload(account) {
        Err(Error::InvalidAddress)
    } else {
        match meta_of(s) {
            Err(e) => Err(e),
            Ok(_) => Ok(v),
        }
    }
}

/// Ties a call's result and final state to its outcome: on success the state is
/// the outcome's; on failure the error is the outcome's and the state is unchanged.
pub open spec fn applied(
    old_s: TokenView,
    new_s: TokenView,
    r: Result<(), Error>,
    outcome: Result<TokenView, Error>,
) -> bool {
    match outcome {
        Ok(s) => r is Ok && new_s == s,
        Err(e) => r == Err::<(), Error>(e) && new_s == old_s,
    }
}

/// The admin's consent, which the admin-only calls of an initialized token ask for.
pub open spec fn admin_consent(s: TokenView) -> Seq<AuthRequest> {
    match s.metadata {
        Some(m) => consent_of(m.admin),
        None => Seq::empty(),
    }
}

} // verus!
