//! Properties of the invoice token that span its entry points.
use vstd::prelude::*;

use crate::address::{lemma_pair_key_injective, Address};
use crate::token::model::{
    approve_result, burn_from_result, burn_result, extend_allowance_result, fee_on, freeze_account_result,
    mint_batch_prefix, mint_batch_result, mint_result, move_balances, revoke_approval_result, set_role_result,
    transfer_from_result, transfer_result, unfreeze_account_result,
};
use crate::token::events::TokenEvent;
use crate::token::types::Role;
use crate::token::storage::{
    balance_in, lemma_sum_with_balance, sum_balances, with_balance, TokenView,
};

verus! {

/// Moving balances never creates or destroys tokens: the sum of all balances is
/// the same before and after.
pub proof fn lemma_move_balances_conserves(
    bal: Map<u64, i128>,
    from: Address,
    to: Address,
    admin: Address,
    amount: i128,
    fee: i128,
)
    requires
        bal.dom().finite(),
        amount > 0,
        fee >= 0,
        move_balances(bal, from, to, admin, amount, fee) is Ok,
    ensures
        sum_balances(move_balances(bal, from, to, admin, amount, fee)->Ok_0) == sum_balances(bal),
{
    let total = amount + fee;
    let fb = balance_in(bal, from);
    let b1 = with_balance(bal, from, (fb - total) as i128);
    lemma_sum_with_balance(bal, from, (fb - total) as i128);
    let tb = balance_in(b1, to) + amount;
    let b2 = with_balance(b1, to, tb as i128);
    lemma_sum_with_balance(b1, to, tb as i128);
    if fee > 0 {
        let ab = balance_in(b2, admin) + fee;
        lemma_sum_with_balance(b2, admin, ab as i128);
    }
}

/// A transfer conserves tokens: the total supply and the sum of all balances are
/// unchanged (the fee only moves tokens to the admin).
pub proof fn law_transfer_conserves_supply(
    s: TokenView,
    ledger: u32,
    from: Address,
    to: Address,
    amount: i128,
)
    requires
        s.wf(),
        transfer_result(s, ledger, from, to, amount) is Ok,
    ensures
        ({
            let s2 = transfer_result(s, ledger, from, to, amount)->Ok_0;
            &&& s2.total_supply == s.total_supply
            &&& sum_balances(s2.balances) == sum_balances(s.balances)
        }),
{
    let m = s.metadata->0;
    let fee = crate::token::model::fee_on(s.fee_bps, amount)->0;
    assert(fee >= 0) by (nonlinear_arith)
        requires
            fee == (if s.fee_bps > 0 {
                (amount * s.fee_bps) / 10_000
            } else {
                0
            }),
            amount > 0,
            s.fee_bps >= 0,
    ;
    lemma_move_balances_conserves(s.balances, from, to, m.admin, amount, fee);
}

/// Minting and then burning the same amount from the same account restores the
/// balances and the total supply.
pub proof fn law_mint_then_burn_restores(s: TokenView, to: Address, amount: i128, by: Address)
    requires
        s.wf(),
        mint_result(s, to, amount, by) is Ok,
        burn_result(mint_result(s, to, amount, by)->Ok_0, to, amount) is Ok,
    ensures
        ({
            let s2 = burn_result(mint_result(s, to, amount, by)->Ok_0, to, amount)->Ok_0;
            &&& s2.balances == s.balances
            &&& s2.total_supply == s.total_supply
        }),
{
    let s1 = mint_result(s, to, amount, by)->Ok_0;
    let s2 = burn_result(s1, to, amount)->Ok_0;
    if s.balances.contains_key(to) {
        assert(s2.balances =~= s.balances);
    } else {
        assert(s2.balances =~= s.balances);
    }
}

/// After an approval, the allowance read at that ledger is the approved amount
/// (zero clears the allowance).
pub proof fn law_approve_then_allowance(
    s: TokenView,
    ledger: u32,
    from: Address,
    spender: Address,
    amount: i128,
    expiration_ledger: u32,
)
    requires
        approve_result(s, ledger, from, spender, amount, expiration_ledger) is Ok,
    ensures
        approve_result(s, ledger, from, spender, amount, expiration_ledger)->Ok_0.allowance_at(
            from,
            spender,
            ledger,
        ) == amount,
{
}

/// Approvals of other pairs are untouched by an approval.
pub proof fn law_approve_is_local(
    s: TokenView,
    ledger: u32,
    from: Address,
    spender: Address,
    amount: i128,
    expiration_ledger: u32,
    other_from: Address,
    other_spender: Address,
    at: u32,
)
    requires
        approve_result(s, ledger, from, spender, amount, expiration_ledger) is Ok,
        other_from != from || other_spender != spender,
    ensures
        approve_result(s, ledger, from, spender, amount, expiration_ledger)->Ok_0.allowance_at(
            other_from,
            other_spender,
            at,
        ) == s.allowance_at(other_from, other_spender, at),
{
    lemma_pair_key_injective(from, spender, other_from, other_spender);
}

/// After a revocation no allowance is left, at any ledger.
pub proof fn law_revoke_clears_allowance(s: TokenView, from: Address, spender: Address, at: u32)
    requires
        revoke_approval_result(s, from, spender) is Ok,
    ensures
        revoke_approval_result(s, from, spender)->Ok_0.allowance_at(from, spender, at) == 0,
{
}

/// A delegated transfer spends exactly its amount of the allowance.
pub proof fn law_transfer_from_spends_allowance(
    s: TokenView,
    ledger: u32,
    spender: Address,
    from: Address,
    to: Address,
    amount: i128,
)
    requires
        transfer_from_result(s, ledger, spender, from, to, amount) is Ok,
    ensures
        transfer_from_result(s, ledger, spender, from, to, amount)->Ok_0.allowance_at(
            from,
            spender,
            ledger,
        ) == s.allowance_at(from, spender, ledger) - amount,
{
}

/// Extending an allowance keeps its amount.
pub proof fn law_extend_keeps_amount(
    s: TokenView,
    ledger: u32,
    from: Address,
    spender: Address,
    new_expiration_ledger: u32,
)
    requires
        extend_allowance_result(s, ledger, from, spender, new_expiration_ledger) is Ok,
    ensures
        extend_allowance_result(s, ledger, from, spender, new_expiration_ledger)->Ok_0.allowance_at(
            from,
            spender,
            new_expiration_ledger,
        ) == s.allowance_data(from, spender)->0.amount,
{
}

/// Freezing and then unfreezing an account restores the set of frozen accounts.
pub proof fn law_freeze_unfreeze_roundtrip(s: TokenView, account: Address)
    requires
        freeze_account_result(s, account) is Ok,
    ensures
        unfreeze_account_result(freeze_account_result(s, account)->Ok_0, account) is Ok,
        unfreeze_account_result(freeze_account_result(s, account)->Ok_0, account)->Ok_0.frozen
            == s.frozen,
{
    let s1 = freeze_account_result(s, account)->Ok_0;
    assert(s1.frozen.remove(account) =~= s.frozen);
}

/// A frozen account can neither send nor receive, directly or by delegation.
pub proof fn law_frozen_account_is_stuck(
    s: TokenView,
    ledger: u32,
    account: Address,
    other: Address,
    spender: Address,
    amount: i128,
)
    requires
        s.is_frozen(account),
    ensures
        transfer_result(s, ledger, account, other, amount) is Err,
        transfer_result(s, ledger, other, account, amount) is Err,
        transfer_from_result(s, ledger, spender, account, other, amount) is Err,
        transfer_from_result(s, ledger, spender, other, account, amount) is Err,
        burn_result(s, account, amount) is Err,
{
}

/// While transfers are locked, only the admin can send tokens.
pub proof fn law_locked_only_admin_sends(
    s: TokenView,
    ledger: u32,
    spender: Address,
    from: Address,
    to: Address,
    amount: i128,
)
    requires
        s.metadata is Some,
        s.metadata->0.transfer_locked,
        from != s.metadata->0.admin,
    ensures
        transfer_result(s, ledger, from, to, amount) is Err,
        transfer_from_result(s, ledger, spender, from, to, amount) is Err,
{
}

/// While the token is paused, no balance, allowance or supply changes.
pub proof fn law_paused_refuses_movements(
    s: TokenView,
    ledger: u32,
    a: Address,
    b: Address,
    c: Address,
    amount: i128,
    expiration_ledger: u32,
    recipients: Seq<Address>,
    amounts: Seq<i128>,
)
    requires
        s.metadata is Some,
        s.metadata->0.paused,
    ensures
        transfer_result(s, ledger, a, b, amount) is Err,
        transfer_from_result(s, ledger, a, b, c, amount) is Err,
        approve_result(s, ledger, a, b, amount, expiration_ledger) is Err,
        extend_allowance_result(s, ledger, a, b, expiration_ledger) is Err,
        revoke_approval_result(s, a, b) is Err,
        burn_result(s, a, amount) is Err,
        burn_from_result(s, ledger, a, b, amount) is Err,
        mint_result(s, a, amount, b) is Err,
        mint_batch_result(s, recipients, amounts, a) is Err,
{
}

/// Granting a role gives it to the account and revoking takes it away; the roles
/// of every other (role, account) pair are unchanged.
pub proof fn law_role_grant_and_revoke(
    s: TokenView,
    caller: Address,
    role: Role,
    account: Address,
    other_role: Role,
    other: Address,
)
    requires
        role != other_role || account != other,
    ensures
        set_role_result(s, caller, role, account, true) is Ok ==> {
            let t = set_role_result(s, caller, role, account, true)->Ok_0;
            t.has_role(role, account) && t.has_role(other_role, other) == s.has_role(other_role, other)
        },
        set_role_result(s, caller, role, account, false) is Ok ==> {
            let t = set_role_result(s, caller, role, account, false)->Ok_0;
            !t.has_role(role, account) && t.has_role(other_role, other) == s.has_role(other_role, other)
        },
{
    lemma_pair_key_injective(role, account, other_role, other);
}

/// An allowance past its expiration ledger reads as zero and cannot be spent: a
/// delegated transfer that gets as far as the allowance is refused as expired.
pub proof fn law_expired_allowance_is_void(
    s: TokenView,
    ledger: u32,
    spender: Address,
    from: Address,
    to: Address,
    amount: i128,
)
    requires
        s.allowance_data(from, spender) is Some,
        s.allowance_data(from, spender)->0.expiration_ledger < ledger,
    ensures
        s.allowance_at(from, spender, ledger) == 0,
        transfer_from_result(s, ledger, spender, from, to, amount) is Err,
        burn_from_result(s, ledger, spender, from, amount) is Err,
{
}

/// A transfer between three distinct parties moves exactly its amount: the sender
/// pays the amount plus the fee, the recipient receives the amount, the admin
/// receives the fee, and every other balance is unchanged.
pub proof fn law_transfer_moves_exactly(
    s: TokenView,
    ledger: u32,
    from: Address,
    to: Address,
    amount: i128,
    other: Address,
)
    requires
        transfer_result(s, ledger, from, to, amount) is Ok,
        from != to,
        from != s.metadata->0.admin,
        to != s.metadata->0.admin,
        other != from,
        other != to,
        other != s.metadata->0.admin,
    ensures
        ({
            let s2 = transfer_result(s, ledger, from, to, amount)->Ok_0;
            let fee = fee_on(s.fee_bps, amount)->0;
            &&& s2.balance(from) == s.balance(from) - amount - fee
            &&& s2.balance(to) == s.balance(to) + amount
            &&& s2.balance(s.metadata->0.admin) == s.balance(s.metadata->0.admin) + fee
            &&& s2.balance(other) == s.balance(other)
        }),
{
}

/// The sum of the first `n` amounts of a batch.
pub open spec fn batch_total(amounts: Seq<i128>, n: nat) -> int
    decreases n,
{
    if n == 0 {
        0
    } else {
        batch_total(amounts, (n - 1) as nat) + amounts[n - 1]
    }
}

/// The sum of the first `n` amounts of a batch whose recipient is `a`; an address
/// that appears several times receives each of its amounts.
pub open spec fn batch_total_for(to: Seq<Address>, amounts: Seq<i128>, a: Address, n: nat) -> int
    decreases n,
{
    if n == 0 {
        0
    } else {
        batch_total_for(to, amounts, a, (n - 1) as nat) + if to[n - 1] == a {
            amounts[n - 1] as int
        } else {
            0
        }
    }
}

/// One mint event for each of the first `n` steps of a batch, in index order.
pub open spec fn batch_mint_events(to: Seq<Address>, amounts: Seq<i128>, n: nat) -> Seq<TokenEvent>
    decreases n,
{
    if n == 0 {
        Seq::empty()
    } else {
        batch_mint_events(to, amounts, (n - 1) as nat).push(
            TokenEvent::Mint { to: to[n - 1], amount: amounts[n - 1] },
        )
    }
}

/// What the first `n` steps of a successful batch mint add up to.
proof fn lemma_mint_batch_prefix_totals(s: TokenView, to: Seq<Address>, amounts: Seq<i128>, n: nat)
    requires
        s.balances.dom().finite(),
        mint_batch_prefix(s, to, amounts, n) is Ok,
    ensures
        ({
            let (bal, ev, total) = mint_batch_prefix(s, to, amounts, n)->Ok_0;
            &&& forall|i: int| 0 <= i < n ==> #[trigger] amounts[i] > 0
            &&& total == batch_total(amounts, n)
            &&& total >= 0
            &&& forall|a: Address|
                #[trigger] balance_in(bal, a) == balance_in(s.balances, a) + batch_total_for(
                    to,
                    amounts,
                    a,
                    n,
                )
            &&& ev == s.events + batch_mint_events(to, amounts, n)
            &&& bal.dom().finite()
            &&& sum_balances(bal) == sum_balances(s.balances) + total
        }),
    decreases n,
{
    if n == 0 {
        assert(s.events + Seq::<TokenEvent>::empty() =~= s.events);
    } else {
        let m = (n - 1) as nat;
        lemma_mint_batch_prefix_totals(s, to, amounts, m);
        let (bal, ev, total) = mint_batch_prefix(s, to, amounts, m)->Ok_0;
        let r = to[m as int];
        let amount = amounts[m as int];
        let v = (balance_in(bal, r) + amount) as i128;
        lemma_sum_with_balance(bal, r, v);
        assert forall|a: Address|
            #[trigger] balance_in(with_balance(bal, r, v), a) == balance_in(s.balances, a)
                + batch_total_for(to, amounts, a, n) by {
            assert(balance_in(bal, a) == balance_in(s.balances, a) + batch_total_for(to, amounts, a, m));
            assert(batch_total_for(to, amounts, a, n) == batch_total_for(to, amounts, a, m) + if r == a {
                amount as int
            } else {
                0
            });
        }
        assert(ev.push(TokenEvent::Mint { to: r, amount }) =~= s.events + batch_mint_events(
            to,
            amounts,
            n,
        ));
    }
}

/// A successful batch mint adds each amount to its recipient's balance (an address
/// that appears several times receives the sum of its amounts) and the sum of all
/// amounts to the total supply, publishes one mint event per entry in order, and
/// keeps the total supply equal to the sum of the balances. Every amount of it was
/// positive.
pub proof fn law_mint_batch_totals(s: TokenView, recipients: Seq<Address>, amounts: Seq<i128>, by: Address)
    requires
        s.wf(),
        mint_batch_result(s, recipients, amounts, by) is Ok,
    ensures
        ({
            let s2 = mint_batch_result(s, recipients, amounts, by)->Ok_0;
            let n = amounts.len();
            &&& recipients.len() == n
            &&& forall|i: int| 0 <= i < n ==> #[trigger] amounts[i] > 0
            &&& s2.total_supply == s.total_supply + batch_total(amounts, n)
            &&& forall|a: Address|
                #[trigger] s2.balance(a) == s.balance(a) + batch_total_for(recipients, amounts, a, n)
            &&& s2.events == s.events + batch_mint_events(recipients, amounts, n)
            &&& s2.total_supply == sum_balances(s2.balances)
        }),
{
    lemma_mint_batch_prefix_totals(s, recipients, amounts, amounts.len());
    let s2 = mint_batch_result(s, recipients, amounts, by)->Ok_0;
    let (bal, ev, total) = mint_batch_prefix(s, recipients, amounts, amounts.len())->Ok_0;
    assert(s2.balances == bal);
    assert(s2.total_supply == s.total_supply + total);
}

/// A delegated transfer between three distinct parties moves balances exactly as a
/// direct one: the owner pays the amount plus the transfer fee
/// `amount * fee_bps / 10_000` (none when the fee rate is zero), the recipient
/// receives the amount, the admin receives the fee, every other balance is
/// unchanged, and the spender's allowance shrinks by the amount.
pub proof fn law_transfer_from_moves_exactly(
    s: TokenView,
    ledger: u32,
    spender: Address,
    from: Address,
    to: Address,
    amount: i128,
    other: Address,
)
    requires
        s.wf(),
        transfer_from_result(s, ledger, spender, from, to, amount) is Ok,
        from != to,
        from != s.metadata->0.admin,
        to != s.metadata->0.admin,
        other != from,
        other != to,
        other != s.metadata->0.admin,
    ensures
        ({
            let s2 = transfer_from_result(s, ledger, spender, from, to, amount)->Ok_0;
            let fee = if s.fee_bps > 0 {
                amount * s.fee_bps / 10_000
            } else {
                0
            };
            &&& s2.balance(from) == s.balance(from) - amount - fee
            &&& s2.balance(to) == s.balance(to) + amount
            &&& s2.balance(s.metadata->0.admin) == s.balance(s.metadata->0.admin) + fee
            &&& s2.balance(other) == s.balance(other)
            &&& s2.allowance_at(from, spender, ledger) == s.allowance_at(from, spender, ledger) - amount
        }),
{
}

/// A direct transfer between three distinct parties charges the same fee,
/// `amount * fee_bps / 10_000` (none when the fee rate is zero), to the sender and
/// pays it to the admin.
pub proof fn law_transfer_charges_the_fee(
    s: TokenView,
    ledger: u32,
    from: Address,
    to: Address,
    amount: i128,
)
    requires
        s.wf(),
        transfer_result(s, ledger, from, to, amount) is Ok,
        from != to,
        from != s.metadata->0.admin,
        to != s.metadata->0.admin,
    ensures
        ({
            let s2 = transfer_result(s, ledger, from, to, amount)->Ok_0;
            let fee = if s.fee_bps > 0 {
                amount * s.fee_bps / 10_000
            } else {
                0
            };
            &&& s2.balance(from) == s.balance(from) - amount - fee
            &&& s2.balance(to) == s.balance(to) + amount
            &&& s2.balance(s.metadata->0.admin) == s.balance(s.metadata->0.admin) + fee
        }),
{
}

} // verus!
