//! The storage of the invoice token and its access helpers.
//!
//! Instance storage holds the metadata, total supply, fee and roles; persistent
//! storage holds balances, allowances, nonces, histories and frozen flags. Entries
//! that would hold a zero balance, a zero allowance or a cleared flag are removed
//! rather than stored.
use vstd::prelude::*;

use std::collections::HashMap;

use crate::address::{make_pair_key, pair_key, Address};
use crate::token::events::TokenEvent;
use crate::token::types::{AllowanceData, OwnershipHistoryRecord, Role, TokenMetadata};

verus! {

broadcast use vstd::std_specs::hash::group_hash_axioms;

/// Everything the token keeps, and the events it has published.
pub struct TokenStorage {
    pub(crate) metadata: Option<TokenMetadata>,
    pub(crate) total_supply: i128,
    pub(crate) balances: HashMap<u64, i128>,
    pub(crate) allowances: HashMap<u128, AllowanceData>,
    pub(crate) fee_bps: i128,
    pub(crate) role_admins: HashMap<u64, u64>,
    pub(crate) role_grants: HashMap<u128, bool>,
    pub(crate) nonces: HashMap<u64, u64>,
    pub(crate) histories: HashMap<u64, Vec<OwnershipHistoryRecord>>,
    pub(crate) frozen: HashMap<u64, bool>,
    pub(crate) events: Vec<TokenEvent>,
}

/// The abstract state of the token.
pub struct TokenView {
    pub metadata: Option<TokenMetadata>,
    pub total_supply: i128,
    /// Non-zero balances by holder.
    pub balances: Map<u64, i128>,
    /// Allowances by `pair_key(from, spender)`.
    pub allowances: Map<u128, AllowanceData>,
    pub fee_bps: i128,
    /// Admin of each role.
    pub role_admins: Map<Role, Address>,
    /// Grants, as `pair_key(role, account)`.
    pub role_grants: Set<u128>,
    pub nonces: Map<u64, u64>,
    pub histories: Map<u64, Seq<OwnershipHistoryRecord>>,
    pub frozen: Set<u64>,
    /// Events published so far, oldest first.
    pub events: Seq<TokenEvent>,
}

/// The balance of a holder in a balance map: absent entries are zero.
pub open spec fn balance_in(m: Map<u64, i128>, a: u64) -> i128 {
    if m.contains_key(a) {
        m[a]
    } else {
        0
    }
}

/// A balance map after setting the balance of `a` to `v`; a zero balance removes the entry.
pub open spec fn with_balance(m: Map<u64, i128>, a: u64, v: i128) -> Map<u64, i128> {
    if v == 0 {
        m.remove(a)
    } else {
        m.insert(a, v)
    }
}

/// An allowance map after setting `(from, spender)`; a zero amount removes the entry.
pub open spec fn with_allowance(
    m: Map<u128, AllowanceData>,
    from: u64,
    spender: u64,
    amount: i128,
    expiration_ledger: u32,
) -> Map<u128, AllowanceData> {
    if amount == 0 {
        m.remove(pair_key(from, spender))
    } else {
        m.insert(pair_key(from, spender), AllowanceData { amount, expiration_ledger })
    }
}

/// The sum of all balances in a balance map.
pub open spec fn sum_balances(m: Map<u64, i128>) -> int
    decreases m.dom().len(),
{
    if m.dom().finite() && m.dom().len() > 0 {
        let k = m.dom().choose();
        proof {
            assert(m.remove(k).dom() =~= m.dom().remove(k));
        }
        m[k] + sum_balances(m.remove(k))
    } else {
        0
    }
}

/// Taking any one holder out of the sum.
pub proof fn lemma_sum_remove(m: Map<u64, i128>, k: u64)
    requires
        m.dom().finite(),
        m.contains_key(k),
    ensures
        sum_balances(m) == m[k] + sum_balances(m.remove(k)),
    decreases m.dom().len(),
{
    assert(m.remove(k).dom() =~= m.dom().remove(k));
    let c = m.dom().choose();
    if c != k {
        let mc = m.remove(c);
        let mk = m.remove(k);
        assert(mc.dom() =~= m.dom().remove(c));
        assert(mk.dom() =~= m.dom().remove(k));
        lemma_sum_remove(mc, k);
        lemma_sum_remove(mk, c);
        assert(mc.remove(k) =~= mk.remove(c));
    }
}

/// Setting one balance changes the sum by the difference.
pub proof fn lemma_sum_with_balance(m: Map<u64, i128>, a: u64, v: i128)
    requires
        m.dom().finite(),
    ensures
        with_balance(m, a, v).dom().finite(),
        sum_balances(with_balance(m, a, v)) == sum_balances(m) - balance_in(m, a) + v,
{
    let n = with_balance(m, a, v);
    if v == 0 {
        assert(n.dom() =~= m.dom().remove(a));
        if m.contains_key(a) {
            lemma_sum_remove(m, a);
        } else {
            assert(n =~= m);
        }
    } else {
        assert(n.dom() =~= m.dom().insert(a));
        lemma_sum_remove(n, a);
        if m.contains_key(a) {
            lemma_sum_remove(m, a);
            assert(n.remove(a) =~= m.remove(a));
        } else {
            assert(n.remove(a) =~= m);
        }
    }
}

impl TokenView {
    pub open spec fn balance(self, a: u64) -> i128 {
        balance_in(self.balances, a)
    }

    pub open spec fn allowance_data(self, from: u64, spender: u64) -> Option<AllowanceData> {
        if self.allowances.contains_key(pair_key(from, spender)) {
            Some(self.allowances[pair_key(from, spender)])
        } else {
            None
        }
    }

    /// The allowance usable at ledger `ledger`: zero when absent or expired.
    pub open spec fn allowance_at(self, from: u64, spender: u64, ledger: u32) -> i128 {
        match self.allowance_data(from, spender) {
            Some(a) => if a.expiration_ledger >= ledger {
                a.amount
            } else {
                0
            },
            None => 0,
        }
    }

    pub open spec fn has_role(self, role: Role, account: Address) -> bool {
        self.role_grants.contains(pair_key(role, account))
    }

    pub open spec fn nonce(self, a: u64) -> u64 {
        if self.nonces.contains_key(a) {
            self.nonces[a]
        } else {
            0
        }
    }

    pub open spec fn history(self, a: u64) -> Seq<OwnershipHistoryRecord> {
        if self.histories.contains_key(a) {
            self.histories[a]
        } else {
            Seq::empty()
        }
    }

    pub open spec fn is_frozen(self, a: u64) -> bool {
        self.frozen.contains(a)
    }

    /// The internal invariant: a fee within range, only positive balances stored,
    /// the total supply equal to the sum of all balances, and no balance before
    /// initialization.
    pub open spec fn wf(self) -> bool {
        &&& 0 <= self.fee_bps <= 10_000
        &&& forall|a: u64| #[trigger] self.balances.contains_key(a) ==> self.balances[a] > 0
        &&& self.balances.dom().finite()
        &&& self.total_supply == sum_balances(self.balances)
        &&& self.metadata is None ==> self.balances.is_empty()
    }
}

impl View for TokenStorage {
    type V = TokenView;

    closed spec fn view(&self) -> TokenView {
        TokenView {
            metadata: self.metadata,
            total_supply: self.total_supply,
            balances: self.balances@,
            allowances: self.allowances@,
            fee_bps: self.fee_bps,
            role_admins: self.role_admins@,
            role_grants: self.role_grants@.dom(),
            nonces: self.nonces@,
            histories: Map::new(
                |a: u64| self.histories@.contains_key(a),
                |a: u64| self.histories@[a]@,
            ),
            frozen: self.frozen@.dom(),
            events: self.events@,
        }
    }
}

impl TokenStorage {
    /// Empty storage: no metadata, no entries, no events.
    pub fn new() -> (r: TokenStorage)
        ensures
            r@.metadata is None,
            r@.total_supply == 0,
            r@.balances == Map::<u64, i128>::empty(),
            r@.allowances == Map::<u128, AllowanceData>::empty(),
            r@.fee_bps == 0,
            r@.role_admins == Map::<u64, u64>::empty(),
            r@.role_grants == Set::<u128>::empty(),
            r@.nonces == Map::<u64, u64>::empty(),
            r@.histories == Map::<u64, Seq<OwnershipHistoryRecord>>::empty(),
            r@.frozen == Set::<u64>::empty(),
            r@.events == Seq::<TokenEvent>::empty(),
            r@.wf(),
    {
        let r = TokenStorage {
            metadata: None,
            total_supply: 0,
            balances: HashMap::new(),
            allowances: HashMap::new(),
            fee_bps: 0,
            role_admins: HashMap::new(),
            role_grants: HashMap::new(),
            nonces: HashMap::new(),
            histories: HashMap::new(),
            frozen: HashMap::new(),
            events: Vec::new(),
        };
        assert(r@.histories =~= Map::<u64, Seq<OwnershipHistoryRecord>>::empty());
        assert(r@.balances.dom() =~= Set::<u64>::empty());
        assert(r@.role_grants =~= Set::<u128>::empty());
        assert(r@.frozen =~= Set::<u64>::empty());
        r
    }
}

impl Clone for TokenStorage {
    /// A copy of the whole storage, event log included.
    fn clone(&self) -> (r: Self)
        ensures
            r@ == self@,
    {
        let metadata = match &self.metadata {
            Some(m) => Some(m.clone()),
            None => None,
        };
        let events = self.events.clone();
        assert(events@ =~= self.events@);
        let r = TokenStorage {
            metadata,
            total_supply: self.total_supply,
            balances: self.balances.clone(),
            allowances: self.allowances.clone(),
            fee_bps: self.fee_bps,
            role_admins: self.role_admins.clone(),
            role_grants: self.role_grants.clone(),
            nonces: self.nonces.clone(),
            histories: self.histories.clone(),
            frozen: self.frozen.clone(),
            events,
        };
        assert(r@.histories =~= self@.histories);
        assert(r@.role_grants =~= self@.role_grants);
        assert(r@.frozen =~= self@.frozen);
        r
    }
}

/// Append an event to the published log.
pub fn publish(st: &mut TokenStorage, event: TokenEvent)
    ensures
        final(st)@ == (TokenView { events: old(st)@.events.push(event), ..old(st)@ }),
{
    st.events.push(event);
    assert(final(st)@.histories =~= old(st)@.histories);
}

/// The events published so far, oldest first.
pub fn events(st: &TokenStorage) -> (r: &Vec<TokenEvent>)
    ensures
        r@ == st@.events,
{
    &st.events
}

/// A saved copy of the balances and of the length of the event log, from which a
/// failed batch restores the storage.
pub struct BalanceSnapshot {
    balances: HashMap<u64, i128>,
    events_len: usize,
}

impl BalanceSnapshot {
    pub closed spec fn balances(&self) -> Map<u64, i128> {
        self.balances@
    }

    pub closed spec fn events_len(&self) -> nat {
        self.events_len as nat
    }
}

/// Save the balances and the length of the event log.
pub fn snapshot(st: &TokenStorage) -> (r: BalanceSnapshot)
    ensures
        r.balances() == st@.balances,
        r.events_len() == st@.events.len(),
{
    BalanceSnapshot { balances: st.balances.clone(), events_len: st.events.len() }
}

/// Put back the saved balances and drop the events published since the snapshot.
pub fn restore(st: &mut TokenStorage, snap: BalanceSnapshot)
    requires
        snap.events_len() <= old(st)@.events.len(),
    ensures
        final(st)@ == (TokenView {
            balances: snap.balances(),
            events: old(st)@.events.subrange(0, snap.events_len() as int),
            ..old(st)@
        }),
{
    st.balances = snap.balances;
    st.events.truncate(snap.events_len);
    assert(final(st)@.histories =~= old(st)@.histories);
}

/// Load token metadata.
pub fn get_metadata(st: &TokenStorage) -> (r: &Option<TokenMetadata>)
    ensures
        *r == st@.metadata,
{
    &st.metadata
}

/// Save token metadata.
pub fn set_metadata(st: &mut TokenStorage, meta: TokenMetadata)
    ensures
        final(st)@ == (TokenView { metadata: Some(meta), ..old(st)@ }),
{
    st.metadata = Some(meta);
    assert(final(st)@.histories =~= old(st)@.histories);
}

/// Load total supply.
pub fn get_total_supply(st: &TokenStorage) -> (r: i128)
    ensures
        r == st@.total_supply,
{
    st.total_supply
}

/// Save total supply.
pub fn set_total_supply(st: &mut TokenStorage, amount: i128)
    ensures
        final(st)@ == (TokenView { total_supply: amount, ..old(st)@ }),
{
    st.total_supply = amount;
    assert(final(st)@.histories =~= old(st)@.histories);
}

/// Get balance for an address; zero when the account holds nothing.
pub fn get_balance(st: &TokenStorage, addr: Address) -> (r: i128)
    ensures
        r == st@.balance(addr),
{
    match st.balances.get(&addr) {
        Some(b) => *b,
        None => 0,
    }
}

/// Set balance for an address. A zero amount removes the entry.
pub fn set_balance(st: &mut TokenStorage, addr: Address, amount: i128)
    ensures
        final(st)@ == (TokenView {
            balances: with_balance(old(st)@.balances, addr, amount),
            ..old(st)@
        }),
{
    if amount == 0 {
        st.balances.remove(&addr);
    } else {
        st.balances.insert(addr, amount);
    }
    assert(final(st)@.histories =~= old(st)@.histories);
}

/// Check whether an account is frozen.
pub fn is_account_frozen(st: &TokenStorage, account: Address) -> (r: bool)
    ensures
        r == st@.is_frozen(account),
{
    st.frozen.contains_key(&account)
}

/// Update an account's frozen state, removing unrestricted entries.
pub fn set_account_frozen(st: &mut TokenStorage, account: Address, frozen: bool)
    ensures
        final(st)@ == (TokenView {
            frozen: if frozen {
                old(st)@.frozen.insert(account)
            } else {
                old(st)@.frozen.remove(account)
            },
            ..old(st)@
        }),
{
    if frozen {
        st.frozen.insert(account, true);
    } else {
        st.frozen.remove(&account);
    }
    assert(final(st)@.histories =~= old(st)@.histories);
    assert(final(st)@.frozen =~= (if frozen {
        old(st)@.frozen.insert(account)
    } else {
        old(st)@.frozen.remove(account)
    }));
}

/// Get allowance (from, spender); zero when expired or not set.
pub fn get_allowance(st: &TokenStorage, from: Address, spender: Address, current_ledger: u32) -> (r:
    i128)
    ensures
        r == st@.allowance_at(from, spender, current_ledger),
{
    let key = make_pair_key(from, spender);
    match st.allowances.get(&key) {
        Some(a) => if a.expiration_ledger >= current_ledger {
            a.amount
        } else {
            0
        },
        None => 0,
    }
}

/// Set allowance (from, spender) -> (amount, expiration_ledger). A zero amount removes the entry.
pub fn set_allowance(
    st: &mut TokenStorage,
    from: Address,
    spender: Address,
    amount: i128,
    expiration_ledger: u32,
)
    ensures
        final(st)@ == (TokenView {
            allowances: with_allowance(old(st)@.allowances, from, spender, amount, expiration_ledger),
            ..old(st)@
        }),
{
    let key = make_pair_key(from, spender);
    if amount == 0 {
        st.allowances.remove(&key);
    } else {
        st.allowances.insert(key, AllowanceData { amount, expiration_ledger });
    }
    assert(final(st)@.histories =~= old(st)@.histories);
}

/// Get raw allowance data.
pub fn get_allowance_data(st: &TokenStorage, from: Address, spender: Address) -> (r: Option<
    AllowanceData,
>)
    ensures
        r == st@.allowance_data(from, spender),
{
    let key = make_pair_key(from, spender);
    match st.allowances.get(&key) {
        Some(a) => Some(*a),
        None => None,
    }
}

/// Get fee basis points.
pub fn get_fee_bps(st: &TokenStorage) -> (r: i128)
    ensures
        r == st@.fee_bps,
{
    st.fee_bps
}

/// Save fee basis points.
pub fn set_fee_bps(st: &mut TokenStorage, bps: i128)
    ensures
        final(st)@ == (TokenView { fee_bps: bps, ..old(st)@ }),
{
    st.fee_bps = bps;
    assert(final(st)@.histories =~= old(st)@.histories);
}

/// Get the admin address for a role.
pub fn get_role_admin(st: &TokenStorage, role: Role) -> (r: Option<Address>)
    ensures
        r == (if st@.role_admins.contains_key(role) {
            Some(st@.role_admins[role])
        } else {
            None::<Address>
        }),
{
    match st.role_admins.get(&role) {
        Some(a) => Some(*a),
        None => None,
    }
}

/// Set the admin address for a role.
pub fn set_role_admin(st: &mut TokenStorage, role: Role, admin: Address)
    ensures
        final(st)@ == (TokenView { role_admins: old(st)@.role_admins.insert(role, admin), ..old(st)@ }),
{
    st.role_admins.insert(role, admin);
    assert(final(st)@.histories =~= old(st)@.histories);
}

/// Check whether `account` has been granted `role`.
pub fn has_role(st: &TokenStorage, role: Role, account: Address) -> (r: bool)
    ensures
        r == st@.has_role(role, account),
{
    st.role_grants.contains_key(&make_pair_key(role, account))
}

/// Grant or revoke `role` for `account`.
pub fn set_role_grant(st: &mut TokenStorage, role: Role, account: Address, granted: bool)
    ensures
        final(st)@ == (TokenView {
            role_grants: if granted {
                old(st)@.role_grants.insert(pair_key(role, account))
            } else {
                old(st)@.role_grants.remove(pair_key(role, account))
            },
            ..old(st)@
        }),
{
    let key = make_pair_key(role, account);
    if granted {
        st.role_grants.insert(key, true);
    } else {
        st.role_grants.remove(&key);
    }
    assert(final(st)@.histories =~= old(st)@.histories);
    assert(final(st)@.role_grants =~= (if granted {
        old(st)@.role_grants.insert(pair_key(role, account))
    } else {
        old(st)@.role_grants.remove(pair_key(role, account))
    }));
}

/// Get the current nonce for an address. Starts at 0.
pub fn get_nonce(st: &TokenStorage, addr: Address) -> (r: u64)
    ensures
        r == st@.nonce(addr),
{
    match st.nonces.get(&addr) {
        Some(n) => *n,
        None => 0,
    }
}

/// Increment and return the new nonce for an address.
pub fn increment_nonce(st: &mut TokenStorage, addr: Address) -> (r: u64)
    requires
        old(st)@.nonce(addr) < u64::MAX,
    ensures
        r == old(st)@.nonce(addr) + 1,
        final(st)@ == (TokenView { nonces: old(st)@.nonces.insert(addr, r), ..old(st)@ }),
{
    let current = get_nonce(st, addr);
    let new_nonce = current + 1;
    st.nonces.insert(addr, new_nonce);
    assert(final(st)@.histories =~= old(st)@.histories);
    new_nonce
}

/// Get the full ownership history for an address; empty if none.
pub fn get_token_history(st: &TokenStorage, addr: Address) -> (r: Vec<OwnershipHistoryRecord>)
    ensures
        r@ == st@.history(addr),
{
    match st.histories.get(&addr) {
        Some(h) => h.clone(),
        None => Vec::new(),
    }
}

/// Append an ownership history record for an address.
pub fn append_token_history(st: &mut TokenStorage, addr: Address, record: OwnershipHistoryRecord)
    ensures
        final(st)@ == (TokenView {
            histories: old(st)@.histories.insert(addr, old(st)@.history(addr).push(record)),
            ..old(st)@
        }),
{
    let mut history = match st.histories.remove(&addr) {
        Some(h) => h,
        None => Vec::new(),
    };
    history.push(record);
    st.histories.insert(addr, history);
    assert(final(st)@.histories =~= old(st)@.histories.insert(
        addr,
        old(st)@.history(addr).push(record),
    ));
}

/// Extend the expiration ledger of an existing allowance in place, leaving its amount untouched.
pub fn extend_allowance_expiration(
    st: &mut TokenStorage,
    from: Address,
    spender: Address,
    new_expiration_ledger: u32,
)
    ensures
        final(st)@ == (TokenView {
            allowances: match old(st)@.allowance_data(from, spender) {
                Some(a) => old(st)@.allowances.insert(
                    pair_key(from, spender),
                    AllowanceData { expiration_ledger: new_expiration_ledger, ..a },
                ),
                None => old(st)@.allowances,
            },
            ..old(st)@
        }),
{
    let key = make_pair_key(from, spender);
    match st.allowances.get(&key) {
        Some(a) => {
            let data = AllowanceData { amount: a.amount, expiration_ledger: new_expiration_ledger };
            st.allowances.insert(key, data);
        },
        None => {},
    }
    assert(final(st)@.histories =~= old(st)@.histories);
}

} // verus!
