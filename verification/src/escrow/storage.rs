//! The storage of the invoice escrow and its access helpers.
//!
//! Instance storage holds the configuration, the emergency multi-sig set and the
//! escrow count; persistent storage holds escrows, contributions, nonces, the
//! whitelist, funding invoices, positions, approvals and the creation index.
//! Zero contributions, zero positions and cleared whitelist flags are removed
//! rather than stored.
use vstd::prelude::*;

use std::collections::HashMap;

use crate::address::{make_pair_key, pair_key, Address};
use crate::escrow::effects::Effect;
use crate::escrow::types::{
    Config, DisputeData, DisputeView, EmergencyApprovals, EscrowData, EscrowDataView, FundingInvoice,
    FundingInvoiceId, InvoiceId, MultiSigConfig, MultiSigView,
};

verus! {

broadcast use vstd::std_specs::hash::group_hash_axioms;

/// Everything the escrow keeps, and what it has done outside its storage.
pub struct EscrowStorage {
    pub(crate) config: Option<Config>,
    pub(crate) escrows: HashMap<u64, EscrowData>,
    pub(crate) funder_amounts: HashMap<u128, i128>,
    pub(crate) nonces: HashMap<u64, u64>,
    pub(crate) whitelist: HashMap<u64, bool>,
    pub(crate) invoices: HashMap<u64, FundingInvoice>,
    pub(crate) positions: HashMap<u128, i128>,
    pub(crate) emergency_config: Option<MultiSigConfig>,
    pub(crate) approvals: HashMap<u64, Vec<Address>>,
    pub(crate) escrow_count: u32,
    pub(crate) escrow_ids: HashMap<u32, u64>,
    pub(crate) disputes: HashMap<u64, DisputeData>,
    pub(crate) effects: Vec<Effect>,
}

/// The abstract state of the escrow.
pub struct EscrowView {
    pub config: Option<Config>,
    /// Escrows by invoice id.
    pub escrows: Map<InvoiceId, EscrowDataView>,
    /// Contributions by `pair_key(invoice_id, funder)`.
    pub funder_amounts: Map<u128, i128>,
    /// Highest consumed signed-approval nonce by buyer.
    pub nonces: Map<Address, u64>,
    /// Whitelisted buyers.
    pub whitelist: Set<Address>,
    /// Funding invoices by id.
    pub invoices: Map<FundingInvoiceId, FundingInvoice>,
    /// Positions by `pair_key(invoice_id, investor)`.
    pub positions: Map<u128, i128>,
    pub emergency_config: Option<MultiSigView>,
    /// Emergency approvals collected by invoice id.
    pub approvals: Map<InvoiceId, Seq<Address>>,
    /// Number of escrows ever created.
    pub escrow_count: u32,
    /// Invoice id by creation index.
    pub escrow_ids: Map<u32, InvoiceId>,
    /// Disputes by invoice id.
    pub disputes: Map<InvoiceId, DisputeView>,
    /// Transfers, calls and events, oldest first.
    pub effects: Seq<Effect>,
}

/// An amount map after setting `k` to `v`; zero removes the entry.
pub open spec fn with_amount(m: Map<u128, i128>, k: u128, v: i128) -> Map<u128, i128> {
    if v == 0 {
        m.remove(k)
    } else {
        m.insert(k, v)
    }
}

/// The amount under `k`: absent entries are zero.
pub open spec fn amount_in(m: Map<u128, i128>, k: u128) -> i128 {
    if m.contains_key(k) {
        m[k]
    } else {
        0
    }
}

/// The contribution keys of an escrow's funders.
pub open spec fn funder_keys(inv_id: InvoiceId, funders: Seq<Address>) -> Set<u128> {
    Set::new(|k: u128| exists|f: Address| #[trigger] funders.contains(f) && k == pair_key(inv_id, f))
}

impl EscrowView {
    pub open spec fn funder_amount(self, inv_id: InvoiceId, funder: Address) -> i128 {
        amount_in(self.funder_amounts, pair_key(inv_id, funder))
    }

    pub open spec fn position(self, invoice_id: FundingInvoiceId, investor: Address) -> i128 {
        amount_in(self.positions, pair_key(invoice_id, investor))
    }

    pub open spec fn nonce(self, buyer: Address) -> u64 {
        if self.nonces.contains_key(buyer) {
            self.nonces[buyer]
        } else {
            0
        }
    }

    pub open spec fn approvals_of(self, inv_id: InvoiceId) -> Seq<Address> {
        if self.approvals.contains_key(inv_id) {
            self.approvals[inv_id]
        } else {
            Seq::empty()
        }
    }
}

/// The internal invariant of an escrow record: positive face value and price,
/// funding within the price, payments within the face value, an escrow awaiting
/// funding is not fully funded and a funded one is.
pub open spec fn escrow_wf(d: EscrowDataView) -> bool {
    &&& d.face_value > 0
    &&& d.purchase_price > 0
    &&& 0 <= d.funded_amt <= d.purchase_price
    &&& 0 <= d.paid_amt <= d.face_value
    &&& d.status is Created ==> d.funded_amt < d.purchase_price
    &&& d.status is Funded ==> d.funded_amt == d.purchase_price
}

impl EscrowView {
    /// The internal invariant: well-formed escrows, a fee within range, and only
    /// positive contributions and positions stored.
    pub open spec fn wf(self) -> bool {
        &&& forall|id: InvoiceId| #[trigger] self.escrows.contains_key(id) ==> escrow_wf(self.escrows[id])
        &&& forall|k: u128| #[trigger] self.funder_amounts.contains_key(k) ==> self.funder_amounts[k] > 0
        &&& forall|k: u128| #[trigger] self.positions.contains_key(k) ==> self.positions[k] > 0
        &&& self.config is Some ==> self.config->0.fee_bps <= 10_000
    }
}

impl View for EscrowStorage {
    type V = EscrowView;

    closed spec fn view(&self) -> EscrowView {
        EscrowView {
            config: self.config,
            escrows: Map::new(|k: u64| self.escrows@.contains_key(k), |k: u64| self.escrows@[k]@),
            funder_amounts: self.funder_amounts@,
            nonces: self.nonces@,
            whitelist: self.whitelist@.dom(),
            invoices: self.invoices@,
            positions: self.positions@,
            emergency_config: match self.emergency_config {
                Some(c) => Some(c@),
                None => None,
            },
            approvals: Map::new(
                |k: u64| self.approvals@.contains_key(k),
                |k: u64| self.approvals@[k]@,
            ),
            escrow_count: self.escrow_count,
            escrow_ids: self.escrow_ids@,
            disputes: Map::new(|k: u64| self.disputes@.contains_key(k), |k: u64| self.disputes@[k]@),
            effects: self.effects@,
        }
    }
}

impl EscrowStorage {
    /// Empty storage: no configuration, no entries, no effects.
    pub fn new() -> (r: EscrowStorage)
        ensures
            r@.config is None,
            r@.escrows.is_empty(),
            r@.funder_amounts.is_empty(),
            r@.nonces.is_empty(),
            r@.whitelist.is_empty(),
            r@.invoices.is_empty(),
            r@.positions.is_empty(),
            r@.emergency_config is None,
            r@.approvals.is_empty(),
            r@.escrow_count == 0,
            r@.escrow_ids.is_empty(),
            r@.disputes.is_empty(),
            r@.effects.len() == 0,
            r@.wf(),
    {
        let r = EscrowStorage {
            config: None,
            escrows: HashMap::new(),
            funder_amounts: HashMap::new(),
            nonces: HashMap::new(),
            whitelist: HashMap::new(),
            invoices: HashMap::new(),
            positions: HashMap::new(),
            emergency_config: None,
            approvals: HashMap::new(),
            escrow_count: 0,
            escrow_ids: HashMap::new(),
            disputes: HashMap::new(),
            effects: Vec::new(),
        };
        assert(r@.disputes =~= Map::<u64, DisputeView>::empty());
        assert(r@.escrows =~= Map::<u64, EscrowDataView>::empty());
        assert(r@.approvals =~= Map::<u64, Seq<Address>>::empty());
        assert(r@.whitelist =~= Set::<u64>::empty());
        r
    }
}

impl Clone for EscrowStorage {
    /// A copy of the whole storage, effect log included.
    fn clone(&self) -> (r: Self)
        ensures
            r@ == self@,
    {
        let emergency_config = match &self.emergency_config {
            Some(c) => {
                let admins = c.admins.clone();
                assert(admins@ =~= c.admins@);
                Some(MultiSigConfig { admins, threshold: c.threshold })
            },
            None => None,
        };
        let effects = self.effects.clone();
        assert(effects@ =~= self.effects@);
        let r = EscrowStorage {
            config: self.config,
            escrows: self.escrows.clone(),
            funder_amounts: self.funder_amounts.clone(),
            nonces: self.nonces.clone(),
            whitelist: self.whitelist.clone(),
            invoices: self.invoices.clone(),
            positions: self.positions.clone(),
            emergency_config,
            approvals: self.approvals.clone(),
            escrow_count: self.escrow_count,
            escrow_ids: self.escrow_ids.clone(),
            disputes: self.disputes.clone(),
            effects,
        };
        assert(r@.escrows =~= self@.escrows);
        assert(r@.disputes =~= self@.disputes);
        assert(r@.approvals =~= self@.approvals);
        r
    }
}

/// Append an effect to the log.
pub fn publish(st: &mut EscrowStorage, effect: Effect)
    ensures
        final(st)@ == (EscrowView { effects: old(st)@.effects.push(effect), ..old(st)@ }),
{
    st.effects.push(effect);
    assert(final(st)@.escrows =~= old(st)@.escrows);
    assert(final(st)@.disputes =~= old(st)@.disputes);
    assert(final(st)@.approvals =~= old(st)@.approvals);
}

/// The effects so far, oldest first.
pub fn effects(st: &EscrowStorage) -> (r: &Vec<Effect>)
    ensures
        r@ == st@.effects,
{
    &st.effects
}

/// Load contract config.
pub fn get_config(st: &EscrowStorage) -> (r: Option<Config>)
    ensures
        r == st@.config,
{
    st.config
}

/// Save contract config.
pub fn set_config(st: &mut EscrowStorage, config: Config)
    ensures
        final(st)@ == (EscrowView { config: Some(config), ..old(st)@ }),
{
    st.config = Some(config);
    assert(final(st)@.escrows =~= old(st)@.escrows);
    assert(final(st)@.approvals =~= old(st)@.approvals);
}

/// Load escrow data for an invoice.
pub fn get_escrow(st: &EscrowStorage, inv_id: InvoiceId) -> (r: Option<EscrowData>)
    ensures
        match r {
            Some(d) => st@.escrows.contains_key(inv_id) && d@ == st@.escrows[inv_id],
            None => !st@.escrows.contains_key(inv_id),
        },
{
    match st.escrows.get(&inv_id) {
        Some(d) => Some(d.clone()),
        None => None,
    }
}

/// Save escrow data for an invoice.
pub fn set_escrow(st: &mut EscrowStorage, inv_id: InvoiceId, data: EscrowData)
    ensures
        final(st)@ == (EscrowView { escrows: old(st)@.escrows.insert(inv_id, data@), ..old(st)@ }),
{
    let ghost dv = data@;
    st.escrows.insert(inv_id, data);
    assert(final(st)@.escrows =~= old(st)@.escrows.insert(inv_id, dv));
    assert(final(st)@.approvals =~= old(st)@.approvals);
}

/// Whether an escrow exists for the given invoice.
pub fn has_escrow(st: &EscrowStorage, inv_id: InvoiceId) -> (r: bool)
    ensures
        r == st@.escrows.contains_key(inv_id),
{
    st.escrows.contains_key(&inv_id)
}

/// Remove escrow data and the contribution records of the given funders.
pub fn remove_escrow_state(st: &mut EscrowStorage, inv_id: InvoiceId, funders: &Vec<Address>)
    ensures
        final(st)@ == (EscrowView {
            escrows: old(st)@.escrows.remove(inv_id),
            funder_amounts: old(st)@.funder_amounts.remove_keys(funder_keys(inv_id, funders@)),
            ..old(st)@
        }),
{
    let ghost s0 = st@;
    let mut i: usize = 0;
    assert(funder_keys(inv_id, funders@.subrange(0, 0)) =~= Set::<u128>::empty());
    assert(s0.funder_amounts.remove_keys(Set::<u128>::empty()) =~= s0.funder_amounts);
    while i < funders.len()
        invariant
            i <= funders@.len(),
            st@ == (EscrowView {
                funder_amounts: s0.funder_amounts.remove_keys(
                    funder_keys(inv_id, funders@.subrange(0, i as int)),
                ),
                ..s0
            }),
        decreases funders@.len() - i,
    {
        let key = make_pair_key(inv_id, funders[i]);
        st.funder_amounts.remove(&key);
        proof {
            let pre = funders@.subrange(0, i as int);
            let post = funders@.subrange(0, i + 1);
            let before = funder_keys(inv_id, pre);
            let after = funder_keys(inv_id, post);
            assert(post =~= pre.push(funders@[i as int]));
            assert forall|k: u128| after.contains(k) <==> before.contains(k) || k == key by {
                if after.contains(k) {
                    let f = choose|f: Address| #[trigger] post.contains(f) && k == pair_key(inv_id, f);
                    let j = choose|j: int| 0 <= j < post.len() && post[j] == f;
                    if j < i {
                        assert(pre[j] == f);
                        assert(pre.contains(f));
                    }
                }
                if before.contains(k) {
                    let f = choose|f: Address| #[trigger] pre.contains(f) && k == pair_key(inv_id, f);
                    let j = choose|j: int| 0 <= j < pre.len() && pre[j] == f;
                    assert(post[j] == f);
                    assert(post.contains(f));
                }
                if k == key {
                    assert(post[i as int] == funders@[i as int]);
                    assert(post.contains(funders@[i as int]));
                }
            }
            assert(st@.funder_amounts =~= s0.funder_amounts.remove_keys(after));
            assert(st@.escrows =~= s0.escrows);
            assert(st@.approvals =~= s0.approvals);
        }
        i = i + 1;
    }
    st.escrows.remove(&inv_id);
    assert(funders@.subrange(0, funders@.len() as int) =~= funders@);
    assert(st@.escrows =~= s0.escrows.remove(inv_id));
    assert(st@.approvals =~= s0.approvals);
}

/// Get the highest nonce consumed so far for a buyer's signed approvals.
pub fn get_nonce(st: &EscrowStorage, buyer: Address) -> (r: u64)
    ensures
        r == st@.nonce(buyer),
{
    match st.nonces.get(&buyer) {
        Some(n) => *n,
        None => 0,
    }
}

/// Record the highest nonce consumed for a buyer's signed approvals.
pub fn set_nonce(st: &mut EscrowStorage, buyer: Address, nonce: u64)
    ensures
        final(st)@ == (EscrowView { nonces: old(st)@.nonces.insert(buyer, nonce), ..old(st)@ }),
{
    st.nonces.insert(buyer, nonce);
    assert(final(st)@.escrows =~= old(st)@.escrows);
    assert(final(st)@.approvals =~= old(st)@.approvals);
}

/// Get the amount funded by a specific funder for an invoice.
pub fn get_funder_amount(st: &EscrowStorage, inv_id: InvoiceId, funder: Address) -> (r: i128)
    ensures
        r == st@.funder_amount(inv_id, funder),
{
    match st.funder_amounts.get(&make_pair_key(inv_id, funder)) {
        Some(a) => *a,
        None => 0,
    }
}

/// Set the amount funded by a specific funder for an invoice; zero removes the record.
pub fn set_funder_amount(st: &mut EscrowStorage, inv_id: InvoiceId, funder: Address, amount: i128)
    ensures
        final(st)@ == (EscrowView {
            funder_amounts: with_amount(old(st)@.funder_amounts, pair_key(inv_id, funder), amount),
            ..old(st)@
        }),
{
    let key = make_pair_key(inv_id, funder);
    if amount == 0 {
        st.funder_amounts.remove(&key);
    } else {
        st.funder_amounts.insert(key, amount);
    }
    assert(final(st)@.escrows =~= old(st)@.escrows);
    assert(final(st)@.approvals =~= old(st)@.approvals);
}

/// Whether `buyer` is whitelisted to fund escrows.
pub fn is_whitelisted(st: &EscrowStorage, buyer: Address) -> (r: bool)
    ensures
        r == st@.whitelist.contains(buyer),
{
    st.whitelist.contains_key(&buyer)
}

/// Set (or clear) a buyer's whitelist status.
pub fn set_whitelisted(st: &mut EscrowStorage, buyer: Address, allowed: bool)
    ensures
        final(st)@ == (EscrowView {
            whitelist: if allowed {
                old(st)@.whitelist.insert(buyer)
            } else {
                old(st)@.whitelist.remove(buyer)
            },
            ..old(st)@
        }),
{
    if allowed {
        st.whitelist.insert(buyer, true);
    } else {
        st.whitelist.remove(&buyer);
    }
    assert(final(st)@.escrows =~= old(st)@.escrows);
    assert(final(st)@.approvals =~= old(st)@.approvals);
}

/// Load a funding invoice.
pub fn get_invoice(st: &EscrowStorage, invoice_id: FundingInvoiceId) -> (r: Option<FundingInvoice>)
    ensures
        r == (if st@.invoices.contains_key(invoice_id) {
            Some(st@.invoices[invoice_id])
        } else {
            None::<FundingInvoice>
        }),
{
    match st.invoices.get(&invoice_id) {
        Some(i) => Some(*i),
        None => None,
    }
}

/// Save a funding invoice.
pub fn set_invoice(st: &mut EscrowStorage, invoice_id: FundingInvoiceId, invoice: FundingInvoice)
    ensures
        final(st)@ == (EscrowView {
            invoices: old(st)@.invoices.insert(invoice_id, invoice),
            ..old(st)@
        }),
{
    st.invoices.insert(invoice_id, invoice);
    assert(final(st)@.escrows =~= old(st)@.escrows);
    assert(final(st)@.approvals =~= old(st)@.approvals);
}

/// Whether a funding invoice exists.
pub fn has_invoice(st: &EscrowStorage, invoice_id: FundingInvoiceId) -> (r: bool)
    ensures
        r == st@.invoices.contains_key(invoice_id),
{
    st.invoices.contains_key(&invoice_id)
}

/// Get an investor's position in a funding invoice; zero when absent.
pub fn get_investor_position(st: &EscrowStorage, invoice_id: FundingInvoiceId, investor: Address) -> (r:
    i128)
    ensures
        r == st@.position(invoice_id, investor),
{
    match st.positions.get(&make_pair_key(invoice_id, investor)) {
        Some(a) => *a,
        None => 0,
    }
}

/// Set an investor's position; zero removes the record.
pub fn set_investor_position(
    st: &mut EscrowStorage,
    invoice_id: FundingInvoiceId,
    investor: Address,
    amount: i128,
)
    ensures
        final(st)@ == (EscrowView {
            positions: with_amount(old(st)@.positions, pair_key(invoice_id, investor), amount),
            ..old(st)@
        }),
{
    let key = make_pair_key(invoice_id, investor);
    if amount == 0 {
        st.positions.remove(&key);
    } else {
        st.positions.insert(key, amount);
    }
    assert(final(st)@.escrows =~= old(st)@.escrows);
    assert(final(st)@.approvals =~= old(st)@.approvals);
}

/// Remove an investor's position record.
pub fn remove_investor_position(st: &mut EscrowStorage, invoice_id: FundingInvoiceId, investor: Address)
    ensures
        final(st)@ == (EscrowView {
            positions: old(st)@.positions.remove(pair_key(invoice_id, investor)),
            ..old(st)@
        }),
{
    st.positions.remove(&make_pair_key(invoice_id, investor));
    assert(final(st)@.escrows =~= old(st)@.escrows);
    assert(final(st)@.approvals =~= old(st)@.approvals);
}

/// Load the emergency multi-sig admin configuration.
pub fn get_emergency_config(st: &EscrowStorage) -> (r: Option<MultiSigConfig>)
    ensures
        match r {
            Some(c) => st@.emergency_config == Some(c@),
            None => st@.emergency_config is None,
        },
{
    match &st.emergency_config {
        Some(c) => {
            let admins = c.admins.clone();
            assert(admins@ =~= c.admins@);
            Some(MultiSigConfig { admins, threshold: c.threshold })
        },
        None => None,
    }
}

/// Save the emergency multi-sig admin configuration.
pub fn set_emergency_config(st: &mut EscrowStorage, config: MultiSigConfig)
    ensures
        final(st)@ == (EscrowView { emergency_config: Some(config@), ..old(st)@ }),
{
    st.emergency_config = Some(config);
    assert(final(st)@.escrows =~= old(st)@.escrows);
    assert(final(st)@.approvals =~= old(st)@.approvals);
}

/// Load the emergency approvals collected for an invoice; none when absent.
pub fn get_emergency_approvals(st: &EscrowStorage, inv_id: InvoiceId) -> (r: EmergencyApprovals)
    ensures
        r.approvals@ == st@.approvals_of(inv_id),
{
    match st.approvals.get(&inv_id) {
        Some(a) => {
            let approvals = a.clone();
            assert(approvals@ =~= a@);
            EmergencyApprovals { approvals }
        },
        None => EmergencyApprovals { approvals: Vec::new() },
    }
}

/// Save the emergency approvals for an invoice.
pub fn set_emergency_approvals(st: &mut EscrowStorage, inv_id: InvoiceId, approvals: EmergencyApprovals)
    ensures
        final(st)@ == (EscrowView {
            approvals: old(st)@.approvals.insert(inv_id, approvals.approvals@),
            ..old(st)@
        }),
{
    let ghost av = approvals.approvals@;
    st.approvals.insert(inv_id, approvals.approvals);
    assert(final(st)@.escrows =~= old(st)@.escrows);
    assert(final(st)@.approvals =~= old(st)@.approvals.insert(inv_id, av));
}

/// Get the total count of escrows created.
pub fn get_escrow_count(st: &EscrowStorage) -> (r: u32)
    ensures
        r == st@.escrow_count,
{
    st.escrow_count
}

/// Increment the escrow count and return the new value.
pub fn increment_escrow_count(st: &mut EscrowStorage) -> (r: u32)
    requires
        old(st)@.escrow_count < u32::MAX,
    ensures
        r == old(st)@.escrow_count + 1,
        final(st)@ == (EscrowView { escrow_count: r, ..old(st)@ }),
{
    st.escrow_count = st.escrow_count + 1;
    assert(final(st)@.escrows =~= old(st)@.escrows);
    assert(final(st)@.approvals =~= old(st)@.approvals);
    st.escrow_count
}

/// Get the invoice id created at a given index.
pub fn get_escrow_id_by_index(st: &EscrowStorage, index: u32) -> (r: Option<InvoiceId>)
    ensures
        r == (if st@.escrow_ids.contains_key(index) {
            Some(st@.escrow_ids[index])
        } else {
            None::<InvoiceId>
        }),
{
    match st.escrow_ids.get(&index) {
        Some(i) => Some(*i),
        None => None,
    }
}

/// Record the invoice id created at a given index.
pub fn set_escrow_id_by_index(st: &mut EscrowStorage, index: u32, invoice_id: InvoiceId)
    ensures
        final(st)@ == (EscrowView {
            escrow_ids: old(st)@.escrow_ids.insert(index, invoice_id),
            ..old(st)@
        }),
{
    st.escrow_ids.insert(index, invoice_id);
    assert(final(st)@.escrows =~= old(st)@.escrows);
    assert(final(st)@.approvals =~= old(st)@.approvals);
}

/// Load the dispute of an escrow.
pub fn get_dispute(st: &EscrowStorage, inv_id: InvoiceId) -> (r: Option<DisputeData>)
    ensures
        r is Some <==> st@.disputes.contains_key(inv_id),
        r is Some ==> r->0@ == st@.disputes[inv_id],
{
    match st.disputes.get(&inv_id) {
        Some(d) => Some(d.clone()),
        None => None,
    }
}

/// Store the dispute of an escrow.
pub fn set_dispute(st: &mut EscrowStorage, inv_id: InvoiceId, dispute: DisputeData)
    ensures
        final(st)@ == (EscrowView { disputes: old(st)@.disputes.insert(inv_id, dispute@), ..old(st)@ }),
{
    st.disputes.insert(inv_id, dispute);
    assert(final(st)@.disputes =~= old(st)@.disputes.insert(inv_id, dispute@));
    assert(final(st)@.escrows =~= old(st)@.escrows);
    assert(final(st)@.approvals =~= old(st)@.approvals);
}

} // verus!
