//! The authorizations an invocation requires of the host.
//!
//! An entry point that needs an address's consent records an `AuthRequest` at the
//! point where it asks for it. The host (or whoever runs the contract) checks each
//! request recorded by an invocation against the signatures it carries; when one
//! is missing, the invocation fails as a whole and its state is discarded, as with
//! any effect that cannot be carried out.
use vstd::prelude::*;

use crate::address::Address;

verus! {

/// A consent that an invocation requires.
#[derive(Clone, Copy, Debug, PartialEq, Eq)]
pub enum AuthRequest {
    /// `address` must have authorized this invocation.
    Invocation(Address),
    /// `buyer` must have signed an approval of exactly this funding: the invoice, the
    /// amount, the nonce and the expiry.
    FundingApproval { buyer: Address, invoice_id: u64, amount: i128, nonce: u64, expiry: u64 },
}

/// The single request that `a` authorize the invocation.
pub open spec fn consent_of(a: Address) -> Seq<AuthRequest> {
    seq![AuthRequest::Invocation(a)]
}

/// `a`'s consent, unless the invocation stops before asking for it.
pub open spec fn consent_unless(stops_first: bool, a: Address) -> Seq<AuthRequest> {
    if stops_first {
        Seq::empty()
    } else {
        consent_of(a)
    }
}

} // verus!
