//! StellarSettle invoice-financing contracts, modelled as verified state machines.
//!
//! * [`token`] is the SEP-41 invoice token: balances, allowances, minting and
//!   burning, a transfer lock, a transfer fee, account freezing, roles, nonces and
//!   ownership history.
//! * [`escrow`] is the invoice escrow: escrow creation, funding by investors,
//!   settlement, refunds, cancellation, disputes and their resolution, emergency
//!   multi-sig release and the position-management flows of funding invoices.
//!
//! Each contract is a value holding its whole storage. Every entry point either
//! succeeds, changing the state as its contract says, or fails with an error and
//! leaves the state exactly as it was, as a failed contract invocation does. The
//! one exception is an emergency-release approval: it is recorded even when the
//! call reports that the approval threshold has not been met yet.
//! Events, and the calls that the escrow makes to other contracts, are appended to
//! a log kept in the state, in the order in which the contract performs them. The
//! caller carries those effects out; when one of them cannot be carried out (a
//! transfer from an account without the funds), the invocation has failed as a
//! whole, and the caller goes back to a copy of the contract taken before the call.
//! The consents a call needs are recorded the same way ([`auth`]): which address
//! must have authorized it, at the point where the call asks; a missing consent
//! fails the invocation as a whole too.
use vstd::prelude::*;

pub mod address;
pub mod auth;
pub mod env;
pub mod escrow;
pub mod token;

verus! {

} // verus!
