//! The ledger context that the host hands to every contract invocation.
use vstd::prelude::*;

use crate::address::Address;

verus! {

/// What an invocation learns from the ledger: the sequence number, the close
/// timestamp, and the address of the contract being invoked.
#[derive(Clone, Copy, Debug, PartialEq, Eq)]
pub struct Env {
    pub sequence: u32,
    pub timestamp: u64,
    pub contract: Address,
}

impl Env {
    /// A ledger context with the given sequence number and timestamp.
    pub fn new(sequence: u32, timestamp: u64, contract: Address) -> (r: Env)
        ensures
            r.sequence == sequence,
            r.timestamp == timestamp,
            r.contract == contract,
    {
        Env { sequence, timestamp, contract }
    }
}

} // verus!
