//! Addresses of accounts and contracts, and the keys built from them.
use vstd::prelude::*;

verus! {

/// An account or contract address. The host gives every on-chain address a
/// numeric handle. The account whose key is all zero bytes gets the handle
/// `ZERO_ADDRESS`, and the contract whose hash is all zero bytes gets the handle
/// `ZERO_CONTRACT_ADDRESS`; no other address gets either. These are exactly the
/// addresses whose XDR encoding `xdr_payload_is_zero` describes, and that
/// `is_zero_address` recognises from the bytes.
pub type Address = u64;

/// The handle of the all-zero account address.
pub const ZERO_ADDRESS: Address = 0;

/// The handle of the all-zero contract address.
pub const ZERO_CONTRACT_ADDRESS: Address = 0xffff_ffff_ffff_ffff;

/// Whether a handle names an address with an all-zero payload, account or contract.
pub open spec fn zero_payload(a: Address) -> bool {
    a == ZERO_ADDRESS || a == ZERO_CONTRACT_ADDRESS
}

/// Whether any of the addresses has an all-zero payload.
pub open spec fn any_zero_payload(s: Seq<Address>) -> bool {
    exists|i: int| 0 <= i < s.len() && #[trigger] zero_payload(s[i])
}

/// Whether a handle names an address with an all-zero payload, account or contract.
#[verifier::when_used_as_spec(zero_payload)]
pub fn is_zero_handle(a: Address) -> (r: bool)
    ensures
        r == zero_payload(a),
{
    a == ZERO_ADDRESS || a == ZERO_CONTRACT_ADDRESS
}

/// The storage key of an entry indexed by two handles (an owner and a spender, an
/// invoice and a funder, a role and an account).
pub open spec fn pair_key(a: u64, b: u64) -> u128 {
    (a as int * 0x1_0000_0000_0000_0000 + b as int) as u128
}

/// Computes `pair_key(a, b)`.
pub fn make_pair_key(a: u64, b: u64) -> (k: u128)
    ensures
        k == pair_key(a, b),
{
    (a as u128) * 0x1_0000_0000_0000_0000u128 + (b as u128)
}

/// Distinct pairs have distinct keys.
pub proof fn lemma_pair_key_injective(a: u64, b: u64, c: u64, d: u64)
    ensures
        pair_key(a, b) == pair_key(c, d) <==> (a == c && b == d),
{
    assert(0 <= a as int * 0x1_0000_0000_0000_0000 + b as int <= u128::MAX);
    assert(0 <= c as int * 0x1_0000_0000_0000_0000 + d as int <= u128::MAX);
}

/// Whether an XDR-encoded address value carries an all-zero payload: the 32 key
/// bytes that follow the 12-byte header of an account address, or the 32 hash
/// bytes that follow the 8-byte header of a contract address. Encodings of any
/// other length are never zero.
pub open spec fn xdr_payload_is_zero(encoded: Seq<u8>) -> bool {
    ||| (encoded.len() == 44 && forall|i: int| 12 <= i < 44 ==> encoded[i] == 0)
    ||| (encoded.len() == 40 && forall|i: int| 8 <= i < 40 ==> encoded[i] == 0)
}

/// Return whether an XDR-encoded address has an all-zero account or contract payload.
pub fn is_zero_address(encoded: &Vec<u8>) -> (r: bool)
    ensures
        r == xdr_payload_is_zero(encoded@),
{
    let len = encoded.len();
    let start: usize;
    if len == 44 {
        start = 12;
    } else if len == 40 {
        start = 8;
    } else {
        return false;
    }
    let mut i: usize = start;
    while i < len
        invariant
            start <= i <= len,
            len == encoded@.len(),
            len == 44 ==> start == 12,
            len == 40 ==> start == 8,
            len == 44 || len == 40,
            forall|j: int| start <= j < i ==> encoded@[j] == 0,
        decreases len - i,
    {
        if encoded[i] != 0 {
            return false;
        }
        i = i + 1;
    }
    true
}

} // verus!
