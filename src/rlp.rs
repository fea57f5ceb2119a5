use vstd::prelude::*;

use ethers::types::U256;

use crate::word::Uint256;

verus! {

/// The big-endian bytes of `n` without leading zeros (empty for zero).
pub open spec fn be_min(n: nat) -> Seq<u8>
    decreases n,
{
    if n == 0 {
        Seq::empty()
    } else {
        be_min(n / 256).push((n % 256) as u8)
    }
}

/// The RLP encoding of an unsigned integer: a single byte below 0x80 stands
/// for itself; otherwise 0x80 plus the length, then the minimal big-endian
/// bytes (zero is the empty string, 0x80).
pub open spec fn rlp_uint(n: nat) -> Seq<u8> {
    if n == 0 {
        seq![0x80u8]
    } else if n < 0x80 {
        seq![n as u8]
    } else {
        seq![(0x80 + be_min(n).len()) as u8] + be_min(n)
    }
}

/// Relies on `rlp::encode` of a `U256` (the `Encodable` impl of the impl-rlp
/// crate): the bytes without leading zeros, encoded as an RLP string.
#[verifier::external_body]
pub(crate) fn rlp_encode(a: Uint256) -> (r: Vec<u8>)
    ensures
        r@ == rlp_uint(a.value()),
{
    ethers::utils::rlp::encode(&U256([a.l0, a.l1, a.l2, a.l3])).to_vec()
}

} // verus!
