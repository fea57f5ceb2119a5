use vstd::prelude::*;

use ethers::types::U256;

verus! {

/// 2^64, the weight of one limb.
pub open spec fn limb_base() -> int {
    0x1_0000_0000_0000_0000
}

/// 2^256, the first value that does not fit in a word.
pub open spec fn word_modulus() -> int {
    limb_base() * limb_base() * limb_base() * limb_base()
}

/// An unsigned 256-bit integer held as four 64-bit limbs, least significant
/// first.
#[derive(Clone, Copy, Debug, PartialEq, Eq)]
pub struct Uint256 {
    pub l0: u64,
    pub l1: u64,
    pub l2: u64,
    pub l3: u64,
}

impl Uint256 {
    /// The number the limbs stand for.
    pub open spec fn value(self) -> nat {
        (self.l0 + limb_base() * (self.l1 + limb_base() * (self.l2 + limb_base() * self.l3))) as nat
    }

    /// The word holding `x`.
    pub fn from_u64(x: u64) -> (r: Uint256)
        ensures
            r.value() == x,
    {
        Uint256 { l0: x, l1: 0, l2: 0, l3: 0 }
    }
}

/// Relies on `U256::checked_add` of the uint crate: the sum, or `None` when it
/// does not fit in 256 bits.
#[verifier::external_body]
pub(crate) fn checked_add(a: Uint256, b: Uint256) -> (r: Option<Uint256>)
    ensures
        a.value() + b.value() < word_modulus() <==> r.is_some(),
        r matches Some(s) ==> s.value() == a.value() + b.value(),
{
    match U256([a.l0, a.l1, a.l2, a.l3]).checked_add(U256([b.l0, b.l1, b.l2, b.l3])) {
        Some(v) => Some(Uint256 { l0: v.0[0], l1: v.0[1], l2: v.0[2], l3: v.0[3] }),
        None => None,
    }
}

/// Relies on `U256::checked_mul` of the uint crate: the product, or `None`
/// when it does not fit in 256 bits.
#[verifier::external_body]
pub(crate) fn checked_mul(a: Uint256, b: Uint256) -> (r: Option<Uint256>)
    ensures
        a.value() * b.value() < word_modulus() <==> r.is_some(),
        r matches Some(s) ==> s.value() == a.value() * b.value(),
{
    match U256([a.l0, a.l1, a.l2, a.l3]).checked_mul(U256([b.l0, b.l1, b.l2, b.l3])) {
        Some(v) => Some(Uint256 { l0: v.0[0], l1: v.0[1], l2: v.0[2], l3: v.0[3] }),
        None => None,
    }
}

/// Relies on `U256::checked_div` of the uint crate: the truncated quotient, or
/// `None` for a zero divisor.
#[verifier::external_body]
pub(crate) fn checked_div(a: Uint256, b: Uint256) -> (r: Option<Uint256>)
    ensures
        b.value() != 0 <==> r.is_some(),
        r matches Some(q) ==> q.value() == a.value() / b.value(),
{
    match U256([a.l0, a.l1, a.l2, a.l3]).checked_div(U256([b.l0, b.l1, b.l2, b.l3])) {
        Some(v) => Some(Uint256 { l0: v.0[0], l1: v.0[1], l2: v.0[2], l3: v.0[3] }),
        None => None,
    }
}

/// Relies on `U256::is_zero` of the uint crate.
#[verifier::external_body]
pub(crate) fn is_zero(a: Uint256) -> (r: bool)
    ensures
        r == (a.value() == 0),
{
    U256([a.l0, a.l1, a.l2, a.l3]).is_zero()
}

/// Relies on the ordering of `U256` in the uint crate, which compares the
/// numbers.
#[verifier::external_body]
pub(crate) fn le(a: Uint256, b: Uint256) -> (r: bool)
    ensures
        r == (a.value() <= b.value()),
{
    U256([a.l0, a.l1, a.l2, a.l3]) <= U256([b.l0, b.l1, b.l2, b.l3])
}

} // verus!
