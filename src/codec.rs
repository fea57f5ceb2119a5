use vstd::prelude::*;
use vstd::arithmetic::div_mod::lemma_mod_breakdown;
use vstd::arithmetic::power::{lemma_pow_positive, pow};

verus! {

/// The last `w` bytes of `n` in big-endian order.
pub open spec fn be_fixed(n: nat, w: nat) -> Seq<u8>
    decreases w,
{
    if w == 0 {
        Seq::empty()
    } else {
        be_fixed(n / 256, (w - 1) as nat).push((n % 256) as u8)
    }
}

/// The number that a big-endian byte string stands for.
pub open spec fn be_value(s: Seq<u8>) -> nat
    decreases s.len(),
{
    if s.len() == 0 {
        0
    } else {
        (be_value(s.drop_last()) * 256 + s.last()) as nat
    }
}

/// `n` as a 32-byte big-endian field: 24 zero bytes, then its 8 bytes.
pub open spec fn be_word(n: u64) -> Seq<u8> {
    Seq::new(24, |i: int| 0u8) + be_fixed(n as nat, 8)
}

/// The authorization layout: address, `valid_until` and `valid_after` as
/// 32-byte big-endian fields, then the signature.
pub open spec fn authorization_bytes(
    paymaster: Seq<u8>,
    valid_until: u64,
    valid_after: u64,
    signature: Seq<u8>,
) -> Seq<u8> {
    paymaster + be_word(valid_until) + be_word(valid_after) + signature
}

/// Where the parts of an authorization begin.
pub open spec fn until_at() -> int {
    20
}

pub open spec fn after_at() -> int {
    52
}

pub open spec fn signature_at() -> int {
    84
}

/// Whether the 24 padding bytes of the field that begins at `at` are zero.
pub open spec fn padding_is_zero(s: Seq<u8>, at: int) -> bool {
    forall|i: int| at <= i < at + 24 ==> s[i] == 0
}

/// The parts read back from authorization bytes: `None` when they are too
/// short to hold the fixed fields, or a time field does not fit in 64 bits.
pub open spec fn decode_authorization(s: Seq<u8>) -> Option<(Seq<u8>, u64, u64, Seq<u8>)> {
    if s.len() < signature_at() || !padding_is_zero(s, until_at()) || !padding_is_zero(s, after_at()) {
        None
    } else {
        Some((
            s.subrange(0, until_at()),
            be_value(s.subrange(until_at() + 24, after_at())) as u64,
            be_value(s.subrange(after_at() + 24, signature_at())) as u64,
            s.subrange(signature_at(), s.len() as int),
        ))
    }
}

/// Appends `src` to `dst`.
pub fn append_bytes(dst: &mut Vec<u8>, src: &[u8])
    ensures
        final(dst)@ == old(dst)@ + src@,
{
    let ghost start = dst@;
    let mut i: usize = 0;
    while i < src.len()
        invariant
            i <= src@.len(),
            dst@ == start + src@.subrange(0, i as int),
        decreases src@.len() - i,
    {
        dst.push(src[i]);
        i = i + 1;
        assert(dst@ == start + src@.subrange(0, i as int));
    }
    assert(src@.subrange(0, src@.len() as int) == src@);
}

/// The last `w` bytes of `n`, big-endian.
pub fn u64_be_bytes(n: u64, w: usize) -> (r: Vec<u8>)
    ensures
        r@ == be_fixed(n as nat, w as nat),
    decreases w,
{
    if w == 0 {
        Vec::new()
    } else {
        let mut v = u64_be_bytes(n / 256, w - 1);
        v.push((n % 256) as u8);
        v
    }
}

/// `n` as a 32-byte big-endian field.
pub fn u64_be_word(n: u64) -> (r: Vec<u8>)
    ensures
        r@ == be_word(n),
{
    let mut v: Vec<u8> = Vec::new();
    let mut i: usize = 0;
    while i < 24
        invariant
            i <= 24,
            v@ == Seq::new(i as nat, |j: int| 0u8),
        decreases 24 - i,
    {
        v.push(0u8);
        i = i + 1;
        assert(v@ =~= Seq::new(i as nat, |j: int| 0u8));
    }
    let tail = u64_be_bytes(n, 8);
    append_bytes(&mut v, tail.as_slice());
    v
}

/// `be_value` is below 256 to the power of the length.
pub proof fn lemma_be_value_bound(s: Seq<u8>)
    ensures
        be_value(s) < pow(256, s.len()),
    decreases s.len(),
{
    reveal(pow);
    if s.len() > 0 {
        lemma_be_value_bound(s.drop_last());
        let p = pow(256, (s.len() - 1) as nat);
        assert(be_value(s.drop_last()) * 256 + s.last() < p * 256) by (nonlinear_arith)
            requires
                be_value(s.drop_last()) < p,
                s.last() < 256,
        ;
    }
}

/// Reading back `w` big-endian bytes of `n` gives `n` modulo 256^w.
pub proof fn lemma_be_fixed_value(n: nat, w: nat)
    ensures
        be_fixed(n, w).len() == w,
        be_value(be_fixed(n, w)) == (n as int) % pow(256, w),
    decreases w,
{
    reveal(pow);
    if w == 0 {
    } else {
        lemma_be_fixed_value(n / 256, (w - 1) as nat);
        let p = pow(256, (w - 1) as nat);
        lemma_pow_positive(256, (w - 1) as nat);
        assert(be_fixed(n, w).drop_last() == be_fixed(n / 256, (w - 1) as nat));
        lemma_mod_breakdown(n as int, 256, p);
        assert(256 * p == p * 256) by (nonlinear_arith);
    }
}

} // verus!
