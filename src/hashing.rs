use vstd::prelude::*;

use crate::codec::{append_bytes, be_fixed, u64_be_bytes};
use crate::rlp::{rlp_encode, rlp_uint};
use crate::types::{Address, UserOperation};
use crate::word::Uint256;

verus! {

/// The Keccak-256 digest of a byte string.
pub uninterp spec fn keccak_of(data: Seq<u8>) -> Seq<u8>;

/// Relies on `ethers::utils::keccak256`: the 32-byte Keccak-256 digest of the
/// input.
#[verifier::external_body]
pub(crate) fn keccak(data: &[u8]) -> (r: Vec<u8>)
    ensures
        r@ == keccak_of(data@),
        r@.len() == 32,
{
    ethers::utils::keccak256(data).to_vec()
}

/// The fields of an operation in their canonical order: sender, nonce, the
/// digests of init code and call data, then the gas and fee fields, each
/// integer RLP-encoded.
pub open spec fn packed_operation(op: UserOperation) -> Seq<u8> {
    op.sender@ + rlp_uint(op.nonce.value()) + keccak_of(op.init_code@) + keccak_of(op.call_data@)
        + rlp_uint(op.call_gas_limit.value()) + rlp_uint(op.verification_gas_limit.value())
        + rlp_uint(op.pre_verification_gas.value()) + rlp_uint(op.max_fee_per_gas.value())
        + rlp_uint(op.max_priority_fee_per_gas.value())
}

/// The digest of an operation bound to one chain and one sponsor.
pub open spec fn operation_hash(op: UserOperation, chain_id: u64, sponsor: Seq<u8>) -> Seq<u8> {
    keccak_of(keccak_of(packed_operation(op)) + rlp_uint(chain_id as nat) + sponsor)
}

/// The digest that the sponsor signs: sponsor address, `valid_until` and
/// `valid_after` as 8 big-endian bytes each, then the operation's digest.
pub open spec fn message_hash(
    sponsor: Seq<u8>,
    valid_until: u64,
    valid_after: u64,
    op_hash: Seq<u8>,
) -> Seq<u8> {
    keccak_of(sponsor + be_fixed(valid_until as nat, 8) + be_fixed(valid_after as nat, 8) + op_hash)
}

/// Computes `operation_hash`.
pub fn hash_operation(op: &UserOperation, chain_id: u64, sponsor: &Address) -> (r: Vec<u8>)
    ensures
        r@ == operation_hash(*op, chain_id, sponsor@),
        r@.len() == 32,
{
    let mut data: Vec<u8> = Vec::new();
    append_bytes(&mut data, op.sender.bytes.as_slice());
    append_bytes(&mut data, rlp_encode(op.nonce).as_slice());
    append_bytes(&mut data, keccak(op.init_code.as_slice()).as_slice());
    append_bytes(&mut data, keccak(op.call_data.as_slice()).as_slice());
    append_bytes(&mut data, rlp_encode(op.call_gas_limit).as_slice());
    append_bytes(&mut data, rlp_encode(op.verification_gas_limit).as_slice());
    append_bytes(&mut data, rlp_encode(op.pre_verification_gas).as_slice());
    append_bytes(&mut data, rlp_encode(op.max_fee_per_gas).as_slice());
    append_bytes(&mut data, rlp_encode(op.max_priority_fee_per_gas).as_slice());
    assert(data@ == packed_operation(*op));
    let first = keccak(data.as_slice());
    let mut bound: Vec<u8> = Vec::new();
    append_bytes(&mut bound, first.as_slice());
    append_bytes(&mut bound, rlp_encode(Uint256::from_u64(chain_id)).as_slice());
    append_bytes(&mut bound, sponsor.bytes.as_slice());
    keccak(bound.as_slice())
}

/// Computes `message_hash`.
pub fn hash_message(sponsor: &Address, valid_until: u64, valid_after: u64, op_hash: &Vec<u8>) -> (r: Vec<u8>)
    ensures
        r@ == message_hash(sponsor@, valid_until, valid_after, op_hash@),
        r@.len() == 32,
{
    let mut data: Vec<u8> = Vec::new();
    append_bytes(&mut data, sponsor.bytes.as_slice());
    append_bytes(&mut data, u64_be_bytes(valid_until, 8).as_slice());
    append_bytes(&mut data, u64_be_bytes(valid_after, 8).as_slice());
    append_bytes(&mut data, op_hash.as_slice());
    keccak(data.as_slice())
}

/// Equal operations give equal digests, on the same chain and sponsor.
pub proof fn lemma_operation_hash_deterministic(
    a: UserOperation,
    b: UserOperation,
    chain_id: u64,
    sponsor: Seq<u8>,
)
    requires
        a.sender@ == b.sender@,
        a.nonce.value() == b.nonce.value(),
        a.init_code@ == b.init_code@,
        a.call_data@ == b.call_data@,
        a.call_gas_limit.value() == b.call_gas_limit.value(),
        a.verification_gas_limit.value() == b.verification_gas_limit.value(),
        a.pre_verification_gas.value() == b.pre_verification_gas.value(),
        a.max_fee_per_gas.value() == b.max_fee_per_gas.value(),
        a.max_priority_fee_per_gas.value() == b.max_priority_fee_per_gas.value(),
    ensures
        operation_hash(a, chain_id, sponsor) == operation_hash(b, chain_id, sponsor),
{
    assert(packed_operation(a) == packed_operation(b));
}

} // verus!
