use vstd::prelude::*;

use crate::word::Uint256;

verus! {

/// A 20-byte account address.
#[derive(Clone, Copy, Debug, PartialEq, Eq)]
pub struct Address {
    pub bytes: [u8; 20],
}

impl Address {
    pub open spec fn view(self) -> Seq<u8> {
        self.bytes@
    }
}

/// An account-abstraction user operation as it arrives for sponsorship.
#[derive(Clone, Debug)]
pub struct UserOperation {
    pub sender: Address,
    pub nonce: Uint256,
    pub init_code: Vec<u8>,
    pub call_data: Vec<u8>,
    pub call_gas_limit: Uint256,
    pub verification_gas_limit: Uint256,
    pub pre_verification_gas: Uint256,
    pub max_fee_per_gas: Uint256,
    pub max_priority_fee_per_gas: Uint256,
    pub paymaster_and_data: Vec<u8>,
    pub signature: Vec<u8>,
}

/// The parts of a sponsorship authorization.
#[derive(Clone, Debug)]
pub struct PaymasterAndData {
    pub paymaster: Address,
    pub valid_until: u64,
    pub valid_after: u64,
    pub signature: Vec<u8>,
}

/// What a successful sponsorship hands back: the authorization bytes.
#[derive(Clone, Debug)]
pub struct PaymasterResponse {
    pub paymaster_and_data: Vec<u8>,
}

/// The verdict of a validation, with a reason when it failed.
#[derive(Clone, Debug)]
pub struct ValidationResult {
    pub valid: bool,
    pub reason: Option<String>,
}

} // verus!
