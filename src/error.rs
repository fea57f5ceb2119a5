use vstd::prelude::*;

verus! {

/// Why a sponsorship request failed.
#[derive(Clone, Debug, PartialEq, Eq)]
pub enum PaymasterError {
    /// The operation is malformed or its costs overflow.
    InvalidUserOperation(String),
    /// The sponsor's balance does not exceed the worst-case cost.
    InsufficientFunds,
    /// The signing backend failed.
    SignatureVerificationFailed,
    /// Reserved for on-chain simulation.
    TransactionReverted(String),
    /// The ledger node could not be queried.
    EthereumProviderError(String),
    /// An internal computation failed, such as the time source.
    InvalidParameters(String),
    /// Reserved for further kinds of operation.
    UnsupportedOperation,
}

} // verus!
