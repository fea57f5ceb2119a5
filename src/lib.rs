//! Sponsorship of account-abstraction user operations: cost estimation,
//! funds guard, canonical hashing and the byte layout of the sponsorship
//! authorization, each stated and proved.

mod codec;
mod error;
mod hashing;
mod paymaster;
mod rlp;
mod types;
mod word;

pub use codec::{authorization_bytes, be_fixed, be_value, be_word, decode_authorization};
pub use error::PaymasterError;
pub use hashing::{
    hash_message, hash_operation, keccak_of, lemma_operation_hash_deterministic, message_hash,
    operation_hash, packed_operation,
};
pub use paymaster::{
    buffered_price, cost_fits, decode_paymaster_data, fees_nonzero, lemma_authorization_round_trip,
    lemma_validity_window, max_cost, raised_fee, total_gas, validity_window, Paymaster,
    SponsorAction, SponsorEvent, SponsorState, DEFAULT_GAS_PRICE_BUFFER, DEFAULT_VALID_DURATION,
};
pub use rlp::{be_min, rlp_uint};
pub use types::{Address, PaymasterAndData, PaymasterResponse, UserOperation, ValidationResult};
pub use word::Uint256;
