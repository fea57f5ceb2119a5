use vstd::prelude::*;
use vstd::arithmetic::power::{lemma_pow_increases, pow};

use crate::codec::{
    after_at, append_bytes, authorization_bytes, be_fixed, be_value, decode_authorization,
    lemma_be_fixed_value, lemma_be_value_bound, padding_is_zero, signature_at, u64_be_word, until_at,
};
use crate::error::PaymasterError;
use crate::hashing::{hash_message, hash_operation, message_hash, operation_hash};
use crate::types::{Address, PaymasterAndData, PaymasterResponse, UserOperation};
use crate::word::{checked_add, checked_div, checked_mul, is_zero, le, word_modulus, Uint256};

verus! {

/// Default validity of an authorization, in seconds.
pub const DEFAULT_VALID_DURATION: u64 = 3600;

/// Default margin added to the fee per gas, in percent.
pub const DEFAULT_GAS_PRICE_BUFFER: u64 = 10;

/// The sponsor's identity and settings, fixed for the life of the process.
#[derive(Clone, Copy, Debug)]
pub struct Paymaster {
    pub paymaster_address: Address,
    pub chain_id: u64,
    /// How long an authorization stays valid, in seconds.
    pub valid_duration: u64,
    /// Margin added to the fee per gas, in percent.
    pub gas_price_buffer: u64,
}

/// Both fee fields are positive.
pub open spec fn fees_nonzero(op: UserOperation) -> bool {
    op.max_fee_per_gas.value() != 0 && op.max_priority_fee_per_gas.value() != 0
}

/// The sum of the three gas limits.
pub open spec fn total_gas(op: UserOperation) -> nat {
    op.call_gas_limit.value() + op.verification_gas_limit.value() + op.pre_verification_gas.value()
}

/// The fee per gas raised by `buffer` percent, before truncation.
pub open spec fn raised_fee(op: UserOperation, buffer: u64) -> nat {
    op.max_fee_per_gas.value() * (100 + buffer as nat)
}

/// The fee per gas raised by `buffer` percent, truncated.
pub open spec fn buffered_price(op: UserOperation, buffer: u64) -> nat {
    raised_fee(op, buffer) / 100
}

/// The worst-case cost of an operation.
pub open spec fn max_cost(op: UserOperation, buffer: u64) -> nat {
    total_gas(op) * buffered_price(op, buffer)
}

/// Every step of the cost computation stays below 2^256.
pub open spec fn cost_fits(op: UserOperation, buffer: u64) -> bool {
    total_gas(op) < word_modulus() && raised_fee(op, buffer) < word_modulus() && max_cost(op, buffer)
        < word_modulus()
}

/// The window `(valid_until, valid_after)` opened at `now`, when its end fits
/// in 64 bits.
pub open spec fn validity_window(now: u64, duration: u64) -> Option<(u64, u64)> {
    if now + duration <= u64::MAX {
        Some(((now + duration) as u64, now))
    } else {
        None
    }
}

/// Where a sponsorship request stands.
#[derive(Clone, Debug)]
pub enum SponsorState {
    Received,
    /// The operation is valid and its worst-case cost is known.
    CostEstimated { max_cost: Uint256 },
    /// The sponsor's balance covers the cost.
    FundsChecked,
    /// The window is chosen and the digest handed out for signing.
    Hashed { valid_until: u64, valid_after: u64 },
    Done { response: PaymasterResponse },
    Failed { error: PaymasterError },
}

/// What the outside world reports back to a request.
#[derive(Clone, Debug)]
pub enum SponsorEvent {
    Start,
    BalanceRead { balance: Uint256 },
    BalanceUnavailable { reason: String },
    ClockRead { now: u64 },
    ClockUnavailable { reason: String },
    Signed { signature: Vec<u8> },
    SigningFailed,
}

/// What a request asks of the outside world next.
#[derive(Clone, Debug)]
pub enum SponsorAction {
    QueryBalance { address: Address },
    ReadClock,
    /// Sign the digest with the sponsor's key as a personal message (with
    /// the "\x19Ethereum Signed Message:\n32" prefix), as the on-chain
    /// verifier expects.
    SignHash { hash: Vec<u8> },
    Finish,
}

impl Paymaster {
    /// The settings are usable: the raised percentage and the window fit.
    pub open spec fn wf(self) -> bool {
        self.gas_price_buffer <= u64::MAX - 100 && self.valid_duration > 0
    }

    /// A sponsor with the default window and margin.
    pub fn new(paymaster_address: Address, chain_id: u64) -> (r: Paymaster)
        ensures
            r.wf(),
            r.paymaster_address == paymaster_address,
            r.chain_id == chain_id,
            r.valid_duration == DEFAULT_VALID_DURATION,
            r.gas_price_buffer == DEFAULT_GAS_PRICE_BUFFER,
    {
        Paymaster {
            paymaster_address,
            chain_id,
            valid_duration: DEFAULT_VALID_DURATION,
            gas_price_buffer: DEFAULT_GAS_PRICE_BUFFER,
        }
    }

    /// Rejects an operation with a zero fee field.
    pub fn validate_user_operation(&self, user_op: &UserOperation) -> (r: Result<(), PaymasterError>)
        ensures
            r.is_ok() <==> fees_nonzero(*user_op),
            r.is_err() ==> r matches Err(PaymasterError::InvalidUserOperation(_)),
    {
        if is_zero(user_op.max_fee_per_gas) || is_zero(user_op.max_priority_fee_per_gas) {
            return Err(PaymasterError::InvalidUserOperation("Gas price cannot be zero".to_owned()));
        }
        Ok(())
    }

    /// The worst-case cost: total gas times the buffered fee per gas, failing
    /// on any overflow.
    pub fn calculate_max_cost(&self, user_op: &UserOperation) -> (r: Result<Uint256, PaymasterError>)
        requires
            self.wf(),
        ensures
            r.is_ok() <==> cost_fits(*user_op, self.gas_price_buffer),
            r matches Ok(c) ==> c.value() == max_cost(*user_op, self.gas_price_buffer),
            r.is_err() ==> r matches Err(PaymasterError::InvalidUserOperation(_)),
    {
        let ghost buffer = self.gas_price_buffer;
        let partial = match checked_add(user_op.call_gas_limit, user_op.verification_gas_limit) {
            Some(s) => s,
            None => {
                return Err(PaymasterError::InvalidUserOperation("Gas limit overflow".to_owned()));
            },
        };
        let total = match checked_add(partial, user_op.pre_verification_gas) {
            Some(s) => s,
            None => {
                return Err(PaymasterError::InvalidUserOperation("Gas limit overflow".to_owned()));
            },
        };
        let raised = match checked_mul(user_op.max_fee_per_gas, Uint256::from_u64(100 + self.gas_price_buffer)) {
            Some(p) => p,
            None => {
                return Err(
                    PaymasterError::InvalidUserOperation("Gas price calculation error".to_owned()),
                );
            },
        };
        let price = match checked_div(raised, Uint256::from_u64(100)) {
            Some(q) => q,
            None => {
                return Err(
                    PaymasterError::InvalidUserOperation("Gas price calculation error".to_owned()),
                );
            },
        };
        match checked_mul(total, price) {
            Some(c) => Ok(c),
            None => Err(
                PaymasterError::InvalidUserOperation("Max cost calculation overflow".to_owned()),
            ),
        }
    }

    /// The funds guard: the balance must exceed the cost.
    pub fn check_paymaster_balance(&self, balance: Uint256, max_cost: Uint256) -> (r: Result<(), PaymasterError>)
        ensures
            r.is_ok() <==> balance.value() > max_cost.value(),
            r.is_err() ==> r == Err::<(), PaymasterError>(PaymasterError::InsufficientFunds),
    {
        if le(balance, max_cost) {
            return Err(PaymasterError::InsufficientFunds);
        }
        Ok(())
    }

    /// The window `(valid_until, valid_after)` opened at `now`.
    pub fn validity_window(&self, now: u64) -> (r: Result<(u64, u64), PaymasterError>)
        ensures
            validity_window(now, self.valid_duration) matches Some(w) ==> r == Ok::<
                (u64, u64),
                PaymasterError,
            >(w),
            validity_window(now, self.valid_duration) is None ==> r matches Err(
                PaymasterError::InvalidParameters(_),
            ),
    {
        if now > u64::MAX - self.valid_duration {
            return Err(PaymasterError::InvalidParameters("Validity window overflow".to_owned()));
        }
        Ok((now + self.valid_duration, now))
    }

    /// The operation's digest bound to this chain and sponsor.
    pub fn hash_user_operation(&self, user_op: &UserOperation) -> (r: Vec<u8>)
        ensures
            r@ == operation_hash(*user_op, self.chain_id, self.paymaster_address@),
    {
        hash_operation(user_op, self.chain_id, &self.paymaster_address)
    }

    /// The digest that this sponsor signs for an operation and a window.
    pub fn signing_hash(&self, user_op: &UserOperation, valid_until: u64, valid_after: u64) -> (r: Vec<u8>)
        ensures
            r@ == message_hash(
                self.paymaster_address@,
                valid_until,
                valid_after,
                operation_hash(*user_op, self.chain_id, self.paymaster_address@),
            ),
    {
        let op_hash = self.hash_user_operation(user_op);
        hash_message(&self.paymaster_address, valid_until, valid_after, &op_hash)
    }

    /// The authorization bytes: address, the two times as 32-byte fields,
    /// then the signature.
    pub fn encode_paymaster_data(&self, valid_until: u64, valid_after: u64, signature: Vec<u8>) -> (r: Result<Vec<u8>, PaymasterError>)
        ensures
            r matches Ok(b) && b@ == authorization_bytes(
                self.paymaster_address@,
                valid_until,
                valid_after,
                signature@,
            ),
    {
        let mut data: Vec<u8> = Vec::new();
        append_bytes(&mut data, self.paymaster_address.bytes.as_slice());
        append_bytes(&mut data, u64_be_word(valid_until).as_slice());
        append_bytes(&mut data, u64_be_word(valid_after).as_slice());
        append_bytes(&mut data, signature.as_slice());
        Ok(data)
    }

    /// One step of a sponsorship request: from where it stands and what the
    /// outside world reported, where it goes next and what it asks for.
    /// Validation and the cost estimate come before any balance query; the
    /// funds guard comes before the clock is read and anything is signed.
    pub fn sponsor_step(&self, user_op: &UserOperation, state: SponsorState, event: SponsorEvent) -> (r: (SponsorState, SponsorAction))
        requires
            self.wf(),
        ensures
            match (state, event) {
                (SponsorState::Received, SponsorEvent::Start) => if !fees_nonzero(*user_op) || !cost_fits(
                    *user_op,
                    self.gas_price_buffer,
                ) {
                    (r.0 matches SponsorState::Failed {
                        error: PaymasterError::InvalidUserOperation(_),
                    }) && r.1 is Finish
                } else {
                    (r.0 matches SponsorState::CostEstimated { max_cost: c } && c.value() == max_cost(
                        *user_op,
                        self.gas_price_buffer,
                    )) && (r.1 matches SponsorAction::QueryBalance { address: a } && a
                        == self.paymaster_address)
                },
                (
                    SponsorState::CostEstimated { max_cost: c },
                    SponsorEvent::BalanceRead { balance: b },
                ) => if b.value() <= c.value() {
                    (r.0 matches SponsorState::Failed { error: PaymasterError::InsufficientFunds })
                        && r.1 is Finish
                } else {
                    r.0 is FundsChecked && r.1 is ReadClock
                },
                (
                    SponsorState::CostEstimated { .. },
                    SponsorEvent::BalanceUnavailable { reason },
                ) => (r.0 matches SponsorState::Failed {
                    error: PaymasterError::EthereumProviderError(m),
                } && m@ == reason@) && r.1 is Finish,
                (SponsorState::FundsChecked, SponsorEvent::ClockRead { now }) => match validity_window(
                    now,
                    self.valid_duration,
                ) {
                    Some(w) => (r.0 matches SponsorState::Hashed { valid_until: u, valid_after: a }
                        && u == w.0 && a == w.1) && (r.1 matches SponsorAction::SignHash { hash: h }
                        && h@ == message_hash(
                        self.paymaster_address@,
                        w.0,
                        w.1,
                        operation_hash(*user_op, self.chain_id, self.paymaster_address@),
                    )),
                    None => (r.0 matches SponsorState::Failed {
                        error: PaymasterError::InvalidParameters(_),
                    }) && r.1 is Finish,
                },
                (SponsorState::FundsChecked, SponsorEvent::ClockUnavailable { reason }) => (r.0 matches SponsorState::Failed {
                    error: PaymasterError::InvalidParameters(m),
                } && m@ == reason@) && r.1 is Finish,
                (
                    SponsorState::Hashed { valid_until: u, valid_after: a },
                    SponsorEvent::Signed { signature: sig },
                ) => (r.0 matches SponsorState::Done { response: resp }
                    && resp.paymaster_and_data@ == authorization_bytes(
                    self.paymaster_address@,
                    u,
                    a,
                    sig@,
                )) && r.1 is Finish,
                (SponsorState::Hashed { .. }, SponsorEvent::SigningFailed) => (r.0 matches SponsorState::Failed {
                    error: PaymasterError::SignatureVerificationFailed,
                }) && r.1 is Finish,
                (SponsorState::Done { .. }, _) => r.0 == state && r.1 is Finish,
                (SponsorState::Failed { .. }, _) => r.0 == state && r.1 is Finish,
                _ => (r.0 matches SponsorState::Failed {
                    error: PaymasterError::InvalidParameters(_),
                }) && r.1 is Finish,
            },
    {
        match state {
            SponsorState::Received => match event {
                SponsorEvent::Start => {
                    match self.validate_user_operation(user_op) {
                        Ok(()) => {},
                        Err(error) => {
                            return (SponsorState::Failed { error }, SponsorAction::Finish);
                        },
                    }
                    match self.calculate_max_cost(user_op) {
                        Ok(max_cost) => (
                            SponsorState::CostEstimated { max_cost },
                            SponsorAction::QueryBalance { address: self.paymaster_address },
                        ),
                        Err(error) => (SponsorState::Failed { error }, SponsorAction::Finish),
                    }
                },
                _ => unexpected_event(),
            },
            SponsorState::CostEstimated { max_cost } => match event {
                SponsorEvent::BalanceRead { balance } => {
                    match self.check_paymaster_balance(balance, max_cost) {
                        Ok(()) => (SponsorState::FundsChecked, SponsorAction::ReadClock),
                        Err(error) => (SponsorState::Failed { error }, SponsorAction::Finish),
                    }
                },
                SponsorEvent::BalanceUnavailable { reason } => (
                    SponsorState::Failed { error: PaymasterError::EthereumProviderError(reason) },
                    SponsorAction::Finish,
                ),
                _ => unexpected_event(),
            },
            SponsorState::FundsChecked => match event {
                SponsorEvent::ClockRead { now } => {
                    match self.validity_window(now) {
                        Ok((valid_until, valid_after)) => {
                            let hash = self.signing_hash(user_op, valid_until, valid_after);
                            (
                                SponsorState::Hashed { valid_until, valid_after },
                                SponsorAction::SignHash { hash },
                            )
                        },
                        Err(error) => (SponsorState::Failed { error }, SponsorAction::Finish),
                    }
                },
                SponsorEvent::ClockUnavailable { reason } => (
                    SponsorState::Failed { error: PaymasterError::InvalidParameters(reason) },
                    SponsorAction::Finish,
                ),
                _ => unexpected_event(),
            },
            SponsorState::Hashed { valid_until, valid_after } => match event {
                SponsorEvent::Signed { signature } => {
                    match self.encode_paymaster_data(valid_until, valid_after, signature) {
                        Ok(paymaster_and_data) => (
                            SponsorState::Done { response: PaymasterResponse { paymaster_and_data } },
                            SponsorAction::Finish,
                        ),
                        Err(error) => (SponsorState::Failed { error }, SponsorAction::Finish),
                    }
                },
                SponsorEvent::SigningFailed => (
                    SponsorState::Failed { error: PaymasterError::SignatureVerificationFailed },
                    SponsorAction::Finish,
                ),
                _ => unexpected_event(),
            },
            SponsorState::Done { response } => (SponsorState::Done { response }, SponsorAction::Finish),
            SponsorState::Failed { error } => (SponsorState::Failed { error }, SponsorAction::Finish),
        }
    }
}


/// Whether `data[at..at + 24]` is all zero.
fn padding_zero(data: &Vec<u8>, at: usize) -> (r: bool)
    requires
        at + 24 <= data.len(),
    ensures
        r == padding_is_zero(data@, at as int),
{
    let mut i: usize = at;
    while i < at + 24
        invariant
            at <= i <= at + 24,
            at + 24 <= data.len(),
            forall|j: int| at <= j < i ==> data@[j] == 0,
        decreases at + 24 - i,
    {
        if data[i] != 0 {
            return false;
        }
        i = i + 1;
    }
    true
}

/// The number held in `data[at..at + 8]`, big-endian.
fn read_be_u64(data: &Vec<u8>, at: usize) -> (r: u64)
    requires
        at + 8 <= data.len(),
    ensures
        r == be_value(data@.subrange(at as int, at + 8)),
{
    let mut acc: u64 = 0;
    let mut i: usize = 0;
    assert(pow(256, 8) == 0x1_0000_0000_0000_0000) by {
        reveal_with_fuel(pow, 9);
    }
    while i < 8
        invariant
            i <= 8,
            at + 8 <= data.len(),
            pow(256, 8) == 0x1_0000_0000_0000_0000,
            acc == be_value(data@.subrange(at as int, at + i)),
        decreases 8 - i,
    {
        let ghost prefix = data@.subrange(at as int, at + i);
        let ghost next = data@.subrange(at as int, at + i + 1);
        proof {
            assert(next.drop_last() =~= prefix);
            lemma_be_value_bound(next);
            lemma_pow_increases(256, (i + 1) as nat, 8);
        }
        assert(be_value(next) == acc * 256 + data@[at + i as int]);
        acc = acc * 256 + data[at + i] as u64;
        i = i + 1;
    }
    acc
}

/// Reads authorization bytes back into their parts.
pub fn decode_paymaster_data(data: &Vec<u8>) -> (r: Option<PaymasterAndData>)
    ensures
        match decode_authorization(data@) {
            None => r is None,
            Some(parts) => r matches Some(d) && d.paymaster@ == parts.0 && d.valid_until == parts.1
                && d.valid_after == parts.2 && d.signature@ == parts.3,
        },
{
    if data.len() < 84 {
        return None;
    }
    if !padding_zero(data, 20) || !padding_zero(data, 52) {
        return None;
    }
    let valid_until = read_be_u64(data, 44);
    let valid_after = read_be_u64(data, 76);
    let bytes: [u8; 20] = [
        data[0], data[1], data[2], data[3], data[4], data[5], data[6], data[7], data[8], data[9],
        data[10], data[11], data[12], data[13], data[14], data[15], data[16], data[17], data[18],
        data[19],
    ];
    let mut signature: Vec<u8> = Vec::new();
    let mut i: usize = 84;
    while i < data.len()
        invariant
            84 <= i <= data@.len(),
            signature@ == data@.subrange(84, i as int),
        decreases data@.len() - i,
    {
        signature.push(data[i]);
        i = i + 1;
        assert(signature@ =~= data@.subrange(84, i as int));
    }
    let paymaster = Address { bytes };
    assert(paymaster@ =~= data@.subrange(0, 20));
    Some(PaymasterAndData { paymaster, valid_until, valid_after, signature })
}

/// Decoding the bytes of an authorization gives back the address, the two
/// times and the signature that were encoded.
pub proof fn lemma_authorization_round_trip(
    paymaster: Seq<u8>,
    valid_until: u64,
    valid_after: u64,
    signature: Seq<u8>,
)
    requires
        paymaster.len() == 20,
    ensures
        decode_authorization(authorization_bytes(paymaster, valid_until, valid_after, signature))
            == Some((paymaster, valid_until, valid_after, signature)),
{
    let s = authorization_bytes(paymaster, valid_until, valid_after, signature);
    lemma_be_fixed_value(valid_until as nat, 8);
    lemma_be_fixed_value(valid_after as nat, 8);
    assert(pow(256, 8) == 0x1_0000_0000_0000_0000) by {
        reveal_with_fuel(pow, 9);
    }
    assert(s.subrange(0, until_at()) =~= paymaster);
    assert(s.subrange(until_at() + 24, after_at()) =~= be_fixed(valid_until as nat, 8));
    assert(s.subrange(after_at() + 24, signature_at()) =~= be_fixed(valid_after as nat, 8));
    assert(s.subrange(signature_at(), s.len() as int) =~= signature);
    assert(padding_is_zero(s, until_at()));
    assert(padding_is_zero(s, after_at()));
}

/// Each window lasts the configured duration, and a later request never
/// opens an earlier one.
pub proof fn lemma_validity_window(now: u64, later: u64, duration: u64)
    requires
        now <= later,
    ensures
        validity_window(now, duration) matches Some(w) ==> w.0 - w.1 == duration,
        validity_window(now, duration) matches Some(w1) ==> (validity_window(later, duration) matches Some(w2)
            ==> w1.1 <= w2.1),
{
}

/// The outcome of an event that does not belong to the request's state.
fn unexpected_event() -> (r: (SponsorState, SponsorAction))
    ensures
        (r.0 matches SponsorState::Failed { error: PaymasterError::InvalidParameters(_) }),
        r.1 is Finish,
{
    (
        SponsorState::Failed {
            error: PaymasterError::InvalidParameters("Unexpected event for this step".to_owned()),
        },
        SponsorAction::Finish,
    )
}

} // verus!
