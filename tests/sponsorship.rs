use ethers::utils::keccak256;
use paymaster::{
    decode_paymaster_data, hash_message, hash_operation, Address, Paymaster, PaymasterError,
    SponsorAction, SponsorEvent, SponsorState, Uint256, UserOperation,
};

fn word(x: u64) -> Uint256 {
    Uint256::from_u64(x)
}

fn sponsor_address() -> Address {
    let mut bytes = [0u8; 20];
    for (i, b) in bytes.iter_mut().enumerate() {
        *b = 0x10 + i as u8;
    }
    Address { bytes }
}

fn scenario_op() -> UserOperation {
    UserOperation {
        sender: Address { bytes: [0xab; 20] },
        nonce: word(0),
        init_code: vec![],
        call_data: vec![0xde, 0xad, 0xbe, 0xef],
        call_gas_limit: word(100_000),
        verification_gas_limit: word(50_000),
        pre_verification_gas: word(21_000),
        max_fee_per_gas: word(20_000_000_000),
        max_priority_fee_per_gas: word(1_000_000_000),
        paymaster_and_data: vec![],
        signature: vec![],
    }
}

fn paymaster() -> Paymaster {
    Paymaster::new(sponsor_address(), 1)
}

fn ten_ether() -> Uint256 {
    // 10^19 fits in 64 bits.
    word(10_000_000_000_000_000_000)
}

#[test]
fn new_uses_default_settings() {
    let pm = paymaster();
    assert_eq!(pm.valid_duration, 3600);
    assert_eq!(pm.gas_price_buffer, 10);
    assert_eq!(pm.chain_id, 1);
    assert_eq!(pm.paymaster_address, sponsor_address());
}

#[test]
fn zero_max_fee_is_rejected_before_balance_query() {
    let pm = paymaster();
    let mut op = scenario_op();
    op.max_fee_per_gas = word(0);
    let (state, action) = pm.sponsor_step(&op, SponsorState::Received, SponsorEvent::Start);
    assert!(matches!(state, SponsorState::Failed { error: PaymasterError::InvalidUserOperation(_) }));
    assert!(matches!(action, SponsorAction::Finish));
}

#[test]
fn zero_priority_fee_is_rejected_before_balance_query() {
    let pm = paymaster();
    let mut op = scenario_op();
    op.max_priority_fee_per_gas = word(0);
    assert!(matches!(pm.validate_user_operation(&op), Err(PaymasterError::InvalidUserOperation(_))));
    let (state, action) = pm.sponsor_step(&op, SponsorState::Received, SponsorEvent::Start);
    assert!(matches!(state, SponsorState::Failed { error: PaymasterError::InvalidUserOperation(_) }));
    assert!(matches!(action, SponsorAction::Finish));
}

#[test]
fn cost_is_total_gas_times_buffered_fee() {
    let pm = paymaster();
    let cost = pm.calculate_max_cost(&scenario_op()).unwrap();
    assert_eq!(cost, word(171_000 * 22_000_000_000));
    assert_eq!(cost, word(3_762_000_000_000_000));
}

#[test]
fn buffered_fee_is_truncated() {
    let pm = paymaster();
    let mut op = scenario_op();
    op.call_gas_limit = word(1);
    op.verification_gas_limit = word(0);
    op.pre_verification_gas = word(0);
    op.max_fee_per_gas = word(19);
    // 19 * 110 / 100 = 20.9, truncated to 20.
    assert_eq!(pm.calculate_max_cost(&op).unwrap(), word(20));
}

#[test]
fn cost_beyond_64_bits_is_exact() {
    let pm = paymaster();
    let mut op = scenario_op();
    op.call_gas_limit = word(u64::MAX);
    op.verification_gas_limit = word(1);
    op.pre_verification_gas = word(0);
    op.max_fee_per_gas = word(100);
    // (2^64) * 110 = 110 * 2^64.
    assert_eq!(pm.calculate_max_cost(&op).unwrap(), Uint256 { l0: 0, l1: 110, l2: 0, l3: 0 });
}

#[test]
fn gas_limit_overflow_fails_before_balance_query() {
    let pm = paymaster();
    let mut op = scenario_op();
    op.call_gas_limit = Uint256 { l0: u64::MAX, l1: u64::MAX, l2: u64::MAX, l3: u64::MAX };
    assert!(matches!(pm.calculate_max_cost(&op), Err(PaymasterError::InvalidUserOperation(_))));
    let (state, action) = pm.sponsor_step(&op, SponsorState::Received, SponsorEvent::Start);
    assert!(matches!(state, SponsorState::Failed { error: PaymasterError::InvalidUserOperation(_) }));
    assert!(matches!(action, SponsorAction::Finish));
}

#[test]
fn fee_overflow_fails() {
    let pm = paymaster();
    let mut op = scenario_op();
    op.max_fee_per_gas = Uint256 { l0: 0, l1: 0, l2: 0, l3: u64::MAX };
    assert!(matches!(pm.calculate_max_cost(&op), Err(PaymasterError::InvalidUserOperation(_))));
}

#[test]
fn cost_product_overflow_fails() {
    let pm = paymaster();
    let mut op = scenario_op();
    op.call_gas_limit = Uint256 { l0: 0, l1: 0, l2: 1, l3: 0 };
    op.max_fee_per_gas = Uint256 { l0: 0, l1: 0, l2: 1, l3: 0 };
    assert!(matches!(pm.calculate_max_cost(&op), Err(PaymasterError::InvalidUserOperation(_))));
}

#[test]
fn balance_equal_to_cost_is_insufficient() {
    let pm = paymaster();
    let cost = word(5000);
    assert_eq!(pm.check_paymaster_balance(word(5000), cost), Err(PaymasterError::InsufficientFunds));
    assert_eq!(pm.check_paymaster_balance(word(4999), cost), Err(PaymasterError::InsufficientFunds));
    assert_eq!(pm.check_paymaster_balance(word(5001), cost), Ok(()));
}

#[test]
fn balance_compares_high_limbs() {
    let pm = paymaster();
    let big = Uint256 { l0: 0, l1: 1, l2: 0, l3: 0 };
    assert_eq!(pm.check_paymaster_balance(big, word(u64::MAX)), Ok(()));
    assert_eq!(pm.check_paymaster_balance(word(u64::MAX), big), Err(PaymasterError::InsufficientFunds));
}

#[test]
fn provider_failure_is_reported() {
    let pm = paymaster();
    let op = scenario_op();
    let state = SponsorState::CostEstimated { max_cost: word(1) };
    let event = SponsorEvent::BalanceUnavailable { reason: "timeout".to_string() };
    let (state, action) = pm.sponsor_step(&op, state, event);
    match state {
        SponsorState::Failed { error: PaymasterError::EthereumProviderError(m) } => assert_eq!(m, "timeout"),
        other => panic!("unexpected state {:?}", other),
    }
    assert!(matches!(action, SponsorAction::Finish));
}

#[test]
fn validity_window_lasts_the_duration() {
    let pm = paymaster();
    assert_eq!(pm.validity_window(1_700_000_000), Ok((1_700_003_600, 1_700_000_000)));
    let (a_until, a_after) = pm.validity_window(100).unwrap();
    let (b_until, b_after) = pm.validity_window(250).unwrap();
    assert_eq!(a_until - a_after, 3600);
    assert_eq!(b_until - b_after, 3600);
    assert!(a_after <= b_after);
}

#[test]
fn validity_window_overflow_fails() {
    let pm = paymaster();
    assert!(matches!(pm.validity_window(u64::MAX - 10), Err(PaymasterError::InvalidParameters(_))));
}

#[test]
fn encoding_layout_is_exact() {
    let pm = paymaster();
    let data = pm.encode_paymaster_data(0x0102, 0x03, vec![0xaa, 0xbb]).unwrap();
    assert_eq!(data.len(), 20 + 32 + 32 + 2);
    assert_eq!(&data[..20], &sponsor_address().bytes[..]);
    assert!(data[20..50].iter().all(|b| *b == 0));
    assert_eq!(&data[50..52], &[0x01, 0x02]);
    assert!(data[52..83].iter().all(|b| *b == 0));
    assert_eq!(data[83], 0x03);
    assert_eq!(&data[84..], &[0xaa, 0xbb]);
}

#[test]
fn authorization_round_trip() {
    let pm = paymaster();
    let signature: Vec<u8> = (0..65u8).collect();
    let data = pm.encode_paymaster_data(u64::MAX, 1_700_000_000, signature.clone()).unwrap();
    let parts = decode_paymaster_data(&data).unwrap();
    assert_eq!(parts.paymaster, sponsor_address());
    assert_eq!(parts.valid_until, u64::MAX);
    assert_eq!(parts.valid_after, 1_700_000_000);
    assert_eq!(parts.signature, signature);
}

#[test]
fn decode_rejects_short_or_wide_fields() {
    assert!(decode_paymaster_data(&vec![0u8; 83]).is_none());
    let mut data = vec![0u8; 84];
    assert!(decode_paymaster_data(&data).is_some());
    data[43] = 1;
    assert!(decode_paymaster_data(&data).is_none());
}

#[test]
fn operation_hash_matches_manual_packing() {
    let op = scenario_op();
    let sponsor = sponsor_address();
    let mut packed: Vec<u8> = vec![0xab; 20];
    packed.push(0x80); // nonce 0
    packed.extend_from_slice(&keccak256([]));
    packed.extend_from_slice(&keccak256([0xde, 0xad, 0xbe, 0xef]));
    packed.extend_from_slice(&[0x83, 0x01, 0x86, 0xa0]); // 100000
    packed.extend_from_slice(&[0x82, 0xc3, 0x50]); // 50000
    packed.extend_from_slice(&[0x82, 0x52, 0x08]); // 21000
    packed.extend_from_slice(&[0x85, 0x04, 0xa8, 0x17, 0xc8, 0x00]); // 20 gwei
    packed.extend_from_slice(&[0x84, 0x3b, 0x9a, 0xca, 0x00]); // 1 gwei
    let mut bound = keccak256(&packed).to_vec();
    bound.push(0x01); // chain id 1
    bound.extend_from_slice(&sponsor.bytes);
    let expected = keccak256(&bound).to_vec();
    assert_eq!(hash_operation(&op, 1, &sponsor), expected);
    assert_eq!(paymaster().hash_user_operation(&op), expected);
}

#[test]
fn operation_hash_is_deterministic_and_sensitive() {
    let pm = paymaster();
    let op = scenario_op();
    let first = pm.hash_user_operation(&op);
    assert_eq!(first.len(), 32);
    assert_eq!(first, pm.hash_user_operation(&op.clone()));
    let mut changed = scenario_op();
    changed.call_data[0] ^= 1;
    assert_ne!(first, pm.hash_user_operation(&changed));
    let other_chain = Paymaster::new(sponsor_address(), 5);
    assert_ne!(first, other_chain.hash_user_operation(&op));
}

#[test]
fn message_hash_matches_manual_packing() {
    let sponsor = sponsor_address();
    let op_hash = vec![7u8; 32];
    let mut data = sponsor.bytes.to_vec();
    data.extend_from_slice(&1_700_003_600u64.to_be_bytes());
    data.extend_from_slice(&1_700_000_000u64.to_be_bytes());
    data.extend_from_slice(&op_hash);
    assert_eq!(hash_message(&sponsor, 1_700_003_600, 1_700_000_000, &op_hash), keccak256(&data).to_vec());
}

#[test]
fn end_to_end_sponsorship() {
    let pm = paymaster();
    let op = scenario_op();
    let (state, action) = pm.sponsor_step(&op, SponsorState::Received, SponsorEvent::Start);
    match (&state, &action) {
        (SponsorState::CostEstimated { max_cost }, SponsorAction::QueryBalance { address }) => {
            assert_eq!(*max_cost, word(3_762_000_000_000_000));
            assert_eq!(*address, sponsor_address());
        }
        other => panic!("unexpected step {:?}", other),
    }
    let (state, action) = pm.sponsor_step(&op, state, SponsorEvent::BalanceRead { balance: ten_ether() });
    assert!(matches!(state, SponsorState::FundsChecked));
    assert!(matches!(action, SponsorAction::ReadClock));
    let (state, action) = pm.sponsor_step(&op, state, SponsorEvent::ClockRead { now: 1_700_000_000 });
    match &action {
        SponsorAction::SignHash { hash } => {
            assert_eq!(*hash, pm.signing_hash(&op, 1_700_003_600, 1_700_000_000));
            assert_eq!(hash.len(), 32);
        }
        other => panic!("unexpected action {:?}", other),
    }
    let signature = vec![0x5au8; 65];
    let (state, action) = pm.sponsor_step(&op, state, SponsorEvent::Signed { signature: signature.clone() });
    assert!(matches!(action, SponsorAction::Finish));
    match state {
        SponsorState::Done { response } => {
            assert_eq!(response.paymaster_and_data.len(), 149);
            let parts = decode_paymaster_data(&response.paymaster_and_data).unwrap();
            assert_eq!(parts.paymaster, sponsor_address());
            assert_eq!(parts.valid_until, 1_700_003_600);
            assert_eq!(parts.valid_after, 1_700_000_000);
            assert_eq!(parts.signature, signature);
        }
        other => panic!("unexpected state {:?}", other),
    }
}

#[test]
fn low_balance_stops_before_signing() {
    let pm = paymaster();
    let op = scenario_op();
    let (state, _) = pm.sponsor_step(&op, SponsorState::Received, SponsorEvent::Start);
    let (state, action) = pm.sponsor_step(&op, state, SponsorEvent::BalanceRead { balance: word(1000) });
    assert!(matches!(state, SponsorState::Failed { error: PaymasterError::InsufficientFunds }));
    assert!(matches!(action, SponsorAction::Finish));
}

#[test]
fn signing_failure_is_reported() {
    let pm = paymaster();
    let op = scenario_op();
    let state = SponsorState::Hashed { valid_until: 10, valid_after: 5 };
    let (state, action) = pm.sponsor_step(&op, state, SponsorEvent::SigningFailed);
    assert!(matches!(state, SponsorState::Failed { error: PaymasterError::SignatureVerificationFailed }));
    assert!(matches!(action, SponsorAction::Finish));
}

#[test]
fn unexpected_event_fails_and_terminal_states_stay() {
    let pm = paymaster();
    let op = scenario_op();
    let (state, _) = pm.sponsor_step(&op, SponsorState::Received, SponsorEvent::SigningFailed);
    assert!(matches!(state, SponsorState::Failed { error: PaymasterError::InvalidParameters(_) }));
    let (state, action) = pm.sponsor_step(&op, state, SponsorEvent::Start);
    assert!(matches!(state, SponsorState::Failed { error: PaymasterError::InvalidParameters(_) }));
    assert!(matches!(action, SponsorAction::Finish));
}
