use heliobond::fees::{calculate_dynamic_fee_bps, calculate_performance_fee};
use heliobond::multisig::{
    is_multisig_disabled, require_admin_approval, validate_multisig_config, ApprovalError,
    ConfigError,
};
use heliobond::rate::{calculate_interest_rate, compute_rate};
use heliobond::wormhole::chain_id;
use heliobond::wormhole::{parse_bridge_payload, serialize_bridge_payload, BridgeTransferPayload, PAYLOAD_LEN};

#[test]
fn interest_rate_formula_values() {
    assert_eq!(calculate_interest_rate(1_000, 500, 0, 0), 1_000);
    assert_eq!(calculate_interest_rate(1_000, 500, 100, 100), 500);
    assert_eq!(calculate_interest_rate(1_000, 500, 100, 0), 750);
    assert_eq!(calculate_interest_rate(1_000, 500, 85, 40), 690);
    // A discount above the base rate floors the rate at zero.
    assert_eq!(calculate_interest_rate(100, 500, 100, 100), 0);
    assert_eq!(compute_rate(60, 40), 750);
}

#[test]
fn performance_fee_formula_values() {
    assert_eq!(calculate_performance_fee(10_000, 500), 500);
    assert_eq!(calculate_performance_fee(1_000_0000000, 200), 20_0000000);
    assert_eq!(calculate_performance_fee(199, 50), 0);
    // Negative yields round toward zero, as Rust's division does.
    assert_eq!(calculate_performance_fee(-10_001, 500), -500);
}

#[test]
fn dynamic_fee_tiers() {
    assert_eq!(calculate_dynamic_fee_bps(1_000, 300, Some(1_000), Some(100)), 100);
    assert_eq!(calculate_dynamic_fee_bps(999, 300, Some(1_000), Some(100)), 300);
    assert_eq!(calculate_dynamic_fee_bps(5_000, 300, None, Some(100)), 300);
    assert_eq!(calculate_dynamic_fee_bps(5_000, 300, Some(1_000), None), 300);
}

#[test]
fn multisig_config_errors() {
    let eleven: Vec<u64> = (1..=11).collect();
    assert_eq!(validate_multisig_config(&eleven, 2, 10), Err(ConfigError::TooManySigners));
    assert_eq!(validate_multisig_config(&vec![1, 2], 0, 10), Err(ConfigError::InvalidThreshold));
    assert_eq!(validate_multisig_config(&vec![1, 2], 3, 10), Err(ConfigError::InvalidThreshold));
    assert_eq!(validate_multisig_config(&vec![1, 1], 2, 10), Err(ConfigError::DuplicateSigner));
    assert_eq!(validate_multisig_config(&vec![1, 2], 2, 10), Ok(()));
    assert!(is_multisig_disabled(0));
    assert!(!is_multisig_disabled(1));
}

#[test]
fn multisig_approval_checks_each_approval_in_order() {
    let owner = 99;
    let signers = vec![1, 2, 3];
    assert_eq!(require_admin_approval(&owner, 0, &signers, vec![7]), Ok(vec![owner]));
    assert_eq!(require_admin_approval(&owner, 4, &signers, vec![1]), Err(ApprovalError::InvalidThreshold));
    // The repeat is met before the stranger.
    assert_eq!(
        require_admin_approval(&owner, 2, &signers, vec![1, 1, 8]),
        Err(ApprovalError::DuplicateApproval)
    );
    assert_eq!(
        require_admin_approval(&owner, 2, &signers, vec![1, 8, 1]),
        Err(ApprovalError::NotSigner)
    );
    assert_eq!(
        require_admin_approval(&owner, 2, &signers, vec![2]),
        Err(ApprovalError::InsufficientApprovals)
    );
    assert_eq!(require_admin_approval(&owner, 2, &signers, vec![3, 1]), Ok(vec![3, 1]));
}

fn sample_payload(amount: i128) -> BridgeTransferPayload {
    BridgeTransferPayload {
        token_address: [0x11u8; 32],
        recipient: [0x22u8; 32],
        amount,
        source_chain: chain_id::ETHEREUM,
        target_chain: chain_id::STELLAR,
        nonce: 0x0102_0304_0506_0708,
    }
}

#[test]
fn payload_encoding_layout() {
    let bytes = serialize_bridge_payload(&sample_payload(0x0A0B));
    assert_eq!(bytes.len(), PAYLOAD_LEN);
    assert_eq!(&bytes[0..4], b"HBS\0");
    assert_eq!(&bytes[4..36], &[0x11u8; 32]);
    assert_eq!(&bytes[36..68], &[0x22u8; 32]);
    let mut amount = [0u8; 16];
    amount[14] = 0x0A;
    amount[15] = 0x0B;
    assert_eq!(&bytes[68..84], &amount);
    assert_eq!(&bytes[84..88], &chain_id::ETHEREUM.to_be_bytes());
    assert_eq!(&bytes[88..92], &chain_id::STELLAR.to_be_bytes());
    assert_eq!(&bytes[92..100], &[1, 2, 3, 4, 5, 6, 7, 8]);
}

#[test]
fn payload_roundtrip_law_on_values() {
    for amount in [0i128, 1, 200_0000000, i128::MAX, -1, i128::MIN] {
        let p = sample_payload(amount);
        let bytes = serialize_bridge_payload(&p);
        assert_eq!(parse_bridge_payload(&bytes), Some(p));
    }
    let bytes = serialize_bridge_payload(&sample_payload(-5));
    assert_eq!(&bytes[68..84], &(-5i128).to_be_bytes());
}

#[test]
fn malformed_payloads_are_rejected() {
    let bytes = serialize_bridge_payload(&sample_payload(7));
    assert_eq!(parse_bridge_payload(&bytes[..99]), None);
    let mut longer = bytes.clone();
    longer.push(0);
    assert_eq!(parse_bridge_payload(&longer), None);
    let mut wrong_prefix = bytes.clone();
    wrong_prefix[3] = b'X';
    assert_eq!(parse_bridge_payload(&wrong_prefix), None);
    assert_eq!(parse_bridge_payload(&[]), None);
}
