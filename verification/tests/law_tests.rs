use heliobond::registry::{ProjectRegistry, MIN_VOTING_PERIOD, MAX_VOTING_PERIOD};
use heliobond::registry_types::{CertificationStatus, ProjectStatus, RegistryError};
use heliobond::vault::InvestmentVault;
use heliobond::vault_types::VaultError;
use heliobond::wormhole::chain_id;
use heliobond::wormhole::{serialize_bridge_payload, BridgeTransferPayload, ParsedVaa};

const ADMIN: u64 = 1;
const WHITELISTER: u64 = 2;

fn registry_with_project(creator: u64, maturity: u64) -> (ProjectRegistry, u32) {
    let mut r = ProjectRegistry::new(WHITELISTER);
    r.set_whitelist(creator, true).unwrap();
    let id = r.create_project(creator, b"ipfs://QmLaw".to_vec(), maturity, [7u8; 32], 0).unwrap();
    (r, id)
}

#[test]
fn created_project_reads_back_as_created() {
    let mut r = ProjectRegistry::new(WHITELISTER);
    r.set_whitelist(10, true).unwrap();
    let id = r.create_project(10, b"https://example.org/p".to_vec(), 500, [3u8; 32], 42).unwrap();
    let p = r.get_project(id).unwrap();
    assert_eq!(p.owner, 10);
    assert_eq!(p.uri, b"https://example.org/p".to_vec());
    assert_eq!(p.maturity_date, 500);
    assert_eq!(p.created_at, 42);
    assert_eq!(p.metadata_hash, [3u8; 32]);
    assert_eq!((p.credit_quality, p.green_impact, p.last_update_timestamp), (0, 0, 0));
    assert_eq!(p.status, ProjectStatus::Pending);
    assert_eq!(p.certification_status, CertificationStatus::Uncertified);
}

#[test]
fn uri_scheme_and_maturity_are_checked() {
    let mut r = ProjectRegistry::new(WHITELISTER);
    r.set_whitelist(10, true).unwrap();
    assert_eq!(
        r.create_project(10, b"ftp://example.org".to_vec(), 0, [0u8; 32], 0),
        Err(RegistryError::InvalidUriScheme)
    );
    assert!(r.create_project(10, b"ar://abcdef".to_vec(), 0, [0u8; 32], 0).is_ok());
    assert_eq!(
        r.create_project(10, b"ipfs://QmPast".to_vec(), 100, [0u8; 32], 100),
        Err(RegistryError::MaturityDateInPast)
    );
}

#[test]
fn pages_concatenate_to_the_full_listing() {
    let mut r = ProjectRegistry::new(WHITELISTER);
    r.set_whitelist(10, true).unwrap();
    for _ in 0..7 {
        r.create_project(10, b"ipfs://QmPage".to_vec(), 0, [0u8; 32], 0).unwrap();
    }
    r.archive_project(3).unwrap();
    let a = r.get_projects_page(0, 3).unwrap();
    let b = r.get_projects_page(3, 4).unwrap();
    let whole = r.get_projects_page(0, 7).unwrap();
    let ids = |v: &Vec<(u32, heliobond::registry_types::ProjectData)>| -> Vec<u32> { v.iter().map(|e| e.0).collect() };
    let mut joined = ids(&a);
    joined.extend(ids(&b));
    assert_eq!(joined, ids(&whole));
    assert_eq!(ids(&whole), vec![1, 2, 4, 5, 6, 7]);
    assert_eq!(ids(&whole), ids(&r.get_all_projects().unwrap()));
}

#[test]
fn archived_project_is_frozen() {
    let (mut r, id) = registry_with_project(10, 0);
    r.archive_project(id).unwrap();
    assert_eq!(r.update_impact_score(id, 10, 10, 0), Err(RegistryError::ProjectArchived));
    assert_eq!(r.update_credit_quality_score(id, 10, 0), Err(RegistryError::ProjectArchived));
    assert_eq!(
        r.certify_project(WHITELISTER, id, CertificationStatus::Certified, ADMIN),
        Err(RegistryError::ProjectArchived)
    );
    assert_eq!(r.set_project_status(id, ProjectStatus::Active), Err(RegistryError::InvalidStatusTransition));
    assert_eq!(r.deposit_collateral(id, 10, 5, 100), Err(RegistryError::ProjectArchived));
    assert_eq!(r.release_collateral(id, 10, 5, 0), Err(RegistryError::ProjectArchived));
    assert_eq!(r.archive_project(id), Err(RegistryError::ProjectArchived));
}

#[test]
fn pause_blocks_every_user_mutation() {
    let (mut r, id) = registry_with_project(10, 0);
    let pid = r.create_proposal(10, b"p".to_vec(), MIN_VOTING_PERIOD, 0).unwrap();
    r.pause();
    assert_eq!(r.set_whitelist(11, true), Err(RegistryError::Paused));
    assert_eq!(r.create_proposal(10, b"p".to_vec(), MIN_VOTING_PERIOD, 0), Err(RegistryError::Paused));
    assert_eq!(r.cast_vote(11, pid, true, 5, 0), Err(RegistryError::Paused));
    assert_eq!(r.deposit_collateral(id, 10, 5, 100), Err(RegistryError::Paused));
    assert_eq!(r.release_collateral(id, 10, 5, 0), Err(RegistryError::Paused));
    assert_eq!(r.liquidate_collateral(id, 5, 12, 0), Err(RegistryError::Paused));
    assert_eq!(r.set_creator_reputation(WHITELISTER, 10, 5, ADMIN), Err(RegistryError::Paused));
    assert_eq!(
        r.certify_project(WHITELISTER, id, CertificationStatus::Certified, ADMIN),
        Err(RegistryError::Paused)
    );
    assert_eq!(r.set_project_status(id, ProjectStatus::Active), Err(RegistryError::Paused));
    assert_eq!(r.update_credit_quality_score(id, 1, 0), Err(RegistryError::Paused));
    assert_eq!(r.update_impact_scores_batch(vec![(id, 1, 1)], 0), Err(RegistryError::Paused));
    // Reads and administration stay available.
    assert!(r.get_project(id).is_ok());
    assert_eq!(r.migrate_state(1), Ok(1));
}

#[test]
fn migration_is_idempotent() {
    let mut r = ProjectRegistry::new(WHITELISTER);
    assert_eq!(r.migrate_state(1), Ok(1));
    assert_eq!(r.migrate_state(1), Ok(1));
    assert_eq!(r.stored_state_version(), 1);
    assert_eq!(r.migrate_state(2), Err(RegistryError::UnsupportedStateVersion));
}

#[test]
fn one_vote_per_voter_and_tally() {
    let mut r = ProjectRegistry::new(WHITELISTER);
    let pid = r.create_proposal(10, b"tally".to_vec(), MIN_VOTING_PERIOD, 1_000).unwrap();
    r.cast_vote(20, pid, true, 30, 1_000).unwrap();
    r.cast_vote(21, pid, false, 50, 1_000).unwrap();
    r.cast_vote(22, pid, true, 25, 1_000).unwrap();
    assert_eq!(r.cast_vote(20, pid, false, 1, 1_000), Err(RegistryError::AlreadyVoted));
    let p = r.get_proposal(pid).unwrap();
    assert_eq!((p.votes_for, p.votes_against), (55, 50));
    let ends = p.voting_ends_at;
    assert_eq!(ends, 1_000 + MIN_VOTING_PERIOD);
    assert_eq!(r.execute_proposal(pid, ends), Err(RegistryError::VotingStillOpen));
    assert_eq!(r.execute_proposal(pid, ends + 1), Ok(true));
    assert_eq!(r.execute_proposal(pid, ends + 2), Err(RegistryError::ProposalAlreadyExecuted));
    assert_eq!(r.cast_vote(23, pid, true, 1, ends), Err(RegistryError::ProposalAlreadyExecuted));
}

#[test]
fn tied_vote_does_not_pass() {
    let mut r = ProjectRegistry::new(WHITELISTER);
    let pid = r.create_proposal(10, b"tie".to_vec(), MAX_VOTING_PERIOD, 0).unwrap();
    r.cast_vote(20, pid, true, 40, 0).unwrap();
    r.cast_vote(21, pid, false, 40, 0).unwrap();
    assert_eq!(r.execute_proposal(pid, MAX_VOTING_PERIOD + 1), Ok(false));
}

#[test]
fn collateral_accounting() {
    let (mut r, id) = registry_with_project(10, 0);
    r.deposit_collateral(id, 10, 5, 300).unwrap();
    r.deposit_collateral(id, 10, 5, 200).unwrap();
    r.deposit_collateral(id, 10, 6, 70).unwrap();
    assert_eq!(r.get_collateral(id, 5), Ok(500));
    assert_eq!(r.release_collateral(id, 10, 5, 0), Ok(500));
    assert_eq!(r.get_collateral(id, 5), Ok(0));
    assert_eq!(r.get_collateral(id, 6), Ok(70));
    assert_eq!(r.release_collateral(id, 10, 5, 0), Err(RegistryError::NoCollateral));
    assert_eq!(r.liquidate_collateral(id, 6, 12, 0), Ok(70));
    assert_eq!(r.liquidate_collateral(id, 6, 12, 0), Err(RegistryError::NoCollateral));
}

#[test]
fn release_without_maturity_needs_pending_or_completed() {
    let (mut r, id) = registry_with_project(10, 0);
    r.deposit_collateral(id, 10, 5, 300).unwrap();
    r.set_project_status(id, ProjectStatus::Active).unwrap();
    assert_eq!(r.release_collateral(id, 10, 5, 0), Err(RegistryError::ProjectNotMature));
    r.set_project_status(id, ProjectStatus::Completed).unwrap();
    assert_eq!(r.release_collateral(id, 10, 5, 0), Ok(300));
}

#[test]
fn score_history_keeps_the_last_fifty_updates_in_order() {
    let (mut r, id) = registry_with_project(10, 0);
    for k in 1..=55u64 {
        let now = k * 3_600;
        r.update_impact_score(id, (k % 100) as u32, 1, now).unwrap();
    }
    let h = r.get_score_history(id).unwrap();
    assert_eq!(h.len(), 50);
    assert_eq!(r.score_update_count(id), 55);
    assert_eq!(r.score_update_count(999), 0);
    assert_eq!(h[0].credit_quality, 6);
    assert_eq!(h[49].credit_quality, 55);
    assert!(h.windows(2).all(|w| w[0].timestamp < w[1].timestamp));
}

#[test]
fn identical_scores_change_nothing() {
    let (mut r, id) = registry_with_project(10, 0);
    r.update_impact_score(id, 10, 20, 5_000).unwrap();
    let before = r.get_project(id).unwrap();
    let events_before = r.events().len();
    assert_eq!(r.update_impact_score(id, 10, 20, 5_001), Ok(()));
    assert_eq!(r.update_credit_quality_score(id, 10, 5_002), Ok(()));
    let after = r.get_project(id).unwrap();
    assert_eq!(
        (after.credit_quality, after.green_impact, after.last_update_timestamp),
        (before.credit_quality, before.green_impact, before.last_update_timestamp)
    );
    assert_eq!(r.get_score_history(id).unwrap().len(), 1);
    assert_eq!(r.events().len(), events_before);
    r.update_impact_score(id, 30, 40, 5_003).unwrap();
    assert_eq!(r.get_project(id).unwrap().last_update_timestamp, 5_003);
}

#[test]
fn failing_batch_changes_nothing() {
    let (mut r, id) = registry_with_project(10, 0);
    let events_before = r.events().len();
    let res = r.update_impact_scores_batch(vec![(id, 50, 50), (999, 1, 1)], 0);
    assert_eq!(res, Err(RegistryError::ProjectNotFound));
    assert_eq!(r.get_project(id).unwrap().credit_quality, 0);
    assert_eq!(r.get_score_history(id).unwrap().len(), 0);
    assert_eq!(r.events().len(), events_before);
    assert_eq!(r.update_impact_scores_batch(vec![], 0), Err(RegistryError::EmptyBatchUpdate));
    let big: Vec<(u32, u32, u32)> = (0..21).map(|_| (id, 1, 1)).collect();
    assert_eq!(r.update_impact_scores_batch(big, 0), Err(RegistryError::BatchTooLarge));
    r.update_impact_scores_batch(vec![(id, 50, 50)], 0).unwrap();
    assert_eq!(r.get_project(id).unwrap().credit_quality, 50);
}

#[test]
fn funding_limit_and_rate_bounds() {
    let mut r = ProjectRegistry::new(WHITELISTER);
    r.set_creator_reputation(ADMIN, 10, 100, ADMIN).unwrap();
    assert_eq!(r.get_creator_funding_limit_bps(10), Ok(5_000));
    for (cq, gi) in [(0u32, 0u32), (100, 100), (37, 91)] {
        let rate = heliobond::rate::compute_rate(cq, gi);
        assert!((500..=1_000).contains(&rate));
    }
}

#[test]
fn deposit_then_withdraw_never_profits() {
    let registry = ProjectRegistry::new(WHITELISTER);
    let mut v = InvestmentVault::new(3, 4);
    // An existing investor: 10 000 USDC in, shares at 1:1 after premium.
    let (mut liquid, mut supply) = (0i128, 0i128);
    let s0 = v.deposit(10, 10_000_0000000, &registry, liquid, supply, 1, 1).unwrap();
    liquid += 10_000_0000000;
    supply += s0;
    let mut ledger = 1u32;
    for amount in [102_0000000i128, 150_0000003, 199_0000199, 777_7777777, 1_000_0000000] {
        let shares = v.deposit(11, amount, &registry, liquid, supply, ledger, 1).unwrap();
        ledger += 1;
        let back = v
            .withdraw(11, shares, 0, &registry, liquid + amount, supply + shares, ledger, 1)
            .unwrap();
        assert!(back <= amount, "amount={} back={}", amount, back);
    }
}

#[test]
fn self_transfer_of_carbon_credits_changes_no_balance() {
    let mut r = ProjectRegistry::new(ADMIN);
    r.set_whitelist(10, true).unwrap();
    let id = r.create_project(10, b"ipfs://QmSelf".to_vec(), 0, [0u8; 32], 0).unwrap();
    r.update_impact_score(id, 50, 100, 0).unwrap();
    let mut v = InvestmentVault::new(3, 4);
    v.issue_carbon_credits(40, id, 10_000_000_000, &r).unwrap();
    assert_eq!(v.carbon_credit_balance(40), 100);
    v.transfer_carbon_credits(40, 41, 60).unwrap();
    assert_eq!(v.carbon_credit_balance(40) + v.carbon_credit_balance(41), 100);
    v.transfer_carbon_credits(41, 41, 10).unwrap();
    assert_eq!(v.carbon_credit_balance(41), 60);
    assert_eq!(v.transfer_carbon_credits(41, 41, 61), Err(VaultError::InsufficientCarbonCredits));
}

#[test]
fn flash_fee_is_at_most_a_tenth() {
    let mut v = InvestmentVault::new(3, 4);
    assert_eq!(v.flash_loan_fee(), 30);
    assert_eq!(v.quote_flash_loan(10_000), Ok(30));
    v.set_flash_loan_fee(1_000).unwrap();
    assert_eq!(v.quote_flash_loan(10_000), Ok(1_000));
    assert_eq!(v.quote_flash_loan(9), Ok(0));
    assert_eq!(v.set_flash_loan_fee(1_001), Err(VaultError::FeeOutOfRange));
    assert_eq!(v.set_flash_loan_fee(-1), Err(VaultError::FeeOutOfRange));
    assert_eq!(v.quote_flash_loan(0), Err(VaultError::AmountNotPositive));
}

#[test]
fn insurance_fund_is_never_deployed() {
    let mut r = ProjectRegistry::new(ADMIN);
    r.set_whitelist(10, true).unwrap();
    let id = r.create_project(10, b"ipfs://QmIns".to_vec(), 0, [0u8; 32], 0).unwrap();
    let mut v = InvestmentVault::new(3, 4);
    v.deposit(20, 2_000_0000000, &r, 0, 0, 1, 1).unwrap();
    let liquid = 2_000_0000000i128;
    let fund = v.insurance_fund_balance();
    assert_eq!(fund, 10_0000000);
    assert_eq!(v.fund_project(id, liquid - fund + 1, &r, liquid, 1), Err(VaultError::InsufficientLiquidity));
    assert_eq!(v.fund_project(id, liquid - fund, &r, liquid, 1), Ok(10));
    assert_eq!(v.insurance_fund_balance(), fund);
}

fn vaa(emitter: [u8; 32], payload: Vec<u8>) -> ParsedVaa {
    ParsedVaa { emitter_chain: chain_id::ETHEREUM, emitter_address: emitter, payload }
}

fn transfer_payload(nonce: u64) -> Vec<u8> {
    serialize_bridge_payload(&BridgeTransferPayload {
        token_address: [0xAAu8; 32],
        recipient: [0x22u8; 32],
        amount: 5,
        source_chain: chain_id::ETHEREUM,
        target_chain: chain_id::STELLAR,
        nonce,
    })
}

#[test]
fn vaas_are_told_apart_by_their_whole_bytes() {
    // Two VAAs that share their first 32 bytes but differ after them must
    // both be accepted: each is identified by the SHA-256 of all its bytes.
    let mut v = InvestmentVault::new(3, 4);
    v.set_wormhole_core(70);
    v.set_trusted_emitter(chain_id::ETHEREUM, [5u8; 32], true);
    let mut first = vec![9u8; 64];
    let mut second = vec![9u8; 64];
    first[63] = 1;
    second[63] = 2;
    assert!(v.complete_bridge_transfer(&first, &vaa([5u8; 32], transfer_payload(1))).is_ok());
    assert!(v.complete_bridge_transfer(&second, &vaa([5u8; 32], transfer_payload(2))).is_ok());
    assert_eq!(
        v.complete_bridge_transfer(&first, &vaa([5u8; 32], transfer_payload(3))).unwrap_err(),
        VaultError::VaaAlreadyConsumed
    );
}

#[test]
fn digest_based_completion_rejects_replays() {
    let mut v = InvestmentVault::new(3, 4);
    v.set_wormhole_core(70);
    v.set_trusted_emitter(chain_id::ETHEREUM, [5u8; 32], true);
    let d = [1u8; 32];
    assert!(v.complete_bridge_transfer_with_digest(d, &vaa([5u8; 32], transfer_payload(1))).is_ok());
    assert_eq!(
        v.complete_bridge_transfer_with_digest(d, &vaa([5u8; 32], transfer_payload(1))).unwrap_err(),
        VaultError::VaaAlreadyConsumed
    );
    assert!(v.complete_bridge_transfer_with_digest([2u8; 32], &vaa([5u8; 32], transfer_payload(1))).is_ok());
}

#[test]
fn bridge_completion_errors() {
    let mut v = InvestmentVault::new(3, 4);
    let good = vaa([5u8; 32], transfer_payload(1));
    assert_eq!(
        v.complete_bridge_transfer_with_digest([1u8; 32], &good).unwrap_err(),
        VaultError::WormholeCoreNotSet
    );
    v.set_wormhole_core(70);
    assert_eq!(
        v.complete_bridge_transfer_with_digest([1u8; 32], &vaa([5u8; 32], vec![1, 2, 3])).unwrap_err(),
        VaultError::MalformedPayload
    );
    assert_eq!(
        v.complete_bridge_transfer_with_digest([1u8; 32], &good).unwrap_err(),
        VaultError::EmitterNotTrusted
    );
    v.set_trusted_emitter(chain_id::ETHEREUM, [5u8; 32], true);
    v.set_trusted_emitter(chain_id::ETHEREUM, [5u8; 32], false);
    assert_eq!(
        v.complete_bridge_transfer_with_digest([1u8; 32], &good).unwrap_err(),
        VaultError::EmitterNotTrusted
    );
}

#[test]
fn a_vaa_is_recorded_under_its_sha256_digest() {
    let mut v = InvestmentVault::new(3, 4);
    v.set_wormhole_core(70);
    v.set_trusted_emitter(chain_id::ETHEREUM, [5u8; 32], true);
    let bytes = b"a verified action approval".to_vec();
    assert!(v.complete_bridge_transfer(&bytes, &vaa([5u8; 32], transfer_payload(1))).is_ok());
    let digest: [u8; 32] = <sha2::Sha256 as sha2::Digest>::digest(&bytes).into();
    assert_eq!(
        v.complete_bridge_transfer_with_digest(digest, &vaa([5u8; 32], transfer_payload(2))).unwrap_err(),
        VaultError::VaaAlreadyConsumed
    );
}

#[test]
fn project_ids_are_sequential_across_creators() {
    let mut r = ProjectRegistry::new(WHITELISTER);
    for creator in [10u64, 11, 12] {
        r.set_whitelist(creator, true).unwrap();
    }
    let mut ids = Vec::new();
    for creator in [10u64, 11, 12, 11, 10, 12] {
        let id = r.create_project(creator, b"ipfs://QmSeq".to_vec(), 0, [1u8; 32], 0).unwrap();
        assert_eq!(r.get_project(id).unwrap().owner, creator);
        ids.push(id);
    }
    assert_eq!(ids, vec![1, 2, 3, 4, 5, 6]);
    assert_eq!(r.total_projects().unwrap(), 6);
}
