use heliobond::registry::{ProjectRegistry, MIN_VOTING_PERIOD};
use heliobond::registry_types::{
    CertificationStatus, ProjectStatus, RegistryError, RegistryEvent,
};

const ADMIN: u64 = 1;
const WHITELISTER: u64 = 2;

fn test_metadata_hash() -> [u8; 32] {
    [7u8; 32]
}

fn uri(s: &str) -> Vec<u8> {
    s.as_bytes().to_vec()
}

fn setup() -> ProjectRegistry {
    ProjectRegistry::new(WHITELISTER)
}

fn create(r: &mut ProjectRegistry, creator: u64, u: &str) -> u32 {
    r.create_project(creator, uri(u), 0, test_metadata_hash(), 0).unwrap()
}

fn whitelisted_project(r: &mut ProjectRegistry, creator: u64) -> u32 {
    r.set_whitelist(creator, true).unwrap();
    create(r, creator, "ipfs://Qm")
}

#[test]
fn test_initialize_sets_admin_and_whitelister() {
    let r = setup();
    assert_eq!(r.state_version(), 1);
    assert_eq!(r.stored_state_version(), 1);
    assert_eq!(r.total_projects().unwrap(), 0);
}

#[test]
fn test_create_project_by_whitelisted_address() {
    let mut r = setup();
    let creator = 10;
    r.set_whitelist(creator, true).unwrap();
    let project_id = create(&mut r, creator, "ipfs://QmTest");
    assert_eq!(project_id, 1);
    let project = r.get_project(1).unwrap();
    assert_eq!(project.owner, creator);
    assert_eq!(project.credit_quality, 0);
    assert_eq!(project.green_impact, 0);
    assert_eq!(project.maturity_date, 0);
    assert_eq!(project.certification_status, CertificationStatus::Uncertified);
    assert_eq!(r.total_projects().unwrap(), 1);
}

#[test]
fn test_create_project_by_non_whitelisted_panics() {
    let mut r = setup();
    let res = r.create_project(10, uri("ipfs://Qm"), 0, test_metadata_hash(), 0);
    assert_eq!(res, Err(RegistryError::NotWhitelisted));
}

#[test]
fn test_sequential_project_ids() {
    let mut r = setup();
    let creator = 10;
    r.set_whitelist(creator, true).unwrap();
    let id1 = create(&mut r, creator, "ipfs://Qm1");
    let id2 = create(&mut r, creator, "ipfs://Qm2");
    assert_eq!(id1, 1);
    assert_eq!(id2, 2);
    assert_eq!(r.total_projects().unwrap(), 2);
}

#[test]
fn test_update_impact_score() {
    let mut r = setup();
    let id = whitelisted_project(&mut r, 10);
    r.update_impact_score(id, 80, 90, 0).unwrap();
    let project = r.get_project(id).unwrap();
    assert_eq!(project.credit_quality, 80);
    assert_eq!(project.green_impact, 90);
}

#[test]
fn test_multisig_update_impact_score_approved() {
    let mut r = setup();
    let (signer1, signer2, signer3) = (21, 22, 23);
    r.set_whitelist(10, true).unwrap();
    let id = create(&mut r, 10, "ipfs://QmMultiSig");
    r.set_multisig_admin(vec![signer1, signer2, signer3], 2).unwrap();
    let auths = r
        .update_impact_score_approved(id, 80, 90, vec![signer1, signer2], ADMIN, 0)
        .unwrap();
    assert_eq!(auths, vec![signer1, signer2]);
    let project = r.get_project(id).unwrap();
    assert_eq!(project.credit_quality, 80);
    assert_eq!(project.green_impact, 90);
}

#[test]
fn test_multisig_update_impact_score_rejects_insufficient_approvals() {
    let mut r = setup();
    let (signer1, signer2) = (21, 22);
    r.set_whitelist(10, true).unwrap();
    let id = create(&mut r, 10, "ipfs://QmMultiSig");
    r.set_multisig_admin(vec![signer1, signer2], 2).unwrap();
    let res = r.update_impact_score_approved(id, 80, 90, vec![signer1], ADMIN, 0);
    assert_eq!(res, Err(RegistryError::InsufficientApprovals));
}

#[test]
fn test_multisig_update_impact_score_rejects_replayed_approval() {
    let mut r = setup();
    let (signer1, signer2) = (21, 22);
    r.set_whitelist(10, true).unwrap();
    let id = create(&mut r, 10, "ipfs://QmReplay");
    r.set_multisig_admin(vec![signer1, signer2], 2).unwrap();
    let res = r.update_impact_score_approved(id, 80, 90, vec![signer1, signer1], ADMIN, 0);
    assert_eq!(res, Err(RegistryError::DuplicateApproval));
}

#[test]
fn test_update_impact_score_noop_identical_values() {
    let mut r = setup();
    let id = whitelisted_project(&mut r, 10);
    r.update_impact_score(id, 80, 90, 0).unwrap();
    let events_before = r.events().len();
    r.update_impact_score(id, 80, 90, 0).unwrap();
    assert_eq!(r.events().len(), events_before);
    let project = r.get_project(id).unwrap();
    assert_eq!(project.credit_quality, 80);
    assert_eq!(project.green_impact, 90);
}

#[test]
fn test_get_all_projects() {
    let mut r = setup();
    r.set_whitelist(10, true).unwrap();
    create(&mut r, 10, "ipfs://Qm1");
    create(&mut r, 10, "ipfs://Qm2");
    let all = r.get_all_projects().unwrap();
    assert_eq!(all.len(), 2);
    assert_eq!(all[0].0, 1);
    assert_eq!(all[1].0, 2);
}

#[test]
fn test_get_projects_page_returns_stable_ordering_across_pages() {
    let mut r = setup();
    r.set_whitelist(10, true).unwrap();
    for i in 1..=5u32 {
        create(&mut r, 10, &format!("ipfs://Qm{i}"));
    }
    let page1 = r.get_projects_page(0, 2).unwrap();
    let page2 = r.get_projects_page(2, 2).unwrap();
    let page3 = r.get_projects_page(4, 2).unwrap();
    assert_eq!(page1.len(), 2);
    assert_eq!(page2.len(), 2);
    assert_eq!(page3.len(), 1);
    let paged_ids: Vec<u32> = page1.iter().chain(page2.iter()).chain(page3.iter()).map(|e| e.0).collect();
    let all_ids: Vec<u32> = r.get_all_projects().unwrap().iter().map(|e| e.0).collect();
    assert_eq!(
        paged_ids, all_ids,
        "paginated ids must match get_all_projects order exactly, with no skips or duplicates"
    );
}

#[test]
fn test_get_projects_page_limit_larger_than_total_projects() {
    let mut r = setup();
    r.set_whitelist(10, true).unwrap();
    create(&mut r, 10, "ipfs://Qm1");
    create(&mut r, 10, "ipfs://Qm2");
    create(&mut r, 10, "ipfs://Qm3");
    let page = r.get_projects_page(0, 10).unwrap();
    assert_eq!(page.len(), 3);
    assert_eq!(page[0].0, 1);
    assert_eq!(page[1].0, 2);
    assert_eq!(page[2].0, 3);
}

#[test]
fn test_get_projects_page_zero_limit_returns_empty() {
    let mut r = setup();
    whitelisted_project(&mut r, 10);
    let page = r.get_projects_page(0, 0).unwrap();
    assert_eq!(page.len(), 0);
}

#[test]
fn test_update_impact_score_nonexistent_project_panics() {
    let mut r = setup();
    assert_eq!(r.update_impact_score(999, 50, 50, 0), Err(RegistryError::ProjectNotFound));
}

#[test]
fn test_certify_project() {
    let mut r = setup();
    let id = whitelisted_project(&mut r, 10);
    r.certify_project(WHITELISTER, id, CertificationStatus::Certified, ADMIN).unwrap();
    let project = r.get_project(id).unwrap();
    assert_eq!(project.certification_status, CertificationStatus::Certified);
}

#[test]
fn test_certify_already_certified_project_panics() {
    let mut r = setup();
    let id = whitelisted_project(&mut r, 10);
    r.certify_project(WHITELISTER, id, CertificationStatus::Certified, ADMIN).unwrap();
    let res = r.certify_project(WHITELISTER, id, CertificationStatus::Certified, ADMIN);
    assert_eq!(res, Err(RegistryError::AlreadyCertified));
}

#[test]
fn test_maturity_date_is_mature() {
    let mut r = setup();
    r.set_whitelist(10, true).unwrap();
    let now = 0u64;
    let id = r.create_project(10, uri("ipfs://Qm"), now + 1000, test_metadata_hash(), now).unwrap();
    assert!(!r.is_mature(id, now).unwrap());
    assert!(r.is_mature(id, now + 1001).unwrap());
}

#[test]
fn test_update_credit_quality_score_success() {
    let mut r = setup();
    let id = whitelisted_project(&mut r, 10);
    r.update_credit_quality_score(id, 75, 0).unwrap();
    let project = r.get_project(id).unwrap();
    assert_eq!(project.credit_quality, 75);
    assert_eq!(project.green_impact, 0);
}

#[test]
fn test_update_credit_quality_score_out_of_range_panics() {
    let mut r = setup();
    let id = whitelisted_project(&mut r, 10);
    assert_eq!(
        r.update_credit_quality_score(id, 101, 0),
        Err(RegistryError::CreditQualityOutOfRange)
    );
}

#[test]
fn test_update_credit_quality_score_boundary_values() {
    let mut r = setup();
    let id = whitelisted_project(&mut r, 10);
    r.update_credit_quality_score(id, 0, 0).unwrap();
    assert_eq!(r.get_project(id).unwrap().credit_quality, 0);
    r.update_credit_quality_score(id, 100, 0).unwrap();
    assert_eq!(r.get_project(id).unwrap().credit_quality, 100);
}

#[test]
fn test_update_credit_quality_independent_of_green_impact() {
    let mut r = setup();
    let id = whitelisted_project(&mut r, 10);
    r.update_impact_score(id, 60, 80, 0).unwrap();
    r.update_credit_quality_score(id, 45, 0).unwrap();
    let project = r.get_project(id).unwrap();
    assert_eq!(project.credit_quality, 45);
    assert_eq!(project.green_impact, 80);
}

#[test]
fn test_credit_quality_score_changes_rate_correctly() {
    let mut r = setup();
    let id = whitelisted_project(&mut r, 10);
    r.update_impact_score(id, 60, 40, 0).unwrap();
    assert_eq!(r.get_interest_rate(id).unwrap(), 750u32);
    r.update_credit_quality_score(id, 85, 0).unwrap();
    assert_eq!(r.get_interest_rate(id).unwrap(), 690u32);
    assert_eq!(r.get_project(id).unwrap().green_impact, 40u32);
}

#[test]
fn test_update_credit_quality_score_noop_identical_values() {
    let mut r = setup();
    let id = whitelisted_project(&mut r, 10);
    r.update_credit_quality_score(id, 75, 0).unwrap();
    let project_before = r.get_project(id).unwrap();
    r.update_credit_quality_score(id, 75, 0).unwrap();
    let project_after = r.get_project(id).unwrap();
    assert_eq!(project_before.credit_quality, project_after.credit_quality);
    assert_eq!(project_before.green_impact, project_after.green_impact);
}

#[test]
fn test_uri_exactly_min_length_accepted() {
    let mut r = setup();
    r.set_whitelist(10, true).unwrap();
    let id = create(&mut r, 10, "ipfs://Q");
    assert_eq!(id, 1);
}

#[test]
fn test_uri_below_min_length_panics() {
    let mut r = setup();
    r.set_whitelist(10, true).unwrap();
    let res = r.create_project(10, uri("ipfs://"), 0, test_metadata_hash(), 0);
    assert_eq!(res, Err(RegistryError::UriTooShort));
}

#[test]
fn test_create_project_empty_uri_panics() {
    let mut r = setup();
    r.set_whitelist(10, true).unwrap();
    let res = r.create_project(10, uri(""), 0, test_metadata_hash(), 0);
    assert_eq!(res, Err(RegistryError::UriTooShort));
}

#[test]
fn test_uri_exactly_max_length_accepted() {
    let mut r = setup();
    r.set_whitelist(10, true).unwrap();
    let mut buf = [b'A'; 512];
    buf[..9].copy_from_slice(b"ipfs://Qm");
    let id = r.create_project(10, buf.to_vec(), 0, test_metadata_hash(), 0).unwrap();
    let project = r.get_project(id).unwrap();
    assert_eq!(id, 1);
    assert_eq!(project.uri.len(), 512);
    assert_eq!(project.uri, buf.to_vec());
}

#[test]
fn test_uri_with_special_characters_and_unicode_accepted() {
    let mut r = setup();
    r.set_whitelist(10, true).unwrap();
    let u = uri("ipfs://QmSolar-%E2%98%80-東京?panel=42&region=na");
    let id = r.create_project(10, u.clone(), 0, test_metadata_hash(), 0).unwrap();
    let project = r.get_project(id).unwrap();
    assert_eq!(id, 1);
    assert_eq!(project.uri, u);
    assert_eq!(r.total_projects().unwrap(), 1);
}

#[test]
fn test_uri_above_max_length_panics() {
    let mut r = setup();
    r.set_whitelist(10, true).unwrap();
    let mut buf = [b'A'; 513];
    buf[..9].copy_from_slice(b"ipfs://Qm");
    let res = r.create_project(10, buf.to_vec(), 0, test_metadata_hash(), 0);
    assert_eq!(res, Err(RegistryError::UriTooLong));
}

#[test]
fn test_deposit_and_get_collateral() {
    let mut r = setup();
    let creator = 10;
    let project_id = whitelisted_project(&mut r, creator);
    let token_sac = 500;
    r.deposit_collateral(project_id, creator, token_sac, 500).unwrap();
    assert_eq!(r.get_collateral(project_id, token_sac).unwrap(), 500i128);
}

#[test]
fn test_deposit_zero_collateral_panics() {
    let mut r = setup();
    let project_id = whitelisted_project(&mut r, 10);
    assert_eq!(
        r.deposit_collateral(project_id, 10, 500, 0),
        Err(RegistryError::CollateralNotPositive)
    );
}

#[test]
fn test_non_owner_cannot_deposit_collateral() {
    let mut r = setup();
    let project_id = whitelisted_project(&mut r, 10);
    let stranger = 11;
    assert_eq!(
        r.deposit_collateral(project_id, stranger, 500, 500),
        Err(RegistryError::NotProjectOwner)
    );
}

#[test]
fn test_liquidate_collateral_by_admin() {
    let mut r = setup();
    let creator = 10;
    let project_id = whitelisted_project(&mut r, creator);
    let token_sac = 500;
    r.deposit_collateral(project_id, creator, token_sac, 800).unwrap();
    let recipient = 12;
    let paid = r.liquidate_collateral(project_id, token_sac, recipient, 0).unwrap();
    assert_eq!(paid, 800);
    assert_eq!(r.get_collateral(project_id, token_sac).unwrap(), 0i128);
}

#[test]
fn test_liquidate_collateral_before_maturity_panics() {
    let mut r = setup();
    let creator = 10;
    r.set_whitelist(creator, true).unwrap();
    let now = 0u64;
    let project_id =
        r.create_project(creator, uri("ipfs://Qm"), now + 1000, test_metadata_hash(), now).unwrap();
    r.deposit_collateral(project_id, creator, 500, 800).unwrap();
    assert_eq!(
        r.liquidate_collateral(project_id, 500, 12, now),
        Err(RegistryError::ProjectNotMature)
    );
}

#[test]
fn test_release_collateral_after_maturity() {
    let mut r = setup();
    let creator = 10;
    r.set_whitelist(creator, true).unwrap();
    let now = 0u64;
    let project_id =
        r.create_project(creator, uri("ipfs://Qm"), now + 1000, test_metadata_hash(), now).unwrap();
    r.deposit_collateral(project_id, creator, 500, 600).unwrap();
    let paid = r.release_collateral(project_id, creator, 500, now + 1001).unwrap();
    assert_eq!(paid, 600);
    assert_eq!(r.get_collateral(project_id, 500).unwrap(), 0i128);
}

#[test]
fn test_release_collateral_before_maturity_panics() {
    let mut r = setup();
    let creator = 10;
    r.set_whitelist(creator, true).unwrap();
    let now = 0u64;
    let project_id = r
        .create_project(creator, uri("ipfs://QmPreMature"), now + 1000, test_metadata_hash(), now)
        .unwrap();
    r.deposit_collateral(project_id, creator, 500, 500).unwrap();
    assert_eq!(
        r.release_collateral(project_id, creator, 500, now),
        Err(RegistryError::ProjectNotMature)
    );
}

fn rate_after(cq: u32, gi: u32) -> u32 {
    let mut r = setup();
    let id = whitelisted_project(&mut r, 10);
    r.update_impact_score(id, cq, gi, 0).unwrap();
    r.get_interest_rate(id).unwrap()
}

#[test]
fn test_interest_rate_zero_scores_is_base_rate() {
    let mut r = setup();
    let id = whitelisted_project(&mut r, 10);
    assert_eq!(r.get_interest_rate(id).unwrap(), 1_000u32);
}

#[test]
fn test_interest_rate_perfect_scores_is_minimum() {
    assert_eq!(rate_after(100, 100), 500u32);
}

#[test]
fn test_interest_rate_mid_scores() {
    assert_eq!(rate_after(80, 60), 650u32);
}

#[test]
fn test_interest_rate_boundary_combined_score_50() {
    assert_eq!(rate_after(50, 50), 750u32);
}

#[test]
fn test_interest_rate_boundary_combined_score_1() {
    assert_eq!(rate_after(1, 1), 995u32);
}

#[test]
fn test_interest_rate_boundary_combined_score_99() {
    assert_eq!(rate_after(99, 99), 505u32);
}

#[test]
fn test_interest_rate_boundary_asymmetric_0_100() {
    assert_eq!(rate_after(0, 100), 750u32);
}

#[test]
fn test_interest_rate_boundary_asymmetric_100_0() {
    assert_eq!(rate_after(100, 0), 750u32);
}

#[test]
fn test_create_project_emits_event() {
    let mut r = setup();
    r.set_whitelist(10, true).unwrap();
    let before = r.events().len();
    create(&mut r, 10, "ipfs://QmTest");
    assert_eq!(r.events().len() - before, 1, "create_project should emit exactly one event");
}

#[test]
fn test_set_whitelist_emits_event() {
    let mut r = setup();
    let before = r.events().len();
    r.set_whitelist(10, true).unwrap();
    assert_eq!(r.events().len() - before, 1, "set_whitelist should emit exactly one event");
    assert_eq!(r.events()[before], RegistryEvent::WhitelistSet { account: 10, status: true });
}

#[test]
fn test_update_impact_score_emits_event() {
    let mut r = setup();
    let id = whitelisted_project(&mut r, 10);
    let before = r.events().len();
    r.update_impact_score(id, 80, 60, 0).unwrap();
    assert!(
        r.events().len() - before >= 2,
        "update_impact_score should emit at least two events"
    );
}

#[test]
fn test_score_changed_event_contains_old_and_new_values() {
    let mut r = setup();
    let id = whitelisted_project(&mut r, 10);
    r.update_impact_score(id, 80, 60, 0).unwrap();
    let last = *r.events().last().unwrap();
    assert_eq!(
        last,
        RegistryEvent::ScoreChanged {
            project_id: id,
            old_credit_quality: 0,
            new_credit_quality: 80,
            old_green_impact: 0,
            new_green_impact: 60,
            old_rate_bps: 1000,
            new_rate_bps: 650,
        }
    );
}

#[test]
fn test_score_changed_event_credit_quality_path() {
    let mut r = setup();
    let id = whitelisted_project(&mut r, 10);
    r.update_impact_score(id, 50, 70, 0).unwrap();
    let before = r.events().len();
    r.update_credit_quality_score(id, 85, 0).unwrap();
    assert!(
        r.events().len() - before >= 1,
        "update_credit_quality_score should emit at least one event"
    );
}

#[test]
fn test_certify_project_emits_event() {
    let mut r = setup();
    let id = whitelisted_project(&mut r, 10);
    let before = r.events().len();
    r.certify_project(WHITELISTER, id, CertificationStatus::Certified, ADMIN).unwrap();
    assert_eq!(r.events().len() - before, 1, "certify_project should emit exactly one event");
}

#[test]
fn test_set_creator_reputation_emits_event() {
    let mut r = setup();
    r.set_whitelist(10, true).unwrap();
    let before = r.events().len();
    r.set_creator_reputation(WHITELISTER, 10, 75, ADMIN).unwrap();
    assert_eq!(
        r.events().len() - before,
        1,
        "set_creator_reputation should emit exactly one event"
    );
}

#[test]
fn test_reputation_defaults_to_zero() {
    let r = setup();
    assert_eq!(r.get_creator_reputation(10).unwrap(), 0u32);
}

#[test]
fn test_set_and_get_reputation() {
    let mut r = setup();
    r.set_creator_reputation(WHITELISTER, 10, 80, ADMIN).unwrap();
    assert_eq!(r.get_creator_reputation(10).unwrap(), 80u32);
}

#[test]
fn test_reputation_can_be_updated() {
    let mut r = setup();
    r.set_creator_reputation(WHITELISTER, 10, 50, ADMIN).unwrap();
    r.set_creator_reputation(WHITELISTER, 10, 90, ADMIN).unwrap();
    assert_eq!(r.get_creator_reputation(10).unwrap(), 90u32);
}

#[test]
fn test_reputation_above_100_panics() {
    let mut r = setup();
    assert_eq!(
        r.set_creator_reputation(WHITELISTER, 10, 101, ADMIN),
        Err(RegistryError::ReputationOutOfRange)
    );
}

#[test]
fn test_unauthorized_caller_cannot_set_reputation() {
    let mut r = setup();
    let stranger = 11;
    assert_eq!(
        r.set_creator_reputation(stranger, 10, 50, ADMIN),
        Err(RegistryError::NotAuthorizedReputation)
    );
}

#[test]
fn test_owner_can_set_reputation() {
    let mut r = setup();
    r.set_creator_reputation(ADMIN, 10, 60, ADMIN).unwrap();
    assert_eq!(r.get_creator_reputation(10).unwrap(), 60u32);
}

#[test]
fn test_funding_limit_bps_scales_with_reputation() {
    let mut r = setup();
    assert_eq!(r.get_creator_funding_limit_bps(10).unwrap(), 0u32);
    r.set_creator_reputation(WHITELISTER, 10, 100, ADMIN).unwrap();
    assert_eq!(r.get_creator_funding_limit_bps(10).unwrap(), 5_000u32);
    r.set_creator_reputation(WHITELISTER, 10, 50, ADMIN).unwrap();
    assert_eq!(r.get_creator_funding_limit_bps(10).unwrap(), 2_500u32);
}

#[test]
fn test_get_whitelister_returns_initial_whitelister() {
    let r = setup();
    assert_eq!(r.get_whitelister().unwrap(), WHITELISTER);
}

#[test]
fn test_set_whitelister_updates_whitelister() {
    let mut r = setup();
    r.set_whitelister(30).unwrap();
    assert_eq!(r.get_whitelister().unwrap(), 30);
}

#[test]
fn test_new_whitelister_can_set_whitelist() {
    let mut r = setup();
    r.set_whitelister(30).unwrap();
    r.set_whitelist(10, true).unwrap();
    let id = create(&mut r, 10, "ipfs://Qm");
    assert_eq!(id, 1);
}

#[test]
fn test_update_impact_score_boundary_values() {
    let mut r = setup();
    let id = whitelisted_project(&mut r, 10);
    r.update_impact_score(id, 0, 0, 0).unwrap();
    let project = r.get_project(id).unwrap();
    assert_eq!(project.credit_quality, 0);
    assert_eq!(project.green_impact, 0);
    r.update_impact_score(id, 100, 100, 0).unwrap();
    let project = r.get_project(id).unwrap();
    assert_eq!(project.credit_quality, 100);
    assert_eq!(project.green_impact, 100);
}

#[test]
fn test_update_impact_score_exceeds_100_panics_credit_quality() {
    let mut r = setup();
    let id = whitelisted_project(&mut r, 10);
    assert_eq!(r.update_impact_score(id, 101, 50, 0), Err(RegistryError::ScoresOutOfRange));
}

#[test]
fn test_update_impact_score_exceeds_100_panics_green_impact() {
    let mut r = setup();
    let id = whitelisted_project(&mut r, 10);
    assert_eq!(r.update_impact_score(id, 50, 101, 0), Err(RegistryError::ScoresOutOfRange));
}

#[test]
fn test_update_impact_score_max_value_panics() {
    let mut r = setup();
    let id = whitelisted_project(&mut r, 10);
    assert_eq!(r.update_impact_score(id, u32::MAX, 50, 0), Err(RegistryError::ScoresOutOfRange));
}

#[test]
fn test_multiple_creators_sequential_ids() {
    let mut r = setup();
    let (creator1, creator2, creator3) = (10, 11, 12);
    r.set_whitelist(creator1, true).unwrap();
    r.set_whitelist(creator2, true).unwrap();
    r.set_whitelist(creator3, true).unwrap();
    let id1 = create(&mut r, creator1, "ipfs://Qm1");
    let id2 = create(&mut r, creator2, "ipfs://Qm2");
    let id3 = create(&mut r, creator1, "ipfs://Qm3");
    r.set_whitelist(creator2, false).unwrap();
    let id4 = create(&mut r, creator3, "ipfs://Qm4");
    assert_eq!((id1, id2, id3, id4), (1, 2, 3, 4));
    assert_eq!(r.get_project(id1).unwrap().owner, creator1);
    assert_eq!(r.get_project(id2).unwrap().owner, creator2);
    assert_eq!(r.get_project(id3).unwrap().owner, creator1);
    assert_eq!(r.get_project(id4).unwrap().owner, creator3);
    assert_eq!(r.total_projects().unwrap(), 4);
}

#[test]
fn test_interleaved_creators_sequential_ids() {
    let mut r = setup();
    let (alice, bob, carol) = (10, 11, 12);
    r.set_whitelist(alice, true).unwrap();
    r.set_whitelist(bob, true).unwrap();
    r.set_whitelist(carol, true).unwrap();
    let id1 = create(&mut r, alice, "ipfs://QmA1");
    let id2 = create(&mut r, bob, "ipfs://QmB1");
    let id3 = create(&mut r, carol, "ipfs://QmC1");
    let id4 = create(&mut r, alice, "ipfs://QmA2");
    let id5 = create(&mut r, bob, "ipfs://QmB2");
    let id6 = create(&mut r, carol, "ipfs://QmC2");
    assert_eq!((id1, id2, id3, id4, id5, id6), (1, 2, 3, 4, 5, 6));
    assert_eq!(r.total_projects().unwrap(), 6);
    assert_eq!(r.get_project(id1).unwrap().owner, alice);
    assert_eq!(r.get_project(id2).unwrap().owner, bob);
    assert_eq!(r.get_project(id3).unwrap().owner, carol);
    assert_eq!(r.get_project(id4).unwrap().owner, alice);
    assert_eq!(r.get_project(id5).unwrap().owner, bob);
    assert_eq!(r.get_project(id6).unwrap().owner, carol);
}

#[test]
fn test_score_history_records_entry_on_update() {
    let mut r = setup();
    let id = whitelisted_project(&mut r, 10);
    r.update_impact_score(id, 70, 80, 0).unwrap();
    let history = r.get_score_history(id).unwrap();
    assert_eq!(history.len(), 1);
    assert_eq!(history[0].credit_quality, 70);
    assert_eq!(history[0].green_impact, 80);
}

#[test]
fn test_score_history_noop_does_not_append() {
    let mut r = setup();
    let id = whitelisted_project(&mut r, 10);
    r.update_impact_score(id, 70, 80, 0).unwrap();
    r.update_impact_score(id, 70, 80, 0).unwrap();
    assert_eq!(r.get_score_history(id).unwrap().len(), 1);
}

#[test]
fn test_score_history_multiple_updates_ordered() {
    let mut r = setup();
    let id = whitelisted_project(&mut r, 10);
    let mut now = 0u64;
    r.update_impact_score(id, 10, 20, now).unwrap();
    now += 1;
    r.update_impact_score(id, 30, 40, now).unwrap();
    now += 1;
    r.update_impact_score(id, 50, 60, now).unwrap();
    let history = r.get_score_history(id).unwrap();
    assert_eq!(history.len(), 3);
    assert_eq!(history[0].credit_quality, 10);
    assert_eq!(history[1].credit_quality, 30);
    assert_eq!(history[2].credit_quality, 50);
    assert!(history[0].timestamp < history[1].timestamp);
    assert!(history[1].timestamp < history[2].timestamp);
}

#[test]
fn test_credit_quality_score_history_recorded() {
    let mut r = setup();
    let id = whitelisted_project(&mut r, 10);
    r.update_credit_quality_score(id, 55, 0).unwrap();
    r.update_credit_quality_score(id, 55, 0).unwrap();
    let history = r.get_score_history(id).unwrap();
    assert_eq!(history.len(), 1);
    assert_eq!(history[0].credit_quality, 55);
}

#[test]
fn test_get_score_history_nonexistent_panics() {
    let r = setup();
    assert_eq!(r.get_score_history(999).unwrap_err(), RegistryError::ProjectNotFound);
}

#[test]
fn test_registry_pause_and_unpause() {
    let mut r = setup();
    assert!(!r.is_paused());
    r.pause();
    assert!(r.is_paused());
    r.unpause();
    assert!(!r.is_paused());
}

#[test]
fn test_create_project_records_created_at() {
    let mut r = setup();
    r.set_whitelist(10, true).unwrap();
    let id = r.create_project(10, uri("ipfs://Qm"), 0, test_metadata_hash(), 12345).unwrap();
    assert_eq!(r.get_project(id).unwrap().created_at, 12345);
}

#[test]
fn test_verify_metadata_hash_matches_recorded_hash() {
    let mut r = setup();
    r.set_whitelist(10, true).unwrap();
    let hash = [9u8; 32];
    let id = r.create_project(10, uri("ipfs://Qm"), 0, hash, 0).unwrap();
    assert!(r.verify_metadata_hash(id, hash).unwrap());
    assert!(!r.verify_metadata_hash(id, [1u8; 32]).unwrap());
}

#[test]
fn test_test_emergency_admin_can_pause_and_unpause_without_owner() {
    let mut r = setup();
    let emergency_admin = 40;
    assert_eq!(r.get_emergency_admin(), None);
    r.set_emergency_admin(Some(emergency_admin));
    assert_eq!(r.get_emergency_admin(), Some(emergency_admin));
    assert!(!r.is_paused());
    r.emergency_pause(emergency_admin).unwrap();
    assert!(r.is_paused());
    r.emergency_unpause(emergency_admin).unwrap();
    assert!(!r.is_paused());
}

#[test]
fn test_test_emergency_pause_rejects_non_emergency_admin() {
    let mut r = setup();
    r.set_emergency_admin(Some(40));
    assert_eq!(r.emergency_pause(41), Err(RegistryError::NotEmergencyAdmin));
}

#[test]
fn test_create_project_blocked_when_paused() {
    let mut r = setup();
    r.set_whitelist(10, true).unwrap();
    r.pause();
    let res = r.create_project(10, uri("ipfs://Qm"), 0, test_metadata_hash(), 0);
    assert_eq!(res, Err(RegistryError::Paused));
}

#[test]
fn test_update_impact_score_blocked_when_paused() {
    let mut r = setup();
    let id = whitelisted_project(&mut r, 10);
    r.pause();
    assert_eq!(r.update_impact_score(id, 50, 50, 0), Err(RegistryError::Paused));
}

#[test]
fn test_getters_work_when_paused() {
    let mut r = setup();
    let id = whitelisted_project(&mut r, 10);
    r.pause();
    assert_eq!(r.get_project(id).unwrap().owner, 10);
    assert_eq!(r.total_projects().unwrap(), 1);
    assert_eq!(r.is_paused(), true);
}

#[test]
fn test_compact_storage_removes_zero_collateral() {
    let mut r = setup();
    let creator = 10;
    r.set_whitelist(creator, true).unwrap();
    let maturity = 10_000u64;
    let id = r.create_project(creator, uri("ipfs://Qm"), maturity, test_metadata_hash(), 0).unwrap();
    let token = 500;
    r.deposit_collateral(id, creator, token, 1_000).unwrap();
    assert_eq!(r.get_collateral(id, token).unwrap(), 1_000i128);
    r.release_collateral(id, creator, token, maturity + 1).unwrap();
    assert_eq!(r.get_collateral(id, token).unwrap(), 0i128);
    let removed = r.compact_storage(vec![id], vec![token]).unwrap();
    assert_eq!(removed, 0u32);
}

#[test]
fn test_migrate_state_rejects_wrong_from_version() {
    let mut r = setup();
    assert_eq!(r.migrate_state(0), Err(RegistryError::UnsupportedStateVersion));
}

#[test]
fn test_migrate_state_noop_on_current_version() {
    let mut r = setup();
    assert_eq!(r.migrate_state(1).unwrap(), 1u32);
}

#[test]
fn test_state_version_matches_stored() {
    let r = setup();
    assert_eq!(r.state_version(), r.stored_state_version());
}

#[test]
fn test_pause_blocks_mutations_but_not_getters() {
    let mut r = setup();
    r.set_whitelist(10, true).unwrap();
    let id = create(&mut r, 10, "ipfs://Qm");
    r.pause();
    let blocked = r.create_project(10, uri("ipfs://QmNew"), 0, test_metadata_hash(), 0);
    assert!(blocked.is_err(), "create_project should be blocked when paused");
    assert_eq!(r.get_project(id).unwrap().owner, 10);
    assert_eq!(r.total_projects().unwrap(), 1);
    assert_eq!(r.is_paused(), true);
    assert_eq!(r.state_version(), r.stored_state_version());
}

#[test]
fn bench_registry_get_all_projects_50() {
    let mut r = setup();
    r.set_whitelist(10, true).unwrap();
    for _ in 0..50 {
        create(&mut r, 10, "ipfs://Qm");
    }
    assert_eq!(r.get_all_projects().unwrap().len(), 50);
}

#[test]
fn test_create_proposal_and_get_proposal() {
    let mut r = setup();
    let proposer = 50;
    let id = r.create_proposal(proposer, uri("Increase green threshold"), MIN_VOTING_PERIOD, 0).unwrap();
    assert_eq!(id, 1);
    let p = r.get_proposal(id).unwrap();
    assert_eq!(p.proposer, proposer);
    assert_eq!(p.votes_for, 0);
    assert_eq!(p.votes_against, 0);
    assert!(!p.executed);
    assert!(p.voting_ends_at >= MIN_VOTING_PERIOD);
}

#[test]
fn test_create_proposal_rejects_too_short_voting_period() {
    let mut r = setup();
    let res = r.create_proposal(50, uri("Too short"), MIN_VOTING_PERIOD - 1, 0);
    assert!(res.is_err());
    assert_eq!(res, Err(RegistryError::VotingPeriodTooShort));
}

#[test]
fn test_cast_vote_validation() {
    let mut r = setup();
    let (proposer, voter) = (50, 51);
    let id = r.create_proposal(proposer, uri("Vote validation"), MIN_VOTING_PERIOD, 0).unwrap();
    assert!(r.cast_vote(voter, id, true, 0, 0).is_err());
    assert!(r.cast_vote(voter, 999, true, 1, 0).is_err());
    r.cast_vote(voter, id, true, 10, 0).unwrap();
    assert!(r.cast_vote(voter, id, true, 5, 0).is_err());
}

#[test]
fn test_proposal_full_flow_pass_and_double_execution_guard() {
    let mut r = setup();
    let (proposer, voter_for, voter_against) = (50, 51, 52);
    let id = r.create_proposal(proposer, uri("Full governance flow"), MIN_VOTING_PERIOD, 0).unwrap();
    assert!(r.execute_proposal(id, 0).is_err());
    r.cast_vote(voter_for, id, true, 100, 0).unwrap();
    r.cast_vote(voter_against, id, false, 40, 0).unwrap();
    let deadline = r.get_proposal(id).unwrap().voting_ends_at;
    let now = deadline + 1;
    assert!(r.cast_vote(voter_for, id, true, 1, now).is_err());
    assert!(r.execute_proposal(id, now).unwrap());
    assert!(r.execute_proposal(id, now).is_err());
    let p = r.get_proposal(id).unwrap();
    assert!(p.executed);
    assert_eq!(p.votes_for, 100i128);
    assert_eq!(p.votes_against, 40i128);
}

#[test]
fn test_get_proposal_not_found() {
    let r = setup();
    assert!(r.get_proposal(999).is_err());
}

#[test]
fn test_archive_project_flips_status_and_excludes_from_listings() {
    let mut r = setup();
    r.set_whitelist(10, true).unwrap();
    let id = create(&mut r, 10, "ipfs://QmArchive");
    r.archive_project(id).unwrap();
    assert_eq!(r.get_project(id).unwrap().status, ProjectStatus::Archived);
    let active = r.get_all_projects().unwrap();
    assert!(active.iter().all(|entry| entry.0 != id));
    let all = r.get_all_projects_with_archived().unwrap();
    assert!(all.iter().any(|entry| entry.0 == id));
}

#[test]
fn test_delete_project_removes_entry() {
    let mut r = setup();
    r.set_whitelist(10, true).unwrap();
    let id = create(&mut r, 10, "ipfs://QmDelete");
    r.delete_project(id).unwrap();
    assert!(r.get_project(id).is_err());
}

#[test]
fn test_compact_archive_matches_pre_compaction_data() {
    let mut r = setup();
    r.set_whitelist(10, true).unwrap();
    let id = r.create_project(10, uri("ipfs://QmCompact"), 12345, test_metadata_hash(), 0).unwrap();
    let before = r.get_project(id).unwrap();
    r.archive_project(id).unwrap();
    r.compact_archive(id).unwrap();
    let summary = r.get_archive_summary(id).unwrap();
    assert_eq!(summary.owner, before.owner);
    assert_eq!(summary.final_credit_quality, before.credit_quality);
    assert_eq!(summary.final_green_impact, before.green_impact);
    assert_eq!(summary.maturity_date, before.maturity_date);
    assert_eq!(summary.certification_status, before.certification_status);
    assert!(r.get_project(id).is_err());
}

#[test]
fn test_compact_archive_requires_prior_archiving() {
    let mut r = setup();
    r.set_whitelist(10, true).unwrap();
    let id = create(&mut r, 10, "ipfs://QmCompactGuard");
    assert!(r.compact_archive(id).is_err());
    assert_eq!(r.compact_archive(id), Err(RegistryError::ProjectNotArchived));
}
