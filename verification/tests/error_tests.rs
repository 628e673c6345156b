use heliobond::registry::{ProjectRegistry, MIN_VOTING_PERIOD, MAX_VOTING_PERIOD};
use heliobond::registry_types::{CertificationStatus, ProjectStatus, RegistryError};
use heliobond::vault::InvestmentVault;
use heliobond::vault_types::VaultError;

const ADMIN: u64 = 1;
const WHITELISTER: u64 = 2;

fn project() -> (ProjectRegistry, u32) {
    let mut r = ProjectRegistry::new(WHITELISTER);
    r.set_whitelist(10, true).unwrap();
    let id = r.create_project(10, b"ipfs://QmErr".to_vec(), 0, [0u8; 32], 0).unwrap();
    (r, id)
}

#[test]
fn certification_requires_whitelister_or_owner() {
    let (mut r, id) = project();
    assert_eq!(
        r.certify_project(77, id, CertificationStatus::Certified, ADMIN),
        Err(RegistryError::NotAuthorizedToCertify)
    );
    r.certify_project(ADMIN, id, CertificationStatus::Pending, ADMIN).unwrap();
}

#[test]
fn proposal_errors() {
    let mut r = ProjectRegistry::new(WHITELISTER);
    assert_eq!(r.create_proposal(1, b"x".to_vec(), MAX_VOTING_PERIOD + 1, 0), Err(RegistryError::VotingPeriodTooLong));
    assert_eq!(
        r.create_proposal(1, vec![b'a'; 2049], MIN_VOTING_PERIOD, 0),
        Err(RegistryError::ProposalDescriptionTooLong)
    );
    let pid = r.create_proposal(1, vec![b'a'; 2048], MIN_VOTING_PERIOD, 0).unwrap();
    assert_eq!(r.cast_vote(2, pid, true, -3, 0), Err(RegistryError::VotingWeightNotPositive));
    assert_eq!(r.cast_vote(2, 9, true, 3, 0), Err(RegistryError::ProposalNotFound));
    assert_eq!(r.cast_vote(2, pid, true, 3, MIN_VOTING_PERIOD + 1), Err(RegistryError::VotingPeriodEnded));
    assert_eq!(r.execute_proposal(9, 0), Err(RegistryError::ProposalNotFound));
}

#[test]
fn status_errors() {
    let (mut r, id) = project();
    assert_eq!(r.set_project_status(id, ProjectStatus::Pending), Err(RegistryError::ProjectStatusUnchanged));
    assert_eq!(r.set_project_status(id, ProjectStatus::Archived), Err(RegistryError::InvalidStatusTransition));
    r.set_project_status(id, ProjectStatus::Funded).unwrap();
    assert_eq!(r.get_project(id).unwrap().status, ProjectStatus::Funded);
    assert_eq!(r.set_project_status(99, ProjectStatus::Active), Err(RegistryError::ProjectNotFound));
}

#[test]
fn multisig_admin_errors_and_gating() {
    let (mut r, id) = project();
    assert_eq!(r.set_multisig_admin((1..=11).collect(), 2), Err(RegistryError::TooManyMultiSigSigners));
    assert_eq!(r.set_multisig_admin(vec![5, 6], 0), Err(RegistryError::InvalidMultiSigThreshold));
    assert_eq!(r.set_multisig_admin(vec![5, 5], 2), Err(RegistryError::DuplicateApproval));
    r.set_multisig_admin(vec![5, 6], 2).unwrap();
    assert_eq!(r.get_multisig_admin(), (vec![5, 6], 2));
    assert_eq!(r.update_impact_score(id, 1, 1, 0), Err(RegistryError::InsufficientApprovals));
    assert_eq!(r.liquidate_collateral(id, 3, 4, 0), Err(RegistryError::InsufficientApprovals));
    assert_eq!(
        r.update_impact_score_approved(id, 1, 1, vec![5, 7], ADMIN, 0),
        Err(RegistryError::NotMultiSigSigner)
    );
    r.deposit_collateral(id, 10, 3, 9).unwrap();
    assert_eq!(r.liquidate_collateral_approved(id, 3, 4, vec![6, 5], ADMIN, 0), Ok((9, vec![6, 5])));
    assert_eq!(
        r.update_scores_batch_approved(vec![(id, 4, 4)], vec![5, 6], ADMIN, 0),
        Ok(vec![5, 6])
    );
    r.clear_multisig_admin();
    assert_eq!(r.get_multisig_admin(), (vec![], 0));
    assert_eq!(r.update_impact_score_approved(id, 2, 2, vec![], ADMIN, 0), Ok(vec![ADMIN]));
}

#[test]
fn compaction_and_lookup_errors() {
    let (mut r, id) = project();
    let many: Vec<u32> = (0..21).collect();
    assert_eq!(r.compact_storage(many, vec![1]), Err(RegistryError::CompactStorageTooLarge));
    assert_eq!(r.compact_storage(vec![id], vec![1, 2]), Ok(0));
    assert_eq!(r.get_archive_summary(id), Err(RegistryError::ProjectNotFound));
    assert_eq!(r.compact_archive(99), Err(RegistryError::ProjectNotFound));
    assert_eq!(r.delete_project(99), Err(RegistryError::ProjectNotFound));
    assert_eq!(r.verify_metadata_hash(99, [0u8; 32]), Err(RegistryError::ProjectNotFound));
    assert_eq!(r.is_mature(99, 0), Err(RegistryError::ProjectNotFound));
    assert_eq!(r.get_interest_rate(99), Err(RegistryError::ProjectNotFound));
    assert_eq!(r.emergency_unpause(5), Err(RegistryError::NotEmergencyAdmin));
    let health = r.health_check();
    assert_eq!((health.state_version, health.is_paused, health.total_projects, health.has_emergency_admin), (1, false, 1, false));
}

#[test]
fn compacted_project_keeps_its_hash() {
    let (mut r, id) = project();
    r.archive_project(id).unwrap();
    r.compact_archive(id).unwrap();
    assert_eq!(r.verify_metadata_hash(id, [0u8; 32]), Ok(true));
    assert_eq!(r.verify_metadata_hash(id, [1u8; 32]), Ok(false));
}

#[test]
fn vault_errors() {
    let (r, id) = project();
    let mut v = InvestmentVault::new(3, 4);
    assert_eq!(v.deposit(10, 0, &r, 0, 0, 1, 1), Err(VaultError::AmountNotPositive));
    assert_eq!(v.withdraw(10, 0, 0, &r, 0, 0, 1, 1), Err(VaultError::SharesNotPositive));
    assert_eq!(v.fund_project(id, -5, &r, 100, 1), Err(VaultError::AmountNotPositive));
    assert_eq!(v.fund_project(99, 5, &r, 100, 1), Err(VaultError::Registry(RegistryError::ProjectNotFound)));
    assert_eq!(v.bridge_mint(5, 5, 1, 1), Err(VaultError::BridgeNotSet));
    assert_eq!(
        v.initiate_bridge_transfer(5, 2, [0u8; 32], 1, [0u8; 32]).unwrap_err(),
        VaultError::WormholeCoreNotSet
    );
    assert_eq!(
        v.initiate_bridge_transfer(0, 2, [0u8; 32], 1, [0u8; 32]).unwrap_err(),
        VaultError::AmountNotPositive
    );
    assert_eq!(v.execute_flash_loan(1, 2, 0, true), Err(VaultError::AmountNotPositive));
    assert_eq!(v.deposit(10, 99_9999999, &r, 0, 0, 1, 1), Err(VaultError::BelowMinimumDeposit));
    assert_eq!(
        v.deposit(10, 1_000_000_000_0000001, &r, 0, 0, 1, 1),
        Err(VaultError::AboveMaximumDeposit)
    );
    assert_eq!(v.withdraw(10, 99_9999999, 0, &r, 0, 0, 1, 1), Err(VaultError::BelowMinimumWithdrawal));
}

#[test]
fn expected_returns_follow_the_scores() {
    let (mut r, id) = project();
    r.update_impact_score(id, 80, 60, 0).unwrap();
    let mut v = InvestmentVault::new(3, 4);
    v.deposit(20, 1_000_0000000, &r, 0, 0, 1, 1).unwrap();
    v.fund_project(id, 500_0000000, &r, 1_000_0000000, 1).unwrap();
    assert_eq!(v.get_expected_returns(&r), Ok(350_0000000));
    assert_eq!(v.total_assets(&r, 500_0000000), Ok(1_350_0000000));
    assert_eq!(v.total_investments(), 500_0000000);
    r.delete_project(id).unwrap();
    assert_eq!(v.get_expected_returns(&r), Err(VaultError::Registry(RegistryError::ProjectNotFound)));
}
