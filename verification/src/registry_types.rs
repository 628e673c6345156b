//! Records, errors and events of the project registry.
use vstd::prelude::*;
use crate::common::{Address, Hash32, copy_bytes};

verus! {

/// A timestamped snapshot of a project's scores, kept as on-chain history.
#[derive(Clone, Copy, PartialEq, Eq, Structural, Debug)]
pub struct ScoreHistoryEntry {
    pub timestamp: u64,
    pub credit_quality: u32,
    pub green_impact: u32,
}

/// Structured error codes of the registry.
#[derive(Clone, Copy, PartialEq, Eq, Structural, Debug)]
pub enum RegistryError {
    /// Creator address is not in the whitelist.
    NotWhitelisted,
    /// Project URI is shorter than the minimum length.
    UriTooShort,
    /// Project URI is longer than the maximum length.
    UriTooLong,
    /// Maturity date is not in the future.
    MaturityDateInPast,
    /// Project ID counter reached `u32::MAX`.
    ProjectLimitReached,
    /// Counter integrity check failed (slot already occupied).
    CounterIntegrityViolation,
    /// Project with the given ID does not exist.
    ProjectNotFound,
    /// Credit quality or green impact score is out of the 0–100 range.
    ScoresOutOfRange,
    /// Caller is not authorised to certify projects.
    NotAuthorizedToCertify,
    /// Voting weight must be positive.
    VotingWeightNotPositive,
    /// Caller has already voted on this proposal.
    AlreadyVoted,
    /// Proposal with the given ID does not exist.
    ProposalNotFound,
    /// Voting period for this proposal has ended.
    VotingPeriodEnded,
    /// Proposal has already been executed.
    ProposalAlreadyExecuted,
    /// Requested voting duration is below the minimum.
    VotingPeriodTooShort,
    /// Voting is still in progress; cannot execute yet.
    VotingStillOpen,
    /// Collateral amount must be positive.
    CollateralNotPositive,
    /// Only the project owner may perform this operation.
    NotProjectOwner,
    /// No collateral balance to release or liquidate.
    NoCollateral,
    /// Project has not yet reached its maturity date.
    ProjectNotMature,
    /// Reputation score is out of the 0–100 range.
    ReputationOutOfRange,
    /// Caller is not authorised to set creator reputation.
    NotAuthorizedReputation,
    /// Credit quality score is out of the 0–100 range.
    CreditQualityOutOfRange,
    /// Multi-sig threshold must be greater than 0 and no larger than signer count.
    InvalidMultiSigThreshold,
    /// Multi-sig signer set is larger than the contract limit.
    TooManyMultiSigSigners,
    /// Approval address is not configured as a multi-sig signer.
    NotMultiSigSigner,
    /// Approval set contains the same signer more than once.
    DuplicateApproval,
    /// The operation did not include enough multi-sig approvals.
    InsufficientApprovals,
    /// Project URI must start with a valid scheme (ipfs://, https://, ar://).
    InvalidUriScheme,
    /// Project cannot be deleted because it has active investments.
    ProjectHasInvestments,
    /// Project is already archived.
    ProjectArchived,
    /// State version mismatch during migration.
    UnsupportedStateVersion,
    /// Score update requested too soon after previous update.
    UpdateTooFrequent,
    /// Project must be archived before it can be compacted.
    ProjectNotArchived,
    /// Circuit breaker is active (paused).
    Paused,
    /// Caller is neither the owner nor the configured emergency admin.
    NotEmergencyAdmin,
    /// Batch score update request exceeds the maximum batch size.
    BatchTooLarge,
    /// Project is already certified with the target status.
    AlreadyCertified,
    /// A proposal description exceeds the maximum length.
    ProposalDescriptionTooLong,
    /// A batch score update received an empty list.
    EmptyBatchUpdate,
    /// `set_project_status` was asked to set or clear `Archived`.
    InvalidStatusTransition,
    /// `set_project_status` was called with the project's current status.
    ProjectStatusUnchanged,
    /// `compact_storage` input exceeds the maximum batch size.
    CompactStorageTooLarge,
    /// A proposal's voting duration exceeds the maximum period.
    VotingPeriodTooLong,
}

/// Third-party certification state of a green project.
#[derive(Clone, Copy, PartialEq, Eq, Structural, Debug)]
pub enum CertificationStatus {
    /// Never certified.
    Uncertified,
    Pending,
    Certified,
    Revoked,
}

/// Lifecycle status of a project. `Pending` is set at creation and `Archived`
/// by `archive_project`; the others by `set_project_status`.
#[derive(Clone, Copy, PartialEq, Eq, Structural, Debug)]
pub enum ProjectStatus {
    Pending,
    Active,
    Funded,
    Completed,
    Archived,
}

/// A registered project.
#[derive(Clone, Debug)]
pub struct ProjectData {
    pub owner: Address,
    pub uri: Vec<u8>,
    pub credit_quality: u32,
    pub green_impact: u32,
    /// Unix timestamp (seconds) after which the project is mature; 0 means none.
    pub maturity_date: u64,
    pub certification_status: CertificationStatus,
    /// Timestamp of the last score update.
    pub last_update_timestamp: u64,
    pub status: ProjectStatus,
    /// Ledger timestamp at project creation.
    pub created_at: u64,
    /// Content hash of the off-chain metadata that `uri` points to.
    pub metadata_hash: Hash32,
}

/// The mathematical value of a [`ProjectData`].
pub struct ProjectInfo {
    pub owner: Address,
    pub uri: Seq<u8>,
    pub credit_quality: u32,
    pub green_impact: u32,
    pub maturity_date: u64,
    pub certification_status: CertificationStatus,
    pub last_update_timestamp: u64,
    pub status: ProjectStatus,
    pub created_at: u64,
    pub metadata_hash: Hash32,
}

impl View for ProjectData {
    type V = ProjectInfo;

    open spec fn view(&self) -> ProjectInfo {
        ProjectInfo {
            owner: self.owner,
            uri: self.uri@,
            credit_quality: self.credit_quality,
            green_impact: self.green_impact,
            maturity_date: self.maturity_date,
            certification_status: self.certification_status,
            last_update_timestamp: self.last_update_timestamp,
            status: self.status,
            created_at: self.created_at,
            metadata_hash: self.metadata_hash,
        }
    }
}

impl ProjectData {
    /// An independent copy of this record.
    pub fn duplicate(&self) -> (r: ProjectData)
        ensures
            r@ == self@,
    {
        ProjectData {
            owner: self.owner,
            uri: copy_bytes(&self.uri),
            credit_quality: self.credit_quality,
            green_impact: self.green_impact,
            maturity_date: self.maturity_date,
            certification_status: self.certification_status,
            last_update_timestamp: self.last_update_timestamp,
            status: self.status,
            created_at: self.created_at,
            metadata_hash: self.metadata_hash,
        }
    }
}

/// Compact archive record kept once a project's full data is compacted.
#[derive(Clone, Copy, PartialEq, Eq, Debug)]
pub struct ArchiveSummary {
    pub owner: Address,
    pub final_credit_quality: u32,
    pub final_green_impact: u32,
    pub maturity_date: u64,
    pub certification_status: CertificationStatus,
    /// Preserved so metadata verification keeps working after compaction.
    pub metadata_hash: Hash32,
}

/// A governance proposal that share holders vote on.
#[derive(Clone, Debug)]
pub struct Proposal {
    /// Short human-readable description of the proposal.
    pub description: Vec<u8>,
    /// Address that created the proposal.
    pub proposer: Address,
    /// Ledger timestamp after which no more votes are accepted.
    pub voting_ends_at: u64,
    /// Weighted votes in favour.
    pub votes_for: i128,
    /// Weighted votes against.
    pub votes_against: i128,
    /// True once the proposal outcome has been finalised.
    pub executed: bool,
}

/// The mathematical value of a [`Proposal`].
pub struct ProposalInfo {
    pub description: Seq<u8>,
    pub proposer: Address,
    pub voting_ends_at: u64,
    pub votes_for: i128,
    pub votes_against: i128,
    pub executed: bool,
}

impl View for Proposal {
    type V = ProposalInfo;

    open spec fn view(&self) -> ProposalInfo {
        ProposalInfo {
            description: self.description@,
            proposer: self.proposer,
            voting_ends_at: self.voting_ends_at,
            votes_for: self.votes_for,
            votes_against: self.votes_against,
            executed: self.executed,
        }
    }
}

impl Proposal {
    /// An independent copy of this record.
    pub fn duplicate(&self) -> (r: Proposal)
        ensures
            r@ == self@,
    {
        Proposal {
            description: copy_bytes(&self.description),
            proposer: self.proposer,
            voting_ends_at: self.voting_ends_at,
            votes_for: self.votes_for,
            votes_against: self.votes_against,
            executed: self.executed,
        }
    }
}

/// Consolidated operational status for monitoring integrations.
#[derive(Clone, Copy, PartialEq, Eq, Structural, Debug)]
pub struct HealthStatus {
    pub state_version: u32,
    pub is_paused: bool,
    pub total_projects: u32,
    pub has_emergency_admin: bool,
}

/// Events the registry emits for off-chain indexers.
#[derive(Clone, Copy, PartialEq, Eq, Debug)]
pub enum RegistryEvent {
    ProjectCreated { project_id: u32, owner: Address },
    ProjectUpdated { project_id: u32, credit_quality: u32, green_impact: u32 },
    CreditQualityUpdated { project_id: u32, credit_quality: u32 },
    RateUpdated { project_id: u32, rate_bps: u32 },
    ScoreChanged {
        project_id: u32,
        old_credit_quality: u32,
        new_credit_quality: u32,
        old_green_impact: u32,
        new_green_impact: u32,
        old_rate_bps: u32,
        new_rate_bps: u32,
    },
    ProjectArchived { project_id: u32 },
    ProjectStatusChanged { project_id: u32, old_status: ProjectStatus, new_status: ProjectStatus },
    ProjectDeleted { project_id: u32 },
    ProjectCompacted { project_id: u32 },
    CollateralDeposited { project_id: u32, token: Address, depositor: Address, amount: i128 },
    CollateralReleased { project_id: u32, token: Address, receiver: Address, amount: i128 },
    CollateralLiquidated { project_id: u32, token: Address, recipient: Address, amount: i128 },
    WhitelistSet { account: Address, status: bool },
    ProjectCertified { project_id: u32, status: CertificationStatus },
    ProposalCreated { proposal_id: u32, proposer: Address, voting_ends_at: u64 },
    VoteCast { proposal_id: u32, voter: Address, support: bool, weight: i128 },
    ProposalExecuted { proposal_id: u32, passed: bool },
    ReputationUpdated { creator: Address, score: u32 },
    RegistryPaused,
    RegistryUnpaused,
    EmergencyAdminChanged { new_emergency_admin: Option<Address> },
    WhitelisterChanged { old_whitelister: Address, new_whitelister: Address },
}

} // verus!
