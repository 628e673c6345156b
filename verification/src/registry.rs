//! The project registry: whitelisted creators register green-bond projects,
//! an oracle-admin scores them, and share holders govern through proposals.
//!
//! [`ProjectRegistry`] holds the contract's own ledger entries as plain
//! values. The ledger host supplies what the registry cannot know by itself
//! (the current time, the owner managed by the ownership module, caller
//! authorisation) and carries out the token transfers and event publication
//! that the registry's results describe.
use vstd::prelude::*;
use std::collections::{BTreeMap, BTreeSet};
use crate::common::{Address, Hash32, hash_eq, copy_bytes, has_prefix, starts_with};
use crate::rate::{MAX_SCORE, compute_rate, project_rate, lemma_scores_in_range};
use crate::registry_types::{
    ArchiveSummary, CertificationStatus, HealthStatus, ProjectData, ProjectInfo, ProjectStatus,
    Proposal, ProposalInfo, RegistryError, RegistryEvent, ScoreHistoryEntry,
};
use crate::multisig;

verus! {

/// Maximum URI length in bytes.
pub const MAX_URI_LEN: u32 = 512;

/// Minimum URI length: a scheme and at least one more byte.
pub const MIN_URI_LEN: u32 = 8;

/// Maximum proposal description length in bytes.
pub const MAX_PROPOSAL_DESCRIPTION_LEN: u32 = 2048;

/// Schema version of the state this build understands.
pub const STATE_VERSION: u32 = 1;

/// Largest multi-sig signer set.
pub const MAX_MULTISIG_SIGNERS: u32 = 10;

/// Number of score-history entries retained per project.
pub const MAX_SCORE_HISTORY: u32 = 50;

/// Largest batch of score updates in one call.
pub const MAX_BATCH_SCORE_SIZE: u32 = 20;

/// Largest project-id or token list in one `compact_storage` call.
pub const MAX_COMPACT_STORAGE_SIZE: u32 = 20;

/// Longest voting period: 30 days.
pub const MAX_VOTING_PERIOD: u64 = 30 * 86_400;

/// Shortest voting period: one day.
pub const MIN_VOTING_PERIOD: u64 = 86_400;


/// The abstract state of a registry.
#[verifier::ext_equal]
pub struct RegistryState {
    pub state_version: u32,
    pub whitelister: Address,
    pub project_counter: u32,
    pub projects: Map<u32, ProjectInfo>,
    pub whitelist: Map<Address, bool>,
    pub proposal_counter: u32,
    pub proposals: Map<u32, ProposalInfo>,
    pub has_voted: Set<(u32, Address)>,
    pub archives: Map<u32, ArchiveSummary>,
    pub collateral: Map<(u32, Address), i128>,
    pub reputation: Map<Address, u32>,
    pub multisig_signers: Seq<Address>,
    pub multisig_threshold: u32,
    /// Every score snapshot ever recorded for each project, oldest first.
    pub score_history: Map<u32, Seq<ScoreHistoryEntry>>,
    pub paused: bool,
    pub emergency_admin: Option<Address>,
    /// Events emitted so far, oldest first.
    pub events: Seq<RegistryEvent>,
}

/// The registry's ledger entries.
pub struct ProjectRegistry {
    state_version: u32,
    whitelister: Address,
    project_counter: u32,
    projects: BTreeMap<u32, ProjectData>,
    whitelist: BTreeMap<Address, bool>,
    proposal_counter: u32,
    proposals: BTreeMap<u32, Proposal>,
    has_voted: BTreeSet<(u32, Address)>,
    archives: BTreeMap<u32, ArchiveSummary>,
    collateral: BTreeMap<(u32, Address), i128>,
    reputation: BTreeMap<Address, u32>,
    multisig_signers: Vec<Address>,
    multisig_threshold: u32,
    score_slots: BTreeMap<(u32, u32), ScoreHistoryEntry>,
    score_totals: BTreeMap<u32, u32>,
    score_log: Ghost<Map<u32, Seq<ScoreHistoryEntry>>>,
    paused: bool,
    emergency_admin: Option<Address>,
    events: Vec<RegistryEvent>,
}

/// The projects of a registry, by value.
pub open spec fn project_views(m: Map<u32, ProjectData>) -> Map<u32, ProjectInfo> {
    m.map_values(|p: ProjectData| p@)
}

/// The proposals of a registry, by value.
pub open spec fn proposal_views(m: Map<u32, Proposal>) -> Map<u32, ProposalInfo> {
    m.map_values(|p: Proposal| p@)
}

impl View for ProjectRegistry {
    type V = RegistryState;

    closed spec fn view(&self) -> RegistryState {
        RegistryState {
            state_version: self.state_version,
            whitelister: self.whitelister,
            project_counter: self.project_counter,
            projects: project_views(self.projects@),
            whitelist: self.whitelist@,
            proposal_counter: self.proposal_counter,
            proposals: proposal_views(self.proposals@),
            has_voted: self.has_voted@,
            archives: self.archives@,
            collateral: self.collateral@,
            reputation: self.reputation@,
            multisig_signers: self.multisig_signers@,
            multisig_threshold: self.multisig_threshold,
            score_history: self.score_log@,
            paused: self.paused,
            emergency_admin: self.emergency_admin,
            events: self.events@,
        }
    }
}

/// The recorded score history of a project (empty when none was recorded).
pub open spec fn history_of(s: RegistryState, project_id: u32) -> Seq<ScoreHistoryEntry> {
    if s.score_history.contains_key(project_id) {
        s.score_history[project_id]
    } else {
        Seq::empty()
    }
}

/// The retained part of a history: its last `MAX_SCORE_HISTORY` entries.
pub open spec fn retained(h: Seq<ScoreHistoryEntry>) -> Seq<ScoreHistoryEntry> {
    if h.len() <= MAX_SCORE_HISTORY {
        h
    } else {
        h.subrange(h.len() - MAX_SCORE_HISTORY, h.len() as int)
    }
}

/// Whether the stored schema version is one this build accepts (0 marks a
/// deployment that predates versioning).
pub open spec fn state_ok(s: RegistryState) -> bool {
    s.state_version == 0 || s.state_version == STATE_VERSION
}

/// Whether `account` may create projects.
pub open spec fn whitelisted(s: RegistryState, account: Address) -> bool {
    s.whitelist.contains_key(account) && s.whitelist[account]
}

/// The scores of every project, and every creator's reputation, stay within
/// 0–100.
pub open spec fn scores_bounded(s: RegistryState) -> bool {
    &&& forall|id: u32|
        #![trigger s.projects[id]]
        s.projects.contains_key(id) ==> s.projects[id].credit_quality <= MAX_SCORE
            && s.projects[id].green_impact <= MAX_SCORE
    &&& forall|a: Address|
        #![trigger s.reputation[a]]
        s.reputation.contains_key(a) ==> s.reputation[a] <= MAX_SCORE
}

/// Every stored project and proposal has an id its counter has handed out.
pub open spec fn ids_bounded(s: RegistryState) -> bool {
    &&& forall|id: u32|
        #![trigger s.projects.contains_key(id)]
        s.projects.contains_key(id) ==> 1 <= id <= s.project_counter
    &&& forall|id: u32|
        #![trigger s.proposals.contains_key(id)]
        s.proposals.contains_key(id) ==> 1 <= id <= s.proposal_counter
}

/// `ipfs://`
pub open spec fn ipfs_scheme() -> Seq<u8> {
    seq![105u8, 112u8, 102u8, 115u8, 58u8, 47u8, 47u8]
}

/// `https://`
pub open spec fn https_scheme() -> Seq<u8> {
    seq![104u8, 116u8, 116u8, 112u8, 115u8, 58u8, 47u8, 47u8]
}

/// `ar://`
pub open spec fn ar_scheme() -> Seq<u8> {
    seq![97u8, 114u8, 58u8, 47u8, 47u8]
}

/// A project URI must start with `ipfs://`, `https://` or `ar://`.
pub open spec fn has_valid_scheme(uri: Seq<u8>) -> bool {
    ||| has_prefix(uri, ipfs_scheme())
    ||| has_prefix(uri, https_scheme())
    ||| has_prefix(uri, ar_scheme())
}

/// The first check that `create_project` fails, if any.
pub open spec fn create_project_error(
    s: RegistryState,
    creator: Address,
    uri: Seq<u8>,
    maturity_date: u64,
    now: u64,
) -> Option<RegistryError> {
    if s.paused {
        Some(RegistryError::Paused)
    } else if !state_ok(s) {
        Some(RegistryError::UnsupportedStateVersion)
    } else if !whitelisted(s, creator) {
        Some(RegistryError::NotWhitelisted)
    } else if uri.len() < MIN_URI_LEN {
        Some(RegistryError::UriTooShort)
    } else if uri.len() > MAX_URI_LEN {
        Some(RegistryError::UriTooLong)
    } else if !has_valid_scheme(uri) {
        Some(RegistryError::InvalidUriScheme)
    } else if maturity_date > 0 && maturity_date <= now {
        Some(RegistryError::MaturityDateInPast)
    } else if s.project_counter == u32::MAX {
        Some(RegistryError::ProjectLimitReached)
    } else if s.projects.contains_key((s.project_counter + 1) as u32) {
        Some(RegistryError::CounterIntegrityViolation)
    } else {
        None
    }
}

/// The record of a freshly created project.
pub open spec fn new_project(
    creator: Address,
    uri: Seq<u8>,
    maturity_date: u64,
    now: u64,
    metadata_hash: Hash32,
) -> ProjectInfo {
    ProjectInfo {
        owner: creator,
        uri,
        credit_quality: 0,
        green_impact: 0,
        maturity_date,
        certification_status: CertificationStatus::Uncertified,
        last_update_timestamp: 0,
        status: ProjectStatus::Pending,
        created_at: now,
        metadata_hash,
    }
}

/// The state after a successful `create_project`: the project takes the next
/// id, and a `ProjectCreated` event is emitted.
pub open spec fn after_create_project(
    s: RegistryState,
    creator: Address,
    uri: Seq<u8>,
    maturity_date: u64,
    now: u64,
    metadata_hash: Hash32,
) -> RegistryState {
    let id = (s.project_counter + 1) as u32;
    RegistryState {
        projects: s.projects.insert(id, new_project(creator, uri, maturity_date, now, metadata_hash)),
        project_counter: id,
        events: s.events.push(RegistryEvent::ProjectCreated { project_id: id, owner: creator }),
        ..s
    }
}

/// Whether `uri` starts with one of the accepted schemes.
pub fn uri_has_valid_scheme(uri: &Vec<u8>) -> (r: bool)
    ensures
        r == has_valid_scheme(uri@),
{
    let ipfs: [u8; 7] = [105u8, 112u8, 102u8, 115u8, 58u8, 47u8, 47u8];
    let https: [u8; 8] = [104u8, 116u8, 116u8, 112u8, 115u8, 58u8, 47u8, 47u8];
    let ar: [u8; 5] = [97u8, 114u8, 58u8, 47u8, 47u8];
    assert(ipfs@ =~= ipfs_scheme());
    assert(https@ =~= https_scheme());
    assert(ar@ =~= ar_scheme());
    starts_with(uri.as_slice(), ipfs.as_slice()) || starts_with(uri.as_slice(), https.as_slice())
        || starts_with(uri.as_slice(), ar.as_slice())
}

/// The history map after recording one more snapshot for `project_id`.
pub open spec fn record_history(
    s: RegistryState,
    project_id: u32,
    entry: ScoreHistoryEntry,
) -> Map<u32, Seq<ScoreHistoryEntry>> {
    s.score_history.insert(project_id, history_of(s, project_id).push(entry))
}

/// The outcome of setting both scores of a project (no pause or multi-sig
/// checks): identical scores leave the state unchanged; new scores are
/// recorded with the time, three events and a history snapshot.
pub open spec fn impact_update(
    s: RegistryState,
    project_id: u32,
    credit_quality: u32,
    green_impact: u32,
    now: u64,
) -> Result<RegistryState, RegistryError> {
    if credit_quality > MAX_SCORE || green_impact > MAX_SCORE {
        Err(RegistryError::ScoresOutOfRange)
    } else if !s.projects.contains_key(project_id) {
        Err(RegistryError::ProjectNotFound)
    } else if s.projects[project_id].status == ProjectStatus::Archived {
        Err(RegistryError::ProjectArchived)
    } else if s.projects[project_id].credit_quality == credit_quality
        && s.projects[project_id].green_impact == green_impact {
        Ok(s)
    } else {
        let p = s.projects[project_id];
        let old_rate = project_rate(p.credit_quality as int, p.green_impact as int) as u32;
        let new_rate = project_rate(credit_quality as int, green_impact as int) as u32;
        Ok(
            RegistryState {
                projects: s.projects.insert(
                    project_id,
                    ProjectInfo {
                        credit_quality,
                        green_impact,
                        last_update_timestamp: now,
                        ..p
                    },
                ),
                events: s.events + seq![
                    RegistryEvent::ProjectUpdated { project_id, credit_quality, green_impact },
                    RegistryEvent::RateUpdated { project_id, rate_bps: new_rate },
                    RegistryEvent::ScoreChanged {
                        project_id,
                        old_credit_quality: p.credit_quality,
                        new_credit_quality: credit_quality,
                        old_green_impact: p.green_impact,
                        new_green_impact: green_impact,
                        old_rate_bps: old_rate,
                        new_rate_bps: new_rate,
                    }
                ],
                score_history: record_history(
                    s,
                    project_id,
                    ScoreHistoryEntry { timestamp: now, credit_quality, green_impact },
                ),
                ..s
            },
        )
    }
}

/// Sequential application of a batch of `(project_id, credit_quality,
/// green_impact)` updates; the first failing entry fails the whole batch.
pub open spec fn batch_update(s: RegistryState, updates: Seq<(u32, u32, u32)>, now: u64) -> Result<
    RegistryState,
    RegistryError,
>
    decreases updates.len(),
{
    if updates.len() == 0 {
        Ok(s)
    } else {
        match batch_update(s, updates.drop_last(), now) {
            Ok(s2) => impact_update(
                s2,
                updates.last().0,
                updates.last().1,
                updates.last().2,
                now,
            ),
            Err(e) => Err(e),
        }
    }
}

/// Every project of a batch has room for the snapshots the batch may record.
pub open spec fn batch_history_room(s: RegistryState, updates: Seq<(u32, u32, u32)>) -> bool {
    forall|i: int|
        0 <= i < updates.len() ==> history_of(s, #[trigger] updates[i].0).len()
            + MAX_BATCH_SCORE_SIZE < u32::MAX
}

/// The outcome of setting only the credit-quality score (no pause or
/// multi-sig checks).
pub open spec fn credit_update(s: RegistryState, project_id: u32, credit_quality: u32, now: u64) -> Result<
    RegistryState,
    RegistryError,
> {
    if credit_quality > MAX_SCORE {
        Err(RegistryError::CreditQualityOutOfRange)
    } else if !s.projects.contains_key(project_id) {
        Err(RegistryError::ProjectNotFound)
    } else if s.projects[project_id].status == ProjectStatus::Archived {
        Err(RegistryError::ProjectArchived)
    } else if s.projects[project_id].credit_quality == credit_quality {
        Ok(s)
    } else {
        let p = s.projects[project_id];
        let old_rate = project_rate(p.credit_quality as int, p.green_impact as int) as u32;
        let new_rate = project_rate(credit_quality as int, p.green_impact as int) as u32;
        Ok(
            RegistryState {
                projects: s.projects.insert(
                    project_id,
                    ProjectInfo { credit_quality, last_update_timestamp: now, ..p },
                ),
                events: s.events + seq![
                    RegistryEvent::CreditQualityUpdated { project_id, credit_quality },
                    RegistryEvent::ScoreChanged {
                        project_id,
                        old_credit_quality: p.credit_quality,
                        new_credit_quality: credit_quality,
                        old_green_impact: p.green_impact,
                        new_green_impact: p.green_impact,
                        old_rate_bps: old_rate,
                        new_rate_bps: new_rate,
                    }
                ],
                score_history: record_history(
                    s,
                    project_id,
                    ScoreHistoryEntry {
                        timestamp: now,
                        credit_quality,
                        green_impact: p.green_impact,
                    },
                ),
                ..s
            },
        )
    }
}

/// The registry error for a failed multi-sig approval check.
pub open spec fn approval_error(e: multisig::ApprovalError) -> RegistryError {
    match e {
        multisig::ApprovalError::InvalidThreshold => RegistryError::InvalidMultiSigThreshold,
        multisig::ApprovalError::DuplicateApproval => RegistryError::DuplicateApproval,
        multisig::ApprovalError::NotSigner => RegistryError::NotMultiSigSigner,
        multisig::ApprovalError::InsufficientApprovals => RegistryError::InsufficientApprovals,
    }
}

/// The outcome of checking admin approvals against the configured signers:
/// the addresses whose authorisation the host must require, or the error.
pub open spec fn admin_approval(s: RegistryState, owner: Address, approvals: Seq<Address>) -> Result<
    Seq<Address>,
    RegistryError,
> {
    match multisig::approval_outcome(owner, s.multisig_threshold, s.multisig_signers, approvals) {
        Ok(v) => Ok(v),
        Err(e) => Err(approval_error(e)),
    }
}

/// The registry error for an invalid multi-sig configuration.
pub open spec fn config_error(e: multisig::ConfigError) -> RegistryError {
    match e {
        multisig::ConfigError::TooManySigners => RegistryError::TooManyMultiSigSigners,
        multisig::ConfigError::InvalidThreshold => RegistryError::InvalidMultiSigThreshold,
        multisig::ConfigError::DuplicateSigner => RegistryError::DuplicateApproval,
    }
}

/// A state-changing outcome preceded by the pause check and, for
/// single-owner entry points, the multi-sig-disabled check.
pub open spec fn guarded(
    s: RegistryState,
    single_owner: bool,
    outcome: Result<RegistryState, RegistryError>,
) -> Result<RegistryState, RegistryError> {
    if s.paused {
        Err(RegistryError::Paused)
    } else if single_owner && s.multisig_threshold != 0 {
        Err(RegistryError::InsufficientApprovals)
    } else {
        outcome
    }
}

/// The outcome of a batch entry point after its own checks: an empty or
/// oversized batch is rejected before any entry is applied.
pub open spec fn checked_batch(s: RegistryState, updates: Seq<(u32, u32, u32)>, now: u64) -> Result<
    RegistryState,
    RegistryError,
> {
    if updates.len() == 0 {
        Err(RegistryError::EmptyBatchUpdate)
    } else if updates.len() > MAX_BATCH_SCORE_SIZE {
        Err(RegistryError::BatchTooLarge)
    } else {
        batch_update(s, updates, now)
    }
}

/// Two states agree on everything a score update leaves alone.
pub open spec fn score_frame(a: RegistryState, b: RegistryState) -> bool {
    &&& a.state_version == b.state_version
    &&& a.whitelister == b.whitelister
    &&& a.project_counter == b.project_counter
    &&& a.whitelist == b.whitelist
    &&& a.proposal_counter == b.proposal_counter
    &&& a.proposals == b.proposals
    &&& a.has_voted == b.has_voted
    &&& a.archives == b.archives
    &&& a.collateral == b.collateral
    &&& a.reputation == b.reputation
    &&& a.multisig_signers == b.multisig_signers
    &&& a.multisig_threshold == b.multisig_threshold
    &&& a.paused == b.paused
    &&& a.emergency_admin == b.emergency_admin
}

/// A single score update only appends to the event log and the histories.
pub proof fn lemma_impact_update_appends(
    s: RegistryState,
    project_id: u32,
    credit_quality: u32,
    green_impact: u32,
    now: u64,
)
    requires
        impact_update(s, project_id, credit_quality, green_impact, now) is Ok,
    ensures
        ({
            let s2 = impact_update(s, project_id, credit_quality, green_impact, now)->Ok_0;
            &&& score_frame(s2, s)
            &&& s2.events.len() >= s.events.len()
            &&& s2.events.subrange(0, s.events.len() as int) == s.events
            &&& forall|id: u32| #[trigger]
                history_of(s2, id).len() <= history_of(s, id).len() + 1
        }),
{
    let s2 = impact_update(s, project_id, credit_quality, green_impact, now)->Ok_0;
    assert(s2.events.subrange(0, s.events.len() as int) =~= s.events);
}

/// A failing batch prefix makes the whole batch fail with the same error.
pub proof fn lemma_batch_error_extends(
    s: RegistryState,
    updates: Seq<(u32, u32, u32)>,
    i: int,
    now: u64,
)
    requires
        0 <= i <= updates.len(),
        batch_update(s, updates.take(i), now) is Err,
    ensures
        batch_update(s, updates, now) == batch_update(s, updates.take(i), now),
    decreases updates.len() - i,
{
    if i < updates.len() {
        assert(updates.take(i + 1).drop_last() =~= updates.take(i));
        lemma_batch_error_extends(s, updates, i + 1, now);
    } else {
        assert(updates.take(i) =~= updates);
    }
}

/// Whether a listing includes project `id`.
pub open spec fn listed_at(s: RegistryState, id: int, include_archived: bool) -> bool {
    &&& 0 <= id <= u32::MAX
    &&& s.projects.contains_key(id as u32)
    &&& (include_archived || s.projects[id as u32].status != ProjectStatus::Archived)
}

/// The `(id, project)` pairs of the listed projects with ids in `[lo, hi)`,
/// in ascending id order.
pub open spec fn listing(s: RegistryState, lo: int, hi: int, include_archived: bool) -> Seq<
    (u32, ProjectInfo),
>
    decreases hi - lo,
{
    if hi <= lo {
        Seq::empty()
    } else if listed_at(s, hi - 1, include_archived) {
        listing(s, lo, hi - 1, include_archived).push(
            ((hi - 1) as u32, s.projects[(hi - 1) as u32]),
        )
    } else {
        listing(s, lo, hi - 1, include_archived)
    }
}

/// The values of a listing returned by the registry.
pub open spec fn listing_view(v: Seq<(u32, ProjectData)>) -> Seq<(u32, ProjectInfo)> {
    v.map_values(|e: (u32, ProjectData)| (e.0, e.1@))
}

/// The id range `[start, end)` that `get_projects_page(offset, limit)` scans.
pub open spec fn page_range(offset: u32, limit: u32, counter: u32) -> (int, int) {
    let start = if offset + 1 > u32::MAX { u32::MAX as int } else { offset + 1 };
    let end_a = if start + limit > u32::MAX { u32::MAX as int } else { start + limit };
    let end_b = if counter + 1 > u32::MAX { u32::MAX as int } else { counter + 1 };
    (start, if end_a < end_b { end_a } else { end_b })
}

/// The projects `get_projects_page` returns.
pub open spec fn page(s: RegistryState, offset: u32, limit: u32) -> Seq<(u32, ProjectInfo)> {
    if limit == 0 {
        Seq::empty()
    } else {
        let (start, end) = page_range(offset, limit, s.project_counter);
        listing(s, start, end, false)
    }
}

/// Adjacent id ranges list adjacent runs of projects.
pub proof fn lemma_listing_concat(s: RegistryState, a: int, b: int, c: int, include_archived: bool)
    requires
        a <= b <= c,
    ensures
        listing(s, a, b, include_archived) + listing(s, b, c, include_archived) == listing(
            s,
            a,
            c,
            include_archived,
        ),
    decreases c - b,
{
    if c == b {
        assert(listing(s, a, b, include_archived) + listing(s, b, c, include_archived)
            =~= listing(s, a, c, include_archived));
    } else {
        lemma_listing_concat(s, a, b, c - 1, include_archived);
        if listed_at(s, c - 1, include_archived) {
            assert(listing(s, a, b, include_archived) + listing(s, b, c, include_archived)
                =~= (listing(s, a, b, include_archived) + listing(s, b, c - 1, include_archived)).push(
                ((c - 1) as u32, s.projects[(c - 1) as u32]),
            ));
        }
    }
}

/// The outcome of `certify_project`.
pub open spec fn certify_outcome(
    s: RegistryState,
    caller: Address,
    owner: Address,
    project_id: u32,
    status: CertificationStatus,
) -> Result<RegistryState, RegistryError> {
    if s.paused {
        Err(RegistryError::Paused)
    } else if !state_ok(s) {
        Err(RegistryError::UnsupportedStateVersion)
    } else if caller != s.whitelister && caller != owner {
        Err(RegistryError::NotAuthorizedToCertify)
    } else if !s.projects.contains_key(project_id) {
        Err(RegistryError::ProjectNotFound)
    } else if s.projects[project_id].status == ProjectStatus::Archived {
        Err(RegistryError::ProjectArchived)
    } else if s.projects[project_id].certification_status == status {
        Err(RegistryError::AlreadyCertified)
    } else {
        Ok(
            RegistryState {
                projects: s.projects.insert(
                    project_id,
                    ProjectInfo { certification_status: status, ..s.projects[project_id] },
                ),
                events: s.events.push(RegistryEvent::ProjectCertified { project_id, status }),
                ..s
            },
        )
    }
}

/// The outcome of `set_project_status`.
pub open spec fn status_outcome(s: RegistryState, project_id: u32, status: ProjectStatus) -> Result<
    RegistryState,
    RegistryError,
> {
    if s.paused {
        Err(RegistryError::Paused)
    } else if !state_ok(s) {
        Err(RegistryError::UnsupportedStateVersion)
    } else if !s.projects.contains_key(project_id) {
        Err(RegistryError::ProjectNotFound)
    } else if s.projects[project_id].status == ProjectStatus::Archived || status
        == ProjectStatus::Archived {
        Err(RegistryError::InvalidStatusTransition)
    } else if s.projects[project_id].status == status {
        Err(RegistryError::ProjectStatusUnchanged)
    } else {
        let p = s.projects[project_id];
        Ok(
            RegistryState {
                projects: s.projects.insert(project_id, ProjectInfo { status, ..p }),
                events: s.events.push(
                    RegistryEvent::ProjectStatusChanged {
                        project_id,
                        old_status: p.status,
                        new_status: status,
                    },
                ),
                ..s
            },
        )
    }
}

/// The compact summary kept for a compacted project.
pub open spec fn summary_of(p: ProjectInfo) -> ArchiveSummary {
    ArchiveSummary {
        owner: p.owner,
        final_credit_quality: p.credit_quality,
        final_green_impact: p.green_impact,
        maturity_date: p.maturity_date,
        certification_status: p.certification_status,
        metadata_hash: p.metadata_hash,
    }
}

/// The outcome of `migrate_state(from_version)`: the stored version must
/// equal `from_version` and must not be newer than this build's; the stored
/// version then becomes `STATE_VERSION`.
pub open spec fn migrate_outcome(s: RegistryState, from_version: u32) -> Result<
    RegistryState,
    RegistryError,
> {
    if s.state_version != from_version || s.state_version > STATE_VERSION {
        Err(RegistryError::UnsupportedStateVersion)
    } else {
        Ok(RegistryState { state_version: STATE_VERSION, ..s })
    }
}

/// The first check that `create_proposal` fails, if any.
pub open spec fn create_proposal_error(
    s: RegistryState,
    description: Seq<u8>,
    voting_duration_secs: u64,
) -> Option<RegistryError> {
    if s.paused {
        Some(RegistryError::Paused)
    } else if !state_ok(s) {
        Some(RegistryError::UnsupportedStateVersion)
    } else if voting_duration_secs < MIN_VOTING_PERIOD {
        Some(RegistryError::VotingPeriodTooShort)
    } else if voting_duration_secs > MAX_VOTING_PERIOD {
        Some(RegistryError::VotingPeriodTooLong)
    } else if description.len() > MAX_PROPOSAL_DESCRIPTION_LEN {
        Some(RegistryError::ProposalDescriptionTooLong)
    } else {
        None
    }
}

/// The state after a successful `create_proposal`: the proposal takes the
/// next id, voting closes `voting_duration_secs` after `now`, and a
/// `ProposalCreated` event is emitted.
pub open spec fn after_create_proposal(
    s: RegistryState,
    proposer: Address,
    description: Seq<u8>,
    voting_duration_secs: u64,
    now: u64,
) -> RegistryState {
    let id = (s.proposal_counter + 1) as u32;
    let voting_ends_at = (now + voting_duration_secs) as u64;
    RegistryState {
        proposals: s.proposals.insert(
            id,
            ProposalInfo {
                description,
                proposer,
                voting_ends_at,
                votes_for: 0,
                votes_against: 0,
                executed: false,
            },
        ),
        proposal_counter: id,
        events: s.events.push(RegistryEvent::ProposalCreated { proposal_id: id, proposer, voting_ends_at }),
        ..s
    }
}

/// A vote of positive `weight` on an existing proposal fits its tally.
pub open spec fn tally_room(s: RegistryState, proposal_id: u32, support: bool, weight: i128) -> bool {
    (s.proposals.contains_key(proposal_id) && weight > 0) ==> if support {
        s.proposals[proposal_id].votes_for + weight <= i128::MAX
    } else {
        s.proposals[proposal_id].votes_against + weight <= i128::MAX
    }
}

/// The outcome of `cast_vote`: one vote per voter and proposal, only while
/// voting is open and before execution; the weight is added to the chosen
/// side.
pub open spec fn vote_outcome(
    s: RegistryState,
    voter: Address,
    proposal_id: u32,
    support: bool,
    weight: i128,
    now: u64,
) -> Result<RegistryState, RegistryError> {
    if s.paused {
        Err(RegistryError::Paused)
    } else if !state_ok(s) {
        Err(RegistryError::UnsupportedStateVersion)
    } else if weight <= 0 {
        Err(RegistryError::VotingWeightNotPositive)
    } else if s.has_voted.contains((proposal_id, voter)) {
        Err(RegistryError::AlreadyVoted)
    } else if !s.proposals.contains_key(proposal_id) {
        Err(RegistryError::ProposalNotFound)
    } else if now > s.proposals[proposal_id].voting_ends_at {
        Err(RegistryError::VotingPeriodEnded)
    } else if s.proposals[proposal_id].executed {
        Err(RegistryError::ProposalAlreadyExecuted)
    } else {
        let p = s.proposals[proposal_id];
        let p2 = if support {
            ProposalInfo { votes_for: (p.votes_for + weight) as i128, ..p }
        } else {
            ProposalInfo { votes_against: (p.votes_against + weight) as i128, ..p }
        };
        Ok(
            RegistryState {
                proposals: s.proposals.insert(proposal_id, p2),
                has_voted: s.has_voted.insert((proposal_id, voter)),
                events: s.events.push(RegistryEvent::VoteCast { proposal_id, voter, support, weight }),
                ..s
            },
        )
    }
}

/// The outcome of `execute_proposal`: once voting has closed, the proposal
/// is marked executed (once) and passes when more weight voted for it than
/// against it.
pub open spec fn execute_outcome(s: RegistryState, proposal_id: u32, now: u64) -> Result<
    (RegistryState, bool),
    RegistryError,
> {
    if !state_ok(s) {
        Err(RegistryError::UnsupportedStateVersion)
    } else if !s.proposals.contains_key(proposal_id) {
        Err(RegistryError::ProposalNotFound)
    } else if now <= s.proposals[proposal_id].voting_ends_at {
        Err(RegistryError::VotingStillOpen)
    } else if s.proposals[proposal_id].executed {
        Err(RegistryError::ProposalAlreadyExecuted)
    } else {
        let p = s.proposals[proposal_id];
        let passed = p.votes_for > p.votes_against;
        Ok(
            (
                RegistryState {
                    proposals: s.proposals.insert(proposal_id, ProposalInfo { executed: true, ..p }),
                    events: s.events.push(RegistryEvent::ProposalExecuted { proposal_id, passed }),
                    ..s
                },
                passed,
            ),
        )
    }
}

/// The collateral held for `(project_id, token)` (0 when none).
pub open spec fn collateral_of(s: RegistryState, project_id: u32, token: Address) -> i128 {
    if s.collateral.contains_key((project_id, token)) {
        s.collateral[(project_id, token)]
    } else {
        0
    }
}

/// The outcome of `deposit_collateral`: only the project owner deposits a
/// positive amount for a live project; the amount is added to the
/// project's balance of `token`.
pub open spec fn deposit_outcome(
    s: RegistryState,
    project_id: u32,
    depositor: Address,
    token: Address,
    amount: i128,
) -> Result<RegistryState, RegistryError> {
    if s.paused {
        Err(RegistryError::Paused)
    } else if !state_ok(s) {
        Err(RegistryError::UnsupportedStateVersion)
    } else if amount <= 0 {
        Err(RegistryError::CollateralNotPositive)
    } else if !s.projects.contains_key(project_id) {
        Err(RegistryError::ProjectNotFound)
    } else if s.projects[project_id].status == ProjectStatus::Archived {
        Err(RegistryError::ProjectArchived)
    } else if s.projects[project_id].owner != depositor {
        Err(RegistryError::NotProjectOwner)
    } else {
        Ok(
            RegistryState {
                collateral: s.collateral.insert(
                    (project_id, token),
                    (collateral_of(s, project_id, token) + amount) as i128,
                ),
                events: s.events.push(
                    RegistryEvent::CollateralDeposited { project_id, token, depositor, amount },
                ),
                ..s
            },
        )
    }
}

/// Whether a project may have its collateral released at time `now`: once
/// its maturity date is reached or, without one, while it is `Pending` or
/// `Completed`.
pub open spec fn release_allowed(p: ProjectInfo, now: u64) -> bool {
    if p.maturity_date > 0 {
        now >= p.maturity_date
    } else {
        p.status == ProjectStatus::Completed || p.status == ProjectStatus::Pending
    }
}

/// The outcome of `release_collateral`: the owner takes back the whole
/// balance of `token`, which the registry then returns to them; the result
/// carries the amount to transfer.
pub open spec fn release_outcome(
    s: RegistryState,
    project_id: u32,
    caller: Address,
    token: Address,
    now: u64,
) -> Result<(RegistryState, i128), RegistryError> {
    if s.paused {
        Err(RegistryError::Paused)
    } else if !state_ok(s) {
        Err(RegistryError::UnsupportedStateVersion)
    } else if !s.projects.contains_key(project_id) {
        Err(RegistryError::ProjectNotFound)
    } else if s.projects[project_id].status == ProjectStatus::Archived {
        Err(RegistryError::ProjectArchived)
    } else if s.projects[project_id].owner != caller {
        Err(RegistryError::NotProjectOwner)
    } else if !release_allowed(s.projects[project_id], now) {
        Err(RegistryError::ProjectNotMature)
    } else if collateral_of(s, project_id, token) <= 0 {
        Err(RegistryError::NoCollateral)
    } else {
        let amount = collateral_of(s, project_id, token);
        Ok(
            (
                RegistryState {
                    collateral: s.collateral.remove((project_id, token)),
                    events: s.events.push(
                        RegistryEvent::CollateralReleased {
                            project_id,
                            token,
                            receiver: caller,
                            amount,
                        },
                    ),
                    ..s
                },
                amount,
            ),
        )
    }
}

/// The outcome of liquidating collateral (no multi-sig checks): once the
/// project's maturity date (if any) is reached, its whole balance of
/// `token` goes to `recipient`; the result carries the amount to transfer.
pub open spec fn liquidate_outcome(
    s: RegistryState,
    project_id: u32,
    token: Address,
    recipient: Address,
    now: u64,
) -> Result<(RegistryState, i128), RegistryError> {
    if s.paused {
        Err(RegistryError::Paused)
    } else if !state_ok(s) {
        Err(RegistryError::UnsupportedStateVersion)
    } else if !s.projects.contains_key(project_id) {
        Err(RegistryError::ProjectNotFound)
    } else if s.projects[project_id].maturity_date > 0 && now < s.projects[project_id].maturity_date {
        Err(RegistryError::ProjectNotMature)
    } else if collateral_of(s, project_id, token) <= 0 {
        Err(RegistryError::NoCollateral)
    } else {
        let amount = collateral_of(s, project_id, token);
        Ok(
            (
                RegistryState {
                    collateral: s.collateral.remove((project_id, token)),
                    events: s.events.push(
                        RegistryEvent::CollateralLiquidated { project_id, token, recipient, amount },
                    ),
                    ..s
                },
                amount,
            ),
        )
    }
}

/// The outcome of `set_creator_reputation`.
pub open spec fn reputation_outcome(
    s: RegistryState,
    caller: Address,
    creator: Address,
    score: u32,
    owner: Address,
) -> Result<RegistryState, RegistryError> {
    if s.paused {
        Err(RegistryError::Paused)
    } else if !state_ok(s) {
        Err(RegistryError::UnsupportedStateVersion)
    } else if score > MAX_SCORE {
        Err(RegistryError::ReputationOutOfRange)
    } else if caller != s.whitelister && caller != owner {
        Err(RegistryError::NotAuthorizedReputation)
    } else {
        Ok(
            RegistryState {
                reputation: s.reputation.insert(creator, score),
                events: s.events.push(RegistryEvent::ReputationUpdated { creator, score }),
                ..s
            },
        )
    }
}

/// The reputation of `creator` (0 when never set).
pub open spec fn reputation_of(s: RegistryState, creator: Address) -> u32 {
    if s.reputation.contains_key(creator) {
        s.reputation[creator]
    } else {
        0
    }
}

/// The `(project_id, token)` collateral entries that `compact_storage`
/// visits, in visiting order: every token for the first id, then for the
/// next, and so on.
pub open spec fn compact_keys(project_ids: Seq<u32>, tokens: Seq<Address>) -> Seq<(u32, Address)>
    decreases project_ids.len(),
{
    if project_ids.len() == 0 {
        Seq::empty()
    } else {
        compact_keys(project_ids.drop_last(), tokens) + tokens.map_values(
            |t: Address| (project_ids.last(), t),
        )
    }
}

/// Removing every visited entry that holds zero: the remaining collateral
/// and the number of entries removed.
pub open spec fn compact_run(c: Map<(u32, Address), i128>, keys: Seq<(u32, Address)>) -> (
    Map<(u32, Address), i128>,
    nat,
)
    decreases keys.len(),
{
    if keys.len() == 0 {
        (c, 0)
    } else {
        let (c2, n) = compact_run(c, keys.drop_last());
        let k = keys.last();
        if c2.contains_key(k) && c2[k] == 0 {
            (c2.remove(k), n + 1)
        } else {
            (c2, n)
        }
    }
}

impl ProjectRegistry {
    /// The stored score count of a project (0 when none).
    closed spec fn total_of(&self, project_id: u32) -> u32 {
        if self.score_totals@.contains_key(project_id) {
            self.score_totals@[project_id]
        } else {
            0
        }
    }

    /// The ring-buffer slot of the `k`-th snapshot holds it while retained.
    closed spec fn slot_ok(&self, project_id: u32, k: int) -> bool {
        let h = history_of(self@, project_id);
        (0 <= k < h.len() && h.len() - MAX_SCORE_HISTORY <= k) ==> {
            &&& self.score_slots@.contains_key((project_id, (k % 50) as u32))
            &&& self.score_slots@[(project_id, (k % 50) as u32)] == h[k]
        }
    }

    /// Well-formedness: scores are bounded, every stored id was handed out
    /// by its counter, and the score-history ring buffer holds the last
    /// `MAX_SCORE_HISTORY` snapshots of every project.
    pub closed spec fn wf(&self) -> bool {
        &&& scores_bounded(self@)
        &&& ids_bounded(self@)
        &&& forall|id: u32| #[trigger] self.total_of(id) == history_of(self@, id).len()
        &&& forall|id: u32, k: int| #[trigger] self.slot_ok(id, k)
    }

    /// Initialise the registry with its whitelister (the owner is recorded by
    /// the ownership module).
    pub fn new(whitelister: Address) -> (r: ProjectRegistry)
        ensures
            r.wf(),
            r@ == (RegistryState {
                state_version: STATE_VERSION,
                whitelister,
                project_counter: 0,
                projects: Map::empty(),
                whitelist: Map::empty(),
                proposal_counter: 0,
                proposals: Map::empty(),
                has_voted: Set::empty(),
                archives: Map::empty(),
                collateral: Map::empty(),
                reputation: Map::empty(),
                multisig_signers: Seq::empty(),
                multisig_threshold: 0,
                score_history: Map::empty(),
                paused: false,
                emergency_admin: None,
                events: Seq::empty(),
            }),
    {
        let r = ProjectRegistry {
            state_version: STATE_VERSION,
            whitelister,
            project_counter: 0,
            projects: BTreeMap::new(),
            whitelist: BTreeMap::new(),
            proposal_counter: 0,
            proposals: BTreeMap::new(),
            has_voted: BTreeSet::new(),
            archives: BTreeMap::new(),
            collateral: BTreeMap::new(),
            reputation: BTreeMap::new(),
            multisig_signers: Vec::new(),
            multisig_threshold: 0,
            score_slots: BTreeMap::new(),
            score_totals: BTreeMap::new(),
            score_log: Ghost(Map::empty()),
            paused: false,
            emergency_admin: None,
            events: Vec::new(),
        };
        assert(project_views(r.projects@) =~= Map::empty());
        assert(proposal_views(r.proposals@) =~= Map::empty());
        assert forall|id: u32| #[trigger] r.total_of(id) == history_of(r@, id).len() by {}
        assert forall|id: u32, k: int| #[trigger] r.slot_ok(id, k) by {}
        r
    }

    /// The state schema version this build supports.
    pub fn state_version(&self) -> (r: u32)
        ensures
            r == STATE_VERSION,
    {
        STATE_VERSION
    }

    /// The version recorded in storage (0 for unversioned deployments).
    pub fn stored_state_version(&self) -> (r: u32)
        ensures
            r == self@.state_version,
    {
        self.state_version
    }

    /// The stored schema version.
    fn read_state_version(&self) -> (r: u32)
        ensures
            r == self@.state_version,
    {
        self.state_version
    }

    /// Reject calls against a stored schema this build does not understand.
    fn require_current_state(&self) -> (r: Result<(), RegistryError>)
        ensures
            r is Ok <==> state_ok(self@),
            r is Err ==> r == Err::<(), RegistryError>(RegistryError::UnsupportedStateVersion),
    {
        let current = self.read_state_version();
        if current != 0 && current != STATE_VERSION {
            return Err(RegistryError::UnsupportedStateVersion);
        }
        Ok(())
    }

    /// Reject state-changing calls while the circuit breaker is engaged.
    fn require_not_paused(&self) -> (r: Result<(), RegistryError>)
        ensures
            r is Ok <==> !self@.paused,
            r is Err ==> r == Err::<(), RegistryError>(RegistryError::Paused),
    {
        if self.paused {
            return Err(RegistryError::Paused);
        }
        Ok(())
    }

    /// Reads a project record.
    pub fn read_project(&self, id: u32) -> (r: Option<ProjectData>)
        ensures
            match r {
                Some(p) => self@.projects.contains_key(id) && p@ == self@.projects[id],
                None => !self@.projects.contains_key(id),
            },
    {
        match self.projects.get(&id) {
            Some(p) => Some(p.duplicate()),
            None => None,
        }
    }

    /// Writes a project record.
    pub fn write_project(&mut self, id: u32, project: ProjectData)
        requires
            old(self).wf(),
            1 <= id <= old(self)@.project_counter,
            project.credit_quality <= MAX_SCORE,
            project.green_impact <= MAX_SCORE,
        ensures
            final(self).wf(),
            final(self)@ == (RegistryState {
                projects: old(self)@.projects.insert(id, project@),
                ..old(self)@
            }),
    {
        self.projects.insert(id, project);
        proof {
            assert(project_views(self.projects@) =~= project_views(old(self).projects@).insert(
                id,
                project@,
            ));
            self.lemma_wf_frame(&*old(self));
        }
    }

    /// Reads whether `account` may create projects.
    pub fn read_whitelist(&self, account: Address) -> (r: bool)
        ensures
            r == whitelisted(self@, account),
    {
        match self.whitelist.get(&account) {
            Some(v) => *v,
            None => false,
        }
    }

    /// Grants or revokes project-creation rights in storage.
    pub fn write_whitelist(&mut self, account: Address, status: bool)
        requires
            old(self).wf(),
        ensures
            final(self).wf(),
            final(self)@ == (RegistryState {
                whitelist: old(self)@.whitelist.insert(account, status),
                ..old(self)@
            }),
    {
        self.whitelist.insert(account, status);
        proof {
            self.lemma_wf_frame(&*old(self));
        }
    }

    /// Appends an event to the log.
    fn emit(&mut self, event: RegistryEvent)
        requires
            old(self).wf(),
        ensures
            final(self).wf(),
            final(self)@ == (RegistryState { events: old(self)@.events.push(event), ..old(self)@ }),
    {
        self.events.push(event);
        proof {
            self.lemma_wf_frame(&*old(self));
        }
    }

    /// Well-formedness carries over to a state with the same score history
    /// storage whose projects keep bounded scores.
    proof fn lemma_wf_frame(&self, before: &ProjectRegistry)
        requires
            before.wf(),
            scores_bounded(self@),
            ids_bounded(self@),
            self.score_totals@ == before.score_totals@,
            self.score_slots@ == before.score_slots@,
            self.score_log@ == before.score_log@,
        ensures
            self.wf(),
    {
        assert forall|id: u32| #[trigger] self.total_of(id) == history_of(self@, id).len() by {
            assert(before.total_of(id) == history_of(before@, id).len());
        }
        assert forall|id: u32, k: int| #[trigger] self.slot_ok(id, k) by {
            assert(before.slot_ok(id, k));
        }
    }

    /// Grant or revoke project-creation rights for `account`. The host
    /// requires the whitelister's authorisation.
    pub fn set_whitelist(&mut self, account: Address, status: bool) -> (r: Result<
        (),
        RegistryError,
    >)
        requires
            old(self).wf(),
        ensures
            final(self).wf(),
            if old(self)@.paused {
                r == Err::<(), RegistryError>(RegistryError::Paused) && final(self)@ == old(self)@
            } else if !state_ok(old(self)@) {
                r == Err::<(), RegistryError>(RegistryError::UnsupportedStateVersion)
                    && final(self)@ == old(self)@
            } else {
                r is Ok && final(self)@ == (RegistryState {
                    whitelist: old(self)@.whitelist.insert(account, status),
                    events: old(self)@.events.push(RegistryEvent::WhitelistSet { account, status }),
                    ..old(self)@
                })
            },
    {
        self.require_not_paused()?;
        self.require_current_state()?;
        self.write_whitelist(account, status);
        self.emit(RegistryEvent::WhitelistSet { account, status });
        Ok(())
    }

    /// Create a new project owned by `creator` and return its id. Pass
    /// `maturity_date` 0 for an open-ended project. The host requires the
    /// creator's authorisation and supplies the ledger time `now`.
    pub fn create_project(
        &mut self,
        creator: Address,
        uri: Vec<u8>,
        maturity_date: u64,
        metadata_hash: Hash32,
        now: u64,
    ) -> (r: Result<u32, RegistryError>)
        requires
            old(self).wf(),
        ensures
            final(self).wf(),
            match create_project_error(old(self)@, creator, uri@, maturity_date, now) {
                Some(e) => r == Err::<u32, RegistryError>(e) && final(self)@ == old(self)@,
                None => r == Ok::<u32, RegistryError>((old(self)@.project_counter + 1) as u32)
                    && final(self)@ == after_create_project(
                    old(self)@,
                    creator,
                    uri@,
                    maturity_date,
                    now,
                    metadata_hash,
                ),
            },
    {
        self.require_not_paused()?;
        self.require_current_state()?;
        if !self.read_whitelist(creator) {
            return Err(RegistryError::NotWhitelisted);
        }
        let uri_len = uri.len();
        if uri_len < MIN_URI_LEN as usize {
            return Err(RegistryError::UriTooShort);
        }
        if uri_len > MAX_URI_LEN as usize {
            return Err(RegistryError::UriTooLong);
        }
        if !uri_has_valid_scheme(&uri) {
            return Err(RegistryError::InvalidUriScheme);
        }
        if maturity_date > 0 && maturity_date <= now {
            return Err(RegistryError::MaturityDateInPast);
        }
        let counter = self.project_counter;
        if counter == u32::MAX {
            return Err(RegistryError::ProjectLimitReached);
        }
        let project_id = counter + 1;
        if self.projects.contains_key(&project_id) {
            assert(self@.projects.contains_key(project_id));
            return Err(RegistryError::CounterIntegrityViolation);
        }
        let project = ProjectData {
            owner: creator,
            uri,
            credit_quality: 0,
            green_impact: 0,
            maturity_date,
            certification_status: CertificationStatus::Uncertified,
            last_update_timestamp: 0,
            status: ProjectStatus::Pending,
            created_at: now,
            metadata_hash,
        };
        let ghost mid: ProjectRegistry = *self;
        self.project_counter = project_id;
        proof {
            self.lemma_wf_frame(&mid);
        }
        self.write_project(project_id, project);
        self.emit(RegistryEvent::ProjectCreated { project_id, owner: creator });
        Ok(project_id)
    }

    /// Return the project with id `id`.
    pub fn get_project(&self, id: u32) -> (r: Result<ProjectData, RegistryError>)
        ensures
            if !state_ok(self@) {
                r == Err::<ProjectData, RegistryError>(RegistryError::UnsupportedStateVersion)
            } else if !self@.projects.contains_key(id) {
                r == Err::<ProjectData, RegistryError>(RegistryError::ProjectNotFound)
            } else {
                r matches Ok(p) && p@ == self@.projects[id]
            },
    {
        self.require_current_state()?;
        match self.read_project(id) {
            Some(p) => Ok(p),
            None => Err(RegistryError::ProjectNotFound),
        }
    }

    /// The current project counter: the highest id assigned so far.
    pub fn total_projects(&self) -> (r: Result<u32, RegistryError>)
        ensures
            if state_ok(self@) {
                r == Ok::<u32, RegistryError>(self@.project_counter)
            } else {
                r == Err::<u32, RegistryError>(RegistryError::UnsupportedStateVersion)
            },
    {
        self.require_current_state()?;
        Ok(self.project_counter)
    }

    /// The number of score snapshots ever recorded for a project, including
    /// those the ring buffer no longer retains.
    pub fn score_update_count(&self, project_id: u32) -> (r: u32)
        requires
            self.wf(),
        ensures
            r == history_of(self@, project_id).len(),
    {
        let total: u32 = match self.score_totals.get(&project_id) {
            Some(t) => *t,
            None => 0,
        };
        proof {
            assert(self.total_of(project_id) == history_of(self@, project_id).len());
        }
        total
    }

    /// Append a score snapshot to the project's ring buffer.
    fn append_score_history(
        &mut self,
        project_id: u32,
        credit_quality: u32,
        green_impact: u32,
        now: u64,
    )
        requires
            old(self).wf(),
            history_of(old(self)@, project_id).len() < u32::MAX,
        ensures
            final(self).wf(),
            final(self)@ == (RegistryState {
                score_history: record_history(
                    old(self)@,
                    project_id,
                    ScoreHistoryEntry { timestamp: now, credit_quality, green_impact },
                ),
                ..old(self)@
            }),
    {
        let total: u32 = match self.score_totals.get(&project_id) {
            Some(t) => *t,
            None => 0,
        };
        proof {
            assert(self.total_of(project_id) == history_of(self@, project_id).len());
        }
        let slot = total % MAX_SCORE_HISTORY;
        let entry = ScoreHistoryEntry { timestamp: now, credit_quality, green_impact };
        self.score_slots.insert((project_id, slot), entry);
        self.score_totals.insert(project_id, total + 1);
        let ghost old_h = history_of(old(self)@, project_id);
        proof {
            self.score_log@ = self.score_log@.insert(project_id, old_h.push(entry));
        }
        proof {
            let new_h = old_h.push(entry);
            let len = old_h.len() as int;
            assert(total == len);
            assert forall|id: u32| #[trigger] self.total_of(id) == history_of(self@, id).len() by {
                if id != project_id {
                    assert(old(self).total_of(id) == history_of(old(self)@, id).len());
                }
            }
            assert forall|id: u32, k: int| #[trigger] self.slot_ok(id, k) by {
                assert(old(self).slot_ok(id, k));
                if id == project_id {
                    let h = history_of(self@, id);
                    assert(h == new_h);
                    if 0 <= k < h.len() && h.len() - MAX_SCORE_HISTORY <= k {
                        if k == len {
                            assert((k % 50) as u32 == slot);
                        } else {
                            assert(k % 50 != len % 50) by (nonlinear_arith)
                                requires
                                    0 < len - k < 50,
                                    0 <= k,
                            ;
                            assert((k % 50) as u32 != slot);
                            assert(h[k] == old_h[k]);
                        }
                    }
                }
            }
        }
    }

    /// Set both scores of a project, with no pause or multi-sig checks.
    fn update_impact_score_internal(
        &mut self,
        project_id: u32,
        credit_quality: u32,
        green_impact: u32,
        now: u64,
    ) -> (r: Result<(), RegistryError>)
        requires
            old(self).wf(),
            history_of(old(self)@, project_id).len() < u32::MAX,
        ensures
            final(self).wf(),
            match impact_update(old(self)@, project_id, credit_quality, green_impact, now) {
                Ok(s2) => r is Ok && final(self)@ == s2,
                Err(e) => r == Err::<(), RegistryError>(e) && final(self)@ == old(self)@,
            },
    {
        if credit_quality > MAX_SCORE || green_impact > MAX_SCORE {
            return Err(RegistryError::ScoresOutOfRange);
        }
        let mut project = match self.read_project(project_id) {
            Some(p) => p,
            None => {
                return Err(RegistryError::ProjectNotFound);
            },
        };
        if project.status == ProjectStatus::Archived {
            return Err(RegistryError::ProjectArchived);
        }
        if project.credit_quality == credit_quality && project.green_impact == green_impact {
            return Ok(());
        }
        let old_cq = project.credit_quality;
        let old_gi = project.green_impact;
        proof {
            assert(self@.projects.contains_key(project_id));
            lemma_scores_in_range(old_cq, old_gi);
            lemma_scores_in_range(credit_quality, green_impact);
        }
        let old_rate = compute_rate(old_cq, old_gi);
        project.credit_quality = credit_quality;
        project.green_impact = green_impact;
        project.last_update_timestamp = now;
        let new_rate = compute_rate(credit_quality, green_impact);
        self.write_project(project_id, project);
        self.emit(RegistryEvent::ProjectUpdated { project_id, credit_quality, green_impact });
        self.emit(RegistryEvent::RateUpdated { project_id, rate_bps: new_rate });
        self.emit(
            RegistryEvent::ScoreChanged {
                project_id,
                old_credit_quality: old_cq,
                new_credit_quality: credit_quality,
                old_green_impact: old_gi,
                new_green_impact: green_impact,
                old_rate_bps: old_rate,
                new_rate_bps: new_rate,
            },
        );
        proof {
            assert(history_of(self@, project_id) == history_of(old(self)@, project_id));
        }
        self.append_score_history(project_id, credit_quality, green_impact, now);
        proof {
            let expected = impact_update(old(self)@, project_id, credit_quality, green_impact, now);
            assert(expected is Ok);
            assert(self@.events =~= expected->Ok_0.events);
            assert(self@.projects =~= expected->Ok_0.projects);
            assert(self@ =~= expected->Ok_0);
        }
        Ok(())
    }

    /// Require multi-sig to be disabled for single-owner admin calls.
    fn require_multisig_disabled(&self) -> (r: Result<(), RegistryError>)
        ensures
            r is Ok <==> self@.multisig_threshold == 0,
            r is Err ==> r == Err::<(), RegistryError>(RegistryError::InsufficientApprovals),
    {
        if !multisig::is_multisig_disabled(self.multisig_threshold) {
            return Err(RegistryError::InsufficientApprovals);
        }
        Ok(())
    }

    /// Check admin approvals against the configured signer set; on success
    /// return the addresses whose authorisation the host must require.
    fn require_admin_approval(&self, owner: Address, approvals: Vec<Address>) -> (r: Result<
        Vec<Address>,
        RegistryError,
    >)
        ensures
            match (r, admin_approval(self@, owner, approvals@)) {
                (Ok(v), Ok(w)) => v@ == w,
                (Err(e), Err(f)) => e == f,
                _ => false,
            },
    {
        match multisig::require_admin_approval(
            &owner,
            self.multisig_threshold,
            &self.multisig_signers,
            approvals,
        ) {
            Ok(v) => Ok(v),
            Err(e) => Err(
                match e {
                    multisig::ApprovalError::InvalidThreshold => RegistryError::InvalidMultiSigThreshold,
                    multisig::ApprovalError::DuplicateApproval => RegistryError::DuplicateApproval,
                    multisig::ApprovalError::NotSigner => RegistryError::NotMultiSigSigner,
                    multisig::ApprovalError::InsufficientApprovals => RegistryError::InsufficientApprovals,
                },
            ),
        }
    }

    /// Validate a multi-sig configuration.
    fn validate_multisig_config(signers: &Vec<Address>, threshold: u32) -> (r: Result<
        (),
        RegistryError,
    >)
        ensures
            match multisig::config_outcome(signers@, threshold, MAX_MULTISIG_SIGNERS) {
                Ok(_) => r is Ok,
                Err(e) => r == Err::<(), RegistryError>(config_error(e)),
            },
    {
        match multisig::validate_multisig_config(signers, threshold, MAX_MULTISIG_SIGNERS) {
            Ok(()) => Ok(()),
            Err(multisig::ConfigError::TooManySigners) => Err(RegistryError::TooManyMultiSigSigners),
            Err(multisig::ConfigError::InvalidThreshold) => Err(
                RegistryError::InvalidMultiSigThreshold,
            ),
            Err(multisig::ConfigError::DuplicateSigner) => Err(RegistryError::DuplicateApproval),
        }
    }

    /// Set both scores of a project (0–100 each). Owner-only and blocked
    /// while paused or while multi-sig is enabled. Identical scores are a
    /// no-op.
    pub fn update_impact_score(
        &mut self,
        project_id: u32,
        credit_quality: u32,
        green_impact: u32,
        now: u64,
    ) -> (r: Result<(), RegistryError>)
        requires
            old(self).wf(),
            history_of(old(self)@, project_id).len() < u32::MAX,
        ensures
            final(self).wf(),
            match guarded(
                old(self)@,
                true,
                impact_update(old(self)@, project_id, credit_quality, green_impact, now),
            ) {
                Ok(s2) => r is Ok && final(self)@ == s2,
                Err(e) => r == Err::<(), RegistryError>(e) && final(self)@ == old(self)@,
            },
    {
        self.require_not_paused()?;
        self.require_multisig_disabled()?;
        self.update_impact_score_internal(project_id, credit_quality, green_impact, now)
    }

    /// Set both scores of a project on the authority of multi-sig approvals
    /// (or of the owner while multi-sig is disabled). On success returns the
    /// addresses whose authorisation the host must require.
    pub fn update_impact_score_approved(
        &mut self,
        project_id: u32,
        credit_quality: u32,
        green_impact: u32,
        approvals: Vec<Address>,
        owner: Address,
        now: u64,
    ) -> (r: Result<Vec<Address>, RegistryError>)
        requires
            old(self).wf(),
            history_of(old(self)@, project_id).len() < u32::MAX,
        ensures
            final(self).wf(),
            old(self)@.paused ==> r == Err::<Vec<Address>, RegistryError>(RegistryError::Paused)
                && final(self)@ == old(self)@,
            !old(self)@.paused ==> match admin_approval(old(self)@, owner, approvals@) {
                Err(e) => r == Err::<Vec<Address>, RegistryError>(e) && final(self)@ == old(
                    self,
                )@,
                Ok(auths) => match impact_update(
                    old(self)@,
                    project_id,
                    credit_quality,
                    green_impact,
                    now,
                ) {
                    Ok(s2) => r matches Ok(v) && v@ == auths && final(self)@ == s2,
                    Err(e) => r == Err::<Vec<Address>, RegistryError>(e) && final(self)@ == old(
                        self,
                    )@,
                },
            },
    {
        self.require_not_paused()?;
        let auths = self.require_admin_approval(owner, approvals)?;
        self.update_impact_score_internal(project_id, credit_quality, green_impact, now)?;
        Ok(auths)
    }

    /// Set only the credit-quality score of a project (0–100). Owner-only and
    /// blocked while paused or while multi-sig is enabled. An identical score
    /// is a no-op.
    pub fn update_credit_quality_score(&mut self, project_id: u32, credit_quality: u32, now: u64) -> (r:
        Result<(), RegistryError>)
        requires
            old(self).wf(),
            history_of(old(self)@, project_id).len() < u32::MAX,
        ensures
            final(self).wf(),
            match guarded(old(self)@, true, credit_update(old(self)@, project_id, credit_quality, now)) {
                Ok(s2) => r is Ok && final(self)@ == s2,
                Err(e) => r == Err::<(), RegistryError>(e) && final(self)@ == old(self)@,
            },
    {
        self.require_not_paused()?;
        self.require_multisig_disabled()?;
        if credit_quality > MAX_SCORE {
            return Err(RegistryError::CreditQualityOutOfRange);
        }
        let mut project = match self.read_project(project_id) {
            Some(p) => p,
            None => {
                return Err(RegistryError::ProjectNotFound);
            },
        };
        if project.status == ProjectStatus::Archived {
            return Err(RegistryError::ProjectArchived);
        }
        let old_cq = project.credit_quality;
        if old_cq == credit_quality {
            return Ok(());
        }
        let gi = project.green_impact;
        proof {
            assert(self@.projects.contains_key(project_id));
            lemma_scores_in_range(old_cq, gi);
            lemma_scores_in_range(credit_quality, gi);
        }
        let old_rate = compute_rate(old_cq, gi);
        project.credit_quality = credit_quality;
        project.last_update_timestamp = now;
        let new_rate = compute_rate(credit_quality, gi);
        self.write_project(project_id, project);
        self.emit(RegistryEvent::CreditQualityUpdated { project_id, credit_quality });
        self.emit(
            RegistryEvent::ScoreChanged {
                project_id,
                old_credit_quality: old_cq,
                new_credit_quality: credit_quality,
                old_green_impact: gi,
                new_green_impact: gi,
                old_rate_bps: old_rate,
                new_rate_bps: new_rate,
            },
        );
        proof {
            assert(history_of(self@, project_id) == history_of(old(self)@, project_id));
        }
        self.append_score_history(project_id, credit_quality, gi, now);
        proof {
            let expected = credit_update(old(self)@, project_id, credit_quality, now);
            assert(expected is Ok);
            assert(self@.events =~= expected->Ok_0.events);
            assert(self@.projects =~= expected->Ok_0.projects);
            assert(self@ =~= expected->Ok_0);
        }
        Ok(())
    }

    /// The retained score history of a project, oldest first: its last
    /// `MAX_SCORE_HISTORY` snapshots.
    pub fn get_score_history(&self, project_id: u32) -> (r: Result<
        Vec<ScoreHistoryEntry>,
        RegistryError,
    >)
        requires
            self.wf(),
        ensures
            if !state_ok(self@) {
                r == Err::<Vec<ScoreHistoryEntry>, RegistryError>(
                    RegistryError::UnsupportedStateVersion,
                )
            } else if !self@.projects.contains_key(project_id) {
                r == Err::<Vec<ScoreHistoryEntry>, RegistryError>(RegistryError::ProjectNotFound)
            } else {
                r matches Ok(v) && v@ == retained(history_of(self@, project_id))
            },
    {
        self.require_current_state()?;
        if !self.projects.contains_key(&project_id) {
            return Err(RegistryError::ProjectNotFound);
        }
        let total: u32 = match self.score_totals.get(&project_id) {
            Some(t) => *t,
            None => 0,
        };
        let ghost h = history_of(self@, project_id);
        proof {
            assert(self.total_of(project_id) == h.len());
        }
        let count = if total < MAX_SCORE_HISTORY {
            total
        } else {
            MAX_SCORE_HISTORY
        };
        let start_slot = if total >= MAX_SCORE_HISTORY {
            total % MAX_SCORE_HISTORY
        } else {
            0
        };
        let ghost base: int = total - count;
        let mut result: Vec<ScoreHistoryEntry> = Vec::new();
        let mut i: u32 = 0;
        while i < count
            invariant
                self.wf(),
                h == history_of(self@, project_id),
                h.len() == total,
                count <= MAX_SCORE_HISTORY,
                count <= total,
                base == total - count,
                total >= MAX_SCORE_HISTORY ==> count == MAX_SCORE_HISTORY && start_slot == total
                    % MAX_SCORE_HISTORY,
                total < MAX_SCORE_HISTORY ==> count == total && start_slot == 0,
                i <= count,
                result@ == h.subrange(base, base + i),
            decreases count - i,
        {
            let slot = (start_slot + i) % MAX_SCORE_HISTORY;
            let ghost k: int = base + i;
            proof {
                assert(((start_slot + i) % 50) == k % 50) by (nonlinear_arith)
                    requires
                        total >= 50 ==> start_slot == total % 50 && k == total - 50 + i,
                        total < 50 ==> start_slot == 0 && k == i,
                        0 <= i < 50,
                        k >= 0,
                ;
                assert(self.slot_ok(project_id, k));
            }
            match self.score_slots.get(&(project_id, slot)) {
                Some(e) => {
                    result.push(*e);
                },
                None => {},
            }
            i = i + 1;
            proof {
                assert(result@ =~= h.subrange(base, base + i));
            }
        }
        proof {
            assert(result@ =~= retained(h));
        }
        Ok(result)
    }

    /// Apply a batch of score updates atomically: the first failing entry
    /// leaves the registry exactly as it was.
    fn update_impact_scores_batch_internal(&mut self, updates: Vec<(u32, u32, u32)>, now: u64) -> (r:
        Result<(), RegistryError>)
        requires
            old(self).wf(),
            batch_history_room(old(self)@, updates@),
        ensures
            final(self).wf(),
            match checked_batch(old(self)@, updates@, now) {
                Ok(s2) => r is Ok && final(self)@ == s2,
                Err(e) => r == Err::<(), RegistryError>(e) && final(self)@ == old(self)@,
            },
    {
        if updates.len() == 0 {
            return Err(RegistryError::EmptyBatchUpdate);
        }
        if updates.len() > MAX_BATCH_SCORE_SIZE as usize {
            return Err(RegistryError::BatchTooLarge);
        }
        let saved_projects = self.projects.clone();
        let saved_slots = self.score_slots.clone();
        let saved_totals = self.score_totals.clone();
        let ghost saved_log = self.score_log@;
        let saved_events_len = self.events.len();
        let n = updates.len();
        let mut i: usize = 0;
        assert(updates@.take(0) =~= Seq::<(u32, u32, u32)>::empty());
        while i < n
            invariant
                n == updates@.len(),
                n <= MAX_BATCH_SCORE_SIZE,
                i <= n,
                self.wf(),
                old(self).wf(),
                batch_history_room(old(self)@, updates@),
                batch_update(old(self)@, updates@.take(i as int), now) == Ok::<
                    RegistryState,
                    RegistryError,
                >(self@),
                score_frame(self@, old(self)@),
                self@.events.len() >= old(self)@.events.len(),
                self@.events.subrange(0, old(self)@.events.len() as int) == old(self)@.events,
                forall|id: u32| #[trigger]
                    history_of(self@, id).len() <= history_of(old(self)@, id).len() + i,
                saved_projects@ == old(self).projects@,
                saved_slots@ == old(self).score_slots@,
                saved_totals@ == old(self).score_totals@,
                saved_log == old(self).score_log@,
                saved_events_len == old(self)@.events.len(),
            decreases n - i,
        {
            let (project_id, credit_quality, green_impact) = updates[i];
            proof {
                assert(updates@[i as int].0 == project_id);
                assert(history_of(old(self)@, updates@[i as int].0).len() + MAX_BATCH_SCORE_SIZE
                    < u32::MAX);
                assert(history_of(self@, project_id).len() <= history_of(old(self)@, project_id).len()
                    + i);
                assert(updates@.take(i + 1).drop_last() =~= updates@.take(i as int));
                assert(updates@.take(i + 1).last() == updates@[i as int]);
            }
            let ghost before = self@;
            match self.update_impact_score_internal(project_id, credit_quality, green_impact, now) {
                Ok(()) => {
                    proof {
                        lemma_impact_update_appends(
                            before,
                            project_id,
                            credit_quality,
                            green_impact,
                            now,
                        );
                        assert(self@.events.subrange(0, old(self)@.events.len() as int)
                            =~= before.events.subrange(0, old(self)@.events.len() as int));
                        assert forall|id: u32| #[trigger]
                            history_of(self@, id).len() <= history_of(old(self)@, id).len() + i
                                + 1 by {
                            assert(history_of(before, id).len() <= history_of(old(self)@, id).len()
                                + i);
                        }
                    }
                },
                Err(e) => {
                    proof {
                        lemma_batch_error_extends(old(self)@, updates@, i + 1, now);
                    }
                    self.projects = saved_projects;
                    self.score_slots = saved_slots;
                    self.score_totals = saved_totals;
                    proof {
                        self.score_log@ = saved_log;
                    }
                    self.events.truncate(saved_events_len);
                    proof {
                        assert(self.projects@ == old(self).projects@);
                        assert(self@.events =~= old(self)@.events);
                        assert(self@ =~= old(self)@);
                        assert forall|id: u32| #[trigger]
                            self.total_of(id) == history_of(self@, id).len() by {
                            assert(old(self).total_of(id) == history_of(old(self)@, id).len());
                        }
                        assert forall|id: u32, k: int| #[trigger] self.slot_ok(id, k) by {
                            assert(old(self).slot_ok(id, k));
                        }
                    }
                    return Err(e);
                },
            }
            i = i + 1;
        }
        proof {
            assert(updates@.take(n as int) =~= updates@);
        }
        Ok(())
    }

    /// Update the scores of up to `MAX_BATCH_SCORE_SIZE` projects in one
    /// call, each entry `(project_id, credit_quality, green_impact)`.
    /// Owner-only and blocked while paused or while multi-sig is enabled.
    /// Entries with identical scores are skipped; any failing entry fails the
    /// whole batch.
    pub fn update_impact_scores_batch(&mut self, updates: Vec<(u32, u32, u32)>, now: u64) -> (r:
        Result<(), RegistryError>)
        requires
            old(self).wf(),
            batch_history_room(old(self)@, updates@),
        ensures
            final(self).wf(),
            match guarded(old(self)@, true, checked_batch(old(self)@, updates@, now)) {
                Ok(s2) => r is Ok && final(self)@ == s2,
                Err(e) => r == Err::<(), RegistryError>(e) && final(self)@ == old(self)@,
            },
    {
        self.require_not_paused()?;
        self.require_multisig_disabled()?;
        self.update_impact_scores_batch_internal(updates, now)
    }

    /// The batch score update on the authority of multi-sig approvals (or of
    /// the owner while multi-sig is disabled). On success returns the
    /// addresses whose authorisation the host must require.
    pub fn update_scores_batch_approved(
        &mut self,
        updates: Vec<(u32, u32, u32)>,
        approvals: Vec<Address>,
        owner: Address,
        now: u64,
    ) -> (r: Result<Vec<Address>, RegistryError>)
        requires
            old(self).wf(),
            batch_history_room(old(self)@, updates@),
        ensures
            final(self).wf(),
            old(self)@.paused ==> r == Err::<Vec<Address>, RegistryError>(RegistryError::Paused)
                && final(self)@ == old(self)@,
            !old(self)@.paused ==> match admin_approval(old(self)@, owner, approvals@) {
                Err(e) => r == Err::<Vec<Address>, RegistryError>(e) && final(self)@ == old(
                    self,
                )@,
                Ok(auths) => match checked_batch(old(self)@, updates@, now) {
                    Ok(s2) => r matches Ok(v) && v@ == auths && final(self)@ == s2,
                    Err(e) => r == Err::<Vec<Address>, RegistryError>(e) && final(self)@ == old(
                        self,
                    )@,
                },
            },
    {
        self.require_not_paused()?;
        let auths = self.require_admin_approval(owner, approvals)?;
        self.update_impact_scores_batch_internal(updates, now)?;
        Ok(auths)
    }

    /// Removes a project record.
    fn remove_project(&mut self, id: u32)
        requires
            old(self).wf(),
        ensures
            final(self).wf(),
            final(self)@ == (RegistryState { projects: old(self)@.projects.remove(id), ..old(self)@ }),
    {
        self.projects.remove(&id);
        proof {
            assert(project_views(self.projects@) =~= project_views(old(self).projects@).remove(id));
            self.lemma_wf_frame(&*old(self));
        }
    }

    /// Archive a project: it leaves the default listings and can no longer be
    /// scored, certified or collateralised. Owner-only.
    pub fn archive_project(&mut self, project_id: u32) -> (r: Result<(), RegistryError>)
        requires
            old(self).wf(),
        ensures
            final(self).wf(),
            if !state_ok(old(self)@) {
                r == Err::<(), RegistryError>(RegistryError::UnsupportedStateVersion)
                    && final(self)@ == old(self)@
            } else if !old(self)@.projects.contains_key(project_id) {
                r == Err::<(), RegistryError>(RegistryError::ProjectNotFound) && final(self)@ == old(
                    self,
                )@
            } else if old(self)@.projects[project_id].status == ProjectStatus::Archived {
                r == Err::<(), RegistryError>(RegistryError::ProjectArchived) && final(self)@ == old(
                    self,
                )@
            } else {
                r is Ok && final(self)@ == (RegistryState {
                    projects: old(self)@.projects.insert(
                        project_id,
                        ProjectInfo {
                            status: ProjectStatus::Archived,
                            ..old(self)@.projects[project_id]
                        },
                    ),
                    events: old(self)@.events.push(RegistryEvent::ProjectArchived { project_id }),
                    ..old(self)@
                })
            },
    {
        self.require_current_state()?;
        let mut project = match self.read_project(project_id) {
            Some(p) => p,
            None => {
                return Err(RegistryError::ProjectNotFound);
            },
        };
        if project.status == ProjectStatus::Archived {
            return Err(RegistryError::ProjectArchived);
        }
        project.status = ProjectStatus::Archived;
        proof {
            assert(self@.projects.contains_key(project_id));
        }
        self.write_project(project_id, project);
        self.emit(RegistryEvent::ProjectArchived { project_id });
        Ok(())
    }

    /// Move a project to `Pending`, `Active`, `Funded` or `Completed`.
    /// Owner-only; `Archived` is neither a source nor a target.
    pub fn set_project_status(&mut self, project_id: u32, status: ProjectStatus) -> (r: Result<
        (),
        RegistryError,
    >)
        requires
            old(self).wf(),
        ensures
            final(self).wf(),
            match status_outcome(old(self)@, project_id, status) {
                Ok(s2) => r is Ok && final(self)@ == s2,
                Err(e) => r == Err::<(), RegistryError>(e) && final(self)@ == old(self)@,
            },
    {
        self.require_not_paused()?;
        self.require_current_state()?;
        let mut project = match self.read_project(project_id) {
            Some(p) => p,
            None => {
                return Err(RegistryError::ProjectNotFound);
            },
        };
        if project.status == ProjectStatus::Archived || status == ProjectStatus::Archived {
            return Err(RegistryError::InvalidStatusTransition);
        }
        if project.status == status {
            return Err(RegistryError::ProjectStatusUnchanged);
        }
        let old_status = project.status;
        project.status = status;
        proof {
            assert(self@.projects.contains_key(project_id));
        }
        self.write_project(project_id, project);
        self.emit(RegistryEvent::ProjectStatusChanged { project_id, old_status, new_status: status });
        Ok(())
    }

    /// Delete a project record. Owner-only.
    pub fn delete_project(&mut self, project_id: u32) -> (r: Result<(), RegistryError>)
        requires
            old(self).wf(),
        ensures
            final(self).wf(),
            if !state_ok(old(self)@) {
                r == Err::<(), RegistryError>(RegistryError::UnsupportedStateVersion)
                    && final(self)@ == old(self)@
            } else if !old(self)@.projects.contains_key(project_id) {
                r == Err::<(), RegistryError>(RegistryError::ProjectNotFound) && final(self)@ == old(
                    self,
                )@
            } else {
                r is Ok && final(self)@ == (RegistryState {
                    projects: old(self)@.projects.remove(project_id),
                    events: old(self)@.events.push(RegistryEvent::ProjectDeleted { project_id }),
                    ..old(self)@
                })
            },
    {
        self.require_current_state()?;
        if !self.projects.contains_key(&project_id) {
            return Err(RegistryError::ProjectNotFound);
        }
        self.remove_project(project_id);
        self.emit(RegistryEvent::ProjectDeleted { project_id });
        Ok(())
    }

    /// Replace an archived project's record by its compact summary.
    /// Owner-only.
    pub fn compact_archive(&mut self, project_id: u32) -> (r: Result<(), RegistryError>)
        requires
            old(self).wf(),
        ensures
            final(self).wf(),
            if !state_ok(old(self)@) {
                r == Err::<(), RegistryError>(RegistryError::UnsupportedStateVersion)
                    && final(self)@ == old(self)@
            } else if !old(self)@.projects.contains_key(project_id) {
                r == Err::<(), RegistryError>(RegistryError::ProjectNotFound) && final(self)@ == old(
                    self,
                )@
            } else if old(self)@.projects[project_id].status != ProjectStatus::Archived {
                r == Err::<(), RegistryError>(RegistryError::ProjectNotArchived) && final(self)@
                    == old(self)@
            } else {
                r is Ok && final(self)@ == (RegistryState {
                    archives: old(self)@.archives.insert(
                        project_id,
                        summary_of(old(self)@.projects[project_id]),
                    ),
                    projects: old(self)@.projects.remove(project_id),
                    events: old(self)@.events.push(RegistryEvent::ProjectCompacted { project_id }),
                    ..old(self)@
                })
            },
    {
        self.require_current_state()?;
        let project = match self.read_project(project_id) {
            Some(p) => p,
            None => {
                return Err(RegistryError::ProjectNotFound);
            },
        };
        if project.status != ProjectStatus::Archived {
            return Err(RegistryError::ProjectNotArchived);
        }
        let summary = ArchiveSummary {
            owner: project.owner,
            final_credit_quality: project.credit_quality,
            final_green_impact: project.green_impact,
            maturity_date: project.maturity_date,
            certification_status: project.certification_status,
            metadata_hash: project.metadata_hash,
        };
        self.archives.insert(project_id, summary);
        proof {
            self.lemma_wf_frame(&*old(self));
        }
        self.remove_project(project_id);
        self.emit(RegistryEvent::ProjectCompacted { project_id });
        Ok(())
    }

    /// The compact summary of a compacted project.
    pub fn get_archive_summary(&self, project_id: u32) -> (r: Result<ArchiveSummary, RegistryError>)
        ensures
            if !state_ok(self@) {
                r == Err::<ArchiveSummary, RegistryError>(RegistryError::UnsupportedStateVersion)
            } else if !self@.archives.contains_key(project_id) {
                r == Err::<ArchiveSummary, RegistryError>(RegistryError::ProjectNotFound)
            } else {
                r == Ok::<ArchiveSummary, RegistryError>(self@.archives[project_id])
            },
    {
        self.require_current_state()?;
        match self.archives.get(&project_id) {
            Some(a) => Ok(*a),
            None => Err(RegistryError::ProjectNotFound),
        }
    }

    /// Whether `candidate_hash` matches the metadata hash recorded for a
    /// project, looked up in its record or, once compacted, in its summary.
    pub fn verify_metadata_hash(&self, project_id: u32, candidate_hash: Hash32) -> (r: Result<
        bool,
        RegistryError,
    >)
        ensures
            if !state_ok(self@) {
                r == Err::<bool, RegistryError>(RegistryError::UnsupportedStateVersion)
            } else if self@.projects.contains_key(project_id) {
                r == Ok::<bool, RegistryError>(
                    self@.projects[project_id].metadata_hash@ == candidate_hash@,
                )
            } else if self@.archives.contains_key(project_id) {
                r == Ok::<bool, RegistryError>(
                    self@.archives[project_id].metadata_hash@ == candidate_hash@,
                )
            } else {
                r == Err::<bool, RegistryError>(RegistryError::ProjectNotFound)
            },
    {
        self.require_current_state()?;
        if let Some(project) = self.projects.get(&project_id) {
            return Ok(hash_eq(&project.metadata_hash, &candidate_hash));
        }
        match self.archives.get(&project_id) {
            Some(a) => Ok(hash_eq(&a.metadata_hash, &candidate_hash)),
            None => Err(RegistryError::ProjectNotFound),
        }
    }

    /// A consolidated operational-status snapshot for monitoring tools.
    pub fn health_check(&self) -> (r: HealthStatus)
        ensures
            r == (HealthStatus {
                state_version: self@.state_version,
                is_paused: self@.paused,
                total_projects: self@.project_counter,
                has_emergency_admin: self@.emergency_admin is Some,
            }),
    {
        HealthStatus {
            state_version: self.read_state_version(),
            is_paused: self.paused,
            total_projects: self.project_counter,
            has_emergency_admin: self.emergency_admin.is_some(),
        }
    }

    /// Set a project's certification status. The caller must be the
    /// whitelister or the owner (`owner` as recorded by the ownership
    /// module); the host requires the caller's authorisation.
    pub fn certify_project(
        &mut self,
        caller: Address,
        project_id: u32,
        status: CertificationStatus,
        owner: Address,
    ) -> (r: Result<(), RegistryError>)
        requires
            old(self).wf(),
        ensures
            final(self).wf(),
            match certify_outcome(old(self)@, caller, owner, project_id, status) {
                Ok(s2) => r is Ok && final(self)@ == s2,
                Err(e) => r == Err::<(), RegistryError>(e) && final(self)@ == old(self)@,
            },
    {
        self.require_not_paused()?;
        self.require_current_state()?;
        if caller != self.whitelister && caller != owner {
            return Err(RegistryError::NotAuthorizedToCertify);
        }
        let mut project = match self.read_project(project_id) {
            Some(p) => p,
            None => {
                return Err(RegistryError::ProjectNotFound);
            },
        };
        if project.status == ProjectStatus::Archived {
            return Err(RegistryError::ProjectArchived);
        }
        if project.certification_status == status {
            return Err(RegistryError::AlreadyCertified);
        }
        project.certification_status = status;
        proof {
            assert(self@.projects.contains_key(project_id));
        }
        self.write_project(project_id, project);
        self.emit(RegistryEvent::ProjectCertified { project_id, status });
        Ok(())
    }

    /// Whether a project's maturity date has been reached at ledger time
    /// `now`. Projects without a maturity date never mature.
    pub fn is_mature(&self, project_id: u32, now: u64) -> (r: Result<bool, RegistryError>)
        ensures
            if !state_ok(self@) {
                r == Err::<bool, RegistryError>(RegistryError::UnsupportedStateVersion)
            } else if !self@.projects.contains_key(project_id) {
                r == Err::<bool, RegistryError>(RegistryError::ProjectNotFound)
            } else {
                r == Ok::<bool, RegistryError>(
                    self@.projects[project_id].maturity_date != 0 && now
                        >= self@.projects[project_id].maturity_date,
                )
            },
    {
        self.require_current_state()?;
        let maturity_date = match self.projects.get(&project_id) {
            Some(p) => p.maturity_date,
            None => {
                return Err(RegistryError::ProjectNotFound);
            },
        };
        if maturity_date == 0 {
            return Ok(false);
        }
        Ok(now >= maturity_date)
    }

    /// The listed projects with ids in `[start, end)`.
    fn collect_projects(&self, start: u64, end: u64, include_archived: bool) -> (r: Vec<
        (u32, ProjectData),
    >)
        requires
            end <= u32::MAX + 1,
        ensures
            listing_view(r@) == listing(self@, start as int, end as int, include_archived),
    {
        let mut result: Vec<(u32, ProjectData)> = Vec::new();
        if end <= start {
            assert(listing_view(result@) =~= listing(self@, start as int, end as int, include_archived));
            return result;
        }
        let mut i: u64 = start;
        while i < end
            invariant
                start <= i <= end,
                end <= u32::MAX + 1,
                listing_view(result@) == listing(self@, start as int, i as int, include_archived),
            decreases end - i,
        {
            let id = i as u32;
            match self.projects.get(&id) {
                Some(project) => {
                    if include_archived || project.status != ProjectStatus::Archived {
                        let ghost before = result@;
                        result.push((id, project.duplicate()));
                        proof {
                            assert(listed_at(self@, i as int, include_archived));
                            assert(listing_view(result@) =~= listing_view(before).push(
                                (id, self@.projects[id]),
                            ));
                        }
                    } else {
                        assert(!listed_at(self@, i as int, include_archived));
                    }
                },
                None => {
                    assert(!listed_at(self@, i as int, include_archived));
                },
            }
            i = i + 1;
        }
        result
    }

    /// All non-archived projects as `(id, project)` pairs, in ascending id
    /// order.
    pub fn get_all_projects(&self) -> (r: Result<Vec<(u32, ProjectData)>, RegistryError>)
        ensures
            if state_ok(self@) {
                r matches Ok(v) && listing_view(v@) == listing(
                    self@,
                    1,
                    self@.project_counter + 1,
                    false,
                )
            } else {
                r is Err && r == Err::<Vec<(u32, ProjectData)>, RegistryError>(
                    RegistryError::UnsupportedStateVersion,
                )
            },
    {
        self.require_current_state()?;
        Ok(self.collect_projects(1, self.project_counter as u64 + 1, false))
    }

    /// All projects, archived ones included, in ascending id order.
    pub fn get_all_projects_with_archived(&self) -> (r: Result<
        Vec<(u32, ProjectData)>,
        RegistryError,
    >)
        ensures
            if state_ok(self@) {
                r matches Ok(v) && listing_view(v@) == listing(
                    self@,
                    1,
                    self@.project_counter + 1,
                    true,
                )
            } else {
                r is Err && r == Err::<Vec<(u32, ProjectData)>, RegistryError>(
                    RegistryError::UnsupportedStateVersion,
                )
            },
    {
        self.require_current_state()?;
        Ok(self.collect_projects(1, self.project_counter as u64 + 1, true))
    }

    /// Up to `limit` non-archived projects with ids after the first `offset`,
    /// in ascending id order.
    pub fn get_projects_page(&self, offset: u32, limit: u32) -> (r: Result<
        Vec<(u32, ProjectData)>,
        RegistryError,
    >)
        ensures
            if state_ok(self@) {
                r matches Ok(v) && listing_view(v@) == page(self@, offset, limit)
            } else {
                r is Err && r == Err::<Vec<(u32, ProjectData)>, RegistryError>(
                    RegistryError::UnsupportedStateVersion,
                )
            },
    {
        self.require_current_state()?;
        if limit == 0 {
            let result: Vec<(u32, ProjectData)> = Vec::new();
            assert(listing_view(result@) =~= page(self@, offset, limit));
            return Ok(result);
        }
        let counter = self.project_counter;
        let start = offset.saturating_add(1);
        let end_a = start.saturating_add(limit);
        let end_b = counter.saturating_add(1);
        let end = if end_a < end_b {
            end_a
        } else {
            end_b
        };
        Ok(self.collect_projects(start as u64, end as u64, false))
    }

    /// Bring older stored state up to the current schema version and return
    /// that version. `from_version` must match the stored version. Owner-only.
    pub fn migrate_state(&mut self, from_version: u32) -> (r: Result<u32, RegistryError>)
        requires
            old(self).wf(),
        ensures
            final(self).wf(),
            match migrate_outcome(old(self)@, from_version) {
                Ok(s2) => r == Ok::<u32, RegistryError>(STATE_VERSION) && final(self)@ == s2,
                Err(e) => r == Err::<u32, RegistryError>(e) && final(self)@ == old(self)@,
            },
    {
        let current = self.read_state_version();
        if current != from_version || current > STATE_VERSION {
            return Err(RegistryError::UnsupportedStateVersion);
        }
        if current < STATE_VERSION {
            self.state_version = STATE_VERSION;
            proof {
                self.lemma_wf_frame(&*old(self));
            }
        }
        proof {
            assert(self@ =~= migrate_outcome(old(self)@, from_version)->Ok_0);
        }
        Ok(STATE_VERSION)
    }

    /// Reads a proposal.
    pub fn read_proposal(&self, id: u32) -> (r: Option<Proposal>)
        ensures
            match r {
                Some(p) => self@.proposals.contains_key(id) && p@ == self@.proposals[id],
                None => !self@.proposals.contains_key(id),
            },
    {
        match self.proposals.get(&id) {
            Some(p) => Some(p.duplicate()),
            None => None,
        }
    }

    /// Writes a proposal.
    pub fn write_proposal(&mut self, id: u32, proposal: Proposal)
        requires
            old(self).wf(),
            1 <= id <= old(self)@.proposal_counter,
        ensures
            final(self).wf(),
            final(self)@ == (RegistryState {
                proposals: old(self)@.proposals.insert(id, proposal@),
                ..old(self)@
            }),
    {
        self.proposals.insert(id, proposal);
        proof {
            assert(proposal_views(self.proposals@) =~= proposal_views(old(self).proposals@).insert(
                id,
                proposal@,
            ));
            self.lemma_wf_frame(&*old(self));
        }
    }

    /// Open a governance proposal and return its id. Voting closes
    /// `voting_duration_secs` (one to thirty days) after `now`. The host
    /// requires the proposer's authorisation.
    pub fn create_proposal(
        &mut self,
        proposer: Address,
        description: Vec<u8>,
        voting_duration_secs: u64,
        now: u64,
    ) -> (r: Result<u32, RegistryError>)
        requires
            old(self).wf(),
            create_proposal_error(old(self)@, description@, voting_duration_secs) is None ==> (
            old(self)@.proposal_counter < u32::MAX && now + voting_duration_secs <= u64::MAX),
        ensures
            final(self).wf(),
            match create_proposal_error(old(self)@, description@, voting_duration_secs) {
                Some(e) => r == Err::<u32, RegistryError>(e) && final(self)@ == old(self)@,
                None => r == Ok::<u32, RegistryError>((old(self)@.proposal_counter + 1) as u32)
                    && final(self)@ == after_create_proposal(
                    old(self)@,
                    proposer,
                    description@,
                    voting_duration_secs,
                    now,
                ),
            },
    {
        self.require_not_paused()?;
        self.require_current_state()?;
        if voting_duration_secs < MIN_VOTING_PERIOD {
            return Err(RegistryError::VotingPeriodTooShort);
        }
        if voting_duration_secs > MAX_VOTING_PERIOD {
            return Err(RegistryError::VotingPeriodTooLong);
        }
        if description.len() > MAX_PROPOSAL_DESCRIPTION_LEN as usize {
            return Err(RegistryError::ProposalDescriptionTooLong);
        }
        let proposal_id = self.proposal_counter + 1;
        let voting_ends_at = now + voting_duration_secs;
        let proposal = Proposal {
            description,
            proposer,
            voting_ends_at,
            votes_for: 0,
            votes_against: 0,
            executed: false,
        };
        let ghost mid: ProjectRegistry = *self;
        self.proposal_counter = proposal_id;
        proof {
            self.lemma_wf_frame(&mid);
        }
        self.write_proposal(proposal_id, proposal);
        self.emit(RegistryEvent::ProposalCreated { proposal_id, proposer, voting_ends_at });
        Ok(proposal_id)
    }

    /// Vote on an open proposal with `weight` (the voter's share balance,
    /// supplied by the caller and not checked here). The host requires the
    /// voter's authorisation and supplies the ledger time `now`.
    pub fn cast_vote(
        &mut self,
        voter: Address,
        proposal_id: u32,
        support: bool,
        weight: i128,
        now: u64,
    ) -> (r: Result<(), RegistryError>)
        requires
            old(self).wf(),
            tally_room(old(self)@, proposal_id, support, weight),
        ensures
            final(self).wf(),
            match vote_outcome(old(self)@, voter, proposal_id, support, weight, now) {
                Ok(s2) => r is Ok && final(self)@ == s2,
                Err(e) => r == Err::<(), RegistryError>(e) && final(self)@ == old(self)@,
            },
    {
        self.require_not_paused()?;
        self.require_current_state()?;
        if weight <= 0 {
            return Err(RegistryError::VotingWeightNotPositive);
        }
        if self.has_voted.contains(&(proposal_id, voter)) {
            return Err(RegistryError::AlreadyVoted);
        }
        let mut proposal = match self.read_proposal(proposal_id) {
            Some(p) => p,
            None => {
                return Err(RegistryError::ProposalNotFound);
            },
        };
        if now > proposal.voting_ends_at {
            return Err(RegistryError::VotingPeriodEnded);
        }
        if proposal.executed {
            return Err(RegistryError::ProposalAlreadyExecuted);
        }
        if support {
            proposal.votes_for = proposal.votes_for + weight;
        } else {
            proposal.votes_against = proposal.votes_against + weight;
        }
        self.write_proposal(proposal_id, proposal);
        let ghost mid: ProjectRegistry = *self;
        self.has_voted.insert((proposal_id, voter));
        proof {
            self.lemma_wf_frame(&mid);
        }
        self.emit(RegistryEvent::VoteCast { proposal_id, voter, support, weight });
        proof {
            let expected = vote_outcome(old(self)@, voter, proposal_id, support, weight, now);
            assert(self@ =~= expected->Ok_0);
        }
        Ok(())
    }

    /// Close a proposal whose voting period has ended and report whether it
    /// passed (more weight for than against). Anyone may call this; the host
    /// supplies the ledger time `now`.
    pub fn execute_proposal(&mut self, proposal_id: u32, now: u64) -> (r: Result<bool, RegistryError>)
        requires
            old(self).wf(),
        ensures
            final(self).wf(),
            match execute_outcome(old(self)@, proposal_id, now) {
                Ok((s2, passed)) => r == Ok::<bool, RegistryError>(passed) && final(self)@ == s2,
                Err(e) => r == Err::<bool, RegistryError>(e) && final(self)@ == old(self)@,
            },
    {
        self.require_current_state()?;
        let mut proposal = match self.read_proposal(proposal_id) {
            Some(p) => p,
            None => {
                return Err(RegistryError::ProposalNotFound);
            },
        };
        if now <= proposal.voting_ends_at {
            return Err(RegistryError::VotingStillOpen);
        }
        if proposal.executed {
            return Err(RegistryError::ProposalAlreadyExecuted);
        }
        proposal.executed = true;
        let passed = proposal.votes_for > proposal.votes_against;
        self.write_proposal(proposal_id, proposal);
        self.emit(RegistryEvent::ProposalExecuted { proposal_id, passed });
        proof {
            let expected = execute_outcome(old(self)@, proposal_id, now);
            assert(self@ =~= expected->Ok_0.0);
        }
        Ok(passed)
    }

    /// Return a proposal by id.
    pub fn get_proposal(&self, proposal_id: u32) -> (r: Result<Proposal, RegistryError>)
        ensures
            if !state_ok(self@) {
                r == Err::<Proposal, RegistryError>(RegistryError::UnsupportedStateVersion)
            } else if !self@.proposals.contains_key(proposal_id) {
                r == Err::<Proposal, RegistryError>(RegistryError::ProposalNotFound)
            } else {
                r matches Ok(p) && p@ == self@.proposals[proposal_id]
            },
    {
        self.require_current_state()?;
        match self.read_proposal(proposal_id) {
            Some(p) => Ok(p),
            None => Err(RegistryError::ProposalNotFound),
        }
    }

    /// The collateral entry for `(project_id, token)`, if any.
    fn read_collateral(&self, project_id: u32, token: Address) -> (r: i128)
        ensures
            r == collateral_of(self@, project_id, token),
    {
        match self.collateral.get(&(project_id, token)) {
            Some(v) => *v,
            None => 0,
        }
    }

    /// Replaces the collateral entries.
    fn set_collateral_entry(&mut self, project_id: u32, token: Address, value: Option<i128>)
        requires
            old(self).wf(),
        ensures
            final(self).wf(),
            final(self)@ == (RegistryState {
                collateral: match value {
                    Some(v) => old(self)@.collateral.insert((project_id, token), v),
                    None => old(self)@.collateral.remove((project_id, token)),
                },
                ..old(self)@
            }),
    {
        match value {
            Some(v) => {
                self.collateral.insert((project_id, token), v);
            },
            None => {
                self.collateral.remove(&(project_id, token));
            },
        }
        proof {
            self.lemma_wf_frame(&*old(self));
        }
    }

    /// Record `amount` of `token` deposited as collateral for a project by
    /// its owner. The host requires the depositor's authorisation and moves
    /// the tokens from the depositor to the registry.
    pub fn deposit_collateral(
        &mut self,
        project_id: u32,
        depositor: Address,
        token: Address,
        amount: i128,
    ) -> (r: Result<(), RegistryError>)
        requires
            old(self).wf(),
            amount > 0 ==> collateral_of(old(self)@, project_id, token) + amount <= i128::MAX,
        ensures
            final(self).wf(),
            match deposit_outcome(old(self)@, project_id, depositor, token, amount) {
                Ok(s2) => r is Ok && final(self)@ == s2,
                Err(e) => r == Err::<(), RegistryError>(e) && final(self)@ == old(self)@,
            },
    {
        self.require_not_paused()?;
        self.require_current_state()?;
        if amount <= 0 {
            return Err(RegistryError::CollateralNotPositive);
        }
        let (owner, status) = match self.projects.get(&project_id) {
            Some(p) => (p.owner, p.status),
            None => {
                return Err(RegistryError::ProjectNotFound);
            },
        };
        if status == ProjectStatus::Archived {
            return Err(RegistryError::ProjectArchived);
        }
        if owner != depositor {
            return Err(RegistryError::NotProjectOwner);
        }
        let prev = self.read_collateral(project_id, token);
        self.set_collateral_entry(project_id, token, Some(prev + amount));
        self.emit(RegistryEvent::CollateralDeposited { project_id, token, depositor, amount });
        Ok(())
    }

    /// The collateral balance of `token` held for a project (0 when none).
    pub fn get_collateral(&self, project_id: u32, token: Address) -> (r: Result<i128, RegistryError>)
        ensures
            if state_ok(self@) {
                r == Ok::<i128, RegistryError>(collateral_of(self@, project_id, token))
            } else {
                r == Err::<i128, RegistryError>(RegistryError::UnsupportedStateVersion)
            },
    {
        self.require_current_state()?;
        Ok(self.read_collateral(project_id, token))
    }

    /// Release a project's whole collateral balance of `token` to its owner,
    /// once the project has matured (or, without a maturity date, while it
    /// is `Pending` or `Completed`). Returns the amount the host transfers
    /// from the registry to the owner; the host requires the caller's
    /// authorisation and supplies the ledger time `now`.
    pub fn release_collateral(&mut self, project_id: u32, caller: Address, token: Address, now: u64) -> (r:
        Result<i128, RegistryError>)
        requires
            old(self).wf(),
        ensures
            final(self).wf(),
            match release_outcome(old(self)@, project_id, caller, token, now) {
                Ok((s2, amount)) => r == Ok::<i128, RegistryError>(amount) && final(self)@ == s2,
                Err(e) => r == Err::<i128, RegistryError>(e) && final(self)@ == old(self)@,
            },
    {
        self.require_not_paused()?;
        self.require_current_state()?;
        let (owner, status, maturity_date) = match self.projects.get(&project_id) {
            Some(p) => (p.owner, p.status, p.maturity_date),
            None => {
                return Err(RegistryError::ProjectNotFound);
            },
        };
        if status == ProjectStatus::Archived {
            return Err(RegistryError::ProjectArchived);
        }
        if owner != caller {
            return Err(RegistryError::NotProjectOwner);
        }
        if maturity_date > 0 {
            if now < maturity_date {
                return Err(RegistryError::ProjectNotMature);
            }
        } else {
            if status != ProjectStatus::Completed && status != ProjectStatus::Pending {
                return Err(RegistryError::ProjectNotMature);
            }
        }
        let balance = self.read_collateral(project_id, token);
        if balance <= 0 {
            return Err(RegistryError::NoCollateral);
        }
        self.set_collateral_entry(project_id, token, None);
        self.emit(
            RegistryEvent::CollateralReleased { project_id, token, receiver: caller, amount: balance },
        );
        Ok(balance)
    }

    /// Liquidation with no multi-sig checks.
    fn liquidate_collateral_internal(
        &mut self,
        project_id: u32,
        token: Address,
        recipient: Address,
        now: u64,
    ) -> (r: Result<i128, RegistryError>)
        requires
            old(self).wf(),
        ensures
            final(self).wf(),
            match liquidate_outcome(old(self)@, project_id, token, recipient, now) {
                Ok((s2, amount)) => r == Ok::<i128, RegistryError>(amount) && final(self)@ == s2,
                Err(e) => r == Err::<i128, RegistryError>(e) && final(self)@ == old(self)@,
            },
    {
        self.require_not_paused()?;
        self.require_current_state()?;
        let maturity_date = match self.projects.get(&project_id) {
            Some(p) => p.maturity_date,
            None => {
                return Err(RegistryError::ProjectNotFound);
            },
        };
        if maturity_date > 0 && now < maturity_date {
            return Err(RegistryError::ProjectNotMature);
        }
        let balance = self.read_collateral(project_id, token);
        if balance <= 0 {
            return Err(RegistryError::NoCollateral);
        }
        self.set_collateral_entry(project_id, token, None);
        self.emit(RegistryEvent::CollateralLiquidated { project_id, token, recipient, amount: balance });
        Ok(balance)
    }

    /// Liquidate a defaulted project's collateral of `token` to `recipient`.
    /// Owner-only and blocked while multi-sig is enabled. Returns the amount
    /// the host transfers from the registry to `recipient`.
    pub fn liquidate_collateral(&mut self, project_id: u32, token: Address, recipient: Address, now: u64) -> (r:
        Result<i128, RegistryError>)
        requires
            old(self).wf(),
        ensures
            final(self).wf(),
            old(self)@.multisig_threshold != 0 ==> r == Err::<i128, RegistryError>(
                RegistryError::InsufficientApprovals,
            ) && final(self)@ == old(self)@,
            old(self)@.multisig_threshold == 0 ==> match liquidate_outcome(
                old(self)@,
                project_id,
                token,
                recipient,
                now,
            ) {
                Ok((s2, amount)) => r == Ok::<i128, RegistryError>(amount) && final(self)@ == s2,
                Err(e) => r == Err::<i128, RegistryError>(e) && final(self)@ == old(self)@,
            },
    {
        self.require_multisig_disabled()?;
        self.liquidate_collateral_internal(project_id, token, recipient, now)
    }

    /// Liquidation on the authority of multi-sig approvals (or of the owner
    /// while multi-sig is disabled). Returns the amount to transfer and the
    /// addresses whose authorisation the host must require.
    pub fn liquidate_collateral_approved(
        &mut self,
        project_id: u32,
        token: Address,
        recipient: Address,
        approvals: Vec<Address>,
        owner: Address,
        now: u64,
    ) -> (r: Result<(i128, Vec<Address>), RegistryError>)
        requires
            old(self).wf(),
        ensures
            final(self).wf(),
            match admin_approval(old(self)@, owner, approvals@) {
                Err(e) => r == Err::<(i128, Vec<Address>), RegistryError>(e) && final(self)@ == old(
                    self,
                )@,
                Ok(auths) => match liquidate_outcome(old(self)@, project_id, token, recipient, now) {
                    Ok((s2, amount)) => r matches Ok((a, v)) && a == amount && v@ == auths
                        && final(self)@ == s2,
                    Err(e) => r == Err::<(i128, Vec<Address>), RegistryError>(e) && final(self)@
                        == old(self)@,
                },
            },
    {
        let auths = self.require_admin_approval(owner, approvals)?;
        let amount = self.liquidate_collateral_internal(project_id, token, recipient, now)?;
        Ok((amount, auths))
    }

    /// Configure the multi-sig signer set and approval threshold.
    /// Owner-only.
    pub fn set_multisig_admin(&mut self, signers: Vec<Address>, threshold: u32) -> (r: Result<
        (),
        RegistryError,
    >)
        requires
            old(self).wf(),
        ensures
            final(self).wf(),
            match multisig::config_outcome(signers@, threshold, MAX_MULTISIG_SIGNERS) {
                Ok(_) => r is Ok && final(self)@ == (RegistryState {
                    multisig_signers: signers@,
                    multisig_threshold: threshold,
                    ..old(self)@
                }),
                Err(e) => r == Err::<(), RegistryError>(config_error(e)) && final(self)@ == old(
                    self,
                )@,
            },
    {
        Self::validate_multisig_config(&signers, threshold)?;
        self.multisig_signers = signers;
        self.multisig_threshold = threshold;
        proof {
            self.lemma_wf_frame(&*old(self));
        }
        Ok(())
    }

    /// Disable multi-sig: threshold 0 and no signers. Owner-only.
    pub fn clear_multisig_admin(&mut self)
        requires
            old(self).wf(),
        ensures
            final(self).wf(),
            final(self)@ == (RegistryState {
                multisig_signers: Seq::empty(),
                multisig_threshold: 0,
                ..old(self)@
            }),
    {
        self.multisig_threshold = 0;
        self.multisig_signers = Vec::new();
        proof {
            self.lemma_wf_frame(&*old(self));
        }
    }

    /// The multi-sig signer set and threshold.
    pub fn get_multisig_admin(&self) -> (r: (Vec<Address>, u32))
        ensures
            r.0@ == self@.multisig_signers,
            r.1 == self@.multisig_threshold,
    {
        (self.multisig_signers.clone(), self.multisig_threshold)
    }

    /// The project's annualised interest rate in basis points.
    pub fn get_interest_rate(&self, project_id: u32) -> (r: Result<u32, RegistryError>)
        requires
            self.wf(),
        ensures
            if !state_ok(self@) {
                r == Err::<u32, RegistryError>(RegistryError::UnsupportedStateVersion)
            } else if !self@.projects.contains_key(project_id) {
                r == Err::<u32, RegistryError>(RegistryError::ProjectNotFound)
            } else {
                r == Ok::<u32, RegistryError>(
                    project_rate(
                        self@.projects[project_id].credit_quality as int,
                        self@.projects[project_id].green_impact as int,
                    ) as u32,
                )
            },
    {
        self.require_current_state()?;
        let (cq, gi) = match self.projects.get(&project_id) {
            Some(p) => (p.credit_quality, p.green_impact),
            None => {
                return Err(RegistryError::ProjectNotFound);
            },
        };
        proof {
            assert(self@.projects.contains_key(project_id));
            lemma_scores_in_range(cq, gi);
        }
        Ok(compute_rate(cq, gi))
    }

    /// Set a creator's reputation (0–100). The caller must be the
    /// whitelister or the owner (`owner` as recorded by the ownership
    /// module); the host requires the caller's authorisation.
    pub fn set_creator_reputation(
        &mut self,
        caller: Address,
        creator: Address,
        score: u32,
        owner: Address,
    ) -> (r: Result<(), RegistryError>)
        requires
            old(self).wf(),
        ensures
            final(self).wf(),
            match reputation_outcome(old(self)@, caller, creator, score, owner) {
                Ok(s2) => r is Ok && final(self)@ == s2,
                Err(e) => r == Err::<(), RegistryError>(e) && final(self)@ == old(self)@,
            },
    {
        self.require_not_paused()?;
        self.require_current_state()?;
        if score > MAX_SCORE {
            return Err(RegistryError::ReputationOutOfRange);
        }
        if caller != self.whitelister && caller != owner {
            return Err(RegistryError::NotAuthorizedReputation);
        }
        self.reputation.insert(creator, score);
        proof {
            self.lemma_wf_frame(&*old(self));
        }
        self.emit(RegistryEvent::ReputationUpdated { creator, score });
        Ok(())
    }

    /// The reputation of `creator` (0 when never set).
    pub fn get_creator_reputation(&self, creator: Address) -> (r: Result<u32, RegistryError>)
        ensures
            if state_ok(self@) {
                r == Ok::<u32, RegistryError>(reputation_of(self@, creator))
            } else {
                r == Err::<u32, RegistryError>(RegistryError::UnsupportedStateVersion)
            },
    {
        self.require_current_state()?;
        match self.reputation.get(&creator) {
            Some(v) => Ok(*v),
            None => Ok(0),
        }
    }

    /// The suggested funding cap for `creator`'s projects, in basis points
    /// of vault assets: 50 bps per reputation point (0–5 000).
    pub fn get_creator_funding_limit_bps(&self, creator: Address) -> (r: Result<u32, RegistryError>)
        requires
            self.wf(),
        ensures
            if state_ok(self@) {
                r == Ok::<u32, RegistryError>((reputation_of(self@, creator) * 50) as u32)
            } else {
                r == Err::<u32, RegistryError>(RegistryError::UnsupportedStateVersion)
            },
    {
        self.require_current_state()?;
        let score: u32 = match self.reputation.get(&creator) {
            Some(v) => *v,
            None => 0,
        };
        proof {
            if self@.reputation.contains_key(creator) {
                assert(self@.reputation[creator] <= MAX_SCORE);
            }
        }
        Ok(score * 50)
    }

    /// Replace the whitelister. Owner-only.
    pub fn set_whitelister(&mut self, new_whitelister: Address) -> (r: Result<(), RegistryError>)
        requires
            old(self).wf(),
        ensures
            final(self).wf(),
            if state_ok(old(self)@) {
                r is Ok && final(self)@ == (RegistryState {
                    whitelister: new_whitelister,
                    events: old(self)@.events.push(
                        RegistryEvent::WhitelisterChanged {
                            old_whitelister: old(self)@.whitelister,
                            new_whitelister,
                        },
                    ),
                    ..old(self)@
                })
            } else {
                r == Err::<(), RegistryError>(RegistryError::UnsupportedStateVersion) && final(self)@
                    == old(self)@
            },
    {
        self.require_current_state()?;
        let old_whitelister = self.whitelister;
        self.whitelister = new_whitelister;
        proof {
            self.lemma_wf_frame(&*old(self));
        }
        self.emit(RegistryEvent::WhitelisterChanged { old_whitelister, new_whitelister });
        Ok(())
    }

    /// The current whitelister.
    pub fn get_whitelister(&self) -> (r: Result<Address, RegistryError>)
        ensures
            if state_ok(self@) {
                r == Ok::<Address, RegistryError>(self@.whitelister)
            } else {
                r == Err::<Address, RegistryError>(RegistryError::UnsupportedStateVersion)
            },
    {
        self.require_current_state()?;
        Ok(self.whitelister)
    }

    /// Engage or release the circuit breaker and record the change.
    fn set_paused(&mut self, paused: bool)
        requires
            old(self).wf(),
        ensures
            final(self).wf(),
            final(self)@ == (RegistryState {
                paused,
                events: old(self)@.events.push(
                    if paused {
                        RegistryEvent::RegistryPaused
                    } else {
                        RegistryEvent::RegistryUnpaused
                    },
                ),
                ..old(self)@
            }),
    {
        self.paused = paused;
        proof {
            self.lemma_wf_frame(&*old(self));
        }
        if paused {
            self.emit(RegistryEvent::RegistryPaused);
        } else {
            self.emit(RegistryEvent::RegistryUnpaused);
        }
    }

    /// Pause the registry: state-changing user calls are refused until it
    /// is unpaused. Owner-only.
    pub fn pause(&mut self)
        requires
            old(self).wf(),
        ensures
            final(self).wf(),
            final(self)@ == (RegistryState {
                paused: true,
                events: old(self)@.events.push(RegistryEvent::RegistryPaused),
                ..old(self)@
            }),
    {
        self.set_paused(true);
    }

    /// Unpause the registry. Owner-only.
    pub fn unpause(&mut self)
        requires
            old(self).wf(),
        ensures
            final(self).wf(),
            final(self)@ == (RegistryState {
                paused: false,
                events: old(self)@.events.push(RegistryEvent::RegistryUnpaused),
                ..old(self)@
            }),
    {
        self.set_paused(false);
    }

    /// Whether the registry is paused.
    pub fn is_paused(&self) -> (r: bool)
        ensures
            r == self@.paused,
    {
        self.paused
    }

    /// Set or clear the emergency admin, who may pause and unpause without
    /// owner rights. Owner-only.
    pub fn set_emergency_admin(&mut self, emergency_admin: Option<Address>)
        requires
            old(self).wf(),
        ensures
            final(self).wf(),
            final(self)@ == (RegistryState {
                emergency_admin,
                events: old(self)@.events.push(
                    RegistryEvent::EmergencyAdminChanged { new_emergency_admin: emergency_admin },
                ),
                ..old(self)@
            }),
    {
        self.emergency_admin = emergency_admin;
        proof {
            self.lemma_wf_frame(&*old(self));
        }
        self.emit(RegistryEvent::EmergencyAdminChanged { new_emergency_admin: emergency_admin });
    }

    /// The emergency admin, if any.
    pub fn get_emergency_admin(&self) -> (r: Option<Address>)
        ensures
            r == self@.emergency_admin,
    {
        self.emergency_admin
    }

    /// Refuse callers other than the configured emergency admin.
    fn require_emergency_admin(&self, caller: Address) -> (r: Result<(), RegistryError>)
        ensures
            r is Ok <==> self@.emergency_admin == Some(caller),
            r is Err ==> r == Err::<(), RegistryError>(RegistryError::NotEmergencyAdmin),
    {
        match self.emergency_admin {
            Some(a) => {
                if a == caller {
                    Ok(())
                } else {
                    Err(RegistryError::NotEmergencyAdmin)
                }
            },
            None => Err(RegistryError::NotEmergencyAdmin),
        }
    }

    /// Pause as the emergency admin. The host requires the caller's
    /// authorisation.
    pub fn emergency_pause(&mut self, caller: Address) -> (r: Result<(), RegistryError>)
        requires
            old(self).wf(),
        ensures
            final(self).wf(),
            if old(self)@.emergency_admin == Some(caller) {
                r is Ok && final(self)@ == (RegistryState {
                    paused: true,
                    events: old(self)@.events.push(RegistryEvent::RegistryPaused),
                    ..old(self)@
                })
            } else {
                r == Err::<(), RegistryError>(RegistryError::NotEmergencyAdmin) && final(self)@
                    == old(self)@
            },
    {
        self.require_emergency_admin(caller)?;
        self.set_paused(true);
        Ok(())
    }

    /// Unpause as the emergency admin. The host requires the caller's
    /// authorisation.
    pub fn emergency_unpause(&mut self, caller: Address) -> (r: Result<(), RegistryError>)
        requires
            old(self).wf(),
        ensures
            final(self).wf(),
            if old(self)@.emergency_admin == Some(caller) {
                r is Ok && final(self)@ == (RegistryState {
                    paused: false,
                    events: old(self)@.events.push(RegistryEvent::RegistryUnpaused),
                    ..old(self)@
                })
            } else {
                r == Err::<(), RegistryError>(RegistryError::NotEmergencyAdmin) && final(self)@
                    == old(self)@
            },
    {
        self.require_emergency_admin(caller)?;
        self.set_paused(false);
        Ok(())
    }

    /// Remove zero-valued collateral entries left by older deployments,
    /// visiting every `(project_id, token)` pair of the two lists; returns
    /// how many entries were removed. Each list holds at most
    /// `MAX_COMPACT_STORAGE_SIZE` items. Owner-only.
    pub fn compact_storage(&mut self, project_ids: Vec<u32>, tokens: Vec<Address>) -> (r: Result<
        u32,
        RegistryError,
    >)
        requires
            old(self).wf(),
        ensures
            final(self).wf(),
            if !state_ok(old(self)@) {
                r == Err::<u32, RegistryError>(RegistryError::UnsupportedStateVersion)
                    && final(self)@ == old(self)@
            } else if project_ids.len() > MAX_COMPACT_STORAGE_SIZE || tokens.len()
                > MAX_COMPACT_STORAGE_SIZE {
                r == Err::<u32, RegistryError>(RegistryError::CompactStorageTooLarge)
                    && final(self)@ == old(self)@
            } else {
                let (c2, n) = compact_run(old(self)@.collateral, compact_keys(project_ids@, tokens@));
                r == Ok::<u32, RegistryError>(n as u32) && final(self)@ == (RegistryState {
                    collateral: c2,
                    ..old(self)@
                })
            },
    {
        self.require_current_state()?;
        if project_ids.len() > MAX_COMPACT_STORAGE_SIZE as usize || tokens.len()
            > MAX_COMPACT_STORAGE_SIZE as usize {
            return Err(RegistryError::CompactStorageTooLarge);
        }
        let ghost c0 = old(self)@.collateral;
        let ghost ids = project_ids@;
        let ghost toks = tokens@;
        let mut removed: u32 = 0;
        let mut i: usize = 0;
        assert(ids.take(0) =~= Seq::<u32>::empty());
        while i < project_ids.len()
            invariant
                old(self).wf(),
                self.wf(),
                ids == project_ids@,
                toks == tokens@,
                ids.len() <= MAX_COMPACT_STORAGE_SIZE,
                toks.len() <= MAX_COMPACT_STORAGE_SIZE,
                c0 == old(self)@.collateral,
                i <= ids.len(),
                removed <= 20 * i,
                self@ == (RegistryState {
                    collateral: compact_run(c0, compact_keys(ids.take(i as int), toks)).0,
                    ..old(self)@
                }),
                removed == compact_run(c0, compact_keys(ids.take(i as int), toks)).1,
                self.score_totals@ == old(self).score_totals@,
                self.score_slots@ == old(self).score_slots@,
                self.score_log@ == old(self).score_log@,
            decreases ids.len() - i,
        {
            let pid = project_ids[i];
            let ghost prefix = compact_keys(ids.take(i as int), toks);
            let mut j: usize = 0;
            assert(prefix + toks.take(0).map_values(|t: Address| (pid, t)) =~= prefix);
            while j < tokens.len()
                invariant
                    old(self).wf(),
                    self.wf(),
                    ids == project_ids@,
                    toks == tokens@,
                    ids.len() <= MAX_COMPACT_STORAGE_SIZE,
                    toks.len() <= MAX_COMPACT_STORAGE_SIZE,
                    c0 == old(self)@.collateral,
                    i < ids.len(),
                    pid == ids[i as int],
                    prefix == compact_keys(ids.take(i as int), toks),
                    j <= toks.len(),
                    removed <= 20 * i + j,
                    self@ == (RegistryState {
                        collateral: compact_run(
                            c0,
                            prefix + toks.take(j as int).map_values(|t: Address| (pid, t)),
                        ).0,
                        ..old(self)@
                    }),
                    removed == compact_run(
                        c0,
                        prefix + toks.take(j as int).map_values(|t: Address| (pid, t)),
                    ).1,
                    self.score_totals@ == old(self).score_totals@,
                    self.score_slots@ == old(self).score_slots@,
                    self.score_log@ == old(self).score_log@,
                decreases toks.len() - j,
            {
                let token = tokens[j];
                let ghost keys = prefix + toks.take(j as int).map_values(|t: Address| (pid, t));
                let ghost keys2 = prefix + toks.take(j + 1).map_values(|t: Address| (pid, t));
                proof {
                    assert(keys2 =~= keys.push((pid, token)));
                    assert(keys2.drop_last() =~= keys);
                }
                let value: Option<i128> = match self.collateral.get(&(pid, token)) {
                    Some(v) => Some(*v),
                    None => None,
                };
                if value == Some(0i128) {
                    self.collateral.remove(&(pid, token));
                    removed = removed + 1;
                    proof {
                        self.lemma_wf_frame(&*old(self));
                    }
                }
                j = j + 1;
                proof {
                    assert(self@ =~= (RegistryState {
                        collateral: compact_run(c0, keys2).0,
                        ..old(self)@
                    }));
                }
            }
            proof {
                assert(ids.take(i + 1).drop_last() =~= ids.take(i as int));
                assert(toks.take(toks.len() as int) =~= toks);
                assert(compact_keys(ids.take(i + 1), toks) =~= prefix + toks.map_values(
                    |t: Address| (pid, t),
                ));
            }
            i = i + 1;
        }
        proof {
            assert(ids.take(ids.len() as int) =~= ids);
        }
        Ok(removed)
    }

    /// The events emitted so far, oldest first.
    pub fn events(&self) -> (r: &Vec<RegistryEvent>)
        ensures
            r@ == self@.events,
    {
        &self.events
    }
}

/// Every reachable registry keeps both scores of every project, and every
/// creator's reputation, within 0–100; hence a creator's funding limit is
/// at most 5 000 bps and every project's rate lies within 500–1 000 bps.
pub proof fn law_registry_bounds(r: &ProjectRegistry, creator: Address, project_id: u32)
    requires
        r.wf(),
    ensures
        scores_bounded(r@),
        0 <= reputation_of(r@, creator) * 50 <= 5000,
        r@.projects.contains_key(project_id) ==> 500 <= project_rate(
            r@.projects[project_id].credit_quality as int,
            r@.projects[project_id].green_impact as int,
        ) <= 1000,
{
    if r@.reputation.contains_key(creator) {
        assert(r@.reputation[creator] <= MAX_SCORE);
    }
    if r@.projects.contains_key(project_id) {
        let p = r@.projects[project_id];
        crate::rate::law_project_rate_range(p.credit_quality as int, p.green_impact as int);
    }
}

/// Project ids are handed out in sequence, across all creators: a valid
/// creation on a well-formed registry with `n` projects created so far
/// succeeds, and the new project is number `n + 1`, owned by its creator.
pub proof fn law_sequential_ids(
    r: &ProjectRegistry,
    creator: Address,
    uri: Seq<u8>,
    maturity_date: u64,
    now: u64,
    metadata_hash: Hash32,
)
    requires
        r.wf(),
        !r@.paused,
        state_ok(r@),
        whitelisted(r@, creator),
        MIN_URI_LEN <= uri.len() <= MAX_URI_LEN,
        has_valid_scheme(uri),
        maturity_date == 0 || maturity_date > now,
        r@.project_counter < u32::MAX,
    ensures
        create_project_error(r@, creator, uri, maturity_date, now) is None,
        ({
            let s2 = after_create_project(r@, creator, uri, maturity_date, now, metadata_hash);
            &&& s2.project_counter == r@.project_counter + 1
            &&& s2.projects.contains_key(s2.project_counter)
            &&& s2.projects[s2.project_counter].owner == creator
            &&& ids_bounded(s2)
        }),
{
    assert(!r@.projects.contains_key((r@.project_counter + 1) as u32));
}

} // verus!
