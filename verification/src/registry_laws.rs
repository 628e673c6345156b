//! Properties of the registry that span several calls.
use vstd::prelude::*;
use crate::common::{Address, Hash32};
use crate::registry::{
    RegistryState, STATE_VERSION, MAX_SCORE_HISTORY, after_create_project, batch_update, certify_outcome,
    collateral_of, create_project_error, create_proposal_error, credit_update, deposit_outcome,
    execute_outcome, guarded, history_of, impact_update, liquidate_outcome, listing,
    lemma_listing_concat, migrate_outcome, new_project, page, release_outcome, reputation_outcome,
    retained, state_ok, status_outcome, tally_room, vote_outcome,
};
use crate::registry_types::{
    CertificationStatus, ProjectStatus, RegistryError, RegistryEvent, ScoreHistoryEntry,
};

verus! {

/// A created project reads back exactly as created, under the next id;
/// every other project is untouched.
pub proof fn law_create_then_get(
    s: RegistryState,
    creator: Address,
    uri: Seq<u8>,
    maturity_date: u64,
    now: u64,
    metadata_hash: Hash32,
)
    requires
        create_project_error(s, creator, uri, maturity_date, now) is None,
    ensures
        ({
            let s2 = after_create_project(s, creator, uri, maturity_date, now, metadata_hash);
            let id = (s.project_counter + 1) as u32;
            &&& s2.project_counter == s.project_counter + 1
            &&& s2.projects.contains_key(id)
            &&& s2.projects[id] == new_project(creator, uri, maturity_date, now, metadata_hash)
            &&& forall|other: u32|
                other != id ==> (#[trigger] s2.projects.contains_key(other)
                    == s.projects.contains_key(other) && (s.projects.contains_key(other)
                    ==> s2.projects[other] == s.projects[other]))
        }),
{
}

/// Two adjacent pages make up the page that spans both, as long as the
/// offsets stay clear of the id space's end.
pub proof fn law_pages_concatenate(s: RegistryState, offset: u32, l1: u32, l2: u32)
    requires
        l1 > 0,
        l2 > 0,
        offset + l1 + l2 + 1 <= u32::MAX,
    ensures
        page(s, offset, l1) + page(s, (offset + l1) as u32, l2) == page(
            s,
            offset,
            (l1 + l2) as u32,
        ),
{
    let e = if s.project_counter + 1 > u32::MAX {
        u32::MAX as int
    } else {
        s.project_counter + 1
    };
    let a = offset + 1;
    let b = offset + l1 + 1;
    let c = offset + l1 + l2 + 1;
    let m1 = if b < e {
        b
    } else {
        e
    };
    let m2 = if c < e {
        c
    } else {
        e
    };
    assert(page(s, offset, l1) == listing(s, a, m1, false));
    assert(page(s, (offset + l1) as u32, l2) == listing(s, b, m2, false));
    assert(page(s, offset, (l1 + l2) as u32) == listing(s, a, m2, false));
    if e <= b {
        assert(listing(s, b, m2, false) =~= Seq::empty());
        assert(m1 == m2);
        assert(listing(s, a, m1, false) + listing(s, b, m2, false) =~= listing(s, a, m1, false));
    } else {
        lemma_listing_concat(s, a, b, m2, false);
    }
}

/// With no id space exhausted, one page of at least `project_counter`
/// entries from the start is the full listing of live projects.
pub proof fn law_full_page_is_listing(s: RegistryState, limit: u32)
    requires
        limit >= s.project_counter,
        limit > 0,
        s.project_counter < u32::MAX,
    ensures
        page(s, 0, limit) == listing(s, 1, s.project_counter + 1, false),
{
}

/// An archived project is frozen: its scores, certification, status and
/// collateral can no longer change.
pub proof fn law_archived_project_frozen(s: RegistryState, project_id: u32)
    requires
        s.projects.contains_key(project_id),
        s.projects[project_id].status == ProjectStatus::Archived,
    ensures
        forall|cq: u32, gi: u32, now: u64| #[trigger]
            impact_update(s, project_id, cq, gi, now) is Err,
        forall|cq: u32, now: u64| #[trigger] credit_update(s, project_id, cq, now) is Err,
        forall|caller: Address, owner: Address, st: CertificationStatus| #[trigger]
            certify_outcome(s, caller, owner, project_id, st) is Err,
        forall|st: ProjectStatus| #[trigger] status_outcome(s, project_id, st) is Err,
        forall|depositor: Address, token: Address, amount: i128| #[trigger]
            deposit_outcome(s, project_id, depositor, token, amount) is Err,
        forall|caller: Address, token: Address, now: u64| #[trigger]
            release_outcome(s, project_id, caller, token, now) is Err,
{
}

/// While paused, every state-changing user call is refused with `Paused`.
pub proof fn law_pause_blocks_mutations(s: RegistryState)
    requires
        s.paused,
    ensures
        forall|creator: Address, uri: Seq<u8>, md: u64, now: u64| #[trigger]
            create_project_error(s, creator, uri, md, now) == Some(RegistryError::Paused),
        forall|single_owner: bool, outcome: Result<RegistryState, RegistryError>| #[trigger]
            guarded(s, single_owner, outcome) == Err::<RegistryState, RegistryError>(
                RegistryError::Paused,
            ),
        forall|description: Seq<u8>, duration: u64| #[trigger]
            create_proposal_error(s, description, duration) == Some(RegistryError::Paused),
        forall|voter: Address, id: u32, support: bool, weight: i128, now: u64| #[trigger]
            vote_outcome(s, voter, id, support, weight, now) == Err::<RegistryState, RegistryError>(
                RegistryError::Paused,
            ),
        forall|caller: Address, owner: Address, id: u32, st: CertificationStatus| #[trigger]
            certify_outcome(s, caller, owner, id, st) == Err::<RegistryState, RegistryError>(
                RegistryError::Paused,
            ),
        forall|id: u32, st: ProjectStatus| #[trigger]
            status_outcome(s, id, st) == Err::<RegistryState, RegistryError>(RegistryError::Paused),
        forall|id: u32, depositor: Address, token: Address, amount: i128| #[trigger]
            deposit_outcome(s, id, depositor, token, amount) == Err::<RegistryState, RegistryError>(
                RegistryError::Paused,
            ),
        forall|id: u32, caller: Address, token: Address, now: u64| #[trigger]
            release_outcome(s, id, caller, token, now) == Err::<(RegistryState, i128), RegistryError>(
                RegistryError::Paused,
            ),
        forall|id: u32, token: Address, recipient: Address, now: u64| #[trigger]
            liquidate_outcome(s, id, token, recipient, now) == Err::<
                (RegistryState, i128),
                RegistryError,
            >(RegistryError::Paused),
        forall|caller: Address, creator: Address, score: u32, owner: Address| #[trigger]
            reputation_outcome(s, caller, creator, score, owner) == Err::<
                RegistryState,
                RegistryError,
            >(RegistryError::Paused),
{
}

/// A successful migration leaves a current state, and migrating it again
/// from the current version changes nothing.
pub proof fn law_migration_idempotent(s: RegistryState, from_version: u32)
    requires
        migrate_outcome(s, from_version) is Ok,
    ensures
        ({
            let s2 = migrate_outcome(s, from_version)->Ok_0;
            &&& s2.state_version == STATE_VERSION
            &&& state_ok(s2)
            &&& migrate_outcome(s2, STATE_VERSION) == Ok::<RegistryState, RegistryError>(s2)
        }),
{
}

/// A voter's accepted vote adds its weight to the chosen side only, and the
/// same voter cannot vote on that proposal again.
pub proof fn law_one_vote_per_voter(
    s: RegistryState,
    voter: Address,
    proposal_id: u32,
    support: bool,
    weight: i128,
    now: u64,
)
    requires
        vote_outcome(s, voter, proposal_id, support, weight, now) is Ok,
        tally_room(s, proposal_id, support, weight),
    ensures
        ({
            let s2 = vote_outcome(s, voter, proposal_id, support, weight, now)->Ok_0;
            let p = s.proposals[proposal_id];
            let p2 = s2.proposals[proposal_id];
            &&& p2.votes_for == (if support {
                p.votes_for + weight
            } else {
                p.votes_for as int
            })
            &&& p2.votes_against == (if support {
                p.votes_against as int
            } else {
                p.votes_against + weight
            })
            &&& forall|support2: bool, weight2: i128, now2: u64|
                weight2 > 0 ==> #[trigger] vote_outcome(
                    s2,
                    voter,
                    proposal_id,
                    support2,
                    weight2,
                    now2,
                ) == Err::<RegistryState, RegistryError>(RegistryError::AlreadyVoted)
        }),
{
}

/// A proposal is executed at most once, and once executed it takes no more
/// votes.
pub proof fn law_execute_once(s: RegistryState, proposal_id: u32, now: u64)
    requires
        execute_outcome(s, proposal_id, now) is Ok,
    ensures
        ({
            let s2 = execute_outcome(s, proposal_id, now)->Ok_0.0;
            &&& s2.proposals[proposal_id].executed
            &&& forall|now2: u64| #[trigger] execute_outcome(s2, proposal_id, now2) is Err
            &&& forall|voter: Address, support: bool, weight: i128, now2: u64| #[trigger]
                vote_outcome(s2, voter, proposal_id, support, weight, now2) is Err
        }),
{
}

/// Collateral accounting: a deposit adds its amount to the balance of that
/// project and token; a release or liquidation pays out exactly the whole
/// positive balance and leaves none. Other balances are untouched.
pub proof fn law_collateral_accounting(
    s: RegistryState,
    project_id: u32,
    token: Address,
    owner: Address,
    amount: i128,
    recipient: Address,
    now: u64,
)
    requires
        amount > 0 ==> collateral_of(s, project_id, token) + amount <= i128::MAX,
    ensures
        deposit_outcome(s, project_id, owner, token, amount) matches Ok(s2) ==> {
            &&& collateral_of(s2, project_id, token) == collateral_of(s, project_id, token) + amount
            &&& forall|p: u32, t: Address|
                (p, t) != (project_id, token) ==> #[trigger] collateral_of(s2, p, t)
                    == collateral_of(s, p, t)
        },
        release_outcome(s, project_id, owner, token, now) matches Ok((s2, paid)) ==> {
            &&& paid == collateral_of(s, project_id, token)
            &&& paid > 0
            &&& collateral_of(s2, project_id, token) == 0
            &&& forall|p: u32, t: Address|
                (p, t) != (project_id, token) ==> #[trigger] collateral_of(s2, p, t)
                    == collateral_of(s, p, t)
        },
        liquidate_outcome(s, project_id, token, recipient, now) matches Ok((s2, paid)) ==> {
            &&& paid == collateral_of(s, project_id, token)
            &&& paid > 0
            &&& collateral_of(s2, project_id, token) == 0
            &&& forall|p: u32, t: Address|
                (p, t) != (project_id, token) ==> #[trigger] collateral_of(s2, p, t)
                    == collateral_of(s, p, t)
        },
{
}

/// A score update that changes the scores records them, with the time, as
/// the newest retained history entry; the history keeps at most
/// `MAX_SCORE_HISTORY` entries.
pub proof fn law_history_records_latest(
    s: RegistryState,
    project_id: u32,
    credit_quality: u32,
    green_impact: u32,
    now: u64,
)
    requires
        impact_update(s, project_id, credit_quality, green_impact, now) is Ok,
        impact_update(s, project_id, credit_quality, green_impact, now)->Ok_0 != s,
    ensures
        ({
            let h = retained(
                history_of(
                    impact_update(s, project_id, credit_quality, green_impact, now)->Ok_0,
                    project_id,
                ),
            );
            &&& 1 <= h.len() <= MAX_SCORE_HISTORY
            &&& h.last() == (ScoreHistoryEntry { timestamp: now, credit_quality, green_impact })
        }),
{
}

/// A batch of one entry `(project_id, credit_quality, green_impact)` has
/// the outcome of the single update of that project to those scores.
pub proof fn law_single_entry_batch_is_single_update(
    s: RegistryState,
    project_id: u32,
    credit_quality: u32,
    green_impact: u32,
    now: u64,
)
    ensures
        batch_update(s, seq![(project_id, credit_quality, green_impact)], now) == impact_update(
            s,
            project_id,
            credit_quality,
            green_impact,
            now,
        ),
{
    let u = seq![(project_id, credit_quality, green_impact)];
    assert(u.drop_last() =~= Seq::<(u32, u32, u32)>::empty());
    assert(u.last() == (project_id, credit_quality, green_impact));
    assert(batch_update(s, u.drop_last(), now) == Ok::<RegistryState, RegistryError>(s));
    assert(batch_update(s, u, now) == impact_update(s, project_id, credit_quality, green_impact, now));
}

/// After a successful batch, every project it names holds the credit
/// quality and green impact of its last entry `(project_id, credit_quality,
/// green_impact)`.
pub proof fn law_batch_sets_last_entry_scores(
    s: RegistryState,
    updates: Seq<(u32, u32, u32)>,
    now: u64,
    i: int,
)
    requires
        batch_update(s, updates, now) is Ok,
        0 <= i < updates.len(),
        forall|j: int| i < j < updates.len() ==> #[trigger] updates[j].0 != updates[i].0,
    ensures
        ({
            let s2 = batch_update(s, updates, now)->Ok_0;
            let (id, cq, gi) = updates[i];
            &&& s2.projects.contains_key(id)
            &&& s2.projects[id].credit_quality == cq
            &&& s2.projects[id].green_impact == gi
        }),
    decreases updates.len(),
{
    let n = updates.len() as int;
    let u1 = updates.drop_last();
    let s1 = batch_update(s, u1, now)->Ok_0;
    let e = updates.last();
    assert(batch_update(s, u1, now) is Ok);
    if i < n - 1 {
        assert forall|j: int| i < j < u1.len() implies #[trigger] u1[j].0 != u1[i].0 by {
            assert(u1[j] == updates[j]);
        }
        law_batch_sets_last_entry_scores(s, u1, now, i);
        assert(e.0 != updates[i].0);
    }
}

/// Executing a proposal reports whether it passed: more weight voted for
/// it than against it. The proposal is marked executed with its tallies
/// kept, and the `ProposalExecuted` event carries the same verdict.
pub proof fn law_execution_reports_majority(s: RegistryState, proposal_id: u32, now: u64)
    requires
        execute_outcome(s, proposal_id, now) is Ok,
    ensures
        ({
            let (s2, passed) = execute_outcome(s, proposal_id, now)->Ok_0;
            let p = s.proposals[proposal_id];
            &&& passed == (p.votes_for > p.votes_against)
            &&& s2.proposals[proposal_id].executed
            &&& s2.proposals[proposal_id].votes_for == p.votes_for
            &&& s2.proposals[proposal_id].votes_against == p.votes_against
            &&& s2.events.last() == RegistryEvent::ProposalExecuted {
                proposal_id,
                passed: p.votes_for > p.votes_against,
            }
        }),
{
}

/// Collateral of a project without a maturity date is released only
/// while the project is `Pending` or `Completed`: for the owner of a live
/// project of an unpaused, current registry, an `Active` or `Funded`
/// project is refused with `ProjectNotMature` and nothing moves, while a
/// `Pending` or `Completed` one pays out its whole positive balance. With a
/// maturity date, release waits for that date.
pub proof fn law_release_needs_maturity(
    s: RegistryState,
    project_id: u32,
    caller: Address,
    token: Address,
    now: u64,
)
    requires
        !s.paused,
        state_ok(s),
        s.projects.contains_key(project_id),
        s.projects[project_id].status != ProjectStatus::Archived,
        s.projects[project_id].owner == caller,
    ensures
        ({
            let p = s.projects[project_id];
            let out = release_outcome(s, project_id, caller, token, now);
            &&& p.maturity_date == 0 && (p.status == ProjectStatus::Active || p.status
                == ProjectStatus::Funded) ==> out == Err::<(RegistryState, i128), RegistryError>(
                RegistryError::ProjectNotMature,
            )
            &&& p.maturity_date == 0 && (p.status == ProjectStatus::Pending || p.status
                == ProjectStatus::Completed) && collateral_of(s, project_id, token) > 0 ==> (out
                matches Ok((s2, amount)) && amount == collateral_of(s, project_id, token)
                && collateral_of(s2, project_id, token) == 0)
            &&& p.maturity_date > 0 && now < p.maturity_date ==> out == Err::<
                (RegistryState, i128),
                RegistryError,
            >(RegistryError::ProjectNotMature)
            &&& p.maturity_date > 0 && now >= p.maturity_date && collateral_of(s, project_id, token)
                > 0 ==> out is Ok
        }),
{
}

} // verus!
