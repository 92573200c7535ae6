use vstd::prelude::*;
use crate::error::ErrorCode;
use crate::instructions::{
    approve_error, approved, arms_timelock, cancel_error, cancelled, executed,
};
use crate::manager::{ManagerView, UpgradeManager};
use crate::migration::{JobView, MigrationStatus};
use crate::state::{Principal, ProposalView, UpgradeStatus};
use crate::utils::{expiry_in_range, timelock_expired};

verus! {

/// In every proposal of a valid registry, the approval count is the size of
/// the set of principals that approved.
pub proof fn lemma_approval_count_is_set_size(m: ManagerView, id: u128)
    requires
        m.wf(),
        m.proposals.contains_key(id),
    ensures
        m.proposals[id].approval_count as int == m.proposals[id].approval_set().len(),
{
    m.proposals[id].approvals.unique_seq_to_set();
}

/// Once a principal's approval is accepted, a second approval of the same
/// proposal by the same principal is refused with `DuplicateApproval`, which
/// leaves the proposal, and so its count, unchanged.
pub proof fn lemma_second_approval_is_duplicate(
    p: ProposalView,
    members: Seq<Principal>,
    threshold: u8,
    approver: Principal,
    first: i64,
)
    requires
        p.wf(members, threshold),
        approve_error(p, members, approver).is_none(),
    ensures
        approve_error(approved(p, approver, threshold, first), members, approver) == Some(
            ErrorCode::DuplicateApproval,
        ),
{
    let q = approved(p, approver, threshold, first);
    assert(q.approvals[q.approvals.len() - 1] == approver);
}

/// In a valid registry that is not paused, `execute` of an existing proposal
/// whose timelock ends within the range of `i64` is accepted exactly when the
/// proposal is `TimelockActive` and its timelock has run out; while it is
/// `TimelockActive` and the timelock is still running, it is refused with
/// `TimelockNotExpired`.
pub proof fn lemma_execute_gate(m: ManagerView, id: u128, now: i64)
    requires
        m.wf(),
        m.proposals.contains_key(id),
        !m.is_paused,
        m.proposals[id].timelock_activated_at.is_some() ==> expiry_in_range(
            m.proposals[id].timelock_activated_at.unwrap(),
            m.proposals[id].timelock_period,
        ),
    ensures
        UpgradeManager::execute_failure(m, id, now).is_none() <==> {
            &&& m.proposals[id].status == UpgradeStatus::TimelockActive
            &&& timelock_expired(
                m.proposals[id].timelock_activated_at.unwrap(),
                m.proposals[id].timelock_period,
                now,
            )
        },
        m.proposals[id].status == UpgradeStatus::TimelockActive && !timelock_expired(
            m.proposals[id].timelock_activated_at.unwrap(),
            m.proposals[id].timelock_period,
            now,
        ) ==> UpgradeManager::execute_failure(m, id, now) == Some(ErrorCode::TimelockNotExpired),
{
}

/// The timelock is armed by exactly the accepted approval that brings the
/// count to the threshold. An armed timelock keeps its activation time
/// through every later approval, execution and cancellation.
pub proof fn lemma_timelock_armed_once(
    p: ProposalView,
    members: Seq<Principal>,
    threshold: u8,
    approver: Principal,
    now: i64,
)
    requires
        p.wf(members, threshold),
        approve_error(p, members, approver).is_none(),
    ensures
        arms_timelock(p, threshold) <==> p.approval_count + 1 == threshold,
        arms_timelock(p, threshold) ==> approved(p, approver, threshold, now).timelock_activated_at
            == Some(now),
        !arms_timelock(p, threshold) ==> approved(p, approver, threshold, now).timelock_activated_at
            == p.timelock_activated_at,
        p.timelock_activated_at.is_some() ==> !arms_timelock(p, threshold),
        executed(p, now).timelock_activated_at == p.timelock_activated_at,
        cancelled(p).timelock_activated_at == p.timelock_activated_at,
{
}

/// A member's cancellation is accepted from `Proposed`, `Approved` and
/// `TimelockActive`, and refused from `Executed` and `Cancelled`.
pub proof fn lemma_cancel_from_live_states(p: ProposalView, members: Seq<Principal>, canceller: Principal)
    requires
        members.contains(canceller),
    ensures
        cancel_error(p, members, canceller).is_none() <==> (p.status == UpgradeStatus::Proposed
            || p.status == UpgradeStatus::Approved || p.status == UpgradeStatus::TimelockActive),
        p.status == UpgradeStatus::Executed ==> cancel_error(p, members, canceller) == Some(
            ErrorCode::ProposalAlreadyExecuted,
        ),
        p.status == UpgradeStatus::Cancelled ==> cancel_error(p, members, canceller) == Some(
            ErrorCode::ProposalAlreadyCancelled,
        ),
{
}

/// A valid job never counts more items than it holds, and reports
/// `completed` exactly when every item has been processed.
pub proof fn lemma_job_status(j: JobView)
    requires
        j.wf(),
    ensures
        j.progress().completed <= j.progress().total,
        (j.progress().status == MigrationStatus::Completed) <==> (j.progress().completed
            == j.progress().total),
        j.tracker.completed_at.is_some() <==> (j.progress().status == MigrationStatus::Completed),
{
}

/// Processing one item, failed or not, advances the count by one, keeps the
/// job valid, records the outcome, and leaves the remaining items to run.
pub proof fn lemma_item_advances_job(j: JobView, failure: Option<Seq<char>>, now: i64)
    requires
        j.wf(),
        j.tracker.migrated_accounts < j.tracker.total_accounts,
    ensures
        j.advanced(failure, now).wf(),
        j.advanced(failure, now).tracker.migrated_accounts == j.tracker.migrated_accounts + 1,
        j.advanced(failure, now).tracker.total_accounts == j.tracker.total_accounts,
        j.advanced(failure, now).results.last().success == failure.is_none(),
        j.advanced(failure, now).results.drop_last() == j.results,
{
    let k = j.advanced(failure, now);
    assert(k.results.drop_last() =~= j.results);
}

} // verus!
