use vstd::prelude::*;
use crate::error::ErrorCode;
use crate::events::{RollbackEvent, SystemPauseEvent, UpgradeEvent};
use crate::instructions::{propose_error, proposed};
use crate::manager::{fresh_id, is_created_event, ManagerView, UpgradeManager};
use crate::constants::MAX_DESCRIPTION_LENGTH;
use crate::state::Principal;
use crate::utils::{validate_description_length, validate_multisig_member};

verus! {

/// Whether `e` reports a rollback of `proposal_id` through `rollback_id`.
pub open spec fn is_rollback_event(
    e: UpgradeEvent,
    proposal_id: u128,
    rollback_id: u128,
    reason: Seq<char>,
    executed_by: Principal,
    now: i64,
) -> bool {
    match e {
        UpgradeEvent::Rollback(ev) => {
            &&& ev.proposal_id == proposal_id
            &&& ev.rollback_proposal_id == rollback_id
            &&& ev.reason@ == reason
            &&& ev.executed_by == executed_by
            &&& ev.timestamp == now
        },
        _ => false,
    }
}

/// Why `execute_rollback_with_id` refuses, if it does.
pub open spec fn rollback_failure(
    m: ManagerView,
    proposal_id: u128,
    rollback_id: u128,
    reason: Seq<char>,
    executed_by: Principal,
) -> Option<ErrorCode> {
    if !m.proposals.contains_key(proposal_id) {
        Some(ErrorCode::NotFound)
    } else if propose_error(m.members, executed_by, reason).is_some() {
        propose_error(m.members, executed_by, reason)
    } else if m.proposals.contains_key(rollback_id) {
        Some(ErrorCode::DuplicateId)
    } else {
        None
    }
}

/// What a successful rollback leaves: the system running again, a
/// compensating proposal `rollback_id` that installs `prior_artifact`, and,
/// in the log, the pause, the rollback, the new proposal and the resumption.
pub open spec fn rolled_back(
    before: ManagerView,
    after: ManagerView,
    proposal_id: u128,
    rollback_id: u128,
    reason: Seq<char>,
    executed_by: Principal,
    prior_artifact: Principal,
    now: i64,
) -> bool {
    let p = proposed(
        rollback_id,
        executed_by,
        prior_artifact,
        before.program_id,
        reason,
        before.timelock_period,
        now,
    );
    let n = before.events.len() as int;
    &&& after == (ManagerView {
        is_paused: false,
        proposals: before.proposals.insert(rollback_id, p),
        events: after.events,
        ..before
    })
    &&& after.events.len() == n + 4
    &&& after.events.subrange(0, n) == before.events
    &&& after.events[n] == UpgradeEvent::SystemPause(
        SystemPauseEvent { actor: executed_by, paused: true, timestamp: now },
    )
    &&& is_rollback_event(after.events[n + 1], proposal_id, rollback_id, reason, executed_by, now)
    &&& is_created_event(after.events[n + 2], p)
    &&& after.events[n + 3] == UpgradeEvent::SystemPause(
        SystemPauseEvent { actor: executed_by, paused: false, timestamp: now },
    )
}

impl UpgradeManager {
    /// Rolls back after proposal `proposal_id` misbehaved: pauses the system,
    /// records the rollback, submits under `rollback_id` a compensating
    /// proposal by `executed_by` to install `prior_artifact` with `reason` as
    /// its description, then resumes. Either all of it happens or nothing.
    pub fn execute_rollback_with_id(
        &mut self,
        proposal_id: u128,
        rollback_id: u128,
        reason: String,
        executed_by: Principal,
        prior_artifact: Principal,
        now: i64,
    ) -> (r: Result<u128, ErrorCode>)
        requires
            old(self).wf(),
        ensures
            final(self).wf(),
            match r {
                Ok(id) => {
                    &&& rollback_failure(old(self)@, proposal_id, rollback_id, reason@, executed_by).is_none()
                    &&& id == rollback_id
                    &&& rolled_back(
                        old(self)@,
                        final(self)@,
                        proposal_id,
                        rollback_id,
                        reason@,
                        executed_by,
                        prior_artifact,
                        now,
                    )
                },
                Err(e) => {
                    &&& rollback_failure(old(self)@, proposal_id, rollback_id, reason@, executed_by) == Some(e)
                    &&& final(self)@ == old(self)@
                },
            },
    {
        if self.proposal(proposal_id).is_none() {
            return Err(ErrorCode::NotFound);
        }
        if let Err(e) = validate_description_length(&reason, MAX_DESCRIPTION_LENGTH) {
            return Err(e);
        }
        if let Err(e) = validate_multisig_member(&self.config().members, &executed_by) {
            return Err(e);
        }
        if self.proposal(rollback_id).is_some() {
            return Err(ErrorCode::DuplicateId);
        }
        let ghost m0 = self@;
        let paused = self.pause(executed_by, now);
        assert(paused is Ok);
        let ghost m1 = self@;
        let event_reason = reason.clone();
        self.log_event(
            UpgradeEvent::Rollback(
                RollbackEvent {
                    proposal_id,
                    rollback_proposal_id: rollback_id,
                    reason: event_reason,
                    executed_by,
                    timestamp: now,
                },
            ),
        );
        let ghost m2 = self@;
        let submitted = self.submit_with_id(rollback_id, executed_by, prior_artifact, reason, now);
        assert(submitted is Ok);
        let ghost m3 = self@;
        let resumed = self.resume(executed_by, now);
        assert(resumed is Ok);
        proof {
            let n = m0.events.len() as int;
            let m4 = self@;
            assert(m3.events =~= m2.events.push(m3.events.last()));
            assert(m4.events =~= m0.events.push(m1.events[n]).push(m2.events[n + 1]).push(m3.events[n + 2]).push(
                m4.events[n + 3],
            ));
            assert(m4.events.subrange(0, n) =~= m0.events);
        }
        Ok(rollback_id)
    }

    /// Rolls back with a compensating proposal under a fresh random id; see
    /// `execute_rollback_with_id`.
    pub fn execute_rollback(
        &mut self,
        proposal_id: u128,
        reason: String,
        executed_by: Principal,
        prior_artifact: Principal,
        now: i64,
    ) -> (r: Result<u128, ErrorCode>)
        requires
            old(self).wf(),
        ensures
            final(self).wf(),
            match r {
                Ok(id) => rolled_back(
                    old(self)@,
                    final(self)@,
                    proposal_id,
                    id,
                    reason@,
                    executed_by,
                    prior_artifact,
                    now,
                ) && !old(self)@.proposals.contains_key(id),
                Err(e) => {
                    &&& final(self)@ == old(self)@
                    &&& e == (if !old(self)@.proposals.contains_key(proposal_id) {
                        ErrorCode::NotFound
                    } else {
                        match propose_error(old(self)@.members, executed_by, reason@) {
                            Some(pe) => pe,
                            None => ErrorCode::DuplicateId,
                        }
                    })
                },
            },
    {
        let rollback_id = fresh_id();
        self.execute_rollback_with_id(proposal_id, rollback_id, reason, executed_by, prior_artifact, now)
    }
}

} // verus!
