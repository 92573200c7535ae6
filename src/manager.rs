use vstd::prelude::*;
use crate::constants::MAX_MULTISIG_MEMBERS;
use crate::error::ErrorCode;
use crate::events::{
    ApprovalEvent, ProposalCreatedEvent, TimelockActivatedEvent, UpgradeCancelledEvent,
    UpgradeEvent, UpgradeExecutedEvent, SystemPauseEvent, AccountMigratedEvent,
};
use crate::instructions::{
    approval_report, approve_error, approve_upgrade, approved, arms_timelock, cancel_error,
    cancel_upgrade, cancelled, execute_error, execute_upgrade, executed, propose_error,
    pause_system, propose_upgrade, proposed, resume_system, ApprovalResult,
};
use crate::migration::{outcome_view, string_views, JobView, MigrationJob, MigrationProgress};
use crate::state::{MultisigConfig, Principal, ProposalView, UpgradeProposal, UpgradeStatus};
use crate::utils::{clamp_i64, expiry_in_range, saturating_time_add, timelock_expired, validate_timelock_expired};

verus! {

/// Relies on `uuid::Uuid::new_v4`: a random version-4 identifier, taken as
/// its 128-bit value. Nothing is promised of the value.
#[verifier::external_body]
pub(crate) fn fresh_id() -> (r: u128) {
    uuid::Uuid::new_v4().as_u128()
}

/// The abstract state of the registry.
pub struct ManagerView {
    pub authority: Principal,
    pub members: Seq<Principal>,
    pub threshold: u8,
    pub is_paused: bool,
    pub program_id: Principal,
    pub timelock_period: i64,
    pub proposals: Map<u128, ProposalView>,
    pub jobs: Map<u128, JobView>,
    pub events: Seq<UpgradeEvent>,
}

impl ManagerView {
    /// The membership is valid, and every proposal and job keeps its invariant
    /// and is filed under its own id.
    pub open spec fn wf(self) -> bool {
        &&& self.members.len() <= MAX_MULTISIG_MEMBERS
        &&& self.members.no_duplicates()
        &&& 1 <= self.threshold
        &&& self.threshold as int <= self.members.len()
        &&& forall|id: u128| #[trigger] self.proposals.contains_key(id) ==> {
            &&& self.proposals[id].wf(self.members, self.threshold)
            &&& self.proposals[id].id == id
        }
        &&& forall|id: u128| #[trigger] self.jobs.contains_key(id) ==> {
            &&& self.jobs[id].wf()
            &&& self.jobs[id].id == id
        }
    }

    /// Same membership, threshold, pause flag, governed program and period.
    pub open spec fn same_settings(self, other: ManagerView) -> bool {
        &&& self.authority == other.authority
        &&& self.members == other.members
        &&& self.threshold == other.threshold
        &&& self.is_paused == other.is_paused
        &&& self.program_id == other.program_id
        &&& self.timelock_period == other.timelock_period
    }
}

/// Whether `e` reports the creation of `p`.
pub open spec fn is_created_event(e: UpgradeEvent, p: ProposalView) -> bool {
    match e {
        UpgradeEvent::ProposalCreated(ev) => {
            &&& ev.proposal_id == p.id
            &&& ev.proposer == p.proposer
            &&& ev.new_program_buffer == p.new_program_buffer
            &&& ev.description@ == p.description
            &&& ev.timelock_end == clamp_i64(p.created_at + p.timelock_period)
            &&& ev.timestamp == p.created_at
        },
        _ => false,
    }
}

/// The events of an accepted approval of `p`: the arming of the timelock when
/// this approval arms it, then the approval itself.
pub open spec fn approval_events(p: ProposalView, approver: Principal, threshold: u8, now: i64) -> Seq<UpgradeEvent> {
    let approval = UpgradeEvent::Approval(
        ApprovalEvent {
            proposal_id: p.id,
            approver,
            approval_count: (p.approval_count + 1) as u8,
            threshold,
            timelock_activated: arms_timelock(p, threshold),
            timestamp: now,
        },
    );
    if arms_timelock(p, threshold) {
        seq![
            UpgradeEvent::TimelockActivated(
                TimelockActivatedEvent {
                    proposal_id: p.id,
                    approver,
                    activated_at: now,
                    expires_at: clamp_i64(now + p.timelock_period),
                },
            ),
            approval,
        ]
    } else {
        seq![approval]
    }
}

/// Whether `e` reports the cancellation of proposal `id`.
pub open spec fn is_cancelled_event(e: UpgradeEvent, id: u128, canceller: Principal, reason: Seq<char>, now: i64) -> bool {
    match e {
        UpgradeEvent::UpgradeCancelled(ev) => {
            &&& ev.proposal_id == id
            &&& ev.canceller == canceller
            &&& ev.reason@ == reason
            &&& ev.timestamp == now
        },
        _ => false,
    }
}

/// Whether `e` reports the processing of `account` in job `job_id`.
pub open spec fn is_migrated_event(e: UpgradeEvent, job_id: u128, account: Seq<char>, success: bool, now: i64) -> bool {
    match e {
        UpgradeEvent::AccountMigrated(ev) => {
            &&& ev.job_id == job_id
            &&& ev.account_address@ == account
            &&& ev.success == success
            &&& ev.timestamp == now
        },
        _ => false,
    }
}

/// Every job of `a` is still in `b`, over the same items, with at least as
/// many of them processed.
pub open spec fn progress_kept(a: Map<u128, JobView>, b: Map<u128, JobView>) -> bool {
    forall|id: u128| #[trigger] a.contains_key(id) ==> {
        &&& b.contains_key(id)
        &&& b[id].tracker.total_accounts == a[id].tracker.total_accounts
        &&& b[id].tracker.migrated_accounts >= a[id].tracker.migrated_accounts
    }
}

/// Whether `p` waits in `TimelockActive` with its timelock run out at `now`.
pub open spec fn ready_to_execute(p: ProposalView, now: i64) -> bool {
    &&& p.status == UpgradeStatus::TimelockActive
    &&& p.timelock_activated_at.is_some()
    &&& expiry_in_range(p.timelock_activated_at.unwrap(), p.timelock_period)
    &&& timelock_expired(p.timelock_activated_at.unwrap(), p.timelock_period, now)
}

/// `ps` holds each proposal of `map` exactly once, under its id.
pub closed spec fn proposal_links(ps: Seq<UpgradeProposal>, map: Map<u128, ProposalView>) -> bool {
    &&& forall|i: int| 0 <= i < ps.len() ==> {
        &&& map.contains_key(#[trigger] ps[i].id)
        &&& map[ps[i].id] == ps[i]@
    }
    &&& forall|id: u128| #[trigger] map.contains_key(id) ==> exists|i: int| 0 <= i < ps.len() && #[trigger] ps[i].id == id
    &&& forall|i: int, j: int| 0 <= i < j < ps.len() ==> ps[i].id != ps[j].id
}

/// `js` holds each job of `map` exactly once, under its id.
pub closed spec fn job_links(js: Seq<MigrationJob>, map: Map<u128, JobView>) -> bool {
    &&& forall|i: int| 0 <= i < js.len() ==> {
        &&& map.contains_key(#[trigger] js[i].id)
        &&& map[js[i].id] == js[i]@
    }
    &&& forall|id: u128| #[trigger] map.contains_key(id) ==> exists|i: int| 0 <= i < js.len() && #[trigger] js[i].id == id
    &&& forall|i: int, j: int| 0 <= i < j < js.len() ==> js[i].id != js[j].id
}

proof fn lemma_proposal_links_push(ps: Seq<UpgradeProposal>, map: Map<u128, ProposalView>, p: UpgradeProposal)
    requires
        proposal_links(ps, map),
        !map.contains_key(p.id),
    ensures
        proposal_links(ps.push(p), map.insert(p.id, p@)),
{
    let ps2 = ps.push(p);
    let map2 = map.insert(p.id, p@);
    assert forall|i: int| 0 <= i < ps2.len() implies {
        &&& map2.contains_key(#[trigger] ps2[i].id)
        &&& map2[ps2[i].id] == ps2[i]@
    } by {
        if i < ps.len() {
            assert(ps2[i] == ps[i]);
            assert(map.contains_key(ps[i].id));
        }
    }
    assert forall|id: u128| #[trigger] map2.contains_key(id) implies exists|i: int|
        0 <= i < ps2.len() && #[trigger] ps2[i].id == id by {
        if id == p.id {
            assert(ps2[ps.len() as int].id == id);
        } else {
            let i = choose|i: int| 0 <= i < ps.len() && #[trigger] ps[i].id == id;
            assert(ps2[i].id == id);
        }
    }
    assert forall|i: int, j: int| 0 <= i < j < ps2.len() implies ps2[i].id != ps2[j].id by {
        if j == ps.len() {
            assert(map.contains_key(ps[i].id));
        }
    }
}

proof fn lemma_proposal_links_update(ps: Seq<UpgradeProposal>, map: Map<u128, ProposalView>, i: int, p: UpgradeProposal)
    requires
        proposal_links(ps, map),
        0 <= i < ps.len(),
        p.id == ps[i].id,
    ensures
        proposal_links(ps.update(i, p), map.insert(p.id, p@)),
        map.contains_key(p.id),
{
    let ps2 = ps.update(i, p);
    let map2 = map.insert(p.id, p@);
    assert(map.contains_key(ps[i].id));
    assert forall|k: int| 0 <= k < ps2.len() implies {
        &&& map2.contains_key(#[trigger] ps2[k].id)
        &&& map2[ps2[k].id] == ps2[k]@
    } by {
        if k != i {
            assert(ps2[k] == ps[k]);
            assert(map.contains_key(ps[k].id));
            if k < i {
                assert(ps[k].id != ps[i].id);
            } else {
                assert(ps[i].id != ps[k].id);
            }
        }
    }
    assert forall|id: u128| #[trigger] map2.contains_key(id) implies exists|k: int|
        0 <= k < ps2.len() && #[trigger] ps2[k].id == id by {
        if id == p.id {
            assert(ps2[i].id == id);
        } else {
            let k = choose|k: int| 0 <= k < ps.len() && #[trigger] ps[k].id == id;
            assert(ps2[k].id == id);
        }
    }
}

proof fn lemma_job_links_push(js: Seq<MigrationJob>, map: Map<u128, JobView>, j: MigrationJob)
    requires
        job_links(js, map),
        !map.contains_key(j.id),
    ensures
        job_links(js.push(j), map.insert(j.id, j@)),
{
    let js2 = js.push(j);
    let map2 = map.insert(j.id, j@);
    assert forall|i: int| 0 <= i < js2.len() implies {
        &&& map2.contains_key(#[trigger] js2[i].id)
        &&& map2[js2[i].id] == js2[i]@
    } by {
        if i < js.len() {
            assert(js2[i] == js[i]);
            assert(map.contains_key(js[i].id));
        }
    }
    assert forall|id: u128| #[trigger] map2.contains_key(id) implies exists|i: int|
        0 <= i < js2.len() && #[trigger] js2[i].id == id by {
        if id == j.id {
            assert(js2[js.len() as int].id == id);
        } else {
            let i = choose|i: int| 0 <= i < js.len() && #[trigger] js[i].id == id;
            assert(js2[i].id == id);
        }
    }
    assert forall|a: int, b: int| 0 <= a < b < js2.len() implies js2[a].id != js2[b].id by {
        if b == js.len() {
            assert(map.contains_key(js[a].id));
        }
    }
}

proof fn lemma_job_links_update(js: Seq<MigrationJob>, map: Map<u128, JobView>, i: int, j: MigrationJob)
    requires
        job_links(js, map),
        0 <= i < js.len(),
        j.id == js[i].id,
    ensures
        job_links(js.update(i, j), map.insert(j.id, j@)),
        map.contains_key(j.id),
{
    let js2 = js.update(i, j);
    let map2 = map.insert(j.id, j@);
    assert(map.contains_key(js[i].id));
    assert forall|k: int| 0 <= k < js2.len() implies {
        &&& map2.contains_key(#[trigger] js2[k].id)
        &&& map2[js2[k].id] == js2[k]@
    } by {
        if k != i {
            assert(js2[k] == js[k]);
            assert(map.contains_key(js[k].id));
            if k < i {
                assert(js[k].id != js[i].id);
            } else {
                assert(js[i].id != js[k].id);
            }
        }
    }
    assert forall|id: u128| #[trigger] map2.contains_key(id) implies exists|k: int|
        0 <= k < js2.len() && #[trigger] js2[k].id == id by {
        if id == j.id {
            assert(js2[i].id == id);
        } else {
            let k = choose|k: int| 0 <= k < js.len() && #[trigger] js[k].id == id;
            assert(js2[k].id == id);
        }
    }
}

/// The registry of proposals and migration jobs under one multisig, with the
/// ordered log of the events that its successful operations produced.
pub struct UpgradeManager {
    config: MultisigConfig,
    program_id: Principal,
    timelock_period: i64,
    proposals: Vec<UpgradeProposal>,
    jobs: Vec<MigrationJob>,
    events: Vec<UpgradeEvent>,
    proposal_map: Ghost<Map<u128, ProposalView>>,
    job_map: Ghost<Map<u128, JobView>>,
}

impl View for UpgradeManager {
    type V = ManagerView;

    closed spec fn view(&self) -> ManagerView {
        ManagerView {
            authority: self.config.authority,
            members: self.config.members@,
            threshold: self.config.threshold,
            is_paused: self.config.is_paused,
            program_id: self.program_id,
            timelock_period: self.timelock_period,
            proposals: self.proposal_map@,
            jobs: self.job_map@,
            events: self.events@,
        }
    }
}

impl UpgradeManager {
    /// The stored proposals and jobs are exactly those of the model, each
    /// once, under its id.
    pub closed spec fn linked(&self) -> bool {
        &&& proposal_links(self.proposals@, self.proposal_map@)
        &&& job_links(self.jobs@, self.job_map@)
    }

    /// The registry's invariant.
    pub open spec fn wf(&self) -> bool {
        self@.wf() && self.linked()
    }

    /// An empty registry for the programme `program_id`, governed by `config`,
    /// whose proposals wait `timelock_period` seconds once armed.
    pub fn new(config: MultisigConfig, program_id: Principal, timelock_period: i64) -> (r: UpgradeManager)
        requires
            config.wf(),
        ensures
            r.wf(),
            r@.authority == config.authority,
            r@.members == config.members@,
            r@.threshold == config.threshold,
            r@.is_paused == config.is_paused,
            r@.program_id == program_id,
            r@.timelock_period == timelock_period,
            r@.proposals == Map::<u128, ProposalView>::empty(),
            r@.jobs == Map::<u128, JobView>::empty(),
            r@.events == Seq::<UpgradeEvent>::empty(),
    {
        UpgradeManager {
            config,
            program_id,
            timelock_period,
            proposals: Vec::new(),
            jobs: Vec::new(),
            events: Vec::new(),
            proposal_map: Ghost(Map::empty()),
            job_map: Ghost(Map::empty()),
        }
    }

    /// The multisig configuration.
    pub fn config(&self) -> (r: &MultisigConfig)
        ensures
            r.authority == self@.authority,
            r.members@ == self@.members,
            r.threshold == self@.threshold,
            r.is_paused == self@.is_paused,
    {
        &self.config
    }

    /// The event log, oldest first.
    pub fn events(&self) -> (r: &Vec<UpgradeEvent>)
        ensures
            r@ == self@.events,
    {
        &self.events
    }

    /// Where proposal `id` is stored, if it exists.
    fn find_proposal(&self, id: u128) -> (r: Option<usize>)
        requires
            self.wf(),
        ensures
            match r {
                Some(i) => {
                    &&& i < self.proposals.len()
                    &&& self.proposals@[i as int].id == id
                    &&& self@.proposals.contains_key(id)
                    &&& self@.proposals[id] == self.proposals@[i as int]@
                },
                None => !self@.proposals.contains_key(id),
            },
    {
        let mut i: usize = 0;
        while i < self.proposals.len()
            invariant
                self.wf(),
                0 <= i <= self.proposals.len(),
                forall|j: int| 0 <= j < i ==> self.proposals@[j].id != id,
            decreases self.proposals.len() - i,
        {
            if self.proposals[i].id == id {
                return Some(i);
            }
            i = i + 1;
        }
        None
    }

    /// Proposal `id`, if it exists.
    pub fn proposal(&self, id: u128) -> (r: Option<&UpgradeProposal>)
        requires
            self.wf(),
        ensures
            match r {
                Some(p) => self@.proposals.contains_key(id) && p@ == self@.proposals[id],
                None => !self@.proposals.contains_key(id),
            },
    {
        match self.find_proposal(id) {
            Some(i) => Some(&self.proposals[i]),
            None => None,
        }
    }

    /// Why `submit_with_id` refuses, if it does.
    pub open spec fn submit_error(m: ManagerView, id: u128, proposer: Principal, description: Seq<char>) -> Option<ErrorCode> {
        if propose_error(m.members, proposer, description).is_some() {
            propose_error(m.members, proposer, description)
        } else if m.proposals.contains_key(id) {
            Some(ErrorCode::DuplicateId)
        } else {
            None
        }
    }

    /// Submits a proposal filed under `id`, to install `new_program_buffer`
    /// on the governed programme.
    pub fn submit_with_id(
        &mut self,
        id: u128,
        proposer: Principal,
        new_program_buffer: Principal,
        description: String,
        now: i64,
    ) -> (r: Result<u128, ErrorCode>)
        requires
            old(self).wf(),
        ensures
            final(self).wf(),
            final(self)@.same_settings(old(self)@),
            final(self)@.jobs == old(self)@.jobs,
            match r {
                Ok(rid) => {
                    let p = proposed(
                        id,
                        proposer,
                        new_program_buffer,
                        old(self)@.program_id,
                        description@,
                        old(self)@.timelock_period,
                        now,
                    );
                    &&& Self::submit_error(old(self)@, id, proposer, description@).is_none()
                    &&& rid == id
                    &&& final(self)@.proposals == old(self)@.proposals.insert(id, p)
                    &&& final(self)@.events.len() == old(self)@.events.len() + 1
                    &&& final(self)@.events.drop_last() == old(self)@.events
                    &&& is_created_event(final(self)@.events.last(), p)
                },
                Err(e) => {
                    &&& Self::submit_error(old(self)@, id, proposer, description@) == Some(e)
                    &&& final(self)@ == old(self)@
                },
            },
    {
        let p = propose_upgrade(
            &self.config,
            id,
            proposer,
            new_program_buffer,
            self.program_id,
            description,
            self.timelock_period,
            now,
        )?;
        if self.find_proposal(id).is_some() {
            return Err(ErrorCode::DuplicateId);
        }
        let timelock_end = saturating_time_add(now, self.timelock_period);
        let event = UpgradeEvent::ProposalCreated(
            ProposalCreatedEvent {
                proposal_id: id,
                proposer,
                new_program_buffer,
                description: p.description.clone(),
                timelock_end,
                timestamp: now,
            },
        );
        proof {
            lemma_proposal_links_push(self.proposals@, self.proposal_map@, p);
        }
        self.proposal_map = Ghost(self.proposal_map@.insert(id, p@));
        self.proposals.push(p);
        self.events.push(event);
        proof {
            assert(self@.events.drop_last() =~= old(self)@.events);
        }
        Ok(id)
    }

    /// Submits a proposal under a fresh random id. Fails with `DuplicateId`
    /// only in the unlikely event that the id drawn is already taken.
    pub fn submit(&mut self, proposer: Principal, new_program_buffer: Principal, description: String, now: i64) -> (r: Result<u128, ErrorCode>)
        requires
            old(self).wf(),
        ensures
            final(self).wf(),
            final(self)@.same_settings(old(self)@),
            final(self)@.jobs == old(self)@.jobs,
            match r {
                Ok(id) => {
                    let p = proposed(
                        id,
                        proposer,
                        new_program_buffer,
                        old(self)@.program_id,
                        description@,
                        old(self)@.timelock_period,
                        now,
                    );
                    &&& propose_error(old(self)@.members, proposer, description@).is_none()
                    &&& !old(self)@.proposals.contains_key(id)
                    &&& final(self)@.proposals == old(self)@.proposals.insert(id, p)
                    &&& final(self)@.events.len() == old(self)@.events.len() + 1
                    &&& final(self)@.events.drop_last() == old(self)@.events
                    &&& is_created_event(final(self)@.events.last(), p)
                },
                Err(e) => {
                    &&& final(self)@ == old(self)@
                    &&& match propose_error(old(self)@.members, proposer, description@) {
                        Some(pe) => e == pe,
                        None => e == ErrorCode::DuplicateId,
                    }
                    &&& e == ErrorCode::DuplicateId ==> exists|k: u128| old(self)@.proposals.contains_key(k)
                },
            },
    {
        let id = fresh_id();
        self.submit_with_id(id, proposer, new_program_buffer, description, now)
    }

    /// Why `approve` refuses, if it does.
    pub open spec fn approve_failure(m: ManagerView, id: u128, approver: Principal) -> Option<ErrorCode> {
        if !m.proposals.contains_key(id) {
            Some(ErrorCode::NotFound)
        } else {
            approve_error(m.proposals[id], m.members, approver)
        }
    }

    /// Records the approval of proposal `id` by `approver` at `now`; see
    /// `approve_upgrade`. Appends the timelock event when this approval arms
    /// it, then the approval event.
    pub fn approve(&mut self, id: u128, approver: Principal, now: i64) -> (r: Result<ApprovalResult, ErrorCode>)
        requires
            old(self).wf(),
        ensures
            final(self).wf(),
            final(self)@.same_settings(old(self)@),
            final(self)@.jobs == old(self)@.jobs,
            match r {
                Ok(res) => {
                    let p = old(self)@.proposals[id];
                    &&& Self::approve_failure(old(self)@, id, approver).is_none()
                    &&& final(self)@.proposals == old(self)@.proposals.insert(
                        id,
                        approved(p, approver, old(self)@.threshold, now),
                    )
                    &&& res == approval_report(p, old(self)@.threshold)
                    &&& final(self)@.events == old(self)@.events + approval_events(
                        p,
                        approver,
                        old(self)@.threshold,
                        now,
                    )
                },
                Err(e) => {
                    &&& Self::approve_failure(old(self)@, id, approver) == Some(e)
                    &&& final(self)@ == old(self)@
                },
            },
    {
        let i = match self.find_proposal(id) {
            Some(i) => i,
            None => return Err(ErrorCode::NotFound),
        };
        let ghost ps = self.proposals@;
        let outcome = approve_upgrade(&mut self.proposals[i], &self.config, approver, now);
        proof {
            lemma_proposal_links_update(ps, self.proposal_map@, i as int, self.proposals@[i as int]);
            assert(self.proposals@ == ps.update(i as int, self.proposals@[i as int]));
        }
        self.proposal_map = Ghost(self.proposal_map@.insert(id, self.proposals@[i as int]@));
        let res = match outcome {
            Ok(x) => x,
            Err(e) => {
                assert(self.proposal_map@ =~= old(self).proposal_map@);
                return Err(e);
            },
        };
        let period = self.proposals[i].timelock_period;
        let ghost events_before = self.events@;
        if res.timelock_activated {
            let expires_at = saturating_time_add(now, period);
            self.events.push(
                UpgradeEvent::TimelockActivated(
                    TimelockActivatedEvent { proposal_id: id, approver, activated_at: now, expires_at },
                ),
            );
        }
        self.events.push(
            UpgradeEvent::Approval(
                ApprovalEvent {
                    proposal_id: id,
                    approver,
                    approval_count: res.approval_count,
                    threshold: self.config.threshold,
                    timelock_activated: res.timelock_activated,
                    timestamp: now,
                },
            ),
        );
        proof {
            assert(self@.events =~= events_before + approval_events(
                old(self)@.proposals[id],
                approver,
                old(self)@.threshold,
                now,
            ));
        }
        Ok(res)
    }

    /// Why `execute` refuses at `now`, if it does.
    pub open spec fn execute_failure(m: ManagerView, id: u128, now: i64) -> Option<ErrorCode> {
        if !m.proposals.contains_key(id) {
            Some(ErrorCode::NotFound)
        } else if m.is_paused {
            Some(ErrorCode::SystemPaused)
        } else {
            execute_error(m.proposals[id], m.threshold, now)
        }
    }

    /// Executes proposal `id` at `now` once its timelock has run out, and
    /// hands back the artifact to install. Refused while the system is paused.
    pub fn execute(&mut self, id: u128, executor: Principal, now: i64) -> (r: Result<Principal, ErrorCode>)
        requires
            old(self).wf(),
        ensures
            final(self).wf(),
            final(self)@.same_settings(old(self)@),
            final(self)@.jobs == old(self)@.jobs,
            match r {
                Ok(artifact) => {
                    let p = old(self)@.proposals[id];
                    &&& Self::execute_failure(old(self)@, id, now).is_none()
                    &&& final(self)@.proposals == old(self)@.proposals.insert(id, executed(p, now))
                    &&& artifact == p.new_program_buffer
                    &&& final(self)@.events == old(self)@.events.push(
                        UpgradeEvent::UpgradeExecuted(
                            UpgradeExecutedEvent {
                                proposal_id: id,
                                program_id: p.target_program,
                                executor,
                                timestamp: now,
                            },
                        ),
                    )
                },
                Err(e) => {
                    &&& Self::execute_failure(old(self)@, id, now) == Some(e)
                    &&& final(self)@ == old(self)@
                },
            },
    {
        let i = match self.find_proposal(id) {
            Some(i) => i,
            None => return Err(ErrorCode::NotFound),
        };
        if self.config.is_paused {
            return Err(ErrorCode::SystemPaused);
        }
        let ghost ps = self.proposals@;
        let outcome = execute_upgrade(&mut self.proposals[i], &self.config, now);
        proof {
            lemma_proposal_links_update(ps, self.proposal_map@, i as int, self.proposals@[i as int]);
            assert(self.proposals@ == ps.update(i as int, self.proposals@[i as int]));
        }
        self.proposal_map = Ghost(self.proposal_map@.insert(id, self.proposals@[i as int]@));
        let artifact = match outcome {
            Ok(x) => x,
            Err(e) => {
                assert(self.proposal_map@ =~= old(self).proposal_map@);
                return Err(e);
            },
        };
        let program_id = self.proposals[i].target_program;
        self.events.push(
            UpgradeEvent::UpgradeExecuted(
                UpgradeExecutedEvent { proposal_id: id, program_id, executor, timestamp: now },
            ),
        );
        Ok(artifact)
    }

    /// Why `cancel` refuses, if it does.
    pub open spec fn cancel_failure(m: ManagerView, id: u128, canceller: Principal) -> Option<ErrorCode> {
        if !m.proposals.contains_key(id) {
            Some(ErrorCode::NotFound)
        } else {
            cancel_error(m.proposals[id], m.members, canceller)
        }
    }

    /// Cancels proposal `id`, which must not be terminal, for `reason`.
    pub fn cancel(&mut self, id: u128, canceller: Principal, reason: String, now: i64) -> (r: Result<(), ErrorCode>)
        requires
            old(self).wf(),
        ensures
            final(self).wf(),
            final(self)@.same_settings(old(self)@),
            final(self)@.jobs == old(self)@.jobs,
            match r {
                Ok(()) => {
                    &&& Self::cancel_failure(old(self)@, id, canceller).is_none()
                    &&& final(self)@.proposals == old(self)@.proposals.insert(
                        id,
                        cancelled(old(self)@.proposals[id]),
                    )
                    &&& final(self)@.events.len() == old(self)@.events.len() + 1
                    &&& final(self)@.events.drop_last() == old(self)@.events
                    &&& is_cancelled_event(final(self)@.events.last(), id, canceller, reason@, now)
                },
                Err(e) => {
                    &&& Self::cancel_failure(old(self)@, id, canceller) == Some(e)
                    &&& final(self)@ == old(self)@
                },
            },
    {
        let i = match self.find_proposal(id) {
            Some(i) => i,
            None => return Err(ErrorCode::NotFound),
        };
        let ghost ps = self.proposals@;
        let outcome = cancel_upgrade(&mut self.proposals[i], &self.config, canceller);
        proof {
            lemma_proposal_links_update(ps, self.proposal_map@, i as int, self.proposals@[i as int]);
            assert(self.proposals@ == ps.update(i as int, self.proposals@[i as int]));
        }
        self.proposal_map = Ghost(self.proposal_map@.insert(id, self.proposals@[i as int]@));
        if let Err(e) = outcome {
            assert(self.proposal_map@ =~= old(self).proposal_map@);
            return Err(e);
        }
        self.events.push(
            UpgradeEvent::UpgradeCancelled(
                UpgradeCancelledEvent { proposal_id: id, canceller, reason, timestamp: now },
            ),
        );
        proof {
            assert(self@.events.drop_last() =~= old(self)@.events);
        }
        Ok(())
    }

    /// Sets the pause flag at the request of a member. Pausing a paused
    /// system is no error.
    pub fn pause(&mut self, actor: Principal, now: i64) -> (r: Result<(), ErrorCode>)
        requires
            old(self).wf(),
        ensures
            final(self).wf(),
            final(self)@.proposals == old(self)@.proposals,
            final(self)@.jobs == old(self)@.jobs,
            match r {
                Ok(()) => {
                    &&& old(self)@.members.contains(actor)
                    &&& final(self)@ == (ManagerView {
                        is_paused: true,
                        events: old(self)@.events.push(
                            UpgradeEvent::SystemPause(SystemPauseEvent { actor, paused: true, timestamp: now }),
                        ),
                        ..old(self)@
                    })
                },
                Err(e) => {
                    &&& !old(self)@.members.contains(actor)
                    &&& e == ErrorCode::UnauthorizedSigner
                    &&& final(self)@ == old(self)@
                },
            },
    {
        pause_system(&mut self.config, actor)?;
        self.events.push(UpgradeEvent::SystemPause(SystemPauseEvent { actor, paused: true, timestamp: now }));
        Ok(())
    }

    /// Clears the pause flag at the request of a member. Resuming a running
    /// system is no error.
    pub fn resume(&mut self, actor: Principal, now: i64) -> (r: Result<(), ErrorCode>)
        requires
            old(self).wf(),
        ensures
            final(self).wf(),
            final(self)@.proposals == old(self)@.proposals,
            final(self)@.jobs == old(self)@.jobs,
            match r {
                Ok(()) => {
                    &&& old(self)@.members.contains(actor)
                    &&& final(self)@ == (ManagerView {
                        is_paused: false,
                        events: old(self)@.events.push(
                            UpgradeEvent::SystemPause(SystemPauseEvent { actor, paused: false, timestamp: now }),
                        ),
                        ..old(self)@
                    })
                },
                Err(e) => {
                    &&& !old(self)@.members.contains(actor)
                    &&& e == ErrorCode::UnauthorizedSigner
                    &&& final(self)@ == old(self)@
                },
            },
    {
        resume_system(&mut self.config, actor)?;
        self.events.push(UpgradeEvent::SystemPause(SystemPauseEvent { actor, paused: false, timestamp: now }));
        Ok(())
    }

    /// Where job `id` is stored, if it exists.
    fn find_job(&self, id: u128) -> (r: Option<usize>)
        requires
            self.wf(),
        ensures
            match r {
                Some(i) => {
                    &&& i < self.jobs.len()
                    &&& self.jobs@[i as int].id == id
                    &&& self@.jobs.contains_key(id)
                    &&& self@.jobs[id] == self.jobs@[i as int]@
                },
                None => !self@.jobs.contains_key(id),
            },
    {
        let mut i: usize = 0;
        while i < self.jobs.len()
            invariant
                self.wf(),
                0 <= i <= self.jobs.len(),
                forall|j: int| 0 <= j < i ==> self.jobs@[j].id != id,
            decreases self.jobs.len() - i,
        {
            if self.jobs[i].id == id {
                return Some(i);
            }
            i = i + 1;
        }
        None
    }

    /// Job `id`, if it exists.
    pub fn job(&self, id: u128) -> (r: Option<&MigrationJob>)
        requires
            self.wf(),
        ensures
            match r {
                Some(j) => self@.jobs.contains_key(id) && j@ == self@.jobs[id],
                None => !self@.jobs.contains_key(id),
            },
    {
        match self.find_job(id) {
            Some(i) => Some(&self.jobs[i]),
            None => None,
        }
    }

    /// Why `start_migration_with_id` refuses, if it does.
    pub open spec fn start_failure(m: ManagerView, id: u128, accounts: Seq<String>) -> Option<ErrorCode> {
        if accounts.len() == 0 {
            Some(ErrorCode::InvalidArgument)
        } else if m.is_paused {
            Some(ErrorCode::SystemPaused)
        } else if m.jobs.contains_key(id) {
            Some(ErrorCode::DuplicateId)
        } else {
            None
        }
    }

    /// Opens job `id` over `accounts` for proposal `proposal_id` at `now`,
    /// with nothing processed. Refused while the system is paused.
    pub fn start_migration_with_id(
        &mut self,
        id: u128,
        proposal_id: u128,
        accounts: Vec<String>,
        now: i64,
    ) -> (r: Result<u128, ErrorCode>)
        requires
            old(self).wf(),
        ensures
            final(self).wf(),
            final(self)@.same_settings(old(self)@),
            final(self)@.proposals == old(self)@.proposals,
            final(self)@.events == old(self)@.events,
            progress_kept(old(self)@.jobs, final(self)@.jobs),
            match r {
                Ok(rid) => {
                    let j = final(self)@.jobs[id];
                    &&& Self::start_failure(old(self)@, id, accounts@).is_none()
                    &&& rid == id
                    &&& final(self)@.jobs == old(self)@.jobs.insert(id, j)
                    &&& j.accounts == string_views(accounts@)
                    &&& j.results.len() == 0
                    &&& j.tracker.proposal_id == proposal_id
                    &&& j.tracker.total_accounts == accounts.len()
                    &&& j.tracker.migrated_accounts == 0
                    &&& j.tracker.started_at == now
                    &&& j.tracker.completed_at.is_none()
                },
                Err(e) => {
                    &&& Self::start_failure(old(self)@, id, accounts@) == Some(e)
                    &&& final(self)@ == old(self)@
                },
            },
    {
        if accounts.len() == 0 {
            return Err(ErrorCode::InvalidArgument);
        }
        if self.config.is_paused {
            return Err(ErrorCode::SystemPaused);
        }
        if self.find_job(id).is_some() {
            return Err(ErrorCode::DuplicateId);
        }
        let job = match MigrationJob::start(id, proposal_id, accounts, now) {
            Ok(job) => job,
            Err(e) => return Err(e),
        };
        proof {
            lemma_job_links_push(self.jobs@, self.job_map@, job);
        }
        self.job_map = Ghost(self.job_map@.insert(id, job@));
        self.jobs.push(job);
        Ok(id)
    }

    /// Opens a job under a fresh random id; see `start_migration_with_id`.
    pub fn start_migration(&mut self, proposal_id: u128, accounts: Vec<String>, now: i64) -> (r: Result<u128, ErrorCode>)
        requires
            old(self).wf(),
        ensures
            final(self).wf(),
            final(self)@.same_settings(old(self)@),
            final(self)@.proposals == old(self)@.proposals,
            final(self)@.events == old(self)@.events,
            progress_kept(old(self)@.jobs, final(self)@.jobs),
            match r {
                Ok(id) => {
                    let j = final(self)@.jobs[id];
                    &&& !old(self)@.is_paused
                    &&& accounts.len() > 0
                    &&& !old(self)@.jobs.contains_key(id)
                    &&& final(self)@.jobs == old(self)@.jobs.insert(id, j)
                    &&& j.accounts == string_views(accounts@)
                    &&& j.results.len() == 0
                    &&& j.tracker.proposal_id == proposal_id
                    &&& j.tracker.total_accounts == accounts.len()
                    &&& j.tracker.migrated_accounts == 0
                    &&& j.tracker.started_at == now
                    &&& j.tracker.completed_at.is_none()
                },
                Err(e) => {
                    &&& final(self)@ == old(self)@
                    &&& e == (if accounts.len() == 0 {
                        ErrorCode::InvalidArgument
                    } else if old(self)@.is_paused {
                        ErrorCode::SystemPaused
                    } else {
                        ErrorCode::DuplicateId
                    })
                    &&& e == ErrorCode::DuplicateId ==> exists|k: u128| old(self)@.jobs.contains_key(k)
                },
            },
    {
        let id = fresh_id();
        self.start_migration_with_id(id, proposal_id, accounts, now)
    }

    /// The address of the next item of job `id` to process, if any is left.
    pub fn next_account(&self, id: u128) -> (r: Result<Option<String>, ErrorCode>)
        requires
            self.wf(),
        ensures
            match r {
                Ok(Some(a)) => {
                    let j = self@.jobs[id];
                    &&& self@.jobs.contains_key(id)
                    &&& j.tracker.migrated_accounts < j.tracker.total_accounts
                    &&& a@ == j.accounts[j.tracker.migrated_accounts as int]
                },
                Ok(None) => {
                    let j = self@.jobs[id];
                    &&& self@.jobs.contains_key(id)
                    &&& j.tracker.migrated_accounts == j.tracker.total_accounts
                },
                Err(e) => !self@.jobs.contains_key(id) && e == ErrorCode::NotFound,
            },
    {
        match self.find_job(id) {
            Some(i) => Ok(self.jobs[i].next_account()),
            None => Err(ErrorCode::NotFound),
        }
    }

    /// Records at `now` what the collaborator reported for the next item of
    /// job `id`. A failure is recorded, counted as processed, and leaves the
    /// rest of the job to run.
    pub fn record_migration_result(&mut self, id: u128, outcome: Result<(), String>, now: i64) -> (r: Result<(), ErrorCode>)
        requires
            old(self).wf(),
        ensures
            final(self).wf(),
            final(self)@.same_settings(old(self)@),
            final(self)@.proposals == old(self)@.proposals,
            progress_kept(old(self)@.jobs, final(self)@.jobs),
            match r {
                Ok(()) => {
                    let j = old(self)@.jobs[id];
                    &&& old(self)@.jobs.contains_key(id)
                    &&& j.tracker.migrated_accounts < j.tracker.total_accounts
                    &&& final(self)@.jobs == old(self)@.jobs.insert(id, j.advanced(outcome_view(outcome), now))
                    &&& final(self)@.events.len() == old(self)@.events.len() + 1
                    &&& final(self)@.events.drop_last() == old(self)@.events
                    &&& is_migrated_event(
                        final(self)@.events.last(),
                        id,
                        j.accounts[j.tracker.migrated_accounts as int],
                        outcome is Ok,
                        now,
                    )
                },
                Err(e) => {
                    &&& final(self)@ == old(self)@
                    &&& e == (if !old(self)@.jobs.contains_key(id) {
                        ErrorCode::NotFound
                    } else {
                        ErrorCode::InvalidArgument
                    })
                    &&& old(self)@.jobs.contains_key(id) ==> old(self)@.jobs[id].tracker.migrated_accounts
                        == old(self)@.jobs[id].tracker.total_accounts
                },
            },
    {
        let i = match self.find_job(id) {
            Some(i) => i,
            None => return Err(ErrorCode::NotFound),
        };
        let account = match self.jobs[i].next_account() {
            Some(a) => a,
            None => return Err(ErrorCode::InvalidArgument),
        };
        let success = outcome.is_ok();
        let ghost js = self.jobs@;
        let done = self.jobs[i].record_result(outcome, now);
        proof {
            lemma_job_links_update(js, self.job_map@, i as int, self.jobs@[i as int]);
            assert(self.jobs@ == js.update(i as int, self.jobs@[i as int]));
        }
        self.job_map = Ghost(self.job_map@.insert(id, self.jobs@[i as int]@));
        assert(done is Ok);
        self.events.push(
            UpgradeEvent::AccountMigrated(
                AccountMigratedEvent { job_id: id, account_address: account, success, timestamp: now },
            ),
        );
        proof {
            assert(self@.events.drop_last() =~= old(self)@.events);
        }
        Ok(())
    }

    /// The progress of job `id`.
    pub fn progress(&self, id: u128) -> (r: Result<MigrationProgress, ErrorCode>)
        requires
            self.wf(),
        ensures
            match r {
                Ok(p) => self@.jobs.contains_key(id) && p == self@.jobs[id].progress(),
                Err(e) => !self@.jobs.contains_key(id) && e == ErrorCode::NotFound,
            },
    {
        match self.find_job(id) {
            Some(i) => Ok(self.jobs[i].progress()),
            None => Err(ErrorCode::NotFound),
        }
    }

    /// Appends `event` to the log and changes nothing else.
    pub(crate) fn log_event(&mut self, event: UpgradeEvent)
        requires
            old(self).wf(),
        ensures
            final(self).wf(),
            final(self)@ == (ManagerView { events: old(self)@.events.push(event), ..old(self)@ }),
    {
        self.events.push(event);
    }

    /// The ids of the proposals whose timelock has run out at `now` and
    /// that wait for execution, each once.
    pub fn expired_timelocks(&self, now: i64) -> (r: Vec<u128>)
        requires
            self.wf(),
        ensures
            r@.no_duplicates(),
            forall|id: u128| r@.contains(id) <==> (self@.proposals.contains_key(id) && ready_to_execute(self@.proposals[id], now)),
    {
        let mut out: Vec<u128> = Vec::new();
        let mut i: usize = 0;
        while i < self.proposals.len()
            invariant
                self.wf(),
                0 <= i <= self.proposals.len(),
                out@.no_duplicates(),
                forall|k: int| #![trigger out@[k]] 0 <= k < out@.len() ==> exists|j: int| 0 <= j < i && #[trigger] self.proposals@[j].id == out@[k],
                forall|id: u128| out@.contains(id) ==> self@.proposals.contains_key(id) && ready_to_execute(self@.proposals[id], now),
                forall|j: int| 0 <= j < i && ready_to_execute(#[trigger] self.proposals@[j]@, now) ==> out@.contains(self.proposals@[j].id),
            decreases self.proposals.len() - i,
        {
            let p = &self.proposals[i];
            let ready = match p.timelock_activated_at {
                Some(t) => p.status == UpgradeStatus::TimelockActive
                    && validate_timelock_expired(t, p.timelock_period, now).is_ok(),
                None => false,
            };
            assert(ready == ready_to_execute(self.proposals@[i as int]@, now));
            let ghost before = out@;
            if ready {
                proof {
                    assert forall|k: int| 0 <= k < before.len() implies before[k] != p.id by {
                        let j = choose|j: int| 0 <= j < i && #[trigger] self.proposals@[j].id == before[k];
                    }
                }
                out.push(p.id);
                proof {
                    assert forall|k: int| #![trigger out@[k]] 0 <= k < out@.len() implies exists|j: int|
                        0 <= j < i + 1 && #[trigger] self.proposals@[j].id == out@[k] by {
                        if k < before.len() {
                            assert(out@[k] == before[k]);
                        } else {
                            assert(self.proposals@[i as int].id == out@[k]);
                        }
                    }
                    assert forall|id: u128| out@.contains(id) implies self@.proposals.contains_key(id)
                        && ready_to_execute(self@.proposals[id], now) by {
                        if id != p.id {
                            assert(before.contains(id));
                        }
                    }
                    assert(out@[before.len() as int] == p.id);
                    assert forall|id: u128| before.contains(id) implies out@.contains(id) by {
                        let k = choose|k: int| 0 <= k < before.len() && before[k] == id;
                        assert(out@[k] == id);
                    }
                }
            }
            i = i + 1;
        }
        proof {
            assert forall|id: u128| self@.proposals.contains_key(id) && ready_to_execute(self@.proposals[id], now) implies out@.contains(id) by {
                let j = choose|j: int| 0 <= j < self.proposals.len() && #[trigger] self.proposals@[j].id == id;
                assert(ready_to_execute(self.proposals@[j]@, now));
            }
        }
        out
    }
}

} // verus!
