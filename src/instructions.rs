use vstd::prelude::*;
use crate::constants::{MAX_DESCRIPTION_LENGTH, MAX_MULTISIG_MEMBERS};
use crate::error::ErrorCode;
use crate::state::{
    contains_principal, utf8_len, MultisigConfig, Principal, ProposalView, UpgradeProposal,
    UpgradeStatus,
};
use crate::utils::{
    expiry_in_range, timelock_expired, validate_description_length, validate_multisig_member,
    validate_threshold, validate_timelock_expired,
};

verus! {

/// What an accepted approval reports.
#[derive(Clone, Copy, Debug, PartialEq, Eq, Structural)]
pub struct ApprovalResult {
    pub approval_count: u8,
    pub threshold_met: bool,
    pub timelock_activated: bool,
}

/// A distinct sequence drawn from a distinct sequence is no longer than it.
pub proof fn lemma_distinct_subseq_len(sub: Seq<Principal>, all: Seq<Principal>)
    requires
        sub.no_duplicates(),
        all.no_duplicates(),
        forall|i: int| 0 <= i < sub.len() ==> all.contains(#[trigger] sub[i]),
    ensures
        sub.len() <= all.len(),
{
    sub.unique_seq_to_set();
    all.unique_seq_to_set();
    assert(sub.to_set().subset_of(all.to_set())) by {
        assert forall|x: Principal| sub.to_set().contains(x) implies all.to_set().contains(x) by {
            let i = choose|i: int| 0 <= i < sub.len() && sub[i] == x;
            assert(all.contains(sub[i]));
        }
    }
    vstd::set_lib::lemma_len_subset(sub.to_set(), all.to_set());
}

/// Why `initialize_multisig` refuses its input, if it does.
pub open spec fn init_error(members: Seq<Principal>, threshold: u8) -> Option<ErrorCode> {
    if members.len() > MAX_MULTISIG_MEMBERS {
        Some(ErrorCode::TooManyMembers)
    } else if threshold == 0 || threshold as int > members.len() {
        Some(ErrorCode::InvalidThreshold)
    } else if !members.no_duplicates() {
        Some(ErrorCode::DuplicateMember)
    } else {
        None
    }
}

/// Whether some principal occurs twice in `v`.
fn has_duplicates(v: &Vec<Principal>) -> (r: bool)
    ensures
        r == !v@.no_duplicates(),
{
    let mut i: usize = 0;
    while i < v.len()
        invariant
            0 <= i <= v.len(),
            forall|a: int, b: int| 0 <= a < b < i ==> v@[a] != v@[b],
        decreases v.len() - i,
    {
        let mut j: usize = 0;
        while j < i
            invariant
                0 <= j <= i < v.len(),
                forall|a: int, b: int| 0 <= a < b < i ==> v@[a] != v@[b],
                forall|a: int| 0 <= a < j ==> v@[a] != v@[i as int],
            decreases i - j,
        {
            if v[j] == v[i] {
                return true;
            }
            j = j + 1;
        }
        i = i + 1;
    }
    false
}

/// Sets up the multisig: members, threshold, and the authority that created it.
pub fn initialize_multisig(authority: Principal, members: Vec<Principal>, threshold: u8) -> (r: Result<MultisigConfig, ErrorCode>)
    ensures
        match r {
            Ok(c) => {
                &&& init_error(members@, threshold).is_none()
                &&& c.authority == authority
                &&& c.members@ == members@
                &&& c.threshold == threshold
                &&& !c.is_paused
                &&& c.wf()
            },
            Err(e) => init_error(members@, threshold) == Some(e),
        },
{
    if members.len() > MAX_MULTISIG_MEMBERS {
        return Err(ErrorCode::TooManyMembers);
    }
    if threshold == 0 || threshold as usize > members.len() {
        return Err(ErrorCode::InvalidThreshold);
    }
    if has_duplicates(&members) {
        return Err(ErrorCode::DuplicateMember);
    }
    Ok(MultisigConfig { authority, members, threshold, is_paused: false })
}

/// Why `propose_upgrade` refuses, if it does.
pub open spec fn propose_error(members: Seq<Principal>, proposer: Principal, description: Seq<char>) -> Option<ErrorCode> {
    if utf8_len(description) > MAX_DESCRIPTION_LENGTH {
        Some(ErrorCode::DescriptionTooLong)
    } else if !members.contains(proposer) {
        Some(ErrorCode::UnauthorizedSigner)
    } else {
        None
    }
}

/// The proposal that a successful submission creates.
pub open spec fn proposed(
    id: u128,
    proposer: Principal,
    new_program_buffer: Principal,
    target_program: Principal,
    description: Seq<char>,
    timelock_period: i64,
    now: i64,
) -> ProposalView {
    ProposalView {
        id,
        proposer,
        new_program_buffer,
        target_program,
        description,
        status: UpgradeStatus::Proposed,
        approvals: Seq::empty(),
        approval_count: 0,
        created_at: now,
        timelock_activated_at: None,
        timelock_period,
        executed_at: None,
    }
}

/// Creates a proposal in `Proposed` with no approvals. The timelock period is
/// captured here and never read again from configuration.
pub fn propose_upgrade(
    config: &MultisigConfig,
    id: u128,
    proposer: Principal,
    new_program_buffer: Principal,
    target_program: Principal,
    description: String,
    timelock_period: i64,
    now: i64,
) -> (r: Result<UpgradeProposal, ErrorCode>)
    requires
        config.wf(),
    ensures
        match r {
            Ok(p) => {
                &&& propose_error(config.members@, proposer, description@).is_none()
                &&& p@ == proposed(id, proposer, new_program_buffer, target_program, description@, timelock_period, now)
                &&& p@.wf(config.members@, config.threshold)
            },
            Err(e) => propose_error(config.members@, proposer, description@) == Some(e),
        },
{
    validate_description_length(&description, MAX_DESCRIPTION_LENGTH)?;
    validate_multisig_member(&config.members, &proposer)?;
    let p = UpgradeProposal {
        id,
        proposer,
        new_program_buffer,
        target_program,
        description,
        status: UpgradeStatus::Proposed,
        approvals: Vec::new(),
        approval_count: 0,
        created_at: now,
        timelock_activated_at: None,
        timelock_period,
        executed_at: None,
    };
    assert(p@.approvals =~= Seq::<Principal>::empty());
    Ok(p)
}

/// Why `approve_upgrade` refuses, if it does.
pub open spec fn approve_error(p: ProposalView, members: Seq<Principal>, approver: Principal) -> Option<ErrorCode> {
    if !members.contains(approver) {
        Some(ErrorCode::UnauthorizedSigner)
    } else if p.approvals.contains(approver) {
        Some(ErrorCode::DuplicateApproval)
    } else if !(p.status == UpgradeStatus::Proposed || p.status == UpgradeStatus::Approved) {
        Some(ErrorCode::InvalidProposalState)
    } else {
        None
    }
}

/// Whether an accepted approval of `p` arms the timelock: it is the one that
/// brings the count to the threshold while no timelock is armed.
pub open spec fn arms_timelock(p: ProposalView, threshold: u8) -> bool {
    p.approval_count + 1 >= threshold && p.timelock_activated_at.is_none()
}

/// The proposal after an accepted approval by `approver` at `now`.
pub open spec fn approved(p: ProposalView, approver: Principal, threshold: u8, now: i64) -> ProposalView {
    ProposalView {
        approvals: p.approvals.push(approver),
        approval_count: (p.approval_count + 1) as u8,
        status: if arms_timelock(p, threshold) {
            UpgradeStatus::TimelockActive
        } else {
            UpgradeStatus::Approved
        },
        timelock_activated_at: if arms_timelock(p, threshold) {
            Some(now)
        } else {
            p.timelock_activated_at
        },
        ..p
    }
}

/// What an accepted approval of `p` reports.
pub open spec fn approval_report(p: ProposalView, threshold: u8) -> ApprovalResult {
    ApprovalResult {
        approval_count: (p.approval_count + 1) as u8,
        threshold_met: p.approval_count + 1 >= threshold,
        timelock_activated: arms_timelock(p, threshold),
    }
}

/// Records the approval of a member. A principal that already approved is
/// refused before the status is looked at. The approval that first brings the
/// count to the threshold arms the timelock at `now`; no later one re-arms it.
pub fn approve_upgrade(proposal: &mut UpgradeProposal, config: &MultisigConfig, approver: Principal, now: i64) -> (r: Result<ApprovalResult, ErrorCode>)
    requires
        config.wf(),
        old(proposal)@.wf(config.members@, config.threshold),
    ensures
        final(proposal)@.wf(config.members@, config.threshold),
        match r {
            Ok(res) => {
                &&& approve_error(old(proposal)@, config.members@, approver).is_none()
                &&& final(proposal)@ == approved(old(proposal)@, approver, config.threshold, now)
                &&& res == approval_report(old(proposal)@, config.threshold)
            },
            Err(e) => {
                &&& approve_error(old(proposal)@, config.members@, approver) == Some(e)
                &&& final(proposal)@ == old(proposal)@
            },
        },
{
    validate_multisig_member(&config.members, &approver)?;
    if contains_principal(&proposal.approvals, &approver) {
        return Err(ErrorCode::DuplicateApproval);
    }
    if !(proposal.status == UpgradeStatus::Proposed || proposal.status == UpgradeStatus::Approved) {
        return Err(ErrorCode::InvalidProposalState);
    }
    proof {
        lemma_distinct_subseq_len(proposal.approvals@, config.members@);
    }
    let ghost before = proposal@;
    proposal.approvals.push(approver);
    proposal.approval_count = proposal.approval_count + 1;
    let threshold_met = validate_threshold(proposal.approval_count, config.threshold);
    let mut timelock_activated = false;
    if threshold_met && proposal.timelock_activated_at.is_none() {
        proposal.status = UpgradeStatus::TimelockActive;
        proposal.timelock_activated_at = Some(now);
        timelock_activated = true;
    } else {
        proposal.status = UpgradeStatus::Approved;
    }
    proof {
        assert(proposal@.approvals == before.approvals.push(approver));
        assert forall|i: int| 0 <= i < proposal@.approvals.len() implies config.members@.contains(
            #[trigger] proposal@.approvals[i],
        ) by {
            if i < before.approvals.len() {
                assert(proposal@.approvals[i] == before.approvals[i]);
            }
        }
    }
    Ok(ApprovalResult { approval_count: proposal.approval_count, threshold_met, timelock_activated })
}

/// Why `execute_upgrade` refuses at `now`, if it does.
pub open spec fn execute_error(p: ProposalView, threshold: u8, now: i64) -> Option<ErrorCode> {
    if p.status != UpgradeStatus::TimelockActive {
        Some(ErrorCode::InvalidProposalState)
    } else if p.timelock_activated_at.is_none() {
        Some(ErrorCode::InvalidProposalState)
    } else if !expiry_in_range(p.timelock_activated_at.unwrap(), p.timelock_period) {
        Some(ErrorCode::MathOverflow)
    } else if !timelock_expired(p.timelock_activated_at.unwrap(), p.timelock_period, now) {
        Some(ErrorCode::TimelockNotExpired)
    } else if p.approval_count < threshold {
        Some(ErrorCode::InsufficientApprovals)
    } else {
        None
    }
}

/// The proposal after its execution at `now`.
pub open spec fn executed(p: ProposalView, now: i64) -> ProposalView {
    ProposalView { status: UpgradeStatus::Executed, executed_at: Some(now), ..p }
}

/// Executes a proposal whose timelock has run out, and hands back the
/// artifact to install.
pub fn execute_upgrade(proposal: &mut UpgradeProposal, config: &MultisigConfig, now: i64) -> (r: Result<Principal, ErrorCode>)
    requires
        config.wf(),
        old(proposal)@.wf(config.members@, config.threshold),
    ensures
        final(proposal)@.wf(config.members@, config.threshold),
        match r {
            Ok(artifact) => {
                &&& execute_error(old(proposal)@, config.threshold, now).is_none()
                &&& final(proposal)@ == executed(old(proposal)@, now)
                &&& artifact == old(proposal).new_program_buffer
            },
            Err(e) => {
                &&& execute_error(old(proposal)@, config.threshold, now) == Some(e)
                &&& final(proposal)@ == old(proposal)@
            },
        },
{
    if proposal.status != UpgradeStatus::TimelockActive {
        return Err(ErrorCode::InvalidProposalState);
    }
    let activated_at = match proposal.timelock_activated_at {
        Some(t) => t,
        None => return Err(ErrorCode::InvalidProposalState),
    };
    validate_timelock_expired(activated_at, proposal.timelock_period, now)?;
    if !validate_threshold(proposal.approval_count, config.threshold) {
        return Err(ErrorCode::InsufficientApprovals);
    }
    proposal.status = UpgradeStatus::Executed;
    proposal.executed_at = Some(now);
    Ok(proposal.new_program_buffer)
}

/// Why `cancel_upgrade` refuses, if it does.
pub open spec fn cancel_error(p: ProposalView, members: Seq<Principal>, canceller: Principal) -> Option<ErrorCode> {
    if p.status == UpgradeStatus::Executed {
        Some(ErrorCode::ProposalAlreadyExecuted)
    } else if p.status == UpgradeStatus::Cancelled {
        Some(ErrorCode::ProposalAlreadyCancelled)
    } else if !members.contains(canceller) {
        Some(ErrorCode::UnauthorizedSigner)
    } else {
        None
    }
}

/// The proposal after its cancellation.
pub open spec fn cancelled(p: ProposalView) -> ProposalView {
    ProposalView { status: UpgradeStatus::Cancelled, ..p }
}

/// Cancels a proposal that is not yet terminal.
pub fn cancel_upgrade(proposal: &mut UpgradeProposal, config: &MultisigConfig, canceller: Principal) -> (r: Result<(), ErrorCode>)
    requires
        config.wf(),
        old(proposal)@.wf(config.members@, config.threshold),
    ensures
        final(proposal)@.wf(config.members@, config.threshold),
        match r {
            Ok(()) => {
                &&& cancel_error(old(proposal)@, config.members@, canceller).is_none()
                &&& final(proposal)@ == cancelled(old(proposal)@)
            },
            Err(e) => {
                &&& cancel_error(old(proposal)@, config.members@, canceller) == Some(e)
                &&& final(proposal)@ == old(proposal)@
            },
        },
{
    if proposal.status == UpgradeStatus::Executed {
        return Err(ErrorCode::ProposalAlreadyExecuted);
    }
    if proposal.status == UpgradeStatus::Cancelled {
        return Err(ErrorCode::ProposalAlreadyCancelled);
    }
    validate_multisig_member(&config.members, &canceller)?;
    proposal.status = UpgradeStatus::Cancelled;
    Ok(())
}

/// Sets the pause flag. Setting it again is no error.
pub fn pause_system(config: &mut MultisigConfig, pauser: Principal) -> (r: Result<(), ErrorCode>)
    ensures
        final(config).authority == old(config).authority,
        final(config).members@ == old(config).members@,
        final(config).threshold == old(config).threshold,
        r is Ok <==> old(config).members@.contains(pauser),
        r is Err ==> r == Err::<(), ErrorCode>(ErrorCode::UnauthorizedSigner),
        final(config).is_paused == (r is Ok || old(config).is_paused),
{
    validate_multisig_member(&config.members, &pauser)?;
    config.is_paused = true;
    Ok(())
}

/// Clears the pause flag. Clearing it again is no error.
pub fn resume_system(config: &mut MultisigConfig, resumer: Principal) -> (r: Result<(), ErrorCode>)
    ensures
        final(config).authority == old(config).authority,
        final(config).members@ == old(config).members@,
        final(config).threshold == old(config).threshold,
        r is Ok <==> old(config).members@.contains(resumer),
        r is Err ==> r == Err::<(), ErrorCode>(ErrorCode::UnauthorizedSigner),
        final(config).is_paused == (r is Err && old(config).is_paused),
{
    validate_multisig_member(&config.members, &resumer)?;
    config.is_paused = false;
    Ok(())
}

} // verus!
