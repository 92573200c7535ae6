use vstd::prelude::*;
use crate::state::Principal;

verus! {

/// A proposal was submitted.
#[derive(Debug)]
pub struct ProposalCreatedEvent {
    pub proposal_id: u128,
    pub proposer: Principal,
    pub new_program_buffer: Principal,
    pub description: String,
    pub timelock_end: i64,
    pub timestamp: i64,
}

/// An approval was recorded.
#[derive(Clone, Copy, Debug)]
pub struct ApprovalEvent {
    pub proposal_id: u128,
    pub approver: Principal,
    pub approval_count: u8,
    pub threshold: u8,
    pub timelock_activated: bool,
    pub timestamp: i64,
}

/// A proposal was executed; its artifact is to be installed.
#[derive(Clone, Copy, Debug)]
pub struct UpgradeExecutedEvent {
    pub proposal_id: u128,
    pub program_id: Principal,
    pub executor: Principal,
    pub timestamp: i64,
}

/// A proposal was cancelled.
#[derive(Debug)]
pub struct UpgradeCancelledEvent {
    pub proposal_id: u128,
    pub canceller: Principal,
    pub reason: String,
    pub timestamp: i64,
}

/// One item of a migration job was processed.
#[derive(Debug)]
pub struct AccountMigratedEvent {
    pub job_id: u128,
    pub account_address: String,
    pub success: bool,
    pub timestamp: i64,
}

/// The timelock of a proposal was armed by the approval of `approver`.
#[derive(Clone, Copy, Debug)]
pub struct TimelockActivatedEvent {
    pub proposal_id: u128,
    pub approver: Principal,
    pub activated_at: i64,
    pub expires_at: i64,
}

/// A rollback was started for a proposal.
#[derive(Debug)]
pub struct RollbackEvent {
    pub proposal_id: u128,
    pub rollback_proposal_id: u128,
    pub reason: String,
    pub executed_by: Principal,
    pub timestamp: i64,
}

/// The system was paused or resumed.
#[derive(Clone, Copy, Debug)]
pub struct SystemPauseEvent {
    pub actor: Principal,
    pub paused: bool,
    pub timestamp: i64,
}

/// An entry of the ordered event log.
#[derive(Debug)]
pub enum UpgradeEvent {
    ProposalCreated(ProposalCreatedEvent),
    Approval(ApprovalEvent),
    TimelockActivated(TimelockActivatedEvent),
    UpgradeExecuted(UpgradeExecutedEvent),
    UpgradeCancelled(UpgradeCancelledEvent),
    AccountMigrated(AccountMigratedEvent),
    Rollback(RollbackEvent),
    SystemPause(SystemPauseEvent),
}

} // verus!
