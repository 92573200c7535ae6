use upgrade_manager::clients::{AnchorClient, Keypair, ProgramBuilder, SquadsClient};
use upgrade_manager::constants::{MAX_DESCRIPTION_LENGTH, TIMELOCK_PERIOD};
use upgrade_manager::error::ErrorCode;
use upgrade_manager::events::UpgradeEvent;
use upgrade_manager::instructions::{
    approve_upgrade, cancel_upgrade, execute_upgrade, initialize_multisig, propose_upgrade,
};
use upgrade_manager::manager::UpgradeManager;
use upgrade_manager::state::{Principal, UpgradeStatus};
use upgrade_manager::utils::{
    saturating_time_add, validate_description_length, validate_multisig_member,
    validate_threshold, validate_timelock_expired,
};

fn member(n: u8) -> Principal {
    Principal { key: [n; 32] }
}

fn five() -> Vec<Principal> {
    (1..=5).map(member).collect()
}

fn registry(threshold: u8) -> UpgradeManager {
    let config = initialize_multisig(member(100), five(), threshold).unwrap();
    UpgradeManager::new(config, member(200), TIMELOCK_PERIOD)
}

#[test]
fn approve_on_executed_proposal_is_invalid_state() {
    let mut m = registry(3);
    let id = m.submit_with_id(1, member(1), member(50), "v2".to_string(), 0).unwrap();
    for n in 1..=3 {
        m.approve(id, member(n), 10).unwrap();
    }
    m.execute(id, member(5), 10 + TIMELOCK_PERIOD).unwrap();
    assert_eq!(m.approve(id, member(4), 20 + TIMELOCK_PERIOD), Err(ErrorCode::InvalidProposalState));
    assert_eq!(m.proposal(id).unwrap().approval_count, 3);
}

#[test]
fn count_matches_distinct_approvers() {
    let mut m = registry(5);
    let id = m.submit_with_id(1, member(1), member(50), "v2".to_string(), 0).unwrap();
    for n in [1u8, 2, 2, 3, 1, 4] {
        let _ = m.approve(id, member(n), 10);
        let p = m.proposal(id).unwrap();
        assert_eq!(p.approval_count as usize, p.approvals.len());
    }
    assert_eq!(m.proposal(id).unwrap().approval_count, 4);
}

#[test]
fn timelock_arms_once_and_logs_in_order() {
    let mut m = registry(2);
    let id = m.submit_with_id(1, member(1), member(50), "v2".to_string(), 0).unwrap();
    m.approve(id, member(1), 10).unwrap();
    let before = m.events().len();
    let r = m.approve(id, member(2), 20).unwrap();
    assert!(r.timelock_activated);
    assert_eq!(m.events().len(), before + 2);
    match &m.events()[before] {
        UpgradeEvent::TimelockActivated(e) => {
            assert_eq!(e.proposal_id, id);
            assert_eq!(e.approver, member(2));
            assert_eq!(e.activated_at, 20);
            assert_eq!(e.expires_at, 20 + TIMELOCK_PERIOD);
        }
        other => panic!("unexpected event {:?}", other),
    }
    match &m.events()[before + 1] {
        UpgradeEvent::Approval(e) => {
            assert_eq!(e.approval_count, 2);
            assert_eq!(e.threshold, 2);
            assert!(e.timelock_activated);
        }
        other => panic!("unexpected event {:?}", other),
    }
    assert_eq!(m.approve(id, member(3), 30), Err(ErrorCode::InvalidProposalState));
    assert_eq!(m.proposal(id).unwrap().timelock_activated_at, Some(20));
}

#[test]
fn later_approval_above_threshold_does_not_rearm() {
    let config = initialize_multisig(member(100), five(), 1).unwrap();
    let mut p = propose_upgrade(&config, 1, member(1), member(50), member(200), "v2".to_string(), 100, 0).unwrap();
    let first = approve_upgrade(&mut p, &config, member(1), 5).unwrap();
    assert!(first.timelock_activated);
    assert_eq!(p.status, UpgradeStatus::TimelockActive);
    assert_eq!(approve_upgrade(&mut p, &config, member(2), 6), Err(ErrorCode::InvalidProposalState));
    assert_eq!(execute_upgrade(&mut p, &config, 104), Err(ErrorCode::TimelockNotExpired));
    assert_eq!(execute_upgrade(&mut p, &config, 105), Ok(member(50)));
    assert_eq!(p.timelock_activated_at, Some(5));
}

#[test]
fn cancel_accepted_from_live_states_only() {
    let config = initialize_multisig(member(100), five(), 2).unwrap();
    let fresh = || propose_upgrade(&config, 1, member(1), member(50), member(200), "v2".to_string(), 100, 0).unwrap();
    let mut proposed = fresh();
    assert_eq!(cancel_upgrade(&mut proposed, &config, member(2)), Ok(()));
    assert_eq!(proposed.status, UpgradeStatus::Cancelled);
    assert_eq!(cancel_upgrade(&mut proposed, &config, member(2)), Err(ErrorCode::ProposalAlreadyCancelled));
    let mut approved = fresh();
    approve_upgrade(&mut approved, &config, member(1), 1).unwrap();
    assert_eq!(approved.status, UpgradeStatus::Approved);
    assert_eq!(cancel_upgrade(&mut approved, &config, member(99)), Err(ErrorCode::UnauthorizedSigner));
    assert_eq!(cancel_upgrade(&mut approved, &config, member(3)), Ok(()));
    let mut armed = fresh();
    approve_upgrade(&mut armed, &config, member(1), 1).unwrap();
    approve_upgrade(&mut armed, &config, member(2), 2).unwrap();
    assert_eq!(armed.status, UpgradeStatus::TimelockActive);
    let mut executed = fresh();
    approve_upgrade(&mut executed, &config, member(1), 1).unwrap();
    approve_upgrade(&mut executed, &config, member(2), 2).unwrap();
    execute_upgrade(&mut executed, &config, 200).unwrap();
    assert_eq!(cancel_upgrade(&mut armed, &config, member(3)), Ok(()));
    assert_eq!(cancel_upgrade(&mut executed, &config, member(3)), Err(ErrorCode::ProposalAlreadyExecuted));
    assert_eq!(executed.status, UpgradeStatus::Executed);
}

#[test]
fn insufficient_approvals_is_rechecked() {
    let loose = initialize_multisig(member(100), five(), 1).unwrap();
    let strict = initialize_multisig(member(100), five(), 2).unwrap();
    let mut p = propose_upgrade(&loose, 1, member(1), member(50), member(200), "v2".to_string(), 0, 0).unwrap();
    approve_upgrade(&mut p, &loose, member(1), 1).unwrap();
    assert_eq!(execute_upgrade(&mut p, &strict, 10), Err(ErrorCode::InsufficientApprovals));
    assert_eq!(p.status, UpgradeStatus::TimelockActive);
}

#[test]
fn multisig_initialization_errors() {
    let eleven: Vec<Principal> = (1..=11).map(member).collect();
    assert_eq!(initialize_multisig(member(100), eleven, 3).err(), Some(ErrorCode::TooManyMembers));
    assert_eq!(initialize_multisig(member(100), five(), 0).err(), Some(ErrorCode::InvalidThreshold));
    assert_eq!(initialize_multisig(member(100), five(), 6).err(), Some(ErrorCode::InvalidThreshold));
    let dup = vec![member(1), member(2), member(1)];
    assert_eq!(initialize_multisig(member(100), dup, 2).err(), Some(ErrorCode::DuplicateMember));
    let ten: Vec<Principal> = (1..=10).map(member).collect();
    let c = initialize_multisig(member(100), ten, 10).unwrap();
    assert_eq!(c.members.len(), 10);
    assert_eq!(c.threshold, 10);
    assert!(!c.is_paused);
}

#[test]
fn description_length_is_bounded_in_bytes() {
    let mut m = registry(2);
    let limit = "a".repeat(MAX_DESCRIPTION_LENGTH);
    assert!(m.submit_with_id(1, member(1), member(50), limit, 0).is_ok());
    let over = "a".repeat(MAX_DESCRIPTION_LENGTH + 1);
    assert_eq!(m.submit_with_id(2, member(1), member(50), over, 0), Err(ErrorCode::DescriptionTooLong));
    let wide = "\u{e9}".repeat(251);
    assert_eq!(validate_description_length(&wide, MAX_DESCRIPTION_LENGTH), Err(ErrorCode::DescriptionTooLong));
    assert_eq!(m.submit_with_id(1, member(1), member(50), "again".to_string(), 0), Err(ErrorCode::DuplicateId));
}

#[test]
fn submit_draws_distinct_ids() {
    let mut m = registry(2);
    let a = m.submit(member(1), member(50), "a".to_string(), 0).unwrap();
    let b = m.submit(member(2), member(51), "b".to_string(), 0).unwrap();
    assert_ne!(a, b);
    let p = m.proposal(b).unwrap();
    assert_eq!(p.proposer, member(2));
    assert_eq!(p.target_program, member(200));
    assert_eq!(p.timelock_period, TIMELOCK_PERIOD);
    assert_eq!(p.description, "b");
    match m.events().last() {
        Some(UpgradeEvent::ProposalCreated(e)) => {
            assert_eq!(e.proposal_id, b);
            assert_eq!(e.timelock_end, TIMELOCK_PERIOD);
        }
        other => panic!("unexpected event {:?}", other),
    }
}

#[test]
fn paused_system_refuses_execution() {
    let mut m = registry(1);
    let id = m.submit_with_id(1, member(1), member(50), "v2".to_string(), 0).unwrap();
    m.approve(id, member(1), 0).unwrap();
    m.pause(member(2), 1).unwrap();
    assert_eq!(m.execute(id, member(1), TIMELOCK_PERIOD), Err(ErrorCode::SystemPaused));
    m.resume(member(2), 2).unwrap();
    assert_eq!(m.execute(id, member(1), TIMELOCK_PERIOD), Ok(member(50)));
    assert_eq!(m.execute(id, member(1), TIMELOCK_PERIOD), Err(ErrorCode::InvalidProposalState));
    assert_eq!(m.execute(77, member(1), TIMELOCK_PERIOD), Err(ErrorCode::NotFound));
    assert_eq!(m.approve(77, member(1), 0), Err(ErrorCode::NotFound));
    assert_eq!(m.cancel(77, member(1), "x".to_string(), 0), Err(ErrorCode::NotFound));
}

#[test]
fn rollback_pauses_proposes_and_resumes() {
    let mut m = registry(1);
    let id = m.submit_with_id(1, member(1), member(50), "v2".to_string(), 0).unwrap();
    let before = m.events().len();
    let rb = m.execute_rollback_with_id(id, 2, "error spike".to_string(), member(3), member(49), 500).unwrap();
    assert_eq!(rb, 2);
    assert!(!m.config().is_paused);
    let p = m.proposal(rb).unwrap();
    assert_eq!(p.new_program_buffer, member(49));
    assert_eq!(p.proposer, member(3));
    assert_eq!(p.status, UpgradeStatus::Proposed);
    assert_eq!(p.description, "error spike");
    assert_eq!(m.events().len(), before + 4);
    assert!(matches!(&m.events()[before], UpgradeEvent::SystemPause(e) if e.paused));
    assert!(matches!(&m.events()[before + 1], UpgradeEvent::Rollback(e) if e.proposal_id == id && e.rollback_proposal_id == 2));
    assert!(matches!(&m.events()[before + 2], UpgradeEvent::ProposalCreated(e) if e.proposal_id == 2));
    assert!(matches!(&m.events()[before + 3], UpgradeEvent::SystemPause(e) if !e.paused));
    assert_eq!(m.execute_rollback(99, "x".to_string(), member(3), member(49), 1), Err(ErrorCode::NotFound));
    assert_eq!(m.execute_rollback(id, "x".to_string(), member(88), member(49), 1), Err(ErrorCode::UnauthorizedSigner));
    assert_eq!(m.execute_rollback_with_id(id, 2, "x".to_string(), member(3), member(49), 1), Err(ErrorCode::DuplicateId));
    let fresh = m.execute_rollback(id, "again".to_string(), member(3), member(48), 2).unwrap();
    assert_eq!(m.proposal(fresh).unwrap().new_program_buffer, member(48));
}

#[test]
fn validators() {
    let members = five();
    assert_eq!(validate_multisig_member(&members, &member(3)), Ok(()));
    assert_eq!(validate_multisig_member(&members, &member(9)), Err(ErrorCode::UnauthorizedSigner));
    assert!(validate_threshold(3, 3));
    assert!(!validate_threshold(2, 3));
    assert_eq!(validate_timelock_expired(100, 50, 150), Ok(()));
    assert_eq!(validate_timelock_expired(100, 50, 149), Err(ErrorCode::TimelockNotExpired));
    assert_eq!(validate_timelock_expired(i64::MAX - 1, TIMELOCK_PERIOD, i64::MAX), Err(ErrorCode::MathOverflow));
    assert_eq!(validate_timelock_expired(i64::MIN + 1, -10, 0), Err(ErrorCode::MathOverflow));
    assert_eq!(validate_timelock_expired(i64::MAX - 10, 10, i64::MAX), Ok(()));
    assert_eq!(saturating_time_add(i64::MAX - 1, 10), i64::MAX);
    assert_eq!(saturating_time_add(i64::MIN + 1, -10), i64::MIN);
    assert_eq!(saturating_time_add(5, 7), 12);
}

#[test]
fn base58_keys_and_clients() {
    let key: Vec<u8> = (1..=32).collect();
    let p = Principal::from_base58("4wBqpZM9xaSheZzJSMawUKKwhdpChKbZ5eu5ky4Vigw").unwrap();
    assert_eq!(p.key.to_vec(), key);
    assert_eq!(Principal::from_base58("11111111111111111111111111111111").unwrap(), Principal { key: [0; 32] });
    assert!(Principal::from_base58("not-a-key").is_none());
    assert!(Principal::from_base58("").is_none());
    let payer_json = "[7,7,7,7,7,7,7,7,7,7,7,7,7,7,7,7,7,7,7,7,7,7,7,7,7,7,7,7,7,7,7,7,1,2,3,4,5,6,7,8,9,10,11,12,13,14,15,16,17,18,19,20,21,22,23,24,25,26,27,28,29,30,31,32]";
    let c = AnchorClient::new("http://localhost:8899", "4wBqpZM9xaSheZzJSMawUKKwhdpChKbZ5eu5ky4Vigw", payer_json).unwrap();
    assert_eq!(c.program_id, p);
    assert_eq!(c.rpc_url, "http://localhost:8899");
    assert_eq!(c.payer, p);
    assert_eq!(AnchorClient::new("u", "0OIl", payer_json).err(), Some(ErrorCode::InvalidPubkey));
    assert_eq!(
        AnchorClient::new("u", "4wBqpZM9xaSheZzJSMawUKKwhdpChKbZ5eu5ky4Vigw", "[1, 2, 3]").err(),
        Some(ErrorCode::InvalidKeypair)
    );
    assert_eq!(
        AnchorClient::new("u", "4wBqpZM9xaSheZzJSMawUKKwhdpChKbZ5eu5ky4Vigw", "not json").err(),
        Some(ErrorCode::InvalidKeypair)
    );
    assert_eq!(Keypair::from_json(payer_json).unwrap().pubkey(), p);
    assert_eq!(Keypair::from_bytes(vec![0u8; 63]).err(), Some(ErrorCode::InvalidKeypair));
    assert_eq!(Keypair::from_bytes(vec![5u8; 64]).unwrap().pubkey(), member(5));
    let _ = SquadsClient::new();
}

#[test]
fn program_hash_is_sha256() {
    let b = ProgramBuilder::new();
    let expected: [u8; 32] = [
        44, 242, 77, 186, 95, 176, 163, 14, 38, 232, 59, 42, 197, 185, 226, 158, 27, 22, 30, 92, 31,
        167, 66, 94, 115, 4, 51, 98, 147, 139, 152, 36,
    ];
    assert_eq!(b.compute_hash(b"hello"), expected);
    assert_ne!(b.compute_hash(b"hello"), b.compute_hash(b"hellp"));
}

#[test]
fn error_messages() {
    assert_eq!(ErrorCode::DuplicateApproval.message(), "Duplicate approval");
    assert_eq!(ErrorCode::TimelockNotExpired.message(), "Timelock not expired");
    assert_eq!(ErrorCode::MathOverflow.message(), "Math overflow");
}

#[test]
fn execute_refuses_an_expiry_outside_i64() {
    let config = initialize_multisig(member(100), five(), 1).unwrap();
    let mut p = propose_upgrade(&config, 1, member(1), member(50), member(200), "v2".to_string(), i64::MAX, 0).unwrap();
    approve_upgrade(&mut p, &config, member(1), 5).unwrap();
    assert_eq!(p.status, UpgradeStatus::TimelockActive);
    assert_eq!(execute_upgrade(&mut p, &config, i64::MAX), Err(ErrorCode::MathOverflow));
    assert_eq!(p.status, UpgradeStatus::TimelockActive);
    let mut m = registry(1);
    let id = m.submit_with_id(1, member(1), member(50), "v2".to_string(), 0).unwrap();
    m.approve(id, member(1), i64::MAX - 1).unwrap();
    assert_eq!(m.execute(id, member(1), i64::MAX), Err(ErrorCode::MathOverflow));
    assert!(m.expired_timelocks(i64::MAX).is_empty());
}

#[test]
fn expired_timelocks_lists_ready_proposals() {
    let mut m = registry(1);
    let a = m.submit_with_id(1, member(1), member(50), "a".to_string(), 0).unwrap();
    let b = m.submit_with_id(2, member(1), member(51), "b".to_string(), 0).unwrap();
    m.approve(a, member(1), 10).unwrap();
    m.approve(b, member(1), 20).unwrap();
    assert!(m.expired_timelocks(10 + TIMELOCK_PERIOD - 1).is_empty());
    assert_eq!(m.expired_timelocks(10 + TIMELOCK_PERIOD), vec![a]);
    assert_eq!(m.expired_timelocks(20 + TIMELOCK_PERIOD), vec![a, b]);
    m.execute(a, member(1), 20 + TIMELOCK_PERIOD).unwrap();
    assert_eq!(m.expired_timelocks(20 + TIMELOCK_PERIOD), vec![b]);
}
