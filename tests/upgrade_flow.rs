use upgrade_manager::constants::TIMELOCK_PERIOD;
use upgrade_manager::error::ErrorCode;
use upgrade_manager::events::UpgradeEvent;
use upgrade_manager::instructions::initialize_multisig;
use upgrade_manager::manager::UpgradeManager;
use upgrade_manager::state::{Principal, UpgradeStatus};

fn member(n: u8) -> Principal {
    Principal { key: [n; 32] }
}

fn registry(threshold: u8) -> UpgradeManager {
    let members: Vec<Principal> = (1..=5).map(member).collect();
    let config = initialize_multisig(member(100), members, threshold).unwrap();
    UpgradeManager::new(config, member(200), TIMELOCK_PERIOD)
}

fn status_of(m: &UpgradeManager, id: u128) -> UpgradeStatus {
    m.proposal(id).unwrap().status
}

#[test]
fn test_full_upgrade_flow() {
    let mut m = registry(3);
    let buffer = member(50);
    let id = m.submit_with_id(1, member(1), buffer, "Upgrade to v2".to_string(), 1_000).unwrap();
    assert_eq!(status_of(&m, id), UpgradeStatus::Proposed);
    assert_eq!(m.proposal(id).unwrap().approval_count, 0);

    let a = m.approve(id, member(1), 1_100).unwrap();
    assert_eq!(a.approval_count, 1);
    assert!(!a.threshold_met);
    let b = m.approve(id, member(2), 1_200).unwrap();
    assert_eq!(b.approval_count, 2);
    assert!(!b.timelock_activated);
    assert_eq!(status_of(&m, id), UpgradeStatus::Approved);

    let t0: i64 = 1_300;
    let c = m.approve(id, member(3), t0).unwrap();
    assert_eq!(c.approval_count, 3);
    assert!(c.threshold_met);
    assert!(c.timelock_activated);
    assert_eq!(status_of(&m, id), UpgradeStatus::TimelockActive);
    assert_eq!(m.proposal(id).unwrap().timelock_activated_at, Some(t0));

    assert_eq!(m.execute(id, member(4), t0 + 1), Err(ErrorCode::TimelockNotExpired));
    assert_eq!(status_of(&m, id), UpgradeStatus::TimelockActive);

    assert_eq!(m.execute(id, member(4), t0 + TIMELOCK_PERIOD), Ok(buffer));
    assert_eq!(status_of(&m, id), UpgradeStatus::Executed);
    assert_eq!(m.proposal(id).unwrap().executed_at, Some(t0 + TIMELOCK_PERIOD));
}

#[test]
fn test_timelock_enforcement() {
    let mut m = registry(2);
    let id = m.submit_with_id(9, member(1), member(50), "v2".to_string(), 0).unwrap();
    m.approve(id, member(1), 10).unwrap();
    m.approve(id, member(2), 20).unwrap();
    assert_eq!(m.execute(id, member(1), 20), Err(ErrorCode::TimelockNotExpired));
    assert_eq!(m.execute(id, member(1), 20 + TIMELOCK_PERIOD - 1), Err(ErrorCode::TimelockNotExpired));
    assert_eq!(m.execute(id, member(1), 20 + TIMELOCK_PERIOD), Ok(member(50)));
}

#[test]
fn test_multisig_threshold() {
    let mut m = registry(3);
    let id = m.submit_with_id(2, member(1), member(50), "v2".to_string(), 0).unwrap();
    m.approve(id, member(1), 10).unwrap();
    m.approve(id, member(2), 20).unwrap();
    assert_eq!(m.proposal(id).unwrap().timelock_activated_at, None);
    assert_eq!(m.execute(id, member(1), 10 * TIMELOCK_PERIOD), Err(ErrorCode::InvalidProposalState));
    let r = m.approve(id, member(3), 30).unwrap();
    assert!(r.timelock_activated);
    assert_eq!(m.proposal(id).unwrap().timelock_activated_at, Some(30));
}

#[test]
fn test_upgrade_cancellation() {
    let mut m = registry(2);
    let id = m.submit_with_id(3, member(1), member(50), "v2".to_string(), 0).unwrap();
    m.approve(id, member(1), 10).unwrap();
    m.approve(id, member(2), 20).unwrap();
    assert_eq!(status_of(&m, id), UpgradeStatus::TimelockActive);
    assert_eq!(m.cancel(id, member(3), "found a bug".to_string(), 30), Ok(()));
    assert_eq!(status_of(&m, id), UpgradeStatus::Cancelled);
    assert_eq!(
        m.cancel(id, member(3), "again".to_string(), 40),
        Err(ErrorCode::ProposalAlreadyCancelled)
    );
    assert_eq!(m.execute(id, member(1), 20 + TIMELOCK_PERIOD), Err(ErrorCode::InvalidProposalState));
    match m.events().last() {
        Some(UpgradeEvent::UpgradeCancelled(e)) => {
            assert_eq!(e.proposal_id, id);
            assert_eq!(e.reason, "found a bug");
            assert_eq!(e.timestamp, 30);
        }
        other => panic!("unexpected last event {:?}", other),
    }
}

#[test]
fn test_duplicate_approval() {
    let mut m = registry(3);
    let id = m.submit_with_id(4, member(1), member(50), "v2".to_string(), 0).unwrap();
    m.approve(id, member(1), 10).unwrap();
    assert_eq!(m.approve(id, member(1), 11), Err(ErrorCode::DuplicateApproval));
    assert_eq!(m.proposal(id).unwrap().approval_count, 1);
    assert_eq!(m.proposal(id).unwrap().approvals.len(), 1);
}

#[test]
fn test_unauthorized_execution() {
    let mut m = registry(2);
    let outsider = member(77);
    assert_eq!(
        m.submit_with_id(5, outsider, member(50), "v2".to_string(), 0),
        Err(ErrorCode::UnauthorizedSigner)
    );
    let id = m.submit_with_id(5, member(1), member(50), "v2".to_string(), 0).unwrap();
    assert_eq!(m.approve(id, outsider, 10), Err(ErrorCode::UnauthorizedSigner));
    assert_eq!(m.execute(id, member(1), TIMELOCK_PERIOD), Err(ErrorCode::InvalidProposalState));
    assert_eq!(
        m.cancel(id, outsider, "no".to_string(), 10),
        Err(ErrorCode::UnauthorizedSigner)
    );
    assert_eq!(status_of(&m, id), UpgradeStatus::Proposed);
}
