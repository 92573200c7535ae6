use upgrade_manager::constants::{NEW_ACCOUNT_VERSION, OLD_ACCOUNT_VERSION, TIMELOCK_PERIOD};
use upgrade_manager::error::ErrorCode;
use upgrade_manager::events::UpgradeEvent;
use upgrade_manager::instructions::initialize_multisig;
use upgrade_manager::manager::UpgradeManager;
use upgrade_manager::migration::{compute_progress, migrate_account, MigrationJob, MigrationStatus};
use upgrade_manager::state::Principal;

fn member(n: u8) -> Principal {
    Principal { key: [n; 32] }
}

fn registry() -> UpgradeManager {
    let members: Vec<Principal> = (1..=3).map(member).collect();
    let config = initialize_multisig(member(100), members, 2).unwrap();
    UpgradeManager::new(config, member(200), TIMELOCK_PERIOD)
}

fn records(names: &[&str]) -> Vec<String> {
    names.iter().map(|s| s.to_string()).collect()
}

#[test]
fn migration_with_failing_item_completes() {
    let mut m = registry();
    let job = m.start_migration_with_id(7, 1, records(&["r1", "r2", "r3"]), 100).unwrap();
    let mut now: i64 = 100;
    while let Some(account) = m.next_account(job).unwrap() {
        now += 1;
        let outcome = if account == "r2" { Err("collaborator failed".to_string()) } else { Ok(()) };
        m.record_migration_result(job, outcome, now).unwrap();
    }
    let p = m.progress(job).unwrap();
    assert_eq!(p.total, 3);
    assert_eq!(p.completed, 3);
    assert_eq!(p.percentage, 100);
    assert_eq!(p.status, MigrationStatus::Completed);
    assert_eq!(p.status.as_str(), "completed");
    let j = m.job(job).unwrap();
    assert_eq!(j.tracker.completed_at, Some(103));
    assert_eq!(j.results.len(), 3);
    assert!(j.results[0].success);
    assert!(!j.results[1].success);
    assert_eq!(j.results[1].account_address, "r2");
    assert_eq!(j.results[1].error_message.as_deref(), Some("collaborator failed"));
    assert!(j.results[2].success);
    assert_eq!(j.failed_accounts(), vec!["r2".to_string()]);
    assert_eq!(j.results[2].old_version, OLD_ACCOUNT_VERSION);
    assert_eq!(j.results[2].new_version, NEW_ACCOUNT_VERSION);
}

#[test]
fn progress_never_decreases_and_stays_within_total() {
    let mut m = registry();
    let job = m.start_migration_with_id(8, 1, records(&["a", "b", "c", "d"]), 0).unwrap();
    let mut last = m.progress(job).unwrap();
    assert_eq!(last.status.as_str(), "in_progress");
    assert_eq!(last.percentage, 0);
    for i in 0..4 {
        let outcome = if i % 2 == 0 { Err("boom".to_string()) } else { Ok(()) };
        m.record_migration_result(job, outcome, i).unwrap();
        let p = m.progress(job).unwrap();
        assert_eq!(p.completed, last.completed + 1);
        assert!(p.completed <= p.total);
        assert_eq!(p.status == MigrationStatus::Completed, p.completed == p.total);
        last = p;
    }
    assert_eq!(m.record_migration_result(job, Ok(()), 9), Err(ErrorCode::InvalidArgument));
    assert_eq!(m.progress(job).unwrap().completed, 4);
}

#[test]
fn progress_percentage_rounds_down() {
    let p = compute_progress(1, 3, 1);
    assert_eq!(p.percentage, 33);
    assert_eq!(p.status, MigrationStatus::InProgress);
    let q = compute_progress(1, 0, 0);
    assert_eq!(q.percentage, 0);
    assert_eq!(q.status, MigrationStatus::Completed);
}

#[test]
fn empty_migration_is_refused() {
    let mut m = registry();
    assert_eq!(m.start_migration(1, Vec::new(), 0), Err(ErrorCode::InvalidArgument));
    assert_eq!(MigrationJob::start(1, 1, Vec::new(), 0).err(), Some(ErrorCode::InvalidArgument));
}

#[test]
fn unknown_job_is_not_found() {
    let mut m = registry();
    assert_eq!(m.progress(42), Err(ErrorCode::NotFound));
    assert_eq!(m.next_account(42), Err(ErrorCode::NotFound));
    assert_eq!(m.record_migration_result(42, Ok(()), 0), Err(ErrorCode::NotFound));
}

#[test]
fn paused_system_refuses_new_jobs() {
    let mut m = registry();
    m.pause(member(1), 5).unwrap();
    m.pause(member(2), 6).unwrap();
    assert!(m.config().is_paused);
    assert_eq!(m.start_migration(1, records(&["x"]), 7), Err(ErrorCode::SystemPaused));
    assert_eq!(m.start_migration(1, Vec::new(), 7), Err(ErrorCode::InvalidArgument));
    m.resume(member(1), 8).unwrap();
    m.resume(member(1), 9).unwrap();
    assert!(!m.config().is_paused);
    let job = m.start_migration(1, records(&["x"]), 10).unwrap();
    assert_eq!(m.progress(job).unwrap().total, 1);
    assert_eq!(m.pause(member(99), 11), Err(ErrorCode::UnauthorizedSigner));
}

#[test]
fn each_item_is_logged() {
    let mut m = registry();
    let job = m.start_migration_with_id(3, 1, records(&["acct"]), 0).unwrap();
    m.record_migration_result(job, Err("bad".to_string()), 4).unwrap();
    match m.events().last() {
        Some(UpgradeEvent::AccountMigrated(e)) => {
            assert_eq!(e.job_id, 3);
            assert_eq!(e.account_address, "acct");
            assert!(!e.success);
            assert_eq!(e.timestamp, 4);
        }
        other => panic!("unexpected last event {:?}", other),
    }
}

#[test]
fn duplicate_job_id_is_refused() {
    let mut m = registry();
    m.start_migration_with_id(3, 1, records(&["a"]), 0).unwrap();
    assert_eq!(m.start_migration_with_id(3, 1, records(&["b"]), 0), Err(ErrorCode::DuplicateId));
}

#[test]
fn account_migration_fingerprints_data() {
    let key = member(9);
    let v = migrate_account(key, key, &[1, 2, 3], 77).unwrap();
    assert_eq!(v.account, key);
    assert_eq!(v.version, 2);
    assert!(v.migrated);
    assert_eq!(v.migrated_at, Some(77));
    let mut expected = [0u8; 32];
    expected[0] = 1;
    expected[1] = 2;
    expected[2] = 3;
    assert_eq!(v.old_data_hash, expected);
    assert_eq!(v.new_data_hash, expected);
    let long: Vec<u8> = (0..40).collect();
    let w = migrate_account(key, key, &long, 1).unwrap();
    let first: Vec<u8> = (0..32).collect();
    assert_eq!(w.old_data_hash.to_vec(), first);
    assert_eq!(migrate_account(key, member(8), &[1], 1).err(), Some(ErrorCode::InvalidAccountVersion));
}
