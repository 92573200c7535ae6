use vstd::prelude::*;
use crate::constants::{NEW_ACCOUNT_VERSION, OLD_ACCOUNT_VERSION};
use crate::error::ErrorCode;
use crate::state::{AccountVersion, MigrationTracker, Principal};

verus! {

broadcast use vstd::array::group_array_axioms;

/// Whether a job is still running or has processed every item.
#[derive(Clone, Copy, Debug, PartialEq, Eq, Structural)]
pub enum MigrationStatus {
    InProgress,
    Completed,
}

impl MigrationStatus {
    /// The status as it is reported: `"in_progress"` or `"completed"`.
    pub fn as_str(&self) -> (r: &'static str)
        ensures
            r@ == (match self {
                MigrationStatus::InProgress => "in_progress"@,
                MigrationStatus::Completed => "completed"@,
            }),
    {
        match self {
            MigrationStatus::InProgress => "in_progress",
            MigrationStatus::Completed => "completed",
        }
    }
}

/// Whole percent of `completed` out of `total`, rounded down; 0 when `total` is 0.
pub open spec fn percent(completed: u64, total: u64) -> u64 {
    if total == 0 {
        0
    } else {
        ((completed as int * 100) / total as int) as u64
    }
}

/// The status that `completed` items out of `total` report.
pub open spec fn status_of(completed: u64, total: u64) -> MigrationStatus {
    if completed >= total {
        MigrationStatus::Completed
    } else {
        MigrationStatus::InProgress
    }
}

/// A snapshot of a job's progress.
#[derive(Clone, Copy, Debug, PartialEq, Eq, Structural)]
pub struct MigrationProgress {
    pub job_id: u128,
    pub total: u64,
    pub completed: u64,
    pub percentage: u64,
    pub status: MigrationStatus,
}

/// The progress of `completed` items out of `total`.
pub fn compute_progress(job_id: u128, total: u64, completed: u64) -> (r: MigrationProgress)
    requires
        completed <= total,
    ensures
        r == (MigrationProgress {
            job_id,
            total,
            completed,
            percentage: percent(completed, total),
            status: status_of(completed, total),
        }),
        r.percentage <= 100,
{
    let percentage: u64 = if total == 0 {
        0
    } else {
        proof {
            assert(completed as int * 100 <= total as int * 100) by (nonlinear_arith)
                requires completed <= total;
            assert((completed as int * 100) / total as int <= 100) by (nonlinear_arith)
                requires completed as int * 100 <= total as int * 100, total > 0;
            assert((completed as int * 100) / total as int >= 0) by (nonlinear_arith)
                requires completed >= 0, total > 0;
        }
        ((completed as u128 * 100) / total as u128) as u64
    };
    let status = if completed >= total {
        MigrationStatus::Completed
    } else {
        MigrationStatus::InProgress
    };
    MigrationProgress { job_id, total, completed, percentage, status }
}

/// The abstract value of an item result.
pub struct ItemResultView {
    pub job_id: u128,
    pub account_address: Seq<char>,
    pub old_version: u8,
    pub new_version: u8,
    pub success: bool,
    pub error_message: Option<Seq<char>>,
}

/// The audit record of one processed item.
pub struct MigrationItemResult {
    pub job_id: u128,
    pub account_address: String,
    pub old_version: u8,
    pub new_version: u8,
    pub success: bool,
    pub error_message: Option<String>,
}

impl View for MigrationItemResult {
    type V = ItemResultView;

    open spec fn view(&self) -> ItemResultView {
        ItemResultView {
            job_id: self.job_id,
            account_address: self.account_address@,
            old_version: self.old_version,
            new_version: self.new_version,
            success: self.success,
            error_message: match self.error_message {
                Some(m) => Some(m@),
                None => None,
            },
        }
    }
}

/// The view of what a collaborator reported for one item.
pub open spec fn outcome_view(outcome: Result<(), String>) -> Option<Seq<char>> {
    match outcome {
        Ok(()) => None,
        Err(m) => Some(m@),
    }
}

/// The result recorded for `account` of job `job_id`, given the failure
/// message of the collaborator, if any.
pub open spec fn item_result(job_id: u128, account: Seq<char>, failure: Option<Seq<char>>) -> ItemResultView {
    ItemResultView {
        job_id,
        account_address: account,
        old_version: OLD_ACCOUNT_VERSION,
        new_version: NEW_ACCOUNT_VERSION,
        success: failure.is_none(),
        error_message: failure,
    }
}

/// The views of a sequence of strings.
pub open spec fn string_views(v: Seq<String>) -> Seq<Seq<char>> {
    v.map_values(|s: String| s@)
}

/// The addresses of the failed items among `rs`, in order.
pub open spec fn failed_addresses(rs: Seq<ItemResultView>) -> Seq<Seq<char>>
    decreases rs.len(),
{
    if rs.len() == 0 {
        Seq::empty()
    } else if rs.last().success {
        failed_addresses(rs.drop_last())
    } else {
        failed_addresses(rs.drop_last()).push(rs.last().account_address)
    }
}

/// The abstract value of a job.
pub struct JobView {
    pub id: u128,
    pub tracker: MigrationTracker,
    pub accounts: Seq<Seq<char>>,
    pub results: Seq<ItemResultView>,
}

impl JobView {
    /// A job whose counters agree with its records: one result per processed
    /// item, in input order, and the finish time set exactly when all are done.
    pub open spec fn wf(self) -> bool {
        &&& self.tracker.wf()
        &&& self.tracker.total_accounts as int == self.accounts.len()
        &&& self.tracker.migrated_accounts as int == self.results.len()
        &&& forall|i: int| 0 <= i < self.results.len() ==> {
            &&& (#[trigger] self.results[i]).job_id == self.id
            &&& self.results[i].account_address == self.accounts[i]
            &&& self.results[i].old_version == OLD_ACCOUNT_VERSION
            &&& self.results[i].new_version == NEW_ACCOUNT_VERSION
            &&& self.results[i].success == self.results[i].error_message.is_none()
        }
    }

    /// The job after one more item, with the collaborator's failure message
    /// if it failed, processed at `now`.
    pub open spec fn advanced(self, failure: Option<Seq<char>>, now: i64) -> JobView {
        let done = (self.tracker.migrated_accounts + 1) as u64;
        JobView {
            tracker: MigrationTracker {
                migrated_accounts: done,
                completed_at: if done == self.tracker.total_accounts {
                    Some(now)
                } else {
                    None
                },
                ..self.tracker
            },
            results: self.results.push(
                item_result(self.id, self.accounts[self.tracker.migrated_accounts as int], failure),
            ),
            ..self
        }
    }

    /// The progress that the job reports.
    pub open spec fn progress(self) -> MigrationProgress {
        MigrationProgress {
            job_id: self.id,
            total: self.tracker.total_accounts,
            completed: self.tracker.migrated_accounts,
            percentage: percent(self.tracker.migrated_accounts, self.tracker.total_accounts),
            status: status_of(self.tracker.migrated_accounts, self.tracker.total_accounts),
        }
    }
}

/// One migration run over a list of account addresses.
pub struct MigrationJob {
    pub id: u128,
    pub tracker: MigrationTracker,
    pub accounts: Vec<String>,
    pub results: Vec<MigrationItemResult>,
}

impl View for MigrationJob {
    type V = JobView;

    open spec fn view(&self) -> JobView {
        JobView {
            id: self.id,
            tracker: self.tracker,
            accounts: string_views(self.accounts@),
            results: self.results@.map_values(|r: MigrationItemResult| r@),
        }
    }
}

impl MigrationJob {
    /// A job over `accounts` for proposal `proposal_id`, started at `now`,
    /// with nothing processed yet. Refuses an empty list.
    pub fn start(id: u128, proposal_id: u128, accounts: Vec<String>, now: i64) -> (r: Result<MigrationJob, ErrorCode>)
        ensures
            match r {
                Ok(job) => {
                    &&& accounts.len() > 0
                    &&& job@.wf()
                    &&& job@.id == id
                    &&& job@.accounts == string_views(accounts@)
                    &&& job@.results.len() == 0
                    &&& job@.tracker == (MigrationTracker {
                        proposal_id,
                        total_accounts: accounts.len() as u64,
                        migrated_accounts: 0,
                        started_at: now,
                        completed_at: None,
                    })
                },
                Err(e) => accounts.len() == 0 && e == ErrorCode::InvalidArgument,
            },
    {
        if accounts.len() == 0 {
            return Err(ErrorCode::InvalidArgument);
        }
        let total = accounts.len() as u64;
        let job = MigrationJob {
            id,
            tracker: MigrationTracker {
                proposal_id,
                total_accounts: total,
                migrated_accounts: 0,
                started_at: now,
                completed_at: None,
            },
            accounts,
            results: Vec::new(),
        };
        assert(job@.results =~= Seq::<ItemResultView>::empty());
        Ok(job)
    }

    /// The address of the next item to process, if any is left.
    pub fn next_account(&self) -> (r: Option<String>)
        requires
            self@.wf(),
        ensures
            match r {
                Some(a) => {
                    &&& self.tracker.migrated_accounts < self.tracker.total_accounts
                    &&& a@ == self@.accounts[self.tracker.migrated_accounts as int]
                },
                None => self.tracker.migrated_accounts == self.tracker.total_accounts,
            },
    {
        if self.tracker.migrated_accounts < self.tracker.total_accounts {
            assert(self@.accounts.len() == self.accounts@.len());
            let n = self.accounts.len();
            assert(self.tracker.migrated_accounts < n);
            let i = self.tracker.migrated_accounts as usize;
            assert(i as int == self.tracker.migrated_accounts as int);
            let a = self.accounts[i].clone();
            assert(self@.accounts[i as int] == self.accounts@[i as int]@);
            Some(a)
        } else {
            None
        }
    }

    /// Records the outcome of the next item at `now`: a failure is recorded
    /// like a success and advances the count just the same. Refused with
    /// `InvalidArgument` once every item is processed.
    pub fn record_result(&mut self, outcome: Result<(), String>, now: i64) -> (r: Result<(), ErrorCode>)
        requires
            old(self)@.wf(),
        ensures
            final(self)@.wf(),
            match r {
                Ok(()) => {
                    &&& old(self).tracker.migrated_accounts < old(self).tracker.total_accounts
                    &&& final(self)@ == old(self)@.advanced(outcome_view(outcome), now)
                },
                Err(e) => {
                    &&& old(self).tracker.migrated_accounts == old(self).tracker.total_accounts
                    &&& e == ErrorCode::InvalidArgument
                    &&& final(self)@ == old(self)@
                },
            },
    {
        if self.tracker.migrated_accounts >= self.tracker.total_accounts {
            return Err(ErrorCode::InvalidArgument);
        }
        let ghost before = self@;
        assert(before.accounts.len() == self.accounts@.len());
        assert(before.results.len() == self.results@.len());
        let n = self.accounts.len();
        assert(self.tracker.migrated_accounts < n);
        let i = self.tracker.migrated_accounts as usize;
        assert(i as int == self.tracker.migrated_accounts as int);
        let account_address = self.accounts[i].clone();
        let (success, error_message) = match outcome {
            Ok(()) => (true, None),
            Err(m) => (false, Some(m)),
        };
        let item = MigrationItemResult {
            job_id: self.id,
            account_address,
            old_version: OLD_ACCOUNT_VERSION,
            new_version: NEW_ACCOUNT_VERSION,
            success,
            error_message,
        };
        self.results.push(item);
        let done = self.tracker.migrated_accounts + 1;
        self.tracker.migrated_accounts = done;
        if done == self.tracker.total_accounts {
            self.tracker.completed_at = Some(now);
        }
        proof {
            assert(before.accounts[i as int] == self.accounts@[i as int]@);
            assert(self@.results =~= before.results.push(
                item_result(before.id, before.accounts[i as int], outcome_view(outcome)),
            ));
            assert(self@.accounts =~= before.accounts);
        }
        Ok(())
    }

    /// The job's progress.
    pub fn progress(&self) -> (r: MigrationProgress)
        requires
            self@.wf(),
        ensures
            r == self@.progress(),
    {
        compute_progress(self.id, self.tracker.total_accounts, self.tracker.migrated_accounts)
    }

    /// The addresses of the items that failed, in input order.
    pub fn failed_accounts(&self) -> (r: Vec<String>)
        requires
            self@.wf(),
        ensures
            string_views(r@) == failed_addresses(self@.results),
    {
        let mut out: Vec<String> = Vec::new();
        let mut i: usize = 0;
        let ghost rs = self@.results;
        assert(rs.len() == self.results@.len());
        while i < self.results.len()
            invariant
                0 <= i <= self.results.len(),
                rs == self@.results,
                rs.len() == self.results@.len(),
                string_views(out@) == failed_addresses(rs.subrange(0, i as int)),
            decreases self.results.len() - i,
        {
            assert(rs.subrange(0, i + 1).drop_last() =~= rs.subrange(0, i as int));
            assert(rs[i as int] == self.results@[i as int]@);
            if !self.results[i].success {
                let ghost prev = out@;
                let a = self.results[i].account_address.clone();
                out.push(a);
                assert(string_views(out@) =~= string_views(prev).push(a@));
            }
            i = i + 1;
        }
        assert(rs.subrange(0, rs.len() as int) =~= rs);
        out
    }
}

/// The first 32 bytes of `data`, padded with zeros.
pub open spec fn data_fingerprint(data: Seq<u8>) -> Seq<u8> {
    Seq::new(32, |i: int| if i < data.len() { data[i] } else { 0u8 })
}

/// Migrates one account: checks that the account handed over is the one
/// named, and records it at the new version with a fingerprint of its data.
pub fn migrate_account(old_account_key: Principal, account: Principal, data: &[u8], now: i64) -> (r: Result<AccountVersion, ErrorCode>)
    ensures
        match r {
            Ok(v) => {
                &&& account == old_account_key
                &&& v.account == account
                &&& v.version == NEW_ACCOUNT_VERSION
                &&& v.migrated
                &&& v.migrated_at == Some(now)
                &&& v.old_data_hash@ == data_fingerprint(data@)
                &&& v.new_data_hash@ == data_fingerprint(data@)
            },
            Err(e) => account != old_account_key && e == ErrorCode::InvalidAccountVersion,
        },
{
    if account != old_account_key {
        return Err(ErrorCode::InvalidAccountVersion);
    }
    let mut hash: [u8; 32] = [0u8; 32];
    let copy_len: usize = if data.len() < 32 { data.len() } else { 32 };
    let mut i: usize = 0;
    while i < copy_len
        invariant
            0 <= i <= copy_len <= 32,
            copy_len <= data@.len(),
            copy_len == (if data@.len() < 32 { data@.len() } else { 32 }),
            forall|j: int| 0 <= j < i ==> hash[j] == data@[j],
            forall|j: int| i <= j < 32 ==> hash[j] == 0u8,
        decreases copy_len - i,
    {
        hash[i] = data[i];
        i = i + 1;
    }
    assert(hash@ =~= data_fingerprint(data@));
    Ok(AccountVersion {
        account,
        version: NEW_ACCOUNT_VERSION,
        migrated: true,
        migrated_at: Some(now),
        old_data_hash: hash,
        new_data_hash: hash,
    })
}

} // verus!
