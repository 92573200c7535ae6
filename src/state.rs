use vstd::prelude::*;
use std::str::FromStr;
use crate::constants::{MAX_DESCRIPTION_LENGTH, MAX_MULTISIG_MEMBERS};

verus! {

broadcast use vstd::array::group_array_axioms;

/// What base58 decoding yields for a string: the 32 key bytes, or nothing
/// when the string is not the base58 form of a 32-byte key.
pub uninterp spec fn pubkey_from_base58(s: Seq<char>) -> Option<Seq<u8>>;

/// Relies on `solana_sdk::pubkey::Pubkey::from_str`: base58 decoding into
/// exactly 32 bytes, refused for strings longer than 44 bytes.
#[verifier::external_body]
fn decode_pubkey(s: &str) -> (r: Option<[u8; 32]>)
    ensures
        match r {
            Some(bytes) => pubkey_from_base58(s@) == Some(bytes@),
            None => pubkey_from_base58(s@).is_none(),
        },
        utf8_len(s@) > 44 ==> r.is_none(),
{
    solana_sdk::pubkey::Pubkey::from_str(s).ok().map(|k| k.to_bytes())
}

/// A principal or account identity: the 32 bytes of an ed25519 public key.
#[derive(Clone, Copy, Debug)]
pub struct Principal {
    pub key: [u8; 32],
}

impl Principal {
    /// The principal whose key is written `s` in base58.
    pub fn from_base58(s: &str) -> (r: Option<Principal>)
        ensures
            match r {
                Some(p) => pubkey_from_base58(s@) == Some(p.key@),
                None => pubkey_from_base58(s@).is_none(),
            },
    {
        match decode_pubkey(s) {
            Some(key) => Some(Principal { key }),
            None => None,
        }
    }
}

impl PartialEq for Principal {
    fn eq(&self, other: &Principal) -> (r: bool)
        ensures
            r == (self.key == other.key),
    {
        let mut i: usize = 0;
        while i < 32
            invariant
                0 <= i <= 32,
                forall|j: int| 0 <= j < i ==> self.key[j] == other.key[j],
            decreases 32 - i,
        {
            if self.key[i] != other.key[i] {
                return false;
            }
            i = i + 1;
        }
        assert(self.key =~= other.key);
        true
    }
}

impl vstd::std_specs::cmp::PartialEqSpecImpl for Principal {
    open spec fn obeys_eq_spec() -> bool {
        true
    }

    open spec fn eq_spec(&self, other: &Principal) -> bool {
        self.key == other.key
    }
}

impl Eq for Principal {
}

/// Whether `p` occurs in `v`.
pub fn contains_principal(v: &Vec<Principal>, p: &Principal) -> (r: bool)
    ensures
        r == v@.contains(*p),
{
    let mut i: usize = 0;
    while i < v.len()
        invariant
            0 <= i <= v.len(),
            forall|j: int| 0 <= j < i ==> v@[j] != *p,
        decreases v.len() - i,
    {
        if v[i] == *p {
            assert(v@[i as int] == *p);
            return true;
        }
        i = i + 1;
    }
    false
}

/// Lifecycle of an upgrade proposal. `Executed` and `Cancelled` are terminal.
#[derive(Clone, Copy, Debug, PartialEq, Eq, Structural)]
pub enum UpgradeStatus {
    Proposed,
    Approved,
    TimelockActive,
    Executed,
    Cancelled,
}

impl UpgradeStatus {
    pub open spec fn spec_is_terminal(self) -> bool {
        self == UpgradeStatus::Executed || self == UpgradeStatus::Cancelled
    }

    /// Whether no further transition leaves this status.
    pub fn is_terminal(&self) -> (r: bool)
        ensures
            r == self.spec_is_terminal(),
    {
        *self == UpgradeStatus::Executed || *self == UpgradeStatus::Cancelled
    }
}

/// Byte length of the UTF-8 encoding of `s`.
pub open spec fn utf8_len(s: Seq<char>) -> nat {
    vstd::utf8::encode_utf8(s).len()
}

/// The membership set, the approval threshold and the pause flag.
pub struct MultisigConfig {
    pub authority: Principal,
    pub members: Vec<Principal>,
    pub threshold: u8,
    pub is_paused: bool,
}

impl MultisigConfig {
    /// A bounded set of distinct members, with a threshold that they can meet.
    pub open spec fn wf(&self) -> bool {
        &&& self.members.len() <= MAX_MULTISIG_MEMBERS
        &&& self.members@.no_duplicates()
        &&& 1 <= self.threshold
        &&& self.threshold as int <= self.members.len()
    }
}

/// The abstract value of an upgrade proposal.
pub struct ProposalView {
    pub id: u128,
    pub proposer: Principal,
    pub new_program_buffer: Principal,
    pub target_program: Principal,
    pub description: Seq<char>,
    pub status: UpgradeStatus,
    pub approvals: Seq<Principal>,
    pub approval_count: u8,
    pub created_at: i64,
    pub timelock_activated_at: Option<i64>,
    pub timelock_period: i64,
    pub executed_at: Option<i64>,
}

impl ProposalView {
    /// The set of principals that approved.
    pub open spec fn approval_set(self) -> Set<Principal> {
        self.approvals.to_set()
    }

    /// The invariant of a proposal under a membership set and threshold:
    /// the count is the number of distinct approving members, the timelock is
    /// armed exactly when the count has reached the threshold, and the
    /// execution time is set exactly in `Executed`.
    pub open spec fn wf(self, members: Seq<Principal>, threshold: u8) -> bool {
        &&& self.approval_count as int == self.approvals.len()
        &&& self.approvals.no_duplicates()
        &&& forall|i: int| 0 <= i < self.approvals.len() ==> members.contains(#[trigger] self.approvals[i])
        &&& self.timelock_activated_at.is_some() == (self.approval_count >= threshold)
        &&& (self.status == UpgradeStatus::TimelockActive ==> self.timelock_activated_at.is_some())
        &&& (self.status == UpgradeStatus::Executed) == self.executed_at.is_some()
        &&& utf8_len(self.description) <= MAX_DESCRIPTION_LENGTH
    }
}

/// An upgrade proposal: the artifact to install, its approvals and its timelock.
pub struct UpgradeProposal {
    pub id: u128,
    pub proposer: Principal,
    pub new_program_buffer: Principal,
    pub target_program: Principal,
    pub description: String,
    pub status: UpgradeStatus,
    pub approvals: Vec<Principal>,
    pub approval_count: u8,
    pub created_at: i64,
    pub timelock_activated_at: Option<i64>,
    pub timelock_period: i64,
    pub executed_at: Option<i64>,
}

impl View for UpgradeProposal {
    type V = ProposalView;

    open spec fn view(&self) -> ProposalView {
        ProposalView {
            id: self.id,
            proposer: self.proposer,
            new_program_buffer: self.new_program_buffer,
            target_program: self.target_program,
            description: self.description@,
            status: self.status,
            approvals: self.approvals@,
            approval_count: self.approval_count,
            created_at: self.created_at,
            timelock_activated_at: self.timelock_activated_at,
            timelock_period: self.timelock_period,
            executed_at: self.executed_at,
        }
    }
}

/// Record of one migrated account.
#[derive(Clone, Copy, Debug)]
pub struct AccountVersion {
    pub account: Principal,
    pub version: u8,
    pub migrated: bool,
    pub migrated_at: Option<i64>,
    pub old_data_hash: [u8; 32],
    pub new_data_hash: [u8; 32],
}

/// Aggregate progress of one migration job.
#[derive(Clone, Copy, Debug, PartialEq, Eq, Structural)]
pub struct MigrationTracker {
    pub proposal_id: u128,
    pub total_accounts: u64,
    pub migrated_accounts: u64,
    pub started_at: i64,
    pub completed_at: Option<i64>,
}

impl MigrationTracker {
    /// Completed never exceeds the total, and the finish time is set exactly
    /// when every item has been processed.
    pub open spec fn wf(self) -> bool {
        &&& self.migrated_accounts <= self.total_accounts
        &&& self.completed_at.is_some() == (self.migrated_accounts == self.total_accounts)
    }
}

} // verus!
