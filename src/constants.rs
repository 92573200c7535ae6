use vstd::prelude::*;

verus! {

/// Waiting period between the arming of the timelock and the earliest execution: 48 hours.
pub const TIMELOCK_PERIOD: i64 = 172800;

/// Longest accepted proposal description, in bytes of UTF-8.
pub const MAX_DESCRIPTION_LENGTH: usize = 500;

/// Largest membership set of the multisig.
pub const MAX_MULTISIG_MEMBERS: usize = 10;

/// Largest number of approvals a proposal can hold (one per member).
pub const MAX_APPROVALS: usize = 10;

/// Account layout version before a migration.
pub const OLD_ACCOUNT_VERSION: u8 = 1;

/// Account layout version after a migration.
pub const NEW_ACCOUNT_VERSION: u8 = 2;

} // verus!
