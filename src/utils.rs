use vstd::prelude::*;
use crate::error::ErrorCode;
use crate::state::{contains_principal, utf8_len, Principal};

verus! {

/// Whether the timelock armed at `activated_at` for `period` seconds has run
/// out at `now`.
pub open spec fn timelock_expired(activated_at: i64, period: i64, now: i64) -> bool {
    now as int >= activated_at as int + period as int
}

/// Whether `activated_at + period`, the end of the timelock, lies in the
/// range of `i64`.
pub open spec fn expiry_in_range(activated_at: i64, period: i64) -> bool {
    i64::MIN <= activated_at as int + period as int <= i64::MAX
}

/// `x` clamped to the range of `i64`.
pub open spec fn clamp_i64(x: int) -> i64 {
    if x > i64::MAX {
        i64::MAX
    } else if x < i64::MIN {
        i64::MIN
    } else {
        x as i64
    }
}

/// Refuses a signer that is not one of `members`.
pub fn validate_multisig_member(members: &Vec<Principal>, signer: &Principal) -> (r: Result<(), ErrorCode>)
    ensures
        r == (if members@.contains(*signer) {
            Ok::<(), ErrorCode>(())
        } else {
            Err(ErrorCode::UnauthorizedSigner)
        }),
{
    if contains_principal(members, signer) {
        Ok(())
    } else {
        Err(ErrorCode::UnauthorizedSigner)
    }
}

/// Refuses with `MathOverflow` when `activated_at + period` leaves the range
/// of `i64`, and otherwise with `TimelockNotExpired` while `now` is before it.
pub fn validate_timelock_expired(activated_at: i64, period: i64, now: i64) -> (r: Result<(), ErrorCode>)
    ensures
        r == (if !expiry_in_range(activated_at, period) {
            Err(ErrorCode::MathOverflow)
        } else if timelock_expired(activated_at, period, now) {
            Ok::<(), ErrorCode>(())
        } else {
            Err(ErrorCode::TimelockNotExpired)
        }),
{
    let expiry = match activated_at.checked_add(period) {
        Some(e) => e,
        None => return Err(ErrorCode::MathOverflow),
    };
    if now >= expiry {
        Ok(())
    } else {
        Err(ErrorCode::TimelockNotExpired)
    }
}

/// Whether `approval_count` approvals meet `threshold`.
pub fn validate_threshold(approval_count: u8, threshold: u8) -> (r: bool)
    ensures
        r == (approval_count >= threshold),
{
    approval_count >= threshold
}

/// Refuses a description whose UTF-8 encoding is longer than `max_len` bytes.
pub fn validate_description_length(description: &String, max_len: usize) -> (r: Result<(), ErrorCode>)
    ensures
        r == (if utf8_len(description@) <= max_len {
            Ok::<(), ErrorCode>(())
        } else {
            Err(ErrorCode::DescriptionTooLong)
        }),
{
    if description.as_str().as_bytes().len() <= max_len {
        Ok(())
    } else {
        Err(ErrorCode::DescriptionTooLong)
    }
}

/// `a + b`, held at the bounds of `i64` instead of overflowing.
pub fn saturating_time_add(a: i64, b: i64) -> (r: i64)
    ensures
        r == clamp_i64(a as int + b as int),
{
    let sum: i128 = a as i128 + b as i128;
    if sum > i64::MAX as i128 {
        i64::MAX
    } else if sum < i64::MIN as i128 {
        i64::MIN
    } else {
        sum as i64
    }
}

} // verus!
