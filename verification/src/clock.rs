//! The time source: current Unix time as a 32-bit value.

use vstd::prelude::*;

verus! {

/// Relies on `std::time::SystemTime::now` and `duration_since`: whole
/// seconds since the Unix epoch, or `None` when the host clock stands
/// before the epoch. Nothing is promised of the value itself.
#[verifier::external_body]
fn current_unix_seconds() -> Option<u64> {
    match std::time::SystemTime::now().duration_since(std::time::UNIX_EPOCH) {
        Ok(d) => Some(d.as_secs()),
        Err(_) => None,
    }
}

/// The 32-bit reading of a raw clock value: whole seconds within 32-bit
/// range pass through unchanged, seconds past the 32-bit rollover read as
/// `u32::MAX`, and a missing value (a clock before the epoch) reads as 0.
pub open spec fn time_as_u32(seconds: Option<u64>) -> u32 {
    match seconds {
        Some(s) => if s > u32::MAX {
            u32::MAX
        } else {
            s as u32
        },
        None => 0,
    }
}

/// Saturates a raw clock value into 32-bit range, exactly as
/// `time_as_u32` describes.
pub fn saturate_to_u32(seconds: Option<u64>) -> (r: u32)
    ensures
        r == time_as_u32(seconds),
{
    match seconds {
        Some(s) => {
            if s > u32::MAX as u64 {
                u32::MAX
            } else {
                s as u32
            }
        },
        None => 0,
    }
}

/// The current Unix time: the host clock's seconds saturated into 32-bit
/// range by `saturate_to_u32`, so an in-range clock passes through and an
/// out-of-range one saturates rather than wrapping or aborting. Nothing
/// is promised of the clock reading itself.
pub fn get_time() -> u32 {
    saturate_to_u32(current_unix_seconds())
}

} // verus!
