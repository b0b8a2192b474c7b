//! The wall clock, as far as the jitter reads it.

use vstd::prelude::*;

verus! {

/// A reading of the wall clock.
#[verifier::external_type_specification]
#[verifier::external_body]
pub struct ExSystemTime(std::time::SystemTime);

/// A wall clock that stands before the epoch.
#[verifier::external_type_specification]
#[verifier::external_body]
pub struct ExSystemTimeError(std::time::SystemTimeError);

/// `SystemTime::now`: nothing is claimed of the instant it reads.
pub assume_specification[ std::time::SystemTime::now ]() -> std::time::SystemTime
;

/// `Duration::subsec_nanos`: the fraction of a second is less than one billion
/// nanoseconds.
pub assume_specification[ std::time::Duration::subsec_nanos ](
    d: &std::time::Duration,
) -> (r: u32)
    ensures
        r < 1_000_000_000,
;

/// Calls `SystemTime::duration_since` on the epoch: nothing is claimed of the
/// span, nor of when the clock stands before the epoch.
#[verifier::external_body]
fn since_epoch(t: std::time::SystemTime) -> Result<std::time::Duration, std::time::SystemTimeError> {
    t.duration_since(std::time::UNIX_EPOCH)
}

/// What a reading comes to: its fraction of a second in nanoseconds, or zero
/// when there is none because the clock stands before the epoch.
pub fn fraction(read: Option<u32>) -> (r: u32)
    ensures
        r == match read {
            Some(nanos) => nanos,
            None => 0,
        },
{
    match read {
        Some(nanos) => nanos,
        None => 0,
    }
}

/// The nanoseconds of the current second, or zero when the clock stands before
/// the epoch. Which instant is read rests on the clock, so what is stated is
/// the range of every reading.
pub fn subsecond() -> (r: u32)
    ensures
        r < 1_000_000_000,
{
    fraction(
        match since_epoch(std::time::SystemTime::now()) {
            Ok(d) => Some(d.subsec_nanos()),
            Err(_) => None,
        },
    )
}

/// A reading is taken as it is, and a clock before the epoch reads as zero.
pub proof fn a_reading_is_taken_as_it_is(read: Option<u32>, r: u32)
    requires
        call_ensures(fraction, (read,), r),
    ensures
        read matches Some(nanos) ==> r == nanos,
        read is None ==> r == 0,
{
}

} // verus!
