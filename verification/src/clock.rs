//! The wall clock, read through `std::time::SystemTime`.
use vstd::prelude::*;

verus! {

/// Calls `SystemTime::now`, `duration_since(UNIX_EPOCH)` and
/// `Duration::as_millis`: the current time in whole milliseconds since the
/// Unix epoch, or 0 (the default duration) for a clock set before it.  The
/// value depends on the moment of the call, so nothing is stated of it.
#[verifier::external_body]
pub(crate) fn unix_time_millis() -> (r: u128) {
    std::time::SystemTime::now().duration_since(std::time::UNIX_EPOCH).unwrap_or_default().as_millis()
}

/// The current time in milliseconds since the Unix epoch: 0 for a clock set
/// before 1970, and at most `u64::MAX`.  All timing in this library is
/// measured on this clock; it is the wall clock, which may step back, and
/// every duration measured across such a step is 0.
pub fn now_ms() -> (r: u64) {
    let t = unix_time_millis();
    if t > u64::MAX as u128 {
        u64::MAX
    } else {
        t as u64
    }
}

/// Milliseconds from `earlier` to `later`, or 0 when the clock went back.
pub open spec fn elapsed_between(earlier: u64, later: u64) -> u64 {
    if later >= earlier {
        (later - earlier) as u64
    } else {
        0
    }
}

/// Milliseconds from `earlier` to `later`, or 0 when the clock went back.
pub fn elapsed_ms(earlier: u64, later: u64) -> (r: u64)
    ensures
        r == elapsed_between(earlier, later),
{
    if later >= earlier {
        later - earlier
    } else {
        0
    }
}

} // verus!

verus! {

/// Calls `SystemTime::now`, `duration_since(UNIX_EPOCH)` (the default
/// duration for a clock set before 1970) and `Duration::subsec_nanos`: the
/// nanoseconds within the current second, which the documentation of
/// `subsec_nanos` gives as below one billion.  Used as a source of jitter.
#[verifier::external_body]
pub(crate) fn subsec_nanos() -> (r: u32)
    ensures
        r < 1_000_000_000,
{
    std::time::SystemTime::now().duration_since(std::time::UNIX_EPOCH).unwrap_or_default().subsec_nanos()
}

} // verus!
