//! The process clock.

use vstd::prelude::*;

verus! {

/// Relies on chrono::Utc::now: the current Unix time in seconds.  The
/// value depends on the clock, so nothing is promised of it beyond its
/// sign: `Utc::now` refuses a system clock reading before the Unix
/// epoch, so the timestamp is never negative.
#[verifier::external_body]
pub(crate) fn current_unix_time() -> (r: i64)
    ensures
        r >= 0,
{
    chrono::Utc::now().timestamp()
}

} // verus!
