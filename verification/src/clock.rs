//! The two things that no input decides: what time it is, and the chance by
//! which the checks of a session are spread out.

use vstd::prelude::*;

verus! {

/// Reads the clock with `std::time::SystemTime::now`: the nanoseconds since
/// the start of 1970, and zero for a clock that stands before it.
#[verifier::external_body]
pub(crate) fn now() -> (r: u64) {
    match std::time::SystemTime::now().duration_since(std::time::UNIX_EPOCH) {
        Ok(since) => since.as_nanos() as u64,
        Err(_) => 0,
    }
}

/// Draws a number from `low` up to, but not including, `high`, with
/// `gen_range` of `rand`'s generator of this thread.
#[verifier::external_body]
fn random_between(low: u64, high: u64) -> (r: u64)
    requires
        low < high,
    ensures
        low <= r < high,
{
    rand::Rng::gen_range(&mut rand::thread_rng(), low..high)
}

/// The shortest wait before a session is checked, in seconds.
pub const LIVENESS_MIN: u64 = 5;

/// The wait before a session is checked stays below this, in seconds.
pub const LIVENESS_MAX: u64 = 13;

/// Whether `delay`, in milliseconds, is a wait that may stand before a
/// session is checked: whole seconds, from five up to but not including
/// thirteen.
pub open spec fn liveness_wait(delay: u64) -> bool {
    exists|seconds: u64|
        LIVENESS_MIN <= seconds < LIVENESS_MAX && delay == #[trigger] (seconds * 1000)
}

/// Draws the wait before the next check of the session, in milliseconds.
pub fn liveness_delay() -> (r: u64)
    ensures
        liveness_wait(r),
{
    let seconds = random_between(LIVENESS_MIN, LIVENESS_MAX);
    assert(seconds * 1000 == seconds * 1000);
    seconds * 1000
}

/// The time and the chance that one step of the daemon goes by.
#[derive(Clone, Copy, Debug, PartialEq, Eq, Structural)]
pub struct Moment {
    /// The time, in nanoseconds since the start of 1970.
    pub now: u64,
    /// The wait before the next check of a session, in milliseconds.
    pub liveness: u64,
}

impl Moment {
    /// Reads the clock and draws the wait.
    pub fn read() -> (r: Moment)
        ensures
            liveness_wait(r.liveness),
    {
        Moment { now: now(), liveness: liveness_delay() }
    }
}

} // verus!
