//! The wall clock that bounds the rendering loops.
use vstd::prelude::*;

verus! {

/// Relies on `time::get_time`: the current time as whole seconds and
/// nanoseconds since the Unix epoch; `Timespec::new` asserts that the
/// nanoseconds lie in `[0, 1_000_000_000)`.
#[verifier::external_body]
fn wall_clock() -> (r: (i64, i32))
    ensures
        0 <= r.1 < 1_000_000_000,
{
    let ts = time::get_time();
    (ts.sec, ts.nsec)
}

/// Microseconds since the epoch of a time given as seconds and nanoseconds:
/// 0 before the epoch, the largest `u64` past its range.
pub open spec fn micros_spec(sec: int, nsec: int) -> int {
    if sec < 0 {
        0
    } else if sec * 1_000_000 + nsec / 1000 > u64::MAX {
        u64::MAX as int
    } else {
        sec * 1_000_000 + nsec / 1000
    }
}

/// Converts seconds and nanoseconds since the epoch into microseconds.
pub fn timespec_micros(sec: i64, nsec: i32) -> (r: u64)
    requires
        0 <= nsec < 1_000_000_000,
    ensures
        r == micros_spec(sec as int, nsec as int),
{
    if sec < 0 {
        return 0;
    }
    let sub: u64 = (nsec as u64) / 1000;
    match (sec as u64).checked_mul(1_000_000) {
        Some(whole) => whole.saturating_add(sub),
        None => {
            assert((sec as int) * 1_000_000 + sub > u64::MAX);
            u64::MAX
        },
    }
}

/// The current time in microseconds since the epoch.
pub fn current_time_micros() -> (r: u64)
    ensures
        exists|sec: i64, nsec: i32|
            0 <= nsec < 1_000_000_000 && r == micros_spec(sec as int, nsec as int),
{
    let (sec, nsec) = wall_clock();
    timespec_micros(sec, nsec)
}

} // verus!
