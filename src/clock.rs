//! The wall clock. Its readings depend on when they are taken, so nothing is
//! promised of them: every function that decides on a time takes that time
//! as an argument, and is verified for every value of it.

use vstd::prelude::*;

verus! {

/// Relies on chrono's `Utc::now` and `DateTime::timestamp_millis`: the
/// current time as milliseconds since the Unix epoch.
#[verifier::external_body]
pub(crate) fn unix_time_millis() -> i64 {
    chrono::Utc::now().timestamp_millis()
}

/// The whole seconds of a time given in milliseconds, rounded down.
pub open spec fn secs_of(ms: i64) -> i64 {
    (ms as int / 1000) as i64
}

/// The whole seconds of a time given in milliseconds, rounded down (also
/// before the epoch).
pub fn secs_of_millis(ms: i64) -> (r: i64)
    ensures
        r == secs_of(ms),
{
    if ms >= 0 {
        ms / 1000
    } else {
        let before: i64 = -(ms + 1);
        let q: i64 = before / 1000;
        proof {
            let m = ms as int;
            let b = before as int;
            assert(b == 1000 * (b / 1000) + b % 1000) by (nonlinear_arith);
            assert(0 <= b % 1000 < 1000);
            assert(m == 1000 * (-(b / 1000) - 1) + (999 - b % 1000));
            assert(m / 1000 == -(b / 1000) - 1) by (nonlinear_arith)
                requires
                    m == 1000 * (-(b / 1000) - 1) + (999 - b % 1000),
                    0 <= 999 - b % 1000 < 1000,
            ;
        }
        -q - 1
    }
}

} // verus!
