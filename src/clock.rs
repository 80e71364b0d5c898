//! Insert timestamps: wall-clock seconds narrowed to a signed 32-bit value.
//!
//! The narrowing keeps the low 32 bits, so stored times roll over in 2038.

use vstd::prelude::*;
use chrono::{DateTime, Utc};

verus! {

/// `x` modulo 2^32, read as a signed 32-bit integer.
pub open spec fn wrap_i32(x: int) -> int {
    let m = x % 0x1_0000_0000;
    if m >= 0x8000_0000 { m - 0x1_0000_0000 } else { m }
}

/// Narrows seconds since the Unix epoch to the stored 32-bit time.
pub fn truncate_seconds(secs: i64) -> (r: i32)
    ensures
        r as int == wrap_i32(secs as int),
{
    let q: i64 = if secs >= 0 {
        secs / 0x1_0000_0000
    } else {
        -((-(secs + 1)) / 0x1_0000_0000) - 1
    };
    assert(secs - q * 0x1_0000_0000 == secs as int % 0x1_0000_0000) by (nonlinear_arith)
        requires
            q == if secs >= 0 {
                secs as int / 0x1_0000_0000
            } else {
                -((-(secs + 1)) / 0x1_0000_0000) - 1
            },
    ;
    let m: i64 = secs - q * 0x1_0000_0000;
    if m >= 0x8000_0000 {
        (m - 0x1_0000_0000) as i32
    } else {
        m as i32
    }
}

/// Relies on chrono's `From<SystemTime> for DateTime<Utc>` and
/// `DateTime::timestamp`: the current wall-clock time in whole seconds since
/// the Unix epoch, negative for a clock set before 1970. Nothing is promised
/// of the value: it is what the system clock says. The conversion unwraps
/// chrono's own range check, which only a clock set some 262,000 years away
/// from 1970 fails.
#[verifier::external_body]
pub(crate) fn unix_seconds_now() -> (r: i64) {
    DateTime::<Utc>::from(std::time::SystemTime::now()).timestamp()
}

/// An insert whose clock is read within one second after a request arrived
/// at a non-negative time before 2038 stores a time within one second of the
/// arrival: narrowing does not reorder such times.
pub proof fn lemma_time_within_a_second(receipt: int, secs: int)
    requires
        0 <= receipt < 0x7FFF_FFFF,
        receipt <= secs <= receipt + 1,
    ensures
        wrap_i32(receipt) == receipt,
        wrap_i32(receipt) <= wrap_i32(secs) <= wrap_i32(receipt) + 1,
{
    assert(receipt % 0x1_0000_0000 == receipt) by (nonlinear_arith)
        requires 0 <= receipt < 0x7FFF_FFFF;
    assert(secs % 0x1_0000_0000 == secs) by (nonlinear_arith)
        requires 0 <= secs <= 0x7FFF_FFFF;
}

} // verus!
