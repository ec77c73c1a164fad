//! How old a timestamp is, by the system clock.
use vstd::prelude::*;

use std::time::{Duration, SystemTime, SystemTimeError};

use crate::Timestamp;

verus! {

#[verifier::external_type_specification]
#[verifier::external_body]
pub struct ExSystemTime(SystemTime);

#[verifier::external_type_specification]
#[verifier::external_body]
pub struct ExSystemTimeError(SystemTimeError);

pub assume_specification[ SystemTime::now ]() -> SystemTime;

pub assume_specification[ SystemTime::duration_since ](
    t: &SystemTime,
    earlier: SystemTime,
) -> Result<Duration, SystemTimeError>;

pub assume_specification[ Duration::as_millis ](d: &Duration) -> u128;

/// Relies on `SystemTime::UNIX_EPOCH`, the clock's reading at the Unix epoch.
#[verifier::external_body]
fn unix_epoch() -> SystemTime {
    SystemTime::UNIX_EPOCH
}

/// Distance between two millisecond timestamps, whichever is later.
pub open spec fn distance(a: int, b: int) -> int {
    if a >= b {
        a - b
    } else {
        b - a
    }
}

/// Milliseconds between `now` and `ts`, whichever is later.
pub fn elapsed_between(now: u128, ts: Timestamp) -> (r: u128)
    ensures
        r as int == distance(now as int, ts as int),
{
    if now >= ts {
        now - ts
    } else {
        ts - now
    }
}

/// Milliseconds between the system clock and `ts`; `None` when the clock reads
/// before the Unix epoch.
pub fn calc_elapsed(ts: Timestamp) -> (r: Option<u128>)
    ensures
        r is Some ==> exists|now: u128| r->0 as int == distance(now as int, ts as int),
{
    match SystemTime::now().duration_since(unix_epoch()) {
        Ok(since_epoch) => Some(elapsed_between(since_epoch.as_millis(), ts)),
        Err(_) => None,
    }
}

} // verus!
