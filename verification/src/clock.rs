//! The wall clock, in milliseconds since the Unix epoch.
use vstd::prelude::*;
use std::time::{Duration, SystemTime};

verus! {

/// `std::time::SystemTime`, carried through opaquely.
#[verifier::external_type_specification]
#[verifier::external_body]
pub struct ExSystemTime(SystemTime);

/// `SystemTime::now`: the current time of the system clock.  Nothing is
/// said of it: it is whatever the clock reads.
#[verifier::external_body]
fn system_now() -> (t: SystemTime) {
    SystemTime::now()
}

/// `SystemTime::duration_since(UNIX_EPOCH)`: the time elapsed since the
/// epoch, or `None` for a time before it.  Nothing is said of the value.
#[verifier::external_body]
fn since_epoch(t: &SystemTime) -> (r: Option<Duration>) {
    t.duration_since(std::time::UNIX_EPOCH).ok()
}

/// `Duration::as_millis`: the whole milliseconds of a duration.  Nothing is
/// said of the value, a duration being opaque here.
#[verifier::external_body]
fn whole_millis(d: &Duration) -> (m: u128) {
    d.as_millis()
}

/// The current time in milliseconds since the Unix epoch, truncated to 64
/// bits; 0 where the clock reads a time before the epoch.  The value is
/// whatever the system clock says.
pub fn now_ms() -> (r: u64) {
    let t = system_now();
    match since_epoch(&t) {
        Some(d) => {
            let m = whole_millis(&d);
            let r: u64 = #[verifier::truncate] (m as u64);
            r
        },
        None => 0,
    }
}

} // verus!
