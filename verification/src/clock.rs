//! The source of the time that a ping carries.

use vstd::prelude::*;

verus! {

/// A source of the current time. Nothing is known of what it returns: a
/// caller that needs a fixed time hands in a clock that gives one.
pub trait Clock {
    /// The current time, in seconds since the Unix epoch.
    fn epoch_seconds(&self) -> i64;
}

/// The clock of the machine, read in the local time zone.
#[derive(Clone, Copy, Debug)]
pub struct LocalClock;

/// A clock that always shows the same time.
#[derive(Clone, Copy, Debug)]
pub struct FixedClock {
    /// The time it shows, in seconds since the Unix epoch.
    pub epoch_seconds: i64,
}

/// `chrono::Local::now()` followed by `DateTime::timestamp()`: the machine's
/// time at the moment of the call, in seconds since the Unix epoch. Nothing
/// is claimed of the value. chrono itself gives up where the machine's clock
/// stands before the epoch.
#[verifier::external_body]
fn local_now() -> (t: i64) {
    chrono::Local::now().timestamp()
}

impl Clock for LocalClock {
    fn epoch_seconds(&self) -> i64 {
        local_now()
    }
}

impl Clock for FixedClock {
    fn epoch_seconds(&self) -> (t: i64)
        ensures
            t == self.epoch_seconds,
    {
        self.epoch_seconds
    }
}

} // verus!
