use vstd::prelude::*;

verus! {

/// An instant of wall-clock time: whole seconds since the Unix epoch and the
/// nanoseconds past that second.
#[derive(Debug, Clone, Copy, PartialEq, Eq, Structural)]
pub struct Timestamp {
    pub secs: i64,
    pub nanos: u32,
}

impl Timestamp {
    pub fn new(secs: i64, nanos: u32) -> (t: Self)
        ensures
            t.secs == secs,
            t.nanos == nanos,
    {
        Timestamp { secs, nanos }
    }
}

/// Reads the system clock through `chrono::Utc::now` and splits the reading
/// with `DateTime::timestamp` and `DateTime::timestamp_subsec_nanos`.
///
/// Trusted: `Utc::now` builds its value from the time elapsed since the Unix
/// epoch, whose sub-second part it takes from `Duration::subsec_nanos`, so the
/// nanoseconds stay below one second. Nothing is claimed of the seconds.
/// `Utc::now` panics when the system clock stands before the epoch.
#[verifier::external_body]
pub(crate) fn utc_now() -> (t: Timestamp)
    ensures
        t.nanos < 1_000_000_000,
{
    let now = chrono::Utc::now();
    Timestamp { secs: now.timestamp(), nanos: now.timestamp_subsec_nanos() }
}

} // verus!
