//! Instants on the UTC time line, held as whole seconds since the Unix epoch
//! plus the nanoseconds elapsed within that second.

use vstd::prelude::*;

verus! {

/// Largest distance from the epoch, in seconds, that a [`Timestamp`] may lie.
pub const MAX_EPOCH_SECONDS: i64 = 9_000_000_000_000;

/// Nanoseconds within a second stay below this bound; the upper half of the
/// range stands for a leap second.
pub const NANOS_LIMIT: u32 = 2_000_000_000;

/// Bound on the nanoseconds of an instant that is not inside a leap second.
pub const NANOS_PER_SECOND: u32 = 1_000_000_000;

/// Mathematical value of a [`Timestamp`].
pub struct Instant {
    pub seconds: int,
    pub nanos: int,
}

impl Instant {
    /// Whether the instant lies within the representable range.
    pub open spec fn in_range(self) -> bool {
        &&& -MAX_EPOCH_SECONDS <= self.seconds <= MAX_EPOCH_SECONDS
        &&& 0 <= self.nanos < NANOS_LIMIT
    }

    /// Whether the instant is one that the system clock can show: not before
    /// the epoch, and not inside a leap second.
    pub open spec fn is_clock_reading(self) -> bool {
        &&& 0 <= self.seconds <= MAX_EPOCH_SECONDS
        &&& 0 <= self.nanos < NANOS_PER_SECOND
    }

    /// Whole microseconds since the epoch; what lies below a microsecond is cut off.
    pub open spec fn micros(self) -> int {
        self.seconds * 1_000_000 + self.nanos / 1000
    }
}

/// An instant in UTC with nanosecond resolution.
#[derive(Clone, Copy, Debug)]
pub struct Timestamp {
    seconds: i64,
    nanos: u32,
}

impl View for Timestamp {
    type V = Instant;

    closed spec fn view(&self) -> Instant {
        Instant { seconds: self.seconds as int, nanos: self.nanos as int }
    }
}

/// Reads the system clock through `chrono::Utc::now` and hands back what
/// `DateTime::timestamp` and `DateTime::timestamp_subsec_nanos` report of it.
///
/// The clock decides the value. What is claimed holds of every reading that
/// chrono can return: it is built from a duration since the epoch, so the
/// seconds are not negative and lie within chrono's calendar, and the
/// nanoseconds are those of a `Duration`, below one second.
#[verifier::external_body]
fn utc_now_parts() -> (parts: (i64, u32))
    ensures
        0 <= parts.0 <= MAX_EPOCH_SECONDS,
        parts.1 < NANOS_PER_SECOND,
{
    let now = chrono::Utc::now();
    (now.timestamp(), now.timestamp_subsec_nanos())
}

impl Timestamp {
    #[verifier::type_invariant]
    spec fn within_range(self) -> bool {
        self@.in_range()
    }

    /// Builds a timestamp from its parts, or `None` when they are out of range.
    pub fn new(seconds: i64, nanos: u32) -> (result: Option<Timestamp>)
        ensures
            result is Some <==> (Instant { seconds: seconds as int, nanos: nanos as int }).in_range(),
            result is Some ==> result.unwrap()@ == (Instant {
                seconds: seconds as int,
                nanos: nanos as int,
            }),
    {
        if -MAX_EPOCH_SECONDS <= seconds && seconds <= MAX_EPOCH_SECONDS && nanos < NANOS_LIMIT {
            Some(Timestamp { seconds, nanos })
        } else {
            None
        }
    }

    /// The timestamp with exactly these parts, which must lie within range.
    pub fn from_parts(seconds: i64, nanos: u32) -> (result: Timestamp)
        requires
            (Instant { seconds: seconds as int, nanos: nanos as int }).in_range(),
        ensures
            result@ == (Instant { seconds: seconds as int, nanos: nanos as int }),
    {
        Timestamp { seconds, nanos }
    }

    /// The current instant according to the system clock: the reading of the
    /// clock, with its seconds and nanoseconds as they were read.
    pub fn now() -> (result: Timestamp)
        ensures
            result@.is_clock_reading(),
            result@.in_range(),
    {
        let parts = utc_now_parts();
        Timestamp::from_parts(parts.0, parts.1)
    }

    /// Whole seconds since the epoch.
    pub fn epoch_seconds(&self) -> (seconds: i64)
        ensures
            seconds == self@.seconds,
    {
        self.seconds
    }

    /// Nanoseconds elapsed within the current second.
    pub fn subsec_nanos(&self) -> (nanos: u32)
        ensures
            nanos == self@.nanos,
    {
        self.nanos
    }

    /// Whole microseconds since the epoch.
    pub fn timestamp_micros(&self) -> (micros: i64)
        ensures
            micros == self@.micros(),
            self@.in_range(),
    {
        proof {
            use_type_invariant(self);
        }
        let whole: i64 = self.seconds * 1_000_000;
        let fraction: u32 = self.nanos / 1000;
        whole + fraction as i64
    }
}

} // verus!
