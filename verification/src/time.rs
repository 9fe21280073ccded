//! Instants on the UTC time line, and the two things the client asks of a
//! calendar library: the current instant and the whole seconds between two.

use vstd::prelude::*;

verus! {

/// Epoch seconds of the earliest instant a `chrono::DateTime<Utc>` can hold.
pub const MIN_SECONDS: i64 = -8_334_601_228_800;

/// Epoch seconds of the latest instant a `chrono::DateTime<Utc>` can hold.
pub const MAX_SECONDS: i64 = 8_210_266_876_799;

/// Nanoseconds in one second.
pub const NANOS_PER_SECOND: u32 = 1_000_000_000;

/// The mathematical value of a [`Timestamp`]: whole seconds since
/// 1970-01-01T00:00:00Z and the nanoseconds elapsed within that second.
pub struct Instant {
    pub secs: int,
    pub nanos: int,
}

impl Instant {
    /// An instant is valid when it lies in the range of the calendar library
    /// and its sub-second part is a true fraction of a second.
    pub open spec fn valid(self) -> bool {
        &&& MIN_SECONDS <= self.secs <= MAX_SECONDS
        &&& 0 <= self.nanos < NANOS_PER_SECOND
    }

    /// Nanoseconds since the epoch.
    pub open spec fn total_nanos(self) -> int {
        self.secs * 1_000_000_000 + self.nanos
    }
}

/// Whole seconds from `from` to `to`: the exact difference of the two
/// instants with its fractional part dropped (rounded toward zero).
pub open spec fn whole_seconds_between(from: Instant, to: Instant) -> int {
    let nanos = to.total_nanos() - from.total_nanos();
    if nanos >= 0 {
        nanos / 1_000_000_000
    } else {
        -((-nanos) / 1_000_000_000)
    }
}

/// A point in time with nanosecond precision.
///
/// Every value is valid in the sense of [`Instant::valid`]; leap-second
/// representations (a sub-second part of a second or more) are not held.
#[derive(Clone, Copy, Debug, PartialEq, Eq)]
pub struct Timestamp {
    secs: i64,
    nanos: u32,
}

impl View for Timestamp {
    type V = Instant;

    closed spec fn view(&self) -> Instant {
        Instant { secs: self.secs as int, nanos: self.nanos as int }
    }
}

impl Timestamp {
    #[verifier::type_invariant]
    spec fn in_range(self) -> bool {
        self@.valid()
    }

    /// The timestamp `secs` seconds and `nanos` nanoseconds after the epoch,
    /// or nothing when that pair is not a valid instant.
    pub fn new(secs: i64, nanos: u32) -> (made: Option<Timestamp>)
        ensures
            made is Some <==> (Instant { secs: secs as int, nanos: nanos as int }).valid(),
            made matches Some(t) ==> t@ == (Instant { secs: secs as int, nanos: nanos as int }),
    {
        if MIN_SECONDS <= secs && secs <= MAX_SECONDS && nanos < NANOS_PER_SECOND {
            Some(Timestamp { secs, nanos })
        } else {
            None
        }
    }

    /// Whole seconds since the epoch.
    pub fn seconds(&self) -> (secs: i64)
        ensures
            secs == self@.secs,
            self@.valid(),
    {
        proof {
            use_type_invariant(self);
        }
        self.secs
    }

    /// Nanoseconds since the last whole second.
    pub fn subsec_nanos(&self) -> (nanos: u32)
        ensures
            nanos == self@.nanos,
            self@.valid(),
    {
        proof {
            use_type_invariant(self);
        }
        self.nanos
    }

    /// Whole seconds from `self` to `later`, negative when `later` is the
    /// earlier of the two.
    pub fn seconds_until(&self, later: &Timestamp) -> (elapsed: i64)
        ensures
            elapsed == whole_seconds_between(self@, later@),
            self@.valid(),
            later@.valid(),
    {
        proof {
            use_type_invariant(self);
            use_type_invariant(later);
        }
        chrono_whole_seconds(*self, *later)
    }
}

/// `chrono::Utc::now`, read as epoch seconds (`DateTime::timestamp`) and
/// sub-second nanoseconds (`DateTime::timestamp_subsec_nanos`).
///
/// Trusted: the clock's answer is a date-time that chrono can hold, built
/// from a `std::time::Duration` since the epoch, so its seconds are in
/// chrono's range and its nanoseconds are below one second. chrono panics
/// when the system clock stands before 1970.
#[verifier::external_body]
pub(crate) fn utc_now() -> (t: Timestamp)
    ensures
        t@.valid(),
{
    let now = chrono::Utc::now();
    Timestamp { secs: now.timestamp(), nanos: now.timestamp_subsec_nanos() }
}

/// `chrono::DateTime<Utc>` subtraction followed by `TimeDelta::num_seconds`,
/// on two date-times made with `DateTime::from_timestamp`.
///
/// Trusted: for instants without a leap-second representation chrono's
/// difference is the exact difference of the two instants, and
/// `num_seconds` drops its fractional part toward zero.
#[verifier::external_body]
fn chrono_whole_seconds(from: Timestamp, to: Timestamp) -> (elapsed: i64)
    requires
        from@.valid(),
        to@.valid(),
    ensures
        elapsed == whole_seconds_between(from@, to@),
{
    let start = chrono::DateTime::from_timestamp(from.secs, from.nanos).unwrap();
    let stop = chrono::DateTime::from_timestamp(to.secs, to.nanos).unwrap();
    (stop - start).num_seconds()
}

} // verus!
