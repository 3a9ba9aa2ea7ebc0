//! Points in time, counted in nanoseconds from the Unix epoch.
use vstd::prelude::*;

verus! {

/// Nanoseconds in one second.
pub const NANOS_PER_SEC: i128 = 1_000_000_000;

/// A point in time at nanosecond resolution.
///
/// Two timestamps are equal exactly when they denote the same instant.
#[derive(Clone, Copy, Debug, PartialEq, Eq, Structural)]
pub struct Timestamp {
    nanos: i128,
}

impl Timestamp {
    /// The instant as a signed count of nanoseconds from the Unix epoch.
    pub closed spec fn instant(&self) -> int {
        self.nanos as int
    }

    /// The instant `secs` whole seconds and `subsec_nanos` nanoseconds after
    /// the epoch. A nanosecond part of a full second or more (as a leap
    /// second is commonly written) carries over into the seconds.
    pub fn from_parts(secs: i64, subsec_nanos: u32) -> (t: Timestamp)
        ensures
            t.instant() == secs * 1_000_000_000 + subsec_nanos,
    {
        let whole: i128 = secs as i128;
        let part: i128 = subsec_nanos as i128;
        Timestamp { nanos: whole * NANOS_PER_SEC + part }
    }

    /// The instant that lies the given span after the epoch.
    pub fn since_epoch(secs: u64, subsec_nanos: u32) -> (t: Timestamp)
        ensures
            t.instant() == secs * 1_000_000_000 + subsec_nanos,
    {
        let whole: i128 = secs as i128;
        let part: i128 = subsec_nanos as i128;
        Timestamp { nanos: whole * NANOS_PER_SEC + part }
    }

    /// The instant that lies the given span before the epoch.
    pub fn until_epoch(secs: u64, subsec_nanos: u32) -> (t: Timestamp)
        ensures
            t.instant() == -(secs * 1_000_000_000 + subsec_nanos),
    {
        let whole: i128 = secs as i128;
        let part: i128 = subsec_nanos as i128;
        Timestamp { nanos: -(whole * NANOS_PER_SEC + part) }
    }

    /// Timestamps of the same instant are equal.
    pub proof fn equal_by_instant(self, other: Timestamp)
        requires
            self.instant() == other.instant(),
        ensures
            self == other,
    {
    }

    /// Whether this instant lies at least `secs` whole seconds and one more
    /// behind `earlier`: whether the whole seconds from `earlier` to here
    /// exceed `secs`.
    pub fn later_by_more_than(&self, earlier: &Timestamp, secs: u64) -> (exceeds: bool)
        ensures
            exceeds == (self.instant() - earlier.instant() >= (secs + 1) * 1_000_000_000),
    {
        let span: i128 = (secs as i128 + 1) * NANOS_PER_SEC;
        match earlier.nanos.checked_add(span) {
            Some(bound) => self.nanos >= bound,
            None => false,
        }
    }

    /// Whether both timestamps denote the same instant.
    pub fn same_instant(&self, other: &Timestamp) -> (same: bool)
        ensures
            same == (self.instant() == other.instant()),
            same == (*self == *other),
    {
        self.nanos == other.nanos
    }

    /// Whether this instant is not later than `other`.
    pub fn at_or_before(&self, other: &Timestamp) -> (earlier: bool)
        ensures
            earlier == (self.instant() <= other.instant()),
    {
        self.nanos <= other.nanos
    }
}

} // verus!
