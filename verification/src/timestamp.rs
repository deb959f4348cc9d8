//! Instants of Coordinated Universal Time.
use vstd::prelude::*;

verus! {

/// The first second of the year -262143, the earliest that a calendar date is
/// known for.
pub const MIN_UTC_SECS: i64 = -8334601228800;

/// The last second of the year 262142, the latest that a calendar date is known
/// for.
pub const MAX_UTC_SECS: i64 = 8210266876799;

/// An instant: whole seconds since the Unix epoch and the nanoseconds past them.
/// The nanoseconds reach into a second billion within a leap second.
#[derive(Debug, Clone, Copy, PartialEq, Eq, Structural)]
pub struct Timestamp {
    pub secs: i64,
    pub nanos: u32,
}

/// The instant at which a second of the Unix epoch starts, where the calendar
/// reaches that far.
pub open spec fn utc_second(secs: i64) -> Option<Timestamp> {
    if MIN_UTC_SECS <= secs <= MAX_UTC_SECS {
        Some(Timestamp { secs, nanos: 0 })
    } else {
        None
    }
}

/// `chrono::DateTime::<Utc>::from_timestamp`, with the instant that it makes read
/// back as whole seconds and nanoseconds. Short of a leap second every number of
/// nanoseconds is valid, so whether there is an instant depends on the seconds
/// alone: they have to fall in the years that `chrono` has dates for.
#[verifier::external_body]
fn utc_from_timestamp(secs: i64, nsecs: u32) -> (instant: Option<(i64, u32)>)
    requires
        nsecs < 1_000_000_000,
    ensures
        instant == (if MIN_UTC_SECS <= secs <= MAX_UTC_SECS {
            Some((secs, nsecs))
        } else {
            None
        }),
{
    match chrono::DateTime::<chrono::Utc>::from_timestamp(secs, nsecs) {
        Some(instant) => Some((instant.timestamp(), instant.timestamp_subsec_nanos())),
        None => None,
    }
}

impl Timestamp {
    /// Whether this instant is later than another one.
    pub open spec fn later_than(self, other: Timestamp) -> bool {
        self.secs > other.secs || (self.secs == other.secs && self.nanos > other.nanos)
    }

    /// The instant at which a second of the Unix epoch starts; `None` where the
    /// calendar does not reach that far.
    pub fn from_secs(secs: i64) -> (instant: Option<Timestamp>)
        ensures
            instant == utc_second(secs),
            instant is Some <==> -8334601228800 <= secs <= 8210266876799,
            instant matches Some(instant) ==> instant.secs == secs && instant.nanos == 0,
    {
        match utc_from_timestamp(secs, 0) {
            Some((secs, nanos)) => Some(Timestamp { secs, nanos }),
            None => None,
        }
    }

    pub fn is_later_than(&self, other: &Timestamp) -> (later: bool)
        ensures
            later == self.later_than(*other),
            later <==> self.secs * 0x1_0000_0000 + self.nanos > other.secs * 0x1_0000_0000
                + other.nanos,
    {
        self.secs > other.secs || (self.secs == other.secs && self.nanos > other.nanos)
    }
}

/// A second of the Unix epoch has an instant exactly if it lies in the calendar's
/// years, and the instant is that very second, with no nanoseconds past it.
pub proof fn law_seconds_are_kept(secs: i64)
    ensures
        utc_second(secs) is Some <==> -8334601228800 <= secs <= 8210266876799,
        utc_second(secs) matches Some(instant) ==> instant.secs == secs && instant.nanos == 0,
{
}

/// Outside a leap second, an instant is later than another exactly if more
/// nanoseconds have passed up to it since the epoch.
pub proof fn law_later_means_more_nanoseconds(one: Timestamp, other: Timestamp)
    requires
        one.nanos < 1_000_000_000,
        other.nanos < 1_000_000_000,
    ensures
        one.later_than(other) <==> one.secs * 1_000_000_000 + one.nanos > other.secs
            * 1_000_000_000 + other.nanos,
{
}

/// Whole seconds come first: an instant of more whole seconds is the later one, and
/// within one second the nanoseconds decide. This is so within a leap second too.
pub proof fn law_later_goes_by_seconds_first(one: Timestamp, other: Timestamp)
    ensures
        one.secs > other.secs ==> one.later_than(other) && !other.later_than(one),
        one.secs == other.secs ==> (one.later_than(other) <==> one.nanos > other.nanos),
        one.later_than(other) <==> one.secs * 0x1_0000_0000 + one.nanos > other.secs
            * 0x1_0000_0000 + other.nanos,
{
}

/// Instants are in one line: of two different ones exactly one is the later, none is
/// later than itself, and what is later than a later one is later.
pub proof fn law_instants_are_in_line(one: Timestamp, other: Timestamp, third: Timestamp)
    ensures
        one != other ==> (one.later_than(other) <==> !other.later_than(one)),
        !one.later_than(one),
        one.later_than(other) && other.later_than(third) ==> one.later_than(third),
{
}

/// Of the starts of two seconds the later is that of the greater number.
pub proof fn law_later_seconds_are_later(one: i64, other: i64)
    requires
        utc_second(one) is Some,
        utc_second(other) is Some,
    ensures
        utc_second(one).unwrap().later_than(utc_second(other).unwrap()) <==> one > other,
{
}

} // verus!
