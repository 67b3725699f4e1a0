//! Instants on the UTC time line, held as plain numbers, and the clock.

use vstd::prelude::*;
use crate::number::{format_i64, signed_decimal};

verus! {

/// The number of nanoseconds in one second.
pub const NANOS_PER_SECOND: u32 = 1_000_000_000;

/// The largest distance from the epoch, in seconds, that an instant may
/// have. The distance between two instants then fits in 64 bits.
pub const MAX_SECONDS: i64 = 4_611_686_018_427_387_903;

/// An instant: whole seconds since 1970-01-01 00:00:00 UTC, leap seconds
/// not counted, and the nanoseconds into that second.
#[derive(Clone, Copy, Debug, PartialEq, Eq, Structural)]
pub struct Timestamp {
    pub secs: i64,
    pub nanos: u32,
}

impl Timestamp {
    /// Whether the instant is well formed: the nanoseconds stay below one
    /// second and the seconds within `MAX_SECONDS` of the epoch.
    pub open spec fn wf(self) -> bool {
        &&& self.nanos < NANOS_PER_SECOND
        &&& -MAX_SECONDS <= self.secs <= MAX_SECONDS
    }

    /// The instant as nanoseconds since the epoch.
    pub open spec fn nanos_since_epoch(self) -> int {
        self.secs * 1_000_000_000 + self.nanos
    }

    /// The instant with the given parts, if they are well formed.
    pub fn new(secs: i64, nanos: u32) -> (r: Option<Timestamp>)
        ensures
            r == if (Timestamp { secs, nanos }).wf() {
                Some(Timestamp { secs, nanos })
            } else {
                None
            },
    {
        if nanos < NANOS_PER_SECOND && -MAX_SECONDS <= secs && secs <= MAX_SECONDS {
            Some(Timestamp { secs, nanos })
        } else {
            None
        }
    }

    /// Whether `self` is strictly earlier than `other`.
    pub fn is_before(&self, other: &Timestamp) -> (r: bool)
        requires
            self.wf(),
            other.wf(),
        ensures
            r == (self.nanos_since_epoch() < other.nanos_since_epoch()),
    {
        self.secs < other.secs || (self.secs == other.secs && self.nanos < other.nanos)
    }

    /// The later of two instants.
    pub fn later_of(a: Timestamp, b: Timestamp) -> (r: Timestamp)
        requires
            a.wf(),
            b.wf(),
        ensures
            r == later(a, b),
    {
        if a.is_before(&b) {
            b
        } else {
            a
        }
    }

    /// The whole seconds from `earlier` to `self`, rounded towards zero.
    pub fn seconds_since(&self, earlier: &Timestamp) -> (r: i64)
        requires
            self.wf(),
            earlier.wf(),
        ensures
            r == seconds_between(*earlier, *self),
    {
        let ds: i128 = self.secs as i128 - earlier.secs as i128;
        let dn: i128 = self.nanos as i128 - earlier.nanos as i128;
        let total: i128 = ds * 1_000_000_000 + dn;
        if total >= 0 {
            (total / 1_000_000_000) as i64
        } else {
            (-((-total) / 1_000_000_000)) as i64
        }
    }
}

/// The later of two instants; the first if they are the same instant.
pub open spec fn later(a: Timestamp, b: Timestamp) -> Timestamp {
    if a.nanos_since_epoch() < b.nanos_since_epoch() {
        b
    } else {
        a
    }
}

/// The whole seconds in a span of `nanos` nanoseconds, rounded towards zero.
pub open spec fn whole_seconds(nanos: int) -> int {
    if nanos >= 0 {
        nanos / 1_000_000_000
    } else {
        -((-nanos) / 1_000_000_000)
    }
}

/// The whole seconds from `start` to `end`, rounded towards zero.
pub open spec fn seconds_between(start: Timestamp, end: Timestamp) -> int {
    whole_seconds(end.nanos_since_epoch() - start.nanos_since_epoch())
}

/// Reads the clock. This is `chrono::Utc::now`, taken apart by
/// `chrono::DateTime::timestamp` and `chrono::DateTime::timestamp_subsec_nanos`.
///
/// Not proved, but read off the source of `chrono`: `Utc::now` builds its
/// value with `DateTime::from_timestamp` from the whole seconds and the
/// sub-second nanoseconds of a `std::time::Duration` since the epoch. The
/// nanoseconds of a `Duration` are below one second, and `from_timestamp`
/// accepts seconds only within the range of `chrono::DateTime`, which lies
/// far inside `MAX_SECONDS`; hence the instant is well formed. Nothing is
/// claimed of which instant comes out: two readings may differ in either
/// direction.
#[verifier::external_body]
pub(crate) fn current_time() -> (now: Timestamp)
    ensures
        now.wf(),
{
    let now = chrono::Utc::now();
    Timestamp { secs: now.timestamp(), nanos: now.timestamp_subsec_nanos() }
}

/// What `chrono` writes for the instant with the given seconds and
/// nanoseconds since the epoch under the format `%Y%m%d_%H%M%S`: the year,
/// month and day of the UTC calendar date, an underscore, and the hour,
/// minute and second of the time of day.
pub uninterp spec fn calendar_stamp(secs: int, nanos: int) -> Seq<char>;

/// The calendar stamp of `t`. This is `chrono::DateTime::from_timestamp`
/// followed by `chrono::DateTime::format` with `%Y%m%d_%H%M%S`, written out
/// by `to_string`.
///
/// Not proved: where `from_timestamp` gives a date, the text is what
/// `chrono` formats for it, which depends on the instant alone and is named
/// `calendar_stamp`, not spelled out. Where `from_timestamp` gives none (an
/// instant outside the calendar of `chrono`), there is no text. Nothing is
/// claimed of which instants have a date.
#[verifier::external_body]
fn format_calendar_stamp(t: Timestamp) -> (r: Option<String>)
    ensures
        r matches Some(s) ==> s@ == calendar_stamp(t.secs as int, t.nanos as int),
{
    match chrono::DateTime::from_timestamp(t.secs, t.nanos) {
        Some(date) => Some(date.format("%Y%m%d_%H%M%S").to_string()),
        None => None,
    }
}

/// The text that marks a file with the instant `t`, given what the calendar
/// had to say about `t`: the calendar stamp if there is one, else the
/// seconds since the epoch in decimal.
pub open spec fn stamp_text(t: Timestamp, calendar: Option<Seq<char>>) -> Seq<char> {
    match calendar {
        Some(s) => s,
        None => signed_decimal(t.secs as int),
    }
}

/// The text that marks a file with the instant `t`; see `stamp_text`.
pub fn stamp_from(t: Timestamp, calendar: Option<String>) -> (r: String)
    ensures
        r@ == stamp_text(
            t,
            match calendar {
                Some(s) => Some(s@),
                None => None,
            },
        ),
{
    match calendar {
        Some(s) => s,
        None => format_i64(t.secs),
    }
}

/// The text that marks a file with the instant `t`: its UTC calendar date
/// and time of day where the calendar reaches, else its seconds since the
/// epoch.
pub fn stamp(t: Timestamp) -> (r: String)
    ensures
        r@ == calendar_stamp(t.secs as int, t.nanos as int) || r@ == signed_decimal(t.secs as int),
{
    stamp_from(t, format_calendar_stamp(t))
}

} // verus!
