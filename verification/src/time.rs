//! Points in time and the clock arithmetic of the bot.
use chrono::{DateTime, FixedOffset, TimeDelta};
use vstd::prelude::*;

verus! {

/// A point in time: whole seconds since the Unix epoch and nanoseconds on top. A nanosecond part
/// of a billion or more stands for a leap second.
#[derive(Debug, Clone, Copy, PartialEq, Eq, Structural)]
pub struct Moment {
    pub secs: i64,
    pub nanos: u32,
}

/// The first second of the calendar.
pub const FIRST_SECOND: i64 = -8334601228800;

/// The last second of the calendar.
pub const LAST_SECOND: i64 = 8210266876799;

/// The first second that a date with a year of four digits can name.
pub const FIRST_WRITTEN: i64 = -62167219200;

/// The last second that a date with a year of four digits can name.
pub const LAST_WRITTEN: i64 = 253402300799;

/// Seconds in a minute.
pub const MINUTE: i64 = 60;

impl Moment {
    /// A point in time of the calendar, outside leap seconds.
    pub open spec fn regular(self) -> bool {
        FIRST_SECOND <= self.secs <= LAST_SECOND && self.nanos < 1_000_000_000
    }

    /// Nanoseconds since the Unix epoch.
    pub open spec fn nanoseconds(self) -> int {
        self.secs * 1_000_000_000 + self.nanos
    }

    /// Milliseconds since the Unix epoch, a started one not counted.
    pub open spec fn milliseconds(self) -> int {
        self.secs * 1000 + self.nanos as int / 1_000_000
    }

    /// The point in time lies before the other.
    pub open spec fn earlier(self, other: Moment) -> bool {
        self.secs < other.secs || (self.secs == other.secs && self.nanos < other.nanos)
    }

    /// The point in time so many seconds later.
    pub open spec fn shifted(self, seconds: int) -> Option<Moment> {
        if FIRST_SECOND <= self.secs + seconds <= LAST_SECOND {
            Some(Moment { secs: (self.secs + seconds) as i64, nanos: self.nanos })
        } else {
            None
        }
    }
}

/// How an RFC 3339 date and time is written, given the seconds and nanoseconds since the Unix
/// epoch and the offset from UTC in seconds.
pub uninterp spec fn rfc3339(secs: i64, nanos: u32, offset: i32) -> Seq<char>;

/// The seconds and nanoseconds since the Unix epoch that an RFC 3339 date and time names.
pub uninterp spec fn rfc3339_moment(text: Seq<char>) -> Option<(i64, u32)>;

/// `DateTime::checked_add_signed` with a whole number of seconds: the sum, where the calendar has
/// it.
#[verifier::external_body]
pub(crate) fn add_seconds(start: Moment, seconds: i64) -> (res: Option<Moment>)
    requires
        start.regular(),
    ensures
        res == start.shifted(seconds as int),
{
    let delta = TimeDelta::try_seconds(seconds)?;
    let end = DateTime::from_timestamp(start.secs, start.nanos)?.checked_add_signed(delta)?;
    Some(Moment { secs: end.timestamp(), nanos: end.timestamp_subsec_nanos() })
}

/// `DateTime::to_rfc3339` at a fixed offset: a function of the point in time and the offset, and
/// `DateTime::parse_from_rfc3339` reads the point in time back from it, where the year has four
/// digits and the offset is a whole number of minutes.
#[verifier::external_body]
pub(crate) fn write_rfc3339(at: Moment, offset: i32) -> (res: String)
    requires
        at.regular(),
        -86_400 < offset < 86_400,
    ensures
        res@ == rfc3339(at.secs, at.nanos, offset),
        FIRST_WRITTEN <= at.secs + offset <= LAST_WRITTEN && offset as int % 60 == 0
            ==> rfc3339_moment(res@) == Some((at.secs, at.nanos)),
{
    let zone = FixedOffset::east_opt(offset).unwrap();
    let moment = DateTime::from_timestamp(at.secs, at.nanos).unwrap();
    moment.with_timezone(&zone).to_rfc3339()
}

/// `DateTime::parse_from_rfc3339`: a function of the text alone. Nothing is said of which texts
/// it reads, but that what it gives back lies in the calendar.
#[verifier::external_body]
pub(crate) fn read_rfc3339(text: &str) -> (res: Option<Moment>)
    ensures
        match res {
            Some(at) => rfc3339_moment(text@) == Some((at.secs, at.nanos)) && FIRST_SECOND
                <= at.secs <= LAST_SECOND,
            None => rfc3339_moment(text@) is None,
        },
{
    let moment = DateTime::parse_from_rfc3339(text).ok()?;
    Some(Moment { secs: moment.timestamp(), nanos: moment.timestamp_subsec_nanos() })
}

/// The bot's offset from UTC, in seconds: eight hours east.
pub fn pht_offset() -> (offset: i32)
    ensures
        offset == 28_800,
{
    8 * 3600
}

/// How the bot writes a point in time.
pub open spec fn stamp(at: Moment) -> Seq<char> {
    rfc3339(at.secs, at.nanos, 28_800)
}

/// Writes a point in time. Where the year has four digits, the text reads back as the point in
/// time.
pub fn stamp_text(at: Moment) -> (res: String)
    requires
        at.regular(),
    ensures
        res@ == stamp(at),
        FIRST_WRITTEN <= at.secs + 28_800 <= LAST_WRITTEN ==> rfc3339_moment(res@) == Some(
            (at.secs, at.nanos),
        ),
{
    write_rfc3339(at, pht_offset())
}

impl Moment {
    /// Milliseconds since the Unix epoch.
    pub fn millis(&self) -> (ms: i64)
        requires
            self.regular(),
        ensures
            ms == self.milliseconds(),
    {
        self.secs * 1000 + (self.nanos / 1_000_000) as i64
    }

    /// Whether the point in time lies before the other.
    pub fn is_before(&self, other: &Moment) -> (res: bool)
        ensures
            res == self.earlier(*other),
    {
        self.secs < other.secs || (self.secs == other.secs && self.nanos < other.nanos)
    }

    /// The nanoseconds from an earlier point in time to this one.
    pub fn nanos_since(&self, start: &Moment) -> (n: i128)
        requires
            self.regular(),
            start.regular(),
        ensures
            n == self.nanoseconds() - start.nanoseconds(),
    {
        (self.secs as i128 - start.secs as i128) * 1_000_000_000 + (self.nanos as i128
            - start.nanos as i128)
    }

    /// The point in time so many minutes later, where the calendar has it.
    pub fn plus_minutes(&self, minutes: i64) -> (res: Option<Moment>)
        requires
            self.regular(),
        ensures
            res == self.shifted(minutes * MINUTE),
    {
        match minutes.checked_mul(MINUTE) {
            Some(seconds) => add_seconds(*self, seconds),
            None => None,
        }
    }

    /// The point in time so many seconds later, where the calendar has it.
    pub fn plus_seconds(&self, seconds: i64) -> (res: Option<Moment>)
        requires
            self.regular(),
        ensures
            res == self.shifted(seconds as int),
    {
        add_seconds(*self, seconds)
    }
}

/// The order of points in time agrees with the nanoseconds that have passed, outside leap seconds.
pub proof fn earlier_is_fewer_nanoseconds(a: Moment, b: Moment)
    requires
        a.regular(),
        b.regular(),
    ensures
        a.earlier(b) <==> a.nanoseconds() < b.nanoseconds(),
{
}

/// Seconds added and taken away again lead back to the same point in time.
pub proof fn shift_undone(at: Moment, seconds: int)
    requires
        at.regular(),
        at.shifted(seconds) is Some,
    ensures
        at.shifted(seconds)->0.regular(),
        at.shifted(seconds)->0.shifted(-seconds) == Some(at),
{
}

/// So many seconds later is so many thousand million nanoseconds later, and is to be had exactly
/// where the calendar has it.
pub proof fn shift_adds_seconds(at: Moment, seconds: int)
    requires
        at.regular(),
    ensures
        at.shifted(seconds) is Some <==> FIRST_SECOND <= at.secs + seconds <= LAST_SECOND,
        at.shifted(seconds) matches Some(end) ==> end.nanoseconds() - at.nanoseconds() == seconds
            * 1_000_000_000,
        at.shifted(seconds) matches Some(end) ==> end.milliseconds() - at.milliseconds() == seconds
            * 1000,
{
}

/// Milliseconds are counted in whole thousandths of a second: between them and the nanoseconds less
/// than one is lost, and they never go backwards.
pub proof fn milliseconds_follow_nanoseconds(a: Moment, b: Moment)
    requires
        a.regular(),
        b.regular(),
    ensures
        a.milliseconds() * 1_000_000 <= a.nanoseconds() < (a.milliseconds() + 1) * 1_000_000,
        a.nanoseconds() <= b.nanoseconds() ==> a.milliseconds() <= b.milliseconds(),
        a.nanoseconds() / 1_000_000_000 == a.secs,
{
}

} // verus!
