//! Points in time, the clock, and the time stamps that chrono reads.

use vstd::prelude::*;
use vstd::string::*;

verus! {

/// A point in time: whole seconds since the start of 1970 and the
/// nanoseconds past them. During a leap second the seconds stay at the second
/// before it and the nanoseconds run past one second's worth, as chrono
/// counts them.
#[derive(Clone, Copy, Debug, PartialEq, Eq, Structural)]
pub struct Timestamp {
    pub secs: i64,
    pub nanos: u32,
}

impl Timestamp {
    /// The point in time as a number of nanoseconds since the start of 1970.
    pub open spec fn total_nanos(self) -> int {
        self.secs * 1_000_000_000 + self.nanos
    }

    /// The second of the day in which the point in time lies.
    pub open spec fn second_of_day(self) -> int {
        (self.secs as int) % 86_400
    }

    /// The point in time lies in a leap second.
    pub open spec fn in_leap_second(self) -> bool {
        self.nanos >= 1_000_000_000
    }

    /// This point in time lies before `other` in the order of chrono: by the
    /// seconds, and within one second by the nanoseconds.
    pub open spec fn precedes(self, other: Timestamp) -> bool {
        self.secs < other.secs || (self.secs == other.secs && self.nanos < other.nanos)
    }

    /// Tells whether this point in time lies after `other`.
    pub fn is_after(&self, other: &Timestamp) -> (r: bool)
        ensures
            r == other.precedes(*self),
    {
        self.secs > other.secs || (self.secs == other.secs && self.nanos > other.nanos)
    }

    fn day_second(&self) -> (r: i128)
        ensures
            r == self.second_of_day(),
    {
        let shifted: i128 = self.secs as i128 + 9_223_372_036_854_806_400;
        shifted % 86_400
    }
}

/// The nanoseconds of one day.
pub open spec fn nanos_per_day() -> int {
    86_400_000_000_000
}

/// The second that the difference of two times of day misses, as chrono
/// counts it: one more where the later time of day looks back on a leap
/// second, one less where the earlier time of day lies in one itself.
pub open spec fn leap_adjustment(now: Timestamp, then: Timestamp) -> int {
    if now.second_of_day() > then.second_of_day() && then.in_leap_second() {
        1
    } else if now.second_of_day() < then.second_of_day() && now.in_leap_second() {
        -1
    } else {
        0
    }
}

/// The nanoseconds that lie between `then` and `now`, as chrono's
/// subtraction of two dates and times counts them: the difference of the
/// seconds with the adjustment for a leap second, and the difference of the
/// nanoseconds.
pub open spec fn elapsed_nanos(now: Timestamp, then: Timestamp) -> int {
    (now.secs - then.secs + leap_adjustment(now, then)) * 1_000_000_000 + (now.nanos
        - then.nanos)
}

/// More than `days` days lie between `then` and `now`.
pub open spec fn older_than(now: Timestamp, then: Timestamp, days: u64) -> bool {
    elapsed_nanos(now, then) > days * nanos_per_day()
}

/// Tells whether more than `days` days lie between `then` and `now`. An age
/// of exactly `days` days is not more.
pub fn is_older_than(now: Timestamp, then: Timestamp, days: u64) -> (r: bool)
    ensures
        r == older_than(now, then, days),
{
    let now_second: i128 = now.day_second();
    let then_second: i128 = then.day_second();
    let adjustment: i128 = if now_second > then_second && then.nanos >= 1_000_000_000 {
        1
    } else if now_second < then_second && now.nanos >= 1_000_000_000 {
        -1
    } else {
        0
    };
    let seconds: i128 = now.secs as i128 - then.secs as i128 + adjustment;
    let age: i128 = seconds * 1_000_000_000 + (now.nanos as i128 - then.nanos as i128);
    let limit: i128 = days as i128 * 86_400_000_000_000;
    age > limit
}

/// Outside leap seconds the time that lies between two points is the
/// difference of their nanoseconds since the start of 1970.
pub proof fn law_elapsed_outside_leap_seconds(now: Timestamp, then: Timestamp)
    requires
        !now.in_leap_second(),
        !then.in_leap_second(),
    ensures
        elapsed_nanos(now, then) == now.total_nanos() - then.total_nanos(),
{
}

/// The format of the time stamp in an artifact's name: year, month and day,
/// an underscore, hour, minute and second, with hyphens between.
pub open spec fn stamp_format_text() -> Seq<char> {
    "%Y-%m-%d_%H-%M-%S"@
}

/// The format of the time stamp in an artifact's name.
pub fn stamp_format() -> (r: &'static str)
    ensures
        r@ == stamp_format_text(),
{
    "%Y-%m-%d_%H-%M-%S"
}

/// What chrono's `NaiveDateTime::parse_from_str` makes of `text` under
/// `format`: `None` where it reports an error, else the date and time it
/// read, taken as UTC, in seconds since the start of 1970 and nanoseconds.
pub uninterp spec fn naive_instant(text: Seq<char>, format: Seq<char>) -> Option<(i64, u32)>;

/// What chrono's `DateTime::parse_from_rfc3339` makes of `text`: `None`
/// where it reports an error, else the instant it read, in seconds since the
/// start of 1970 and nanoseconds.
pub uninterp spec fn rfc3339_instant(text: Seq<char>) -> Option<(i64, u32)>;

/// chrono's `NaiveDateTime::parse_from_str`. The result is a function of the
/// two texts alone; the contract gives it its name and claims nothing else.
#[verifier::external_body]
pub(crate) fn parse_naive(text: &str, format: &str) -> (r: Option<(i64, u32)>)
    ensures
        r == naive_instant(text@, format@),
{
    match chrono::NaiveDateTime::parse_from_str(text, format) {
        Ok(time) => Some((time.and_utc().timestamp(), time.and_utc().timestamp_subsec_nanos())),
        Err(_) => None,
    }
}

/// chrono's `DateTime::parse_from_rfc3339`. The result is a function of the
/// text alone; the contract gives it its name and claims nothing else.
#[verifier::external_body]
pub(crate) fn parse_rfc3339(text: &str) -> (r: Option<(i64, u32)>)
    ensures
        r == rfc3339_instant(text@),
{
    match chrono::DateTime::parse_from_rfc3339(text) {
        Ok(time) => Some((time.timestamp(), time.timestamp_subsec_nanos())),
        Err(_) => None,
    }
}

/// What chrono's `NaiveDateTime::format` writes under `format` for the date
/// and time that lie `secs` seconds and `nanos` nanoseconds after the start
/// of 1970: a text that the date, the time and the format decide, and
/// nothing else. The contracts claim no more of it than that it is this
/// text.
pub uninterp spec fn naive_text(secs: i64, nanos: u32, format: Seq<char>) -> Seq<char>;

/// The three forms are those of one reading of the clock. The stamp is the
/// local date and time `wall`, written in the format of the artifact names.
/// The local date and time lies apart from the instant by the offset of the
/// local time zone: a number of whole seconds, so that both have the same
/// nanoseconds, and less than a day either way.
pub open spec fn one_reading(stamp: Seq<char>, wall: Timestamp, instant: Timestamp) -> bool {
    &&& stamp == naive_text(wall.secs, wall.nanos, stamp_format_text())
    &&& wall.nanos == instant.nanos
    &&& -86_400 < wall.secs - instant.secs < 86_400
}

/// One reading of the clock.
#[derive(Clone, Debug, PartialEq, Eq)]
pub struct Clock {
    /// The local date and time as artifact names spell it.
    pub stamp: String,
    /// The local date and time, on the scale on which artifact names are read.
    pub wall: Timestamp,
    /// The instant, on the scale of the remote store's time stamps.
    pub instant: Timestamp,
}

impl Clock {
    /// Reads the clock once and hands the reading out in its three forms.
    pub fn read() -> (r: Clock)
        ensures
            one_reading(r.stamp@, r.wall, r.instant),
    {
        let (stamp, wall, instant) = local_now(stamp_format());
        Clock {
            stamp,
            wall: Timestamp { secs: wall.0, nanos: wall.1 },
            instant: Timestamp { secs: instant.0, nanos: instant.1 },
        }
    }
}

/// chrono's `Local::now`, read once and handed out three ways: the local date
/// and time of `naive_local` written by `NaiveDateTime::format` under
/// `format`, the same taken as UTC, and the instant. Of the reading itself
/// nothing is claimed. Of its forms the contract claims what chrono's source
/// shows: the text is the one that `format` writes for the local date and
/// time; `naive_local` adds to the instant the offset of the time zone, which
/// leaves the nanoseconds as they are and is a `FixedOffset`, so less than a
/// day either way. The format is held to the one of the artifact names, which
/// chrono can write.
#[verifier::external_body]
pub(crate) fn local_now(format: &str) -> (r: (String, (i64, u32), (i64, u32)))
    requires
        format@ == stamp_format_text(),
    ensures
        r.0@ == naive_text(r.1.0, r.1.1, format@),
        r.1.1 == r.2.1,
        -86_400 < r.1.0 - r.2.0 < 86_400,
{
    let now = chrono::Local::now();
    let wall = now.naive_local();
    (
        wall.format(format).to_string(),
        (wall.and_utc().timestamp(), wall.and_utc().timestamp_subsec_nanos()),
        (now.timestamp(), now.timestamp_subsec_nanos()),
    )
}

/// The time that `text` spells in the format of the artifact names, if it
/// spells one.
pub open spec fn file_stamp(text: Seq<char>) -> Option<Timestamp> {
    match naive_instant(text, stamp_format_text()) {
        Some(time) => Some(Timestamp { secs: time.0, nanos: time.1 }),
        None => None,
    }
}

/// The instant that `text` spells as RFC 3339 has it, if it spells one.
pub open spec fn remote_stamp(text: Seq<char>) -> Option<Timestamp> {
    match rfc3339_instant(text) {
        Some(time) => Some(Timestamp { secs: time.0, nanos: time.1 }),
        None => None,
    }
}

/// Reads `text` as a time stamp of an artifact name.
pub fn read_file_stamp(text: &str) -> (r: Option<Timestamp>)
    ensures
        r == file_stamp(text@),
{
    match parse_naive(text, stamp_format()) {
        Some(time) => Some(Timestamp { secs: time.0, nanos: time.1 }),
        None => None,
    }
}

/// Reads `text` as a time stamp of the remote store.
pub fn read_remote_stamp(text: &str) -> (r: Option<Timestamp>)
    ensures
        r == remote_stamp(text@),
{
    match parse_rfc3339(text) {
        Some(time) => Some(Timestamp { secs: time.0, nanos: time.1 }),
        None => None,
    }
}

} // verus!
