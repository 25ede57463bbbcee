//! Plain-value models of the calendar and clock values the library works with:
//! a time of day, a wall-clock (local, zone-free) date and time, and an instant
//! carrying the UTC offset it was observed with. Calendar arithmetic, time-zone
//! resolution and formatting are done by `chrono`, behind the wrappers below.
use chrono::{Datelike, TimeZone, Timelike};
use vstd::prelude::*;

verus! {

/// First day (counted from 1970-01-01) that `chrono` can represent.
pub const MIN_EPOCH_DAY: i32 = -96465292;

/// Last day (counted from 1970-01-01) that `chrono` can represent.
pub const MAX_EPOCH_DAY: i32 = 95026236;

pub const SECS_PER_DAY: i64 = 86400;

pub const NANOS_PER_SEC: u32 = 1_000_000_000;

/// A day of the week, Monday first.
#[derive(Clone, Copy, Debug, PartialEq, Eq, Structural)]
pub enum Weekday {
    Mon,
    Tue,
    Wed,
    Thu,
    Fri,
    Sat,
    Sun,
}

impl Weekday {
    pub open spec fn index(self) -> int {
        match self {
            Weekday::Mon => 0,
            Weekday::Tue => 1,
            Weekday::Wed => 2,
            Weekday::Thu => 3,
            Weekday::Fri => 4,
            Weekday::Sat => 5,
            Weekday::Sun => 6,
        }
    }

    /// Days since Monday (Monday is 0, Sunday is 6).
    pub fn num_days_from_monday(&self) -> (r: u32)
        ensures
            r == self.index(),
    {
        match self {
            Weekday::Mon => 0,
            Weekday::Tue => 1,
            Weekday::Wed => 2,
            Weekday::Thu => 3,
            Weekday::Fri => 4,
            Weekday::Sat => 5,
            Weekday::Sun => 6,
        }
    }
}

/// The weekday (Monday = 0) of a day counted from 1970-01-01, a Thursday.
pub open spec fn weekday_of_day(day: int) -> int {
    (day + 3) % 7
}

/// A time of day: seconds since midnight and the nanoseconds within that second.
#[derive(Clone, Copy, Debug, PartialEq, Eq, Structural)]
pub struct TimeOfDay {
    pub secs: u32,
    pub nanos: u32,
}

impl TimeOfDay {
    pub open spec fn wf(self) -> bool {
        self.secs < SECS_PER_DAY && self.nanos < NANOS_PER_SEC
    }

    /// The time `hour:minute:second`, or `None` when a field is out of range.
    pub fn from_hms(hour: u32, minute: u32, second: u32) -> (r: Option<TimeOfDay>)
        ensures
            r == (if hour < 24 && minute < 60 && second < 60 {
                Some(TimeOfDay { secs: (hour * 3600 + minute * 60 + second) as u32, nanos: 0 })
            } else {
                None
            }),
    {
        chrono_time_from_hms(hour, minute, second)
    }

    /// `wf()`, tested at run time.
    pub fn is_valid(&self) -> (r: bool)
        ensures
            r == self.wf(),
    {
        self.secs < 86400 && self.nanos < NANOS_PER_SEC
    }
}

/// A wall-clock date and time with no time zone: the day counted from
/// 1970-01-01 and the time of day.
#[derive(Clone, Copy, Debug, PartialEq, Eq, Structural)]
pub struct WallTime {
    pub day: i32,
    pub time: TimeOfDay,
}

impl WallTime {
    pub open spec fn wf(self) -> bool {
        MIN_EPOCH_DAY <= self.day <= MAX_EPOCH_DAY && self.time.wf()
    }

    /// Seconds since 1970-01-01 00:00 on the wall clock.
    pub open spec fn total_secs(self) -> int {
        self.day as int * SECS_PER_DAY + self.time.secs as int
    }
}

/// An instant: seconds and nanoseconds since the Unix epoch (UTC), together
/// with the UTC offset (local minus UTC, in seconds) it is shown in.
#[derive(Clone, Copy, Debug, PartialEq, Eq, Structural)]
pub struct Instant {
    pub secs: i64,
    pub nanos: u32,
    pub offset: i32,
}

impl Instant {
    /// A value that `chrono` can represent.
    pub open spec fn wf(self) -> bool {
        &&& self.nanos < NANOS_PER_SEC
        &&& -SECS_PER_DAY < self.offset < SECS_PER_DAY
        &&& MIN_EPOCH_DAY as int * SECS_PER_DAY <= self.secs
        &&& self.secs < (MAX_EPOCH_DAY as int + 1) * SECS_PER_DAY
    }

    /// Seconds since 1970-01-01 00:00 on the local wall clock.
    pub open spec fn local_secs(self) -> int {
        self.secs as int + self.offset as int
    }

    /// The local date, as a day counted from 1970-01-01.
    pub open spec fn local_day(self) -> int {
        self.local_secs() / SECS_PER_DAY as int
    }

    /// Seconds since local midnight.
    pub open spec fn local_secs_of_day(self) -> int {
        self.local_secs() % SECS_PER_DAY as int
    }

    /// A representable instant whose local date is representable too.
    pub open spec fn valid(self) -> bool {
        self.wf() && MIN_EPOCH_DAY <= self.local_day() <= MAX_EPOCH_DAY
    }

    /// This instant reads `w` on its local wall clock.
    pub open spec fn shows(self, w: WallTime) -> bool {
        self.local_secs() == w.total_secs() && self.nanos == w.time.nanos
    }

    /// Strictly earlier, comparing the UTC instants (offsets play no part).
    pub open spec fn before(self, other: Instant) -> bool {
        self.secs < other.secs || (self.secs == other.secs && self.nanos < other.nanos)
    }

    pub fn is_before(&self, other: &Instant) -> (r: bool)
        ensures
            r == self.before(*other),
    {
        self.secs < other.secs || (self.secs == other.secs && self.nanos < other.nanos)
    }

    /// `valid()`, tested at run time.
    pub fn is_valid(&self) -> (r: bool)
        ensures
            r == self.valid(),
    {
        if !(self.nanos < NANOS_PER_SEC && -SECS_PER_DAY < self.offset as i64
            && (self.offset as i64) < SECS_PER_DAY) {
            return false;
        }
        let lo: i64 = MIN_EPOCH_DAY as i64 * SECS_PER_DAY;
        let hi: i64 = (MAX_EPOCH_DAY as i64 + 1) * SECS_PER_DAY;
        if !(lo <= self.secs && self.secs < hi) {
            return false;
        }
        let local: i64 = self.secs + self.offset as i64;
        lo <= local && local < hi
    }
}

/// What the local time zone makes of a wall-clock time.
#[derive(Clone, Copy, Debug, PartialEq, Eq, Structural)]
pub enum ZoneLookup {
    /// The wall-clock time occurs once.
    Single(Instant),
    /// The wall-clock time occurs twice (clocks were set back).
    Ambiguous(Instant, Instant),
    /// The wall-clock time is skipped (clocks were set forward).
    Nonexistent,
}

/// What every outcome of a zone lookup for `w` satisfies.
pub open spec fn lookup_fits(w: WallTime, r: ZoneLookup) -> bool {
    match r {
        ZoneLookup::Single(t) => t.wf() && t.shows(w),
        ZoneLookup::Ambiguous(a, b) => a.wf() && a.shows(w) && b.wf() && b.shows(w),
        ZoneLookup::Nonexistent => true,
    }
}

/// `chrono::NaiveTime::from_hms_opt`: the time from its fields, or `None`
/// when the hour, minute or second is out of range.
#[verifier::external_body]
fn chrono_time_from_hms(hour: u32, minute: u32, second: u32) -> (r: Option<TimeOfDay>)
    ensures
        r == (if hour < 24 && minute < 60 && second < 60 {
            Some(TimeOfDay { secs: (hour * 3600 + minute * 60 + second) as u32, nanos: 0 })
        } else {
            None
        }),
{
    match chrono::NaiveTime::from_hms_opt(hour, minute, second) {
        Some(t) => Some(TimeOfDay { secs: t.num_seconds_from_midnight(), nanos: t.nanosecond() }),
        None => None,
    }
}

/// The wall-clock time `minutes` later, or `None` past the last representable day.
pub open spec fn wall_add_minutes(w: WallTime, minutes: int) -> Option<WallTime> {
    let total = w.total_secs() + 60 * minutes;
    if total < (MAX_EPOCH_DAY as int + 1) * SECS_PER_DAY {
        Some(WallTime {
            day: (total / SECS_PER_DAY as int) as i32,
            time: TimeOfDay { secs: (total % SECS_PER_DAY as int) as u32, nanos: w.time.nanos },
        })
    } else {
        None
    }
}

/// `chrono::DateTime::date_naive`: the local date of `t` (as a day counted
/// from 1970-01-01), which is the UTC instant shifted by its own offset.
#[verifier::external_body]
pub(crate) fn chrono_local_day(t: Instant) -> (d: i32)
    requires
        t.valid(),
    ensures
        d == t.local_day(),
{
    let utc = chrono::DateTime::from_timestamp(t.secs, t.nanos).unwrap().naive_utc();
    let off = chrono::FixedOffset::east_opt(t.offset).unwrap();
    chrono::DateTime::<chrono::FixedOffset>::from_naive_utc_and_offset(utc, off)
        .date_naive()
        .to_epoch_days()
}

/// `chrono::NaiveDate::weekday`, as `num_days_from_monday`: the weekday of a day
/// counted from 1970-01-01 (a Thursday).
#[verifier::external_body]
pub(crate) fn chrono_weekday(day: i32) -> (w: u32)
    requires
        MIN_EPOCH_DAY <= day <= MAX_EPOCH_DAY,
    ensures
        w == weekday_of_day(day as int),
{
    chrono::NaiveDate::from_epoch_days(day).unwrap().weekday().num_days_from_monday()
}

/// `chrono::NaiveDate::checked_add_days`: the day `n` days later, or `None`
/// past the last representable day.
#[verifier::external_body]
pub(crate) fn chrono_add_days(day: i32, n: u64) -> (r: Option<i32>)
    requires
        MIN_EPOCH_DAY <= day <= MAX_EPOCH_DAY,
    ensures
        r == (if day + n <= MAX_EPOCH_DAY {
            Some((day + n) as i32)
        } else {
            None
        }),
{
    let date = chrono::NaiveDate::from_epoch_days(day).unwrap();
    match date.checked_add_days(chrono::Days::new(n)) {
        Some(d) => Some(d.to_epoch_days()),
        None => None,
    }
}

/// `chrono::NaiveDateTime::checked_add_signed` with a whole number of minutes:
/// the wall-clock time that many minutes later, or `None` past the last day.
#[verifier::external_body]
pub(crate) fn chrono_wall_add_minutes(w: WallTime, minutes: i64) -> (r: Option<WallTime>)
    requires
        w.wf(),
        0 <= minutes <= 1440,
    ensures
        r == wall_add_minutes(w, minutes as int),
{
    let date = chrono::NaiveDate::from_epoch_days(w.day).unwrap();
    let time = chrono::NaiveTime::from_num_seconds_from_midnight_opt(w.time.secs, w.time.nanos);
    let moved = date.and_time(time.unwrap()).checked_add_signed(chrono::TimeDelta::minutes(minutes));
    match moved {
        Some(m) => Some(WallTime {
            day: m.date().to_epoch_days(),
            time: TimeOfDay { secs: m.time().num_seconds_from_midnight(), nanos: m.time().nanosecond() },
        }),
        None => None,
    }
}

/// `chrono::Local::from_local_datetime`: what the machine's time zone makes of
/// the wall-clock time `w`. Each instant it gives is representable and reads
/// `w` on its local clock; which of the three outcomes comes back, and the
/// offsets, depend on the machine's time zone and are not stated.
#[verifier::external_body]
pub(crate) fn local_zone_lookup(w: WallTime) -> (r: ZoneLookup)
    requires
        w.wf(),
    ensures
        lookup_fits(w, r),
{
    let date = chrono::NaiveDate::from_epoch_days(w.day).unwrap();
    let time = chrono::NaiveTime::from_num_seconds_from_midnight_opt(w.time.secs, w.time.nanos);
    let conv = |t: chrono::DateTime<chrono::Local>| Instant {
        secs: t.timestamp(), nanos: t.timestamp_subsec_nanos(), offset: t.offset().local_minus_utc() };
    match chrono::Local.from_local_datetime(&date.and_time(time.unwrap())) {
        chrono::LocalResult::Single(t) => ZoneLookup::Single(conv(t)),
        chrono::LocalResult::Ambiguous(a, b) => ZoneLookup::Ambiguous(conv(a), conv(b)),
        chrono::LocalResult::None => ZoneLookup::Nonexistent,
    }
}

/// `DateTime<Local> + TimeDelta::minutes(..)`: the instant `minutes` later. Its
/// UTC offset is the machine's time zone at that instant and is not stated.
#[verifier::external_body]
pub(crate) fn local_add_minutes(t: Instant, minutes: i64) -> (r: Instant)
    requires
        t.wf(),
        0 <= minutes <= 65536,
        t.secs + 60 * minutes < MAX_EPOCH_DAY as int * SECS_PER_DAY,
    ensures
        r.wf(),
        r.secs == t.secs + 60 * minutes,
        r.nanos == t.nanos,
{
    let utc = chrono::DateTime::from_timestamp(t.secs, t.nanos).unwrap().naive_utc();
    let off = chrono::FixedOffset::east_opt(t.offset).unwrap();
    let later = chrono::DateTime::<chrono::Local>::from_naive_utc_and_offset(utc, off)
        + chrono::TimeDelta::minutes(minutes);
    Instant { secs: later.timestamp(), nanos: later.timestamp_subsec_nanos(), offset: later.offset().local_minus_utc() }
}

/// The three-letter English name of a weekday (Monday = 0), as chrono's `%a` prints it.
pub open spec fn weekday_abbrev(wd: int) -> Seq<char> {
    if wd == 0 {
        seq!['M', 'o', 'n']
    } else if wd == 1 {
        seq!['T', 'u', 'e']
    } else if wd == 2 {
        seq!['W', 'e', 'd']
    } else if wd == 3 {
        seq!['T', 'h', 'u']
    } else if wd == 4 {
        seq!['F', 'r', 'i']
    } else if wd == 5 {
        seq!['S', 'a', 't']
    } else {
        seq!['S', 'u', 'n']
    }
}

/// The decimal digit `d` (0 to 9) as a character.
pub open spec fn digit_char(d: int) -> char {
    (48 + d) as char
}

/// `n` (0 to 99) written with two digits, zero-padded.
pub open spec fn two_digits(n: int) -> Seq<char> {
    seq![digit_char(n / 10), digit_char(n % 10)]
}

/// The local weekday, hour and minute of `t`, as `%a %H:%M` (for example `Thu 08:05`).
pub open spec fn day_hm_text(t: Instant) -> Seq<char> {
    let sod = t.local_secs_of_day();
    weekday_abbrev(weekday_of_day(t.local_day())) + seq![' '] + two_digits(sod / 3600)
        + seq![':'] + two_digits((sod % 3600) / 60)
}

/// `chrono::DateTime::format("%a %H:%M")`: the local weekday, hour and minute of `t`.
#[verifier::external_body]
pub(crate) fn chrono_format_day_hm(t: Instant) -> (s: String)
    requires
        t.valid(),
    ensures
        s@ == day_hm_text(t),
{
    let utc = chrono::DateTime::from_timestamp(t.secs, t.nanos).unwrap().naive_utc();
    let off = chrono::FixedOffset::east_opt(t.offset).unwrap();
    chrono::DateTime::<chrono::FixedOffset>::from_naive_utc_and_offset(utc, off)
        .format("%a %H:%M")
        .to_string()
}

/// A time of day as `%H:%M` (hours and minutes, zero-padded).
pub open spec fn hm_text(secs_of_day: int) -> Seq<char> {
    two_digits(secs_of_day / 3600) + seq![':'] + two_digits((secs_of_day % 3600) / 60)
}

/// `chrono::NaiveTime::format("%H:%M")`: the hour and minute of `t`.
#[verifier::external_body]
pub(crate) fn chrono_format_hm(t: TimeOfDay) -> (s: String)
    requires
        t.wf(),
    ensures
        s@ == hm_text(t.secs as int),
{
    let time = chrono::NaiveTime::from_num_seconds_from_midnight_opt(t.secs, t.nanos);
    time.unwrap().format("%H:%M").to_string()
}

/// What `chrono` prints for the instant with these fields, in its own offset,
/// under `%a %d %b %H:%M` (weekday, day of month, month, hour and minute).
pub uninterp spec fn card_when_text(secs: i64, nanos: u32, offset: i32) -> Seq<char>;

/// `chrono::DateTime::format("%a %d %b %H:%M")`: the local weekday, day of
/// month, month, hour and minute of `t`.
#[verifier::external_body]
pub(crate) fn chrono_format_card_when(t: Instant) -> (s: String)
    requires
        t.valid(),
    ensures
        s@ == card_when_text(t.secs, t.nanos, t.offset),
{
    let utc = chrono::DateTime::from_timestamp(t.secs, t.nanos).unwrap().naive_utc();
    let off = chrono::FixedOffset::east_opt(t.offset).unwrap();
    chrono::DateTime::<chrono::FixedOffset>::from_naive_utc_and_offset(utc, off)
        .format("%a %d %b %H:%M")
        .to_string()
}

} // verus!
