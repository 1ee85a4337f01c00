use vstd::prelude::*;

use chrono::{Datelike, Timelike};

verus! {

/// The smallest year the calendar library can hold.
pub const MIN_CAL_YEAR: i32 = -262143;

/// The largest year the calendar library can hold.
pub const MAX_CAL_YEAR: i32 = 262142;

/// A calendar date without a time zone, held as plain fields.
#[derive(Debug, Clone, Copy, PartialEq, Eq, Structural)]
pub struct DateVal {
    pub year: i32,
    pub month: u8,
    pub day: u8,
}

/// A calendar date and a wall-clock time, without a time zone. A leap
/// second is carried as a nanosecond count of at least one billion, and
/// only on the last second of a minute, as the calendar library holds it.
#[derive(Debug, Clone, Copy, PartialEq, Eq, Structural)]
pub struct DateTimeVal {
    pub date: DateVal,
    pub hour: u8,
    pub minute: u8,
    pub second: u8,
    pub nano: u32,
}

/// A calendar date and time in local terms, together with the fixed UTC
/// offset (in seconds, east positive) the local reading is relative to.
#[derive(Debug, Clone, Copy, PartialEq, Eq, Structural)]
pub struct OffsetDateTimeVal {
    pub local: DateTimeVal,
    pub offset_secs: i32,
}

/// Gregorian leap years.
pub open spec fn is_leap_year(y: int) -> bool {
    y % 4 == 0 && (y % 100 != 0 || y % 400 == 0)
}

/// Days in a month of the proleptic Gregorian calendar.
pub open spec fn days_in_month(y: int, m: int) -> int {
    if m == 2 {
        if is_leap_year(y) {
            29
        } else {
            28
        }
    } else if m == 4 || m == 6 || m == 9 || m == 11 {
        30
    } else {
        31
    }
}

impl DateVal {
    /// A real date the calendar library can hold.
    pub open spec fn wf(self) -> bool {
        &&& MIN_CAL_YEAR <= self.year <= MAX_CAL_YEAR
        &&& 1 <= self.month <= 12
        &&& 1 <= self.day <= days_in_month(self.year as int, self.month as int)
    }

    /// The date `y-m-d`, which must exist in the calendar.
    pub fn from_ymd(year: i32, month: u8, day: u8) -> (r: DateVal)
        requires
            (DateVal { year, month, day }).wf(),
        ensures
            r == (DateVal { year, month, day }),
    {
        DateVal { year, month, day }
    }

    /// The date and time `y-m-d h:m:s` with a millisecond part; a leap
    /// millisecond count of 1000 or more stands only on second 59.
    pub fn and_hms_milli(self, hour: u8, minute: u8, second: u8, milli: u16) -> (r: DateTimeVal)
        requires
            self.wf(),
            hour < 24,
            minute < 60,
            second < 60,
            milli < 2000,
            milli >= 1000 ==> second == 59,
        ensures
            r == (DateTimeVal {
                date: self,
                hour,
                minute,
                second,
                nano: (milli * 1_000_000) as u32,
            }),
    {
        DateTimeVal { date: self, hour, minute, second, nano: milli as u32 * 1_000_000 }
    }

    /// The date and time `y-m-d h:m:s`, which must exist.
    pub fn and_hms(self, hour: u8, minute: u8, second: u8) -> (r: DateTimeVal)
        requires
            self.wf(),
            hour < 24,
            minute < 60,
            second < 60,
        ensures
            r == (DateTimeVal { date: self, hour, minute, second, nano: 0 }),
    {
        DateTimeVal { date: self, hour, minute, second, nano: 0 }
    }
}

impl DateTimeVal {
    /// A real date with a real wall-clock time: the leap-second nanosecond
    /// range stands only on the last second of a minute, as the calendar
    /// library requires.
    pub open spec fn wf(self) -> bool {
        &&& self.date.wf()
        &&& self.hour < 24
        &&& self.minute < 60
        &&& self.second < 60
        &&& self.nano < 2_000_000_000
        &&& self.nano >= 1_000_000_000 ==> self.second == 59
    }

    /// The second of the day the wall clock shows, leap fraction aside.
    pub open spec fn second_of_day(self) -> int {
        self.hour as int * 3600 + self.minute as int * 60 + self.second as int
    }

    /// The same local reading relative to a fixed UTC offset, which must be
    /// less than a day in either direction and must not push the instant
    /// off the calendar.
    pub fn with_offset(self, offset_secs: i32) -> (r: OffsetDateTimeVal)
        requires
            self.wf(),
            -86_400 < offset_secs < 86_400,
            (OffsetDateTimeVal { local: self, offset_secs }).instant_in_calendar(),
        ensures
            r == (OffsetDateTimeVal { local: self, offset_secs }),
    {
        OffsetDateTimeVal { local: self, offset_secs }
    }
}

impl OffsetDateTimeVal {
    /// The UTC instant, local minus offset, stays on the calendar: where
    /// the subtraction borrows or carries a day, the local date is not the
    /// first or last day the calendar library can hold.
    pub open spec fn instant_in_calendar(self) -> bool {
        let t = self.local.second_of_day();
        &&& self.offset_secs > t ==> !(self.local.date.year == MIN_CAL_YEAR
            && self.local.date.month == 1 && self.local.date.day == 1)
        &&& t - self.offset_secs >= 86_400 ==> !(self.local.date.year == MAX_CAL_YEAR
            && self.local.date.month == 12 && self.local.date.day == 31)
    }

    /// A real local reading with a representable offset, denoting an
    /// instant the calendar library can hold.
    pub open spec fn wf(self) -> bool {
        &&& self.local.wf()
        &&& -86_400 < self.offset_secs < 86_400
        &&& self.instant_in_calendar()
    }
}

/// What the calendar library's pattern-driven parser makes of a text and a
/// pattern when a date is asked for: year, month and day, or the error
/// message the parse diagnostics spell.
pub uninterp spec fn nd_parse_of(s: Seq<char>, pattern: Seq<char>) -> Result<
    (i32, u8, u8),
    Seq<char>,
>;

/// As `nd_parse_of`, when a date and time without a zone is asked for:
/// year, month, day, hour, minute, second and nanosecond.
pub uninterp spec fn ndt_parse_of(s: Seq<char>, pattern: Seq<char>) -> Result<
    (i32, u8, u8, u8, u8, u8, u32),
    Seq<char>,
>;

/// As `ndt_parse_of`, when a date and time with a fixed UTC offset is asked
/// for: the local fields followed by the offset in seconds.
pub uninterp spec fn dt_parse_of(s: Seq<char>, pattern: Seq<char>) -> Result<
    (i32, u8, u8, u8, u8, u8, u32, i32),
    Seq<char>,
>;

/// What the calendar library's RFC 2822 parser makes of a text.
pub uninterp spec fn dt_rfc2822_parse_of(s: Seq<char>) -> Result<
    (i32, u8, u8, u8, u8, u8, u32, i32),
    Seq<char>,
>;

/// What the calendar library's RFC 3339 parser makes of a text.
pub uninterp spec fn dt_rfc3339_parse_of(s: Seq<char>) -> Result<
    (i32, u8, u8, u8, u8, u8, u32, i32),
    Seq<char>,
>;

/// What the calendar library renders a date as.
pub uninterp spec fn nd_render_of(year: i32, month: u8, day: u8) -> Seq<char>;

/// What the calendar library renders a date and time without a zone as.
pub uninterp spec fn ndt_render_of(
    year: i32,
    month: u8,
    day: u8,
    hour: u8,
    minute: u8,
    second: u8,
    nano: u32,
) -> Seq<char>;

/// What the calendar library renders a date and time with a fixed UTC
/// offset as.
pub uninterp spec fn dt_render_of(
    year: i32,
    month: u8,
    day: u8,
    hour: u8,
    minute: u8,
    second: u8,
    nano: u32,
    offset_secs: i32,
) -> Seq<char>;

/// The fields of a date as the name `nd_parse_of` speaks of them.
pub open spec fn nd_fields(d: DateVal) -> (i32, u8, u8) {
    (d.year, d.month, d.day)
}

/// The fields of a date-time as the name `ndt_parse_of` speaks of them.
pub open spec fn ndt_fields(d: DateTimeVal) -> (i32, u8, u8, u8, u8, u8, u32) {
    (d.date.year, d.date.month, d.date.day, d.hour, d.minute, d.second, d.nano)
}

/// The fields of an offset date-time as the `dt_*` names speak of them.
pub open spec fn dt_fields(d: OffsetDateTimeVal) -> (i32, u8, u8, u8, u8, u8, u32, i32) {
    (
        d.local.date.year,
        d.local.date.month,
        d.local.date.day,
        d.local.hour,
        d.local.minute,
        d.local.second,
        d.local.nano,
        d.offset_secs,
    )
}

/// Relies on chrono's `NaiveDate::parse_from_str` and the `Datelike`
/// accessors: a date parsed under a strftime-style pattern, always a real
/// calendar date.
#[verifier::external_body]
pub fn naive_date_parse(s: &str, pattern: &str) -> (r: Result<DateVal, String>)
    ensures
        match r {
            Ok(d) => nd_parse_of(s@, pattern@) == Ok::<_, Seq<char>>(nd_fields(d)) && d.wf(),
            Err(e) => nd_parse_of(s@, pattern@) == Err::<(i32, u8, u8), _>(e@),
        },
{
    match chrono::NaiveDate::parse_from_str(s, pattern) {
        Ok(d) => Ok(DateVal { year: d.year(), month: d.month() as u8, day: d.day() as u8 }),
        Err(oe) => Err(format!("Chrono pattern: {pattern}. Original error: {oe}")),
    }
}

/// Relies on chrono's `NaiveDateTime::parse_from_str` and the `Datelike` /
/// `Timelike` accessors: a date and time parsed under a strftime-style
/// pattern, always real calendar fields; a parsed leap second comes back
/// as second 59 with a nanosecond count of at least one billion, never on
/// any other second.
#[verifier::external_body]
pub fn naive_date_time_parse(s: &str, pattern: &str) -> (r: Result<DateTimeVal, String>)
    ensures
        match r {
            Ok(d) => ndt_parse_of(s@, pattern@) == Ok::<_, Seq<char>>(ndt_fields(d)) && d.wf(),
            Err(e) => ndt_parse_of(s@, pattern@) == Err::<(i32, u8, u8, u8, u8, u8, u32), _>(e@),
        },
{
    match chrono::NaiveDateTime::parse_from_str(s, pattern) {
        Ok(d) => Ok(DateTimeVal {
            date: DateVal { year: d.year(), month: d.month() as u8, day: d.day() as u8 },
            hour: d.hour() as u8,
            minute: d.minute() as u8,
            second: d.second() as u8,
            nano: d.nanosecond(),
        }),
        Err(oe) => Err(format!("Chrono pattern: {pattern}. Original error: {oe}")),
    }
}

/// Relies on chrono's `DateTime::parse_from_str` and the field accessors,
/// which report the parsed instant in its own offset's local terms. A
/// parse succeeds only when both the local reading and the UTC instant lie
/// on the calendar, so the result is well-formed in full, leap-second
/// placement included.
#[verifier::external_body]
pub fn date_time_parse(s: &str, pattern: &str) -> (r: Result<OffsetDateTimeVal, String>)
    ensures
        match r {
            Ok(d) => dt_parse_of(s@, pattern@) == Ok::<_, Seq<char>>(dt_fields(d)) && d.wf(),
            Err(e) => dt_parse_of(s@, pattern@) == Err::<
                (i32, u8, u8, u8, u8, u8, u32, i32),
                _,
            >(e@),
        },
{
    match chrono::DateTime::parse_from_str(s, pattern) {
        Ok(d) => Ok(OffsetDateTimeVal {
            local: DateTimeVal {
                date: DateVal { year: d.year(), month: d.month() as u8, day: d.day() as u8 },
                hour: d.hour() as u8,
                minute: d.minute() as u8,
                second: d.second() as u8,
                nano: d.nanosecond(),
            },
            offset_secs: d.offset().local_minus_utc(),
        }),
        Err(oe) => Err(format!("Chrono pattern: {pattern}. Original error: {oe}")),
    }
}

/// Relies on chrono's `DateTime::parse_from_rfc2822`.
#[verifier::external_body]
pub fn date_time_parse_rfc2822(s: &str) -> (r: Result<OffsetDateTimeVal, String>)
    ensures
        match r {
            Ok(d) => dt_rfc2822_parse_of(s@) == Ok::<_, Seq<char>>(dt_fields(d)) && d.wf(),
            Err(e) => dt_rfc2822_parse_of(s@) == Err::<(i32, u8, u8, u8, u8, u8, u32, i32), _>(e@),
        },
{
    match chrono::DateTime::parse_from_rfc2822(s) {
        Ok(d) => Ok(OffsetDateTimeVal {
            local: DateTimeVal {
                date: DateVal { year: d.year(), month: d.month() as u8, day: d.day() as u8 },
                hour: d.hour() as u8,
                minute: d.minute() as u8,
                second: d.second() as u8,
                nano: d.nanosecond(),
            },
            offset_secs: d.offset().local_minus_utc(),
        }),
        Err(oe) => Err(format!("Original error: {oe}")),
    }
}

/// Relies on chrono's `DateTime::parse_from_rfc3339`.
#[verifier::external_body]
pub fn date_time_parse_rfc3339(s: &str) -> (r: Result<OffsetDateTimeVal, String>)
    ensures
        match r {
            Ok(d) => dt_rfc3339_parse_of(s@) == Ok::<_, Seq<char>>(dt_fields(d)) && d.wf(),
            Err(e) => dt_rfc3339_parse_of(s@) == Err::<(i32, u8, u8, u8, u8, u8, u32, i32), _>(e@),
        },
{
    match chrono::DateTime::parse_from_rfc3339(s) {
        Ok(d) => Ok(OffsetDateTimeVal {
            local: DateTimeVal {
                date: DateVal { year: d.year(), month: d.month() as u8, day: d.day() as u8 },
                hour: d.hour() as u8,
                minute: d.minute() as u8,
                second: d.second() as u8,
                nano: d.nanosecond(),
            },
            offset_secs: d.offset().local_minus_utc(),
        }),
        Err(oe) => Err(format!("Original error: {oe}")),
    }
}

/// Relies on chrono's `NaiveDate::from_ymd_opt` and its `Display`, the ISO
/// 8601 `%Y-%m-%d` rendering.
#[verifier::external_body]
pub fn naive_date_to_string(d: &DateVal) -> (r: String)
    requires
        d.wf(),
    ensures
        r@ == nd_render_of(d.year, d.month, d.day),
{
    chrono::NaiveDate::from_ymd_opt(d.year, d.month as u32, d.day as u32).unwrap().to_string()
}

/// Relies on chrono's `NaiveDate::from_ymd_opt`, `and_hms_nano_opt` and the
/// `NaiveDateTime` `Display`, the `%Y-%m-%d %H:%M:%S%.f` rendering. The
/// well-formedness bound is exactly what the two constructors check — a
/// real date, clock fields in range, leap nanoseconds only on second 59 —
/// so neither returns `None` here.
#[verifier::external_body]
pub fn naive_date_time_to_string(d: &DateTimeVal) -> (r: String)
    requires
        d.wf(),
    ensures
        r@ == ndt_render_of(
            d.date.year,
            d.date.month,
            d.date.day,
            d.hour,
            d.minute,
            d.second,
            d.nano,
        ),
{
    chrono::NaiveDate::from_ymd_opt(d.date.year, d.date.month as u32, d.date.day as u32)
        .unwrap()
        .and_hms_nano_opt(d.hour as u32, d.minute as u32, d.second as u32, d.nano)
        .unwrap()
        .to_string()
}

/// Relies on chrono's `FixedOffset::east_opt`, `and_local_timezone` and the
/// `DateTime` `Display`, the local reading followed by the offset. The
/// well-formedness bound keeps the offset strictly within a day and the
/// UTC instant on the calendar, which is exactly when `east_opt` and the
/// fixed-offset `and_local_timezone` succeed.
#[verifier::external_body]
pub fn date_time_to_string(d: &OffsetDateTimeVal) -> (r: String)
    requires
        d.wf(),
    ensures
        r@ == dt_render_of(
            d.local.date.year,
            d.local.date.month,
            d.local.date.day,
            d.local.hour,
            d.local.minute,
            d.local.second,
            d.local.nano,
            d.offset_secs,
        ),
{
    let tz = chrono::FixedOffset::east_opt(d.offset_secs).unwrap();
    chrono::NaiveDate::from_ymd_opt(d.local.date.year, d.local.date.month as u32, d.local.date.day as u32)
        .unwrap()
        .and_hms_nano_opt(d.local.hour as u32, d.local.minute as u32, d.local.second as u32, d.local.nano)
        .unwrap()
        .and_local_timezone(tz)
        .unwrap()
        .to_string()
}

} // verus!
