//! Calendar dates and date-times: the shapes that the wire carries, how they
//! are read from text, the shapes that they resolve to, and the resolution.
//!
//! The notation of ISO 8601 is read by the `iso8601` crate and the calendar
//! is `chrono`'s. What the two make of a value is named here, not spelled
//! out; the rules that this library adds are stated in full.

use vstd::prelude::*;
use vstd::string::StringSliceAdditionalSpecFns;
use chrono::Datelike;
use crate::error::ModelError;

verus! {

/// A date as the wire carries it, in one of the three notations of ISO 8601.
/// Nothing is checked: the thirtieth of February is a value of this type.
#[derive(Debug, Clone, Copy, PartialEq, Eq, Structural)]
pub enum RawDate {
    /// Year, month and day of the month.
    YMD { year: i32, month: u32, day: u32 },
    /// Year, week of the year and day of the week.
    Week { year: i32, ww: u32, d: u32 },
    /// Year and day of the year.
    Ordinal { year: i32, ddd: u32 },
}

/// A time of day as the wire carries it, with its offset from UTC in two parts.
#[derive(Debug, Clone, Copy, PartialEq, Eq, Structural)]
pub struct RawTime {
    pub hour: u32,
    pub minute: u32,
    pub second: u32,
    pub millisecond: u32,
    pub tz_offset_hours: i32,
    pub tz_offset_minutes: i32,
}

/// A date and a time of day as the wire carries them.
#[derive(Debug, Clone, Copy, PartialEq, Eq, Structural)]
pub struct RawDateTime {
    pub date: RawDate,
    pub time: RawTime,
}

/// A day of the proleptic Gregorian calendar.
#[derive(Debug, Clone, Copy, PartialEq, Eq, Hash, Structural)]
pub struct Date {
    pub year: i32,
    pub month: u32,
    pub day: u32,
}

/// An instant, together with the fixed offset from UTC in which it was written.
#[derive(Debug, Clone, Copy, PartialEq, Eq, Hash, Structural)]
pub struct FixedDateTime {
    /// Seconds since 1970-01-01T00:00:00Z, leap seconds not counted.
    pub seconds: i64,
    /// Nanoseconds past `seconds`; 1,000,000,000 or more within a leap second.
    pub nanos: u32,
    /// Seconds by which local time is ahead of UTC.
    pub offset_seconds: i32,
}

/// The day that `iso8601::Date::into_naive` makes of a date, if it makes one.
pub uninterp spec fn naive_date_of(date: RawDate) -> Option<Date>;

/// The instant that `iso8601::DateTime::into_fixed_offset` makes of a
/// date-time, if it makes one.
pub uninterp spec fn fixed_offset_of(moment: RawDateTime) -> Option<FixedDateTime>;

/// The date that `iso8601::parsers::parse_date` reads at the start of a
/// text, if it reads one.
pub uninterp spec fn iso_date_of(text: Seq<char>) -> Option<RawDate>;

/// The date-time that `iso8601::parsers::parse_datetime` reads at the start
/// of a text, if it reads one, and the number of bytes that it leaves unread.
pub uninterp spec fn iso_datetime_of(text: Seq<char>) -> Option<(RawDateTime, usize)>;

/// Whether `n` is a value of `i32`.
pub open spec fn fits_i32(n: int) -> bool {
    i32::MIN <= n <= i32::MAX
}

impl RawDate {
    /// The year that the date names, whatever its notation.
    pub open spec fn year_spec(self) -> i32 {
        match self {
            RawDate::YMD { year, .. } => year,
            RawDate::Week { year, .. } => year,
            RawDate::Ordinal { year, .. } => year,
        }
    }

    /// The year that the date names, whatever its notation.
    #[verifier::when_used_as_spec(year_spec)]
    pub fn year(self) -> (y: i32)
        ensures
            y == self.year_spec(),
    {
        match self {
            RawDate::YMD { year, .. } => year,
            RawDate::Week { year, .. } => year,
            RawDate::Ordinal { year, .. } => year,
        }
    }

    /// Whether the year has a year before it and a year after it in `i32`.
    /// No calendar day lies in a year that has not.
    pub open spec fn year_is_inner(self) -> bool {
        i32::MIN < self.year() < i32::MAX
    }

    /// Whether `day` is what the date says in so far as the date is written
    /// as year, month and day of the month: then `day` has those three.
    pub open spec fn is_kept_by(self, day: Date) -> bool {
        self matches RawDate::YMD { year, month, day: day_of_month } ==> day == (Date {
            year,
            month,
            day: day_of_month,
        })
    }

    /// The day that the date resolves to, if it names one.
    pub open spec fn resolved(self) -> Option<Date> {
        if self.year_is_inner() {
            naive_date_of(self)
        } else {
            None
        }
    }

    /// Reads a date in one of the notations of ISO 8601 off the start of
    /// `text`. What follows the date is not looked at.
    pub fn parse(text: &str) -> (r: Result<RawDate, ModelError>)
        ensures
            match iso_date_of(text@) {
                Some(date) => r == Ok::<RawDate, ModelError>(date),
                None => r == Err::<RawDate, ModelError>(ModelError::UnresolvableTimestamp),
            },
    {
        match iso_parse_date(text) {
            Some(date) => Ok(date),
            None => Err(ModelError::UnresolvableTimestamp),
        }
    }

    /// Resolves the date to a day of the calendar, if it names one. A date
    /// that is written as year, month and day resolves to those three or
    /// to nothing.
    pub fn into_naive(self) -> (r: Option<Date>)
        ensures
            r == self.resolved(),
            r matches Some(day) ==> self.is_kept_by(day),
    {
        let year = self.year();
        if i32::MIN < year && year < i32::MAX {
            date_into_naive(self)
        } else {
            None
        }
    }
}

impl RawTime {
    /// The offset from UTC in seconds that the two parts add up to.
    pub open spec fn offset_seconds(self) -> int {
        self.tz_offset_hours * 3600 + self.tz_offset_minutes * 60
    }

    /// Whether the offset is one that a time can be written in: it is less
    /// than a day either way, and each of its two parts, taken in seconds, is
    /// a value of `i32`.
    pub open spec fn offset_is_valid(self) -> bool {
        &&& fits_i32(self.tz_offset_hours * 3600)
        &&& fits_i32(self.tz_offset_minutes * 60)
        &&& -86_400 < self.offset_seconds() < 86_400
    }

    /// Decides [`RawTime::offset_is_valid`].
    pub fn has_valid_offset(&self) -> (b: bool)
        ensures
            b == self.offset_is_valid(),
    {
        let hours: i64 = self.tz_offset_hours as i64 * 3600;
        let minutes: i64 = self.tz_offset_minutes as i64 * 60;
        let low: i64 = -0x8000_0000;
        let high: i64 = 0x7FFF_FFFF;
        low <= hours && hours <= high && low <= minutes && minutes <= high && -86_400 < hours
            + minutes && hours + minutes < 86_400
    }
}

/// The letter `T`, which parts date from time.
pub const LETTER_T: u8 = 0x54;

/// The letter `Z`, which stands for no offset from UTC.
pub const LETTER_Z: u8 = 0x5A;

/// The sign `+`, which opens an offset to the east.
pub const PLUS_SIGN: u8 = 0x2B;

/// The sign `-`, which opens an offset to the west.
pub const MINUS_SIGN: u8 = 0x2D;

/// Whether `byte` is one of the three marks that open an offset from UTC:
/// `Z`, `+` and `-`.
pub open spec fn is_offset_mark(byte: u8) -> bool {
    byte == LETTER_Z || byte == PLUS_SIGN || byte == MINUS_SIGN
}

/// Whether the first `used` bytes of a date-time text state an offset from
/// UTC: after a `T`, which parts date from time, stands a `Z`, a `+` or
/// a `-`.
pub open spec fn offset_is_written(bytes: Seq<u8>, used: int) -> bool {
    exists|i: int, j: int|
        0 <= i < j < used && j < bytes.len() && #[trigger] bytes[i] == LETTER_T && is_offset_mark(
            #[trigger] bytes[j],
        )
}

/// Decides [`offset_is_written`].
pub fn has_written_offset(bytes: &[u8], used: usize) -> (b: bool)
    ensures
        b == offset_is_written(bytes@, used as int),
{
    let end = if used <= bytes.len() {
        used
    } else {
        bytes.len()
    };
    let mut parted = false;
    let mut k: usize = 0;
    while k < end
        invariant
            k <= end <= bytes.len(),
            end <= used,
            end == used || end == bytes.len(),
            parted == exists|i: int| 0 <= i < k && #[trigger] bytes@[i] == LETTER_T,
            !offset_is_written(bytes@, k as int),
        decreases end - k,
    {
        let byte = bytes[k];
        if parted && (byte == LETTER_Z || byte == PLUS_SIGN || byte == MINUS_SIGN) {
            proof {
                let i = choose|i: int| 0 <= i < k && #[trigger] bytes@[i] == LETTER_T;
                assert(bytes@[i] == LETTER_T && is_offset_mark(bytes@[k as int]));
            }
            return true;
        }
        proof {
            if offset_is_written(bytes@, k + 1) {
                let (i, j) = choose|i: int, j: int|
                    0 <= i < j < k + 1 && j < bytes@.len() && #[trigger] bytes@[i] == LETTER_T
                        && is_offset_mark(#[trigger] bytes@[j]);
                if j < k {
                    assert(bytes@[i] == LETTER_T && is_offset_mark(bytes@[j]));
                } else {
                    assert(bytes@[i] == LETTER_T);
                }
                assert(false);
            }
        }
        if byte == LETTER_T {
            parted = true;
        }
        k += 1;
    }
    proof {
        if offset_is_written(bytes@, used as int) {
            let (i, j) = choose|i: int, j: int|
                0 <= i < j < used && j < bytes@.len() && #[trigger] bytes@[i] == LETTER_T
                    && is_offset_mark(#[trigger] bytes@[j]);
            assert(bytes@[i] == LETTER_T && is_offset_mark(bytes@[j]));
            assert(false);
        }
    }
    false
}

impl RawDateTime {
    /// What is made of the outcome of reading a date-time off the start of a
    /// text with the given bytes: the date-time that was read, if one was
    /// read and the part of the text that was read states an offset.
    pub open spec fn accepted(outcome: Option<(RawDateTime, usize)>, bytes: Seq<u8>) -> Option<
        RawDateTime,
    > {
        match outcome {
            Some((moment, unread)) => if unread <= bytes.len() && offset_is_written(
                bytes,
                bytes.len() - unread,
            ) {
                Some(moment)
            } else {
                None
            },
            None => None,
        }
    }

    /// Settles what a text is read as, given the outcome of reading a
    /// date-time off its start: a date-time that states no offset is
    /// refused, not taken for UTC.
    pub fn from_outcome(text: &str, outcome: Option<(RawDateTime, usize)>) -> (r: Result<
        RawDateTime,
        ModelError,
    >)
        ensures
            match RawDateTime::accepted(outcome, text.spec_bytes()) {
                Some(moment) => r == Ok::<RawDateTime, ModelError>(moment),
                None => r == Err::<RawDateTime, ModelError>(ModelError::UnresolvableTimestamp),
            },
    {
        match outcome {
            Some((moment, unread)) => {
                let bytes = text.as_bytes();
                if unread <= bytes.len() && has_written_offset(bytes, bytes.len() - unread) {
                    Ok(moment)
                } else {
                    Err(ModelError::UnresolvableTimestamp)
                }
            },
            None => Err(ModelError::UnresolvableTimestamp),
        }
    }

    /// Reads a date-time in the notation of ISO 8601 off the start of
    /// `text`. The offset from UTC must be stated. What follows the
    /// date-time is not looked at.
    pub fn parse(text: &str) -> (r: Result<RawDateTime, ModelError>)
        ensures
            match RawDateTime::accepted(iso_datetime_of(text@), text.spec_bytes()) {
                Some(moment) => r == Ok::<RawDateTime, ModelError>(moment),
                None => r == Err::<RawDateTime, ModelError>(ModelError::UnresolvableTimestamp),
            },
    {
        let outcome = iso_parse_datetime(text);
        RawDateTime::from_outcome(text, outcome)
    }

    /// The instant that the date-time resolves to, if it names one. It names
    /// none unless its offset is valid.
    pub open spec fn resolved(self) -> Option<FixedDateTime> {
        if self.date.year_is_inner() && self.time.offset_is_valid() {
            fixed_offset_of(self)
        } else {
            None
        }
    }

    /// Resolves the date-time to an instant with a fixed offset, if it names
    /// one. The offset of the instant is the offset that the time was
    /// written in.
    pub fn into_fixed_offset(self) -> (r: Option<FixedDateTime>)
        ensures
            r == self.resolved(),
            r matches Some(f) ==> f.offset_seconds == self.time.offset_seconds(),
    {
        let year = self.date.year();
        if i32::MIN < year && year < i32::MAX && self.time.has_valid_offset() {
            datetime_into_fixed_offset(self)
        } else {
            None
        }
    }
}

/// Calls `iso8601::parsers::parse_date`, which `iso8601::date` goes by,
/// and hands the date on as it is. Taken on trust: that the outcome depends
/// on the text alone.
#[verifier::external_body]
fn iso_parse_date(text: &str) -> (r: Option<RawDate>)
    ensures
        r == iso_date_of(text@),
{
    match iso8601::parsers::parse_date(text.as_bytes()).ok()?.1 {
        iso8601::Date::YMD { year, month, day } => Some(RawDate::YMD { year, month, day }),
        iso8601::Date::Week { year, ww, d } => Some(RawDate::Week { year, ww, d }),
        iso8601::Date::Ordinal { year, ddd } => Some(RawDate::Ordinal { year, ddd }),
    }
}

/// Calls `iso8601::parsers::parse_datetime`, which `iso8601::datetime` goes
/// by, and hands on the date-time as it is and the length of what was left
/// unread. Taken on trust: that the outcome depends on the text alone.
#[verifier::external_body]
fn iso_parse_datetime(text: &str) -> (r: Option<(RawDateTime, usize)>)
    ensures
        r == iso_datetime_of(text@),
{
    let (rest, iso) = iso8601::parsers::parse_datetime(text.as_bytes()).ok()?;
    let date = match iso.date {
        iso8601::Date::YMD { year, month, day } => RawDate::YMD { year, month, day },
        iso8601::Date::Week { year, ww, d } => RawDate::Week { year, ww, d },
        iso8601::Date::Ordinal { year, ddd } => RawDate::Ordinal { year, ddd },
    };
    let iso8601::Time { hour, minute, second, millisecond, tz_offset_hours, tz_offset_minutes } =
        iso.time;
    let time = RawTime { hour, minute, second, millisecond, tz_offset_hours, tz_offset_minutes };
    Some((RawDateTime { date, time }, rest.len()))
}

/// Calls `iso8601::Date::into_naive`, which tries the date in `chrono`, and
/// reads year, month and day off the `chrono::NaiveDate` that comes back.
/// Taken on trust: that the outcome depends on the date alone, and that of
/// a date written as year, month and day `chrono::NaiveDate::from_ymd_opt`
/// makes a day with that year, that month and that day, if it makes one.
/// The years at the two ends of `i32` are left out, since for a week date
/// `chrono` steps to the neighbouring year.
#[verifier::external_body]
fn date_into_naive(date: RawDate) -> (r: Option<Date>)
    requires
        date.year_is_inner(),
    ensures
        r == naive_date_of(date),
        r matches Some(day) ==> date.is_kept_by(day),
{
    let iso = match date {
        RawDate::YMD { year, month, day } => iso8601::Date::YMD { year, month, day },
        RawDate::Week { year, ww, d } => iso8601::Date::Week { year, ww, d },
        RawDate::Ordinal { year, ddd } => iso8601::Date::Ordinal { year, ddd },
    };
    iso.into_naive().map(|n| Date { year: n.year(), month: n.month(), day: n.day() })
}

/// Calls `iso8601::DateTime::into_fixed_offset`, which adds the two parts of
/// the offset up in seconds in `i32` and tries offset, date and time in
/// `chrono`. Of the `chrono::DateTime` that comes back it reads the seconds
/// since the epoch, the nanoseconds past them and the offset. Taken on trust:
/// that the outcome depends on the date-time alone, and that the offset read
/// is the sum that went in.
#[verifier::external_body]
fn datetime_into_fixed_offset(moment: RawDateTime) -> (r: Option<FixedDateTime>)
    requires
        moment.date.year_is_inner(),
        moment.time.offset_is_valid(),
    ensures
        r == fixed_offset_of(moment),
        r matches Some(f) ==> f.offset_seconds == moment.time.offset_seconds(),
{
    let date = match moment.date {
        RawDate::YMD { year, month, day } => iso8601::Date::YMD { year, month, day },
        RawDate::Week { year, ww, d } => iso8601::Date::Week { year, ww, d },
        RawDate::Ordinal { year, ddd } => iso8601::Date::Ordinal { year, ddd },
    };
    let RawTime { hour, minute, second, millisecond, tz_offset_hours, tz_offset_minutes } =
        moment.time;
    let time =
        iso8601::Time { hour, minute, second, millisecond, tz_offset_hours, tz_offset_minutes };
    (iso8601::DateTime { date, time }).into_fixed_offset().map(|f| FixedDateTime {
        seconds: f.timestamp(),
        nanos: f.timestamp_subsec_nanos(),
        offset_seconds: f.offset().local_minus_utc(),
    })
}

} // verus!
