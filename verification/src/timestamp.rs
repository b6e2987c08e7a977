//! The moment of an upload: local wall-clock time to the microsecond, and
//! its sortable text form.

use vstd::prelude::*;

use chrono::{Datelike, Timelike};

use crate::text::{
    differs_first_at, differs_first_inside_field, is_plain, pow10, zero_padded,
    zero_padded_has_width, zero_padded_is_plain, zero_padded_keeps_order, zero_padded_reads_back,
};

verus! {

/// A calendar date and time of day, as mathematical integers.
pub struct Moment {
    pub year: int,
    pub month: int,
    pub day: int,
    pub hour: int,
    pub minute: int,
    pub second: int,
    pub micros: int,
}

pub open spec fn is_leap_year(year: int) -> bool {
    year % 4 == 0 && (year % 100 != 0 || year % 400 == 0)
}

/// The number of days of a month in the proleptic Gregorian calendar.
pub open spec fn days_in_month(year: int, month: int) -> int {
    if month == 2 {
        if is_leap_year(year) {
            29
        } else {
            28
        }
    } else if month == 4 || month == 6 || month == 9 || month == 11 {
        30
    } else {
        31
    }
}

/// A moment that exists on the calendar, in a year of four digits.
pub open spec fn is_valid_moment(m: Moment) -> bool {
    &&& 0 <= m.year <= 9999
    &&& 1 <= m.month <= 12
    &&& 1 <= m.day <= days_in_month(m.year, m.month)
    &&& 0 <= m.hour <= 23
    &&& 0 <= m.minute <= 59
    &&& 0 <= m.second <= 59
    &&& 0 <= m.micros <= 999_999
}

/// The text of a moment, `YYYY-MM-DD--HH:MM:SS.ffffff`: every field in
/// decimal with leading zeros, so that texts sort as their moments do.
pub open spec fn timestamp_text(m: Moment) -> Seq<char> {
    zero_padded(m.year as nat, 4) + "-"@ + zero_padded(m.month as nat, 2) + "-"@ + zero_padded(
        m.day as nat,
        2,
    ) + "--"@ + zero_padded(m.hour as nat, 2) + ":"@ + zero_padded(m.minute as nat, 2) + ":"@
        + zero_padded(m.second as nat, 2) + "."@ + zero_padded(m.micros as nat, 6)
}

/// The text of a moment up to its month.
pub open spec fn text_to_month(m: Moment) -> Seq<char> {
    zero_padded(m.year as nat, 4) + "-"@
}

/// The text of a moment up to its day.
pub open spec fn text_to_day(m: Moment) -> Seq<char> {
    text_to_month(m) + zero_padded(m.month as nat, 2) + "-"@
}

/// The text of a moment up to its hour.
pub open spec fn text_to_hour(m: Moment) -> Seq<char> {
    text_to_day(m) + zero_padded(m.day as nat, 2) + "--"@
}

/// The text of a moment up to its minute.
pub open spec fn text_to_minute(m: Moment) -> Seq<char> {
    text_to_hour(m) + zero_padded(m.hour as nat, 2) + ":"@
}

/// The text of a moment up to its second.
pub open spec fn text_to_second(m: Moment) -> Seq<char> {
    text_to_minute(m) + zero_padded(m.minute as nat, 2) + ":"@
}

/// The text of a moment up to its microseconds.
pub open spec fn text_to_micros(m: Moment) -> Seq<char> {
    text_to_second(m) + zero_padded(m.second as nat, 2) + "."@
}

/// In the text of a valid moment every field has its fixed place: the text
/// has 27 characters, whatever the moment.
pub proof fn timestamp_text_has_fixed_shape(m: Moment)
    requires
        is_valid_moment(m),
    ensures
        timestamp_text(m).len() == 27,
        timestamp_text(m).subrange(0, 4) == zero_padded(m.year as nat, 4),
        timestamp_text(m).subrange(5, 7) == zero_padded(m.month as nat, 2),
        timestamp_text(m).subrange(8, 10) == zero_padded(m.day as nat, 2),
        timestamp_text(m).subrange(12, 14) == zero_padded(m.hour as nat, 2),
        timestamp_text(m).subrange(15, 17) == zero_padded(m.minute as nat, 2),
        timestamp_text(m).subrange(18, 20) == zero_padded(m.second as nat, 2),
        timestamp_text(m).subrange(21, 27) == zero_padded(m.micros as nat, 6),
        timestamp_text(m).subrange(0, 5) == text_to_month(m),
        timestamp_text(m).subrange(0, 8) == text_to_day(m),
        timestamp_text(m).subrange(0, 12) == text_to_hour(m),
        timestamp_text(m).subrange(0, 15) == text_to_minute(m),
        timestamp_text(m).subrange(0, 18) == text_to_second(m),
        timestamp_text(m).subrange(0, 21) == text_to_micros(m),
{
    reveal_with_fuel(pow10, 7);
    reveal_strlit("-");
    reveal_strlit("--");
    reveal_strlit(":");
    reveal_strlit(".");
    zero_padded_has_width(m.year as nat, 4);
    zero_padded_has_width(m.month as nat, 2);
    zero_padded_has_width(m.day as nat, 2);
    zero_padded_has_width(m.hour as nat, 2);
    zero_padded_has_width(m.minute as nat, 2);
    zero_padded_has_width(m.second as nat, 2);
    zero_padded_has_width(m.micros as nat, 6);
    let text = timestamp_text(m);
    assert(text.len() == 27);
    assert(text.subrange(0, 4) =~= zero_padded(m.year as nat, 4));
    assert(text.subrange(5, 7) =~= zero_padded(m.month as nat, 2));
    assert(text.subrange(8, 10) =~= zero_padded(m.day as nat, 2));
    assert(text.subrange(12, 14) =~= zero_padded(m.hour as nat, 2));
    assert(text.subrange(15, 17) =~= zero_padded(m.minute as nat, 2));
    assert(text.subrange(18, 20) =~= zero_padded(m.second as nat, 2));
    assert(text.subrange(21, 27) =~= zero_padded(m.micros as nat, 6));
    assert(text.subrange(0, 5) =~= text_to_month(m));
    assert(text.subrange(0, 8) =~= text_to_day(m));
    assert(text.subrange(0, 12) =~= text_to_hour(m));
    assert(text.subrange(0, 15) =~= text_to_minute(m));
    assert(text.subrange(0, 18) =~= text_to_second(m));
    assert(text.subrange(0, 21) =~= text_to_micros(m));
}

/// Two valid moments with the same text are the same moment: uploads of
/// different microseconds never share a time in their names.
pub proof fn timestamp_text_is_injective(a: Moment, b: Moment)
    requires
        is_valid_moment(a),
        is_valid_moment(b),
        timestamp_text(a) == timestamp_text(b),
    ensures
        a == b,
{
    timestamp_text_has_fixed_shape(a);
    timestamp_text_has_fixed_shape(b);
    zero_padded_reads_back(a.year as nat, 4);
    zero_padded_reads_back(b.year as nat, 4);
    zero_padded_reads_back(a.month as nat, 2);
    zero_padded_reads_back(b.month as nat, 2);
    zero_padded_reads_back(a.day as nat, 2);
    zero_padded_reads_back(b.day as nat, 2);
    zero_padded_reads_back(a.hour as nat, 2);
    zero_padded_reads_back(b.hour as nat, 2);
    zero_padded_reads_back(a.minute as nat, 2);
    zero_padded_reads_back(b.minute as nat, 2);
    zero_padded_reads_back(a.second as nat, 2);
    zero_padded_reads_back(b.second as nat, 2);
    zero_padded_reads_back(a.micros as nat, 6);
    zero_padded_reads_back(b.micros as nat, 6);
}

/// The text of a moment holds no path separator.
pub proof fn timestamp_text_is_plain(m: Moment)
    ensures
        is_plain(timestamp_text(m)),
{
    reveal_strlit("-");
    reveal_strlit("--");
    reveal_strlit(":");
    reveal_strlit(".");
    zero_padded_is_plain(m.year as nat, 4);
    zero_padded_is_plain(m.month as nat, 2);
    zero_padded_is_plain(m.day as nat, 2);
    zero_padded_is_plain(m.hour as nat, 2);
    zero_padded_is_plain(m.minute as nat, 2);
    zero_padded_is_plain(m.second as nat, 2);
    zero_padded_is_plain(m.micros as nat, 6);
}

/// Whether the moment `a` lies before the moment `b`.
pub open spec fn is_earlier(a: Moment, b: Moment) -> bool {
    if a.year != b.year {
        a.year < b.year
    } else if a.month != b.month {
        a.month < b.month
    } else if a.day != b.day {
        a.day < b.day
    } else if a.hour != b.hour {
        a.hour < b.hour
    } else if a.minute != b.minute {
        a.minute < b.minute
    } else if a.second != b.second {
        a.second < b.second
    } else {
        a.micros < b.micros
    }
}

/// The texts of valid moments sort as the moments do: the text of the
/// earlier moment differs from that of the later one first at a place where
/// it has the smaller digit.
pub proof fn timestamp_text_sorts_by_time(a: Moment, b: Moment)
    requires
        is_valid_moment(a),
        is_valid_moment(b),
        is_earlier(a, b),
    ensures
        exists|at: int| differs_first_at(timestamp_text(a), timestamp_text(b), at),
{
    reveal_with_fuel(pow10, 7);
    let text1 = timestamp_text(a);
    let text2 = timestamp_text(b);
    timestamp_text_has_fixed_shape(a);
    timestamp_text_has_fixed_shape(b);
    if a.year != b.year {
        zero_padded_keeps_order(a.year as nat, b.year as nat, 4);
        let field1 = zero_padded(a.year as nat, 4);
        let field2 = zero_padded(b.year as nat, 4);
        let at = choose|at: int| differs_first_at(field1, field2, at);
        assert(text1.subrange(0, 0) =~= text2.subrange(0, 0));
        differs_first_inside_field(text1, text2, 0, 4, at);
    } else if a.month != b.month {
        zero_padded_keeps_order(a.month as nat, b.month as nat, 2);
        let field1 = zero_padded(a.month as nat, 2);
        let field2 = zero_padded(b.month as nat, 2);
        let at = choose|at: int| differs_first_at(field1, field2, at);
        differs_first_inside_field(text1, text2, 5, 7, at);
    } else if a.day != b.day {
        zero_padded_keeps_order(a.day as nat, b.day as nat, 2);
        let field1 = zero_padded(a.day as nat, 2);
        let field2 = zero_padded(b.day as nat, 2);
        let at = choose|at: int| differs_first_at(field1, field2, at);
        differs_first_inside_field(text1, text2, 8, 10, at);
    } else if a.hour != b.hour {
        zero_padded_keeps_order(a.hour as nat, b.hour as nat, 2);
        let field1 = zero_padded(a.hour as nat, 2);
        let field2 = zero_padded(b.hour as nat, 2);
        let at = choose|at: int| differs_first_at(field1, field2, at);
        differs_first_inside_field(text1, text2, 12, 14, at);
    } else if a.minute != b.minute {
        zero_padded_keeps_order(a.minute as nat, b.minute as nat, 2);
        let field1 = zero_padded(a.minute as nat, 2);
        let field2 = zero_padded(b.minute as nat, 2);
        let at = choose|at: int| differs_first_at(field1, field2, at);
        differs_first_inside_field(text1, text2, 15, 17, at);
    } else if a.second != b.second {
        zero_padded_keeps_order(a.second as nat, b.second as nat, 2);
        let field1 = zero_padded(a.second as nat, 2);
        let field2 = zero_padded(b.second as nat, 2);
        let at = choose|at: int| differs_first_at(field1, field2, at);
        differs_first_inside_field(text1, text2, 18, 20, at);
    } else {
        zero_padded_keeps_order(a.micros as nat, b.micros as nat, 6);
        let field1 = zero_padded(a.micros as nat, 6);
        let field2 = zero_padded(b.micros as nat, 6);
        let at = choose|at: int| differs_first_at(field1, field2, at);
        differs_first_inside_field(text1, text2, 21, 27, at);
    }
}

/// A valid moment, held as plain numbers.
#[derive(Clone, Copy, Debug)]
pub struct Timestamp {
    year: u16,
    month: u8,
    day: u8,
    hour: u8,
    minute: u8,
    second: u8,
    micros: u32,
}

impl View for Timestamp {
    type V = Moment;

    closed spec fn view(&self) -> Moment {
        Moment {
            year: self.year as int,
            month: self.month as int,
            day: self.day as int,
            hour: self.hour as int,
            minute: self.minute as int,
            second: self.second as int,
            micros: self.micros as int,
        }
    }
}

/// What the local clock shows: year, month, day, hour, minute, second and
/// the nanoseconds since that second began.
///
/// Trusted: takes the time from `std::time::SystemTime::now`, turns it
/// into local time with chrono's `From<SystemTime>` for `DateTime<Local>`,
/// which takes a time before 1970 as well as one after, and reads the
/// getters `year`, `month`, `day`, `hour`, `minute`, `second` and
/// `nanosecond` of the result. It returns for every time that chrono can
/// hold and for which the time-zone data of the machine gives an offset.
/// Nothing is claimed of the numbers: they are whatever the system clock
/// and time zone give.
#[verifier::external_body]
fn local_clock() -> (reading: (i32, u32, u32, u32, u32, u32, u32)) {
    let now = chrono::DateTime::<chrono::Local>::from(std::time::SystemTime::now());
    (now.year(), now.month(), now.day(), now.hour(), now.minute(), now.second(), now.nanosecond())
}

/// The text of a timestamp under the format `%F--%T.%6f`.
///
/// Trusted: builds the same date and time with
/// `chrono::NaiveDate::from_ymd_opt` and `NaiveDate::and_hms_micro_opt`,
/// which accept every valid moment, and formats it with
/// `NaiveDateTime::format`. Under `%F--%T.%6f` and for a year from 0 to
/// 9999 chrono writes the year with four digits, month, day, hour, minute
/// and second with two and the microseconds with six, each with leading
/// zeros, and the literal characters of the format between them.
#[verifier::external_body]
fn format_timestamp(t: &Timestamp, format: &str) -> (text: String)
    requires
        is_valid_moment(t@),
        format@ == "%F--%T.%6f"@,
    ensures
        text@ == timestamp_text(t@),
{
    let date = chrono::NaiveDate::from_ymd_opt(t.year.into(), t.month.into(), t.day.into());
    let time = date.unwrap().and_hms_micro_opt(
        t.hour.into(),
        t.minute.into(),
        t.second.into(),
        t.micros,
    );
    time.unwrap().format(format).to_string()
}

/// The moment that a reading of the clock shows: its date and time of day,
/// with the nanoseconds of the running second cut to whole microseconds.
pub open spec fn moment_shown(
    year: i32,
    month: u32,
    day: u32,
    hour: u32,
    minute: u32,
    second: u32,
    nanos: u32,
) -> Moment {
    Moment {
        year: year as int,
        month: month as int,
        day: day as int,
        hour: hour as int,
        minute: minute as int,
        second: second as int,
        micros: nanos as int / 1000,
    }
}

/// Whether `res` is what a reading of the clock gives: the timestamp of
/// the moment it shows where that is a valid moment, and nothing where it
/// is not (a year beyond 9999, a leap second, which the clock counts as a
/// thousand million nanoseconds and more).
pub open spec fn clock_gives(
    year: i32,
    month: u32,
    day: u32,
    hour: u32,
    minute: u32,
    second: u32,
    nanos: u32,
    res: Option<Timestamp>,
) -> bool {
    let shown = moment_shown(year, month, day, hour, minute, second, nanos);
    match res {
        Some(t) => is_valid_moment(shown) && t@ == shown,
        None => !is_valid_moment(shown),
    }
}

impl Timestamp {
    /// Every timestamp is a valid moment.
    #[verifier::type_invariant]
    pub open spec fn is_valid(self) -> bool {
        is_valid_moment(self@)
    }

    /// The timestamp for the given fields, if they name a valid moment.
    pub fn new(
        year: i32,
        month: u32,
        day: u32,
        hour: u32,
        minute: u32,
        second: u32,
        micros: u32,
    ) -> (res: Option<Timestamp>)
        ensures
            res is Some <==> is_valid_moment(
                (Moment {
                    year: year as int,
                    month: month as int,
                    day: day as int,
                    hour: hour as int,
                    minute: minute as int,
                    second: second as int,
                    micros: micros as int,
                }),
            ),
            res matches Some(t) ==> t@ == (Moment {
                year: year as int,
                month: month as int,
                day: day as int,
                hour: hour as int,
                minute: minute as int,
                second: second as int,
                micros: micros as int,
            }),
    {
        if year < 0 || year > 9999 || month < 1 || month > 12 || day < 1 {
            return None;
        }
        let leap = year % 4 == 0 && (year % 100 != 0 || year % 400 == 0);
        let days: u32 = if month == 2 {
            if leap {
                29
            } else {
                28
            }
        } else if month == 4 || month == 6 || month == 9 || month == 11 {
            30
        } else {
            31
        };
        if day > days || hour > 23 || minute > 59 || second > 59 || micros > 999_999 {
            return None;
        }
        Some(
            Timestamp {
                year: year as u16,
                month: month as u8,
                day: day as u8,
                hour: hour as u8,
                minute: minute as u8,
                second: second as u8,
                micros,
            },
        )
    }

    /// The present local time, cut to the microsecond; `None` where the
    /// clock shows no valid moment (a year beyond 9999, a leap second).
    ///
    /// Whatever the clock shows, the result is what [`clock_gives`] lays
    /// down for that reading. Which reading it is, and so whether there is
    /// a timestamp at all, lies with the clock.
    pub fn now() -> (res: Option<Timestamp>)
        ensures
            res matches Some(t) ==> is_valid_moment(t@),
            exists|year: i32, month: u32, day: u32, hour: u32, minute: u32, second: u32, nanos: u32|
                #[trigger] clock_gives(year, month, day, hour, minute, second, nanos, res),
    {
        let (year, month, day, hour, minute, second, nanos) = local_clock();
        let res = Timestamp::new(year, month, day, hour, minute, second, nanos / 1000);
        assert(clock_gives(year, month, day, hour, minute, second, nanos, res));
        res
    }

    /// The text form, `YYYY-MM-DD--HH:MM:SS.ffffff`.
    pub fn to_string(&self) -> (text: String)
        ensures
            text@ == timestamp_text(self@),
    {
        proof {
            use_type_invariant(self);
        }
        format_timestamp(self, "%F--%T.%6f")
    }
}

} // verus!
