//! A naive (no timezone) datetime for use in a document.
//!
//! Calendar arithmetic — leap years, month lengths, zero-padded numeric
//! formatting — is implemented and proved here; only the locale-dependent
//! month names of the long date form come from an outside formatter.

use vstd::prelude::*;

use crate::utils::{dec_of, digit_char, push_char};

verus! {

/// The year range the outside date formatter accepts.
pub const MIN_YEAR: i32 = -262143;

/// The year range the outside date formatter accepts.
pub const MAX_YEAR: i32 = 262142;

/// A calendar date in the proleptic Gregorian calendar.
#[derive(Clone, Copy, PartialEq, Eq, Structural, Debug)]
pub struct Ymd {
    pub year: i32,
    pub month: u8,
    pub day: u8,
}

/// A time of day.
#[derive(Clone, Copy, PartialEq, Eq, Structural, Debug)]
pub struct Hms {
    pub hour: u8,
    pub minute: u8,
    pub second: u8,
}

/// A naive datetime; both parts are optional, so a `Date` may also be
/// wholly unspecified.
#[derive(Clone, Copy, PartialEq, Eq, Structural, Debug)]
pub struct Date {
    /// The calendar date, if specified.
    pub date: Option<Ymd>,
    /// The time of day, if specified.
    pub time: Option<Hms>,
}

/// Gregorian leap year rule.
pub open spec fn is_leap_year(y: int) -> bool {
    (y % 4 == 0 && y % 100 != 0) || y % 400 == 0
}

/// The number of days in a month of a given year.
pub open spec fn days_in_month(y: int, m: int) -> int {
    if m == 2 {
        if is_leap_year(y) {
            29
        } else {
            28
        }
    } else if m == 4 || m == 6 || m == 9 || m == 11 {
        30
    } else {
        31
    }
}

/// Whether year, month and day name an existing calendar day that the
/// outside formatter can represent.
pub open spec fn valid_ymd(y: int, m: int, d: int) -> bool {
    MIN_YEAR <= y <= MAX_YEAR && 1 <= m <= 12 && 1 <= d <= days_in_month(y, m)
}

/// Whether hour, minute and second name a time of day.
pub open spec fn valid_hms(h: int, m: int, s: int) -> bool {
    0 <= h <= 23 && 0 <= m <= 59 && 0 <= s <= 59
}

/// A well-formed date holds only existing calendar days and times.
pub open spec fn date_wf(d: Date) -> bool {
    (match d.date {
        Some(ymd) => valid_ymd(ymd.year as int, ymd.month as int, ymd.day as int),
        None => true,
    }) && (match d.time {
        Some(hms) => valid_hms(hms.hour as int, hms.minute as int, hms.second as int),
        None => true,
    })
}

/// The calendar date made from year, month and day after clamping month
/// and day to their nominal maxima: `None` if no such day exists.
pub open spec fn make_ymd(year: i32, month: u32, day: u32) -> Option<Ymd> {
    let m = if month > 12 {
        12u32
    } else {
        month
    };
    let d = if day > 31 {
        31u32
    } else {
        day
    };
    if valid_ymd(year as int, m as int, d as int) {
        Some(Ymd { year, month: m as u8, day: d as u8 })
    } else {
        None
    }
}

/// The time of day made from hour, minute and second after clamping each
/// to its maximum.
pub open spec fn make_hms(hour: u32, minute: u32, second: u32) -> Hms {
    Hms {
        hour: (if hour > 23 {
            23u32
        } else {
            hour
        }) as u8,
        minute: (if minute > 59 {
            59u32
        } else {
            minute
        }) as u8,
        second: (if second > 59 {
            59u32
        } else {
            second
        }) as u8,
    }
}

/// What the outside locale registry answers when asked whether it knows a
/// locale identifier.
pub uninterp spec fn locale_known(locale: Seq<char>) -> bool;

/// What the outside date formatter produces for a calendar day in the long
/// localized form (space-padded day, full month name, year), a function of
/// the day and the locale alone.
pub uninterp spec fn localized_ymd(y: int, m: int, d: int, locale: Seq<char>) -> Seq<char>;

/// Relies on chrono's `Locale::try_from`, `NaiveDate::from_ymd_opt` and
/// `NaiveDate::format_localized` with the long date format: the result
/// depends on the calendar day and the locale alone, and is `None` exactly
/// when the locale identifier is unknown.
#[verifier::external_body]
fn format_ymd_localized(year: i32, month: u8, day: u8, locale: &str) -> (r: Option<String>)
    requires
        valid_ymd(year as int, month as int, day as int),
    ensures
        match r {
            Some(s) => locale_known(locale@) && s@ == localized_ymd(
                year as int,
                month as int,
                day as int,
                locale@,
            ),
            None => !locale_known(locale@),
        },
{
    let loc = chrono::Locale::try_from(locale).ok()?;
    let date = chrono::NaiveDate::from_ymd_opt(year, month as u32, day as u32)?;
    Some(date.format_localized("%e %B %Y", loc).to_string())
}

/// A number in decimal, left-padded with zeros to two digits.
pub open spec fn pad2(n: nat) -> Seq<char> {
    if n < 10 {
        seq!['0', digit_char(n)]
    } else {
        dec_of(n)
    }
}

/// Appends [`pad2`] of `n`.
fn append_pad2(out: &mut String, n: u8)
    ensures
        final(out)@ == old(out)@ + pad2(n as nat),
{
    if n < 10 {
        push_char(out, '0');
    }
    crate::utils::append_dec(out, n as u64);
    assert(out@ =~= old(out)@ + pad2(n as nat));
}

/// The time of day in `HH:MM` form.
pub open spec fn hm_string(t: Hms) -> Seq<char> {
    pad2(t.hour as nat) + (":")@ + pad2(t.minute as nat)
}

/// The time of day in `HH:MM:SS` form.
pub open spec fn hms_string(t: Hms) -> Seq<char> {
    pad2(t.hour as nat) + (":")@ + pad2(t.minute as nat) + (":")@ + pad2(t.second as nat)
}

/// A year in decimal, left-padded with zeros to four digits, with a
/// leading minus sign for years before the common era.
pub open spec fn year_string(y: int) -> Seq<char> {
    if y < 0 {
        ("-")@ + pad4((-y) as nat)
    } else {
        pad4(y as nat)
    }
}

/// A number in decimal, left-padded with zeros to four digits.
pub open spec fn pad4(n: nat) -> Seq<char> {
    if n < 10 {
        seq!['0', '0', '0'] + dec_of(n)
    } else if n < 100 {
        seq!['0', '0'] + dec_of(n)
    } else if n < 1000 {
        seq!['0'] + dec_of(n)
    } else {
        dec_of(n)
    }
}

/// Appends [`pad4`] of `n`.
fn append_pad4(out: &mut String, n: u32)
    ensures
        final(out)@ == old(out)@ + pad4(n as nat),
{
    if n < 10 {
        push_char(out, '0');
        push_char(out, '0');
        push_char(out, '0');
    } else if n < 100 {
        push_char(out, '0');
        push_char(out, '0');
    } else if n < 1000 {
        push_char(out, '0');
    }
    crate::utils::append_dec(out, n as u64);
    assert(out@ =~= old(out)@ + pad4(n as nat));
}

/// The calendar date in ISO `YYYY-MM-DD` form.
pub open spec fn ymd_string(d: Ymd) -> Seq<char> {
    year_string(d.year as int) + ("-")@ + pad2(d.month as nat) + ("-")@ + pad2(d.day as nat)
}

/// The plain textual form of a date: the ISO date, the `HH:MM:SS` time,
/// both separated by a space, or nothing, depending on which parts are
/// specified.
pub open spec fn plain_string_spec(d: Date) -> Seq<char> {
    match (d.date, d.time) {
        (Some(ymd), Some(hms)) => ymd_string(ymd) + (" ")@ + hms_string(hms),
        (Some(ymd), None) => ymd_string(ymd),
        (None, Some(hms)) => hms_string(hms),
        (None, None) => Seq::empty(),
    }
}

/// The locale-formatted form of a date: `None` when nothing is specified
/// or when the locale is unknown.
pub open spec fn format_with_locale_spec(d: Date, locale: Seq<char>) -> Option<Seq<char>> {
    if !locale_known(locale) {
        None
    } else {
        match (d.date, d.time) {
            (Some(ymd), Some(hms)) => Some(
                localized_ymd(ymd.year as int, ymd.month as int, ymd.day as int, locale) + (" ")@
                    + hm_string(hms),
            ),
            (Some(ymd), None) => Some(
                localized_ymd(ymd.year as int, ymd.month as int, ymd.day as int, locale),
            ),
            (None, Some(hms)) => Some(hm_string(hms)),
            (None, None) => None,
        }
    }
}

/// Whether year, month and day name an existing calendar day; equal to
/// [`valid_ymd`].
fn check_ymd(year: i32, month: u32, day: u32) -> (r: bool)
    ensures
        r == valid_ymd(year as int, month as int, day as int),
{
    if year < MIN_YEAR || year > MAX_YEAR || month < 1 || month > 12 || day < 1 {
        return false;
    }
    let leap: bool = (year % 4 == 0 && year % 100 != 0) || year % 400 == 0;
    let max_day: u32 = if month == 2 {
        if leap {
            29
        } else {
            28
        }
    } else if month == 4 || month == 6 || month == 9 || month == 11 {
        30
    } else {
        31
    };
    day <= max_day
}

impl Date {
    /// Create a new date from a year, month and day.
    ///
    /// Month and day are first clamped to their nominal maxima (12 and
    /// 31); if the clamped values still name no existing calendar day, the
    /// date part is left unspecified.
    pub fn from_ymd(year: i32, month: u32, day: u32) -> (r: Self)
        ensures
            r == (Date { date: make_ymd(year, month, day), time: None }),
            date_wf(r),
    {
        Date { date: Self::clamped_ymd(year, month, day), time: None }
    }

    /// Create a new date from a year, month, day, hour, minute and second.
    ///
    /// The values are clamped to their valid ranges (12 for month, 31 for
    /// day, 23 for hour, 59 for minute and second).
    pub fn from_ymd_hms(year: i32, month: u32, day: u32, hour: u32, minute: u32, second: u32) -> (r:
        Self)
        ensures
            r == (Date {
                date: make_ymd(year, month, day),
                time: Some(make_hms(hour, minute, second)),
            }),
            date_wf(r),
    {
        Date {
            date: Self::clamped_ymd(year, month, day),
            time: Some(Self::clamped_hms(hour, minute, second)),
        }
    }

    /// Create a new date from hour, minute and second.
    ///
    /// The values are clamped to their valid ranges (23 for hour, 59 for
    /// minute and second).
    pub fn from_hms(hour: u32, minute: u32, second: u32) -> (r: Self)
        ensures
            r == (Date { date: None, time: Some(make_hms(hour, minute, second)) }),
            date_wf(r),
    {
        Date { date: None, time: Some(Self::clamped_hms(hour, minute, second)) }
    }

    /// Set the time, clamping the values to their valid ranges.
    pub fn time(&mut self, hour: u32, minute: u32, second: u32)
        ensures
            *final(self) == (Date {
                time: Some(make_hms(hour, minute, second)),
                ..*old(self)
            }),
            date_wf(*old(self)) ==> date_wf(*final(self)),
    {
        self.time = Some(Self::clamped_hms(hour, minute, second));
    }

    /// Set the date, clamping month and day to their nominal maxima.
    pub fn date(&mut self, year: i32, month: u32, day: u32)
        ensures
            *final(self) == (Date { date: make_ymd(year, month, day), ..*old(self) }),
            date_wf(*old(self)) ==> date_wf(*final(self)),
    {
        self.date = Self::clamped_ymd(year, month, day);
    }

    fn clamped_ymd(year: i32, month: u32, day: u32) -> (r: Option<Ymd>)
        ensures
            r == make_ymd(year, month, day),
            match r {
                Some(ymd) => valid_ymd(ymd.year as int, ymd.month as int, ymd.day as int),
                None => true,
            },
    {
        let m: u32 = if month > 12 {
            12
        } else {
            month
        };
        let d: u32 = if day > 31 {
            31
        } else {
            day
        };
        if check_ymd(year, m, d) {
            Some(Ymd { year, month: m as u8, day: d as u8 })
        } else {
            None
        }
    }

    fn clamped_hms(hour: u32, minute: u32, second: u32) -> (r: Hms)
        ensures
            r == make_hms(hour, minute, second),
            valid_hms(r.hour as int, r.minute as int, r.second as int),
    {
        Hms {
            hour: (if hour > 23 {
                23
            } else {
                hour
            }) as u8,
            minute: (if minute > 59 {
                59
            } else {
                minute
            }) as u8,
            second: (if second > 59 {
                59
            } else {
                second
            }) as u8,
        }
    }

    /// Format the date using a locale: the long localized date form for
    /// the date part and `HH:MM` for the time part. Returns `None` when
    /// neither part is specified or when the locale is unknown.
    pub fn format_with_locale(&self, locale: &str) -> (r: Option<String>)
        requires
            date_wf(*self),
        ensures
            match r {
                Some(s) => format_with_locale_spec(*self, locale@) == Some(s@),
                None => format_with_locale_spec(*self, locale@) is None,
            },
    {
        match (&self.date, &self.time) {
            (Some(ymd), Some(hms)) => {
                match format_ymd_localized(ymd.year, ymd.month, ymd.day, locale) {
                    Some(mut s) => {
                        s.append(" ");
                        append_pad2(&mut s, hms.hour);
                        s.append(":");
                        append_pad2(&mut s, hms.minute);
                        assert(s@ =~= localized_ymd(
                            ymd.year as int,
                            ymd.month as int,
                            ymd.day as int,
                            locale@,
                        ) + (" ")@ + hm_string(*hms));
                        Some(s)
                    },
                    None => None,
                }
            },
            (Some(ymd), None) => format_ymd_localized(ymd.year, ymd.month, ymd.day, locale),
            (None, Some(hms)) => {
                match Self::probe_locale(locale) {
                    true => {
                        let mut s = String::new();
                        append_pad2(&mut s, hms.hour);
                        s.append(":");
                        append_pad2(&mut s, hms.minute);
                        assert(s@ =~= hm_string(*hms));
                        Some(s)
                    },
                    false => None,
                }
            },
            (None, None) => None,
        }
    }

    /// Relies on chrono's `Locale::try_from`: whether the locale
    /// identifier is known to the outside locale registry.
    #[verifier::external_body]
    fn probe_locale(locale: &str) -> (r: bool)
        ensures
            r == locale_known(locale@),
    {
        chrono::Locale::try_from(locale).is_ok()
    }

    /// The plain textual form: ISO date and/or `HH:MM:SS` time.
    pub fn to_plain_string(&self) -> (r: String)
        ensures
            r@ == plain_string_spec(*self),
    {
        let mut out = String::new();
        match (&self.date, &self.time) {
            (Some(ymd), Some(hms)) => {
                Self::append_ymd(&mut out, ymd);
                out.append(" ");
                Self::append_hms(&mut out, hms);
            },
            (Some(ymd), None) => Self::append_ymd(&mut out, ymd),
            (None, Some(hms)) => Self::append_hms(&mut out, hms),
            (None, None) => (),
        }
        assert(out@ =~= plain_string_spec(*self));
        out
    }

    fn append_ymd(out: &mut String, d: &Ymd)
        ensures
            final(out)@ == old(out)@ + ymd_string(*d),
    {
        if d.year < 0 {
            out.append("-");
            let y: i64 = -(d.year as i64);
            append_pad4(out, y as u32);
        } else {
            append_pad4(out, d.year as u32);
        }
        out.append("-");
        append_pad2(out, d.month);
        out.append("-");
        append_pad2(out, d.day);
        assert(out@ =~= old(out)@ + ymd_string(*d));
    }

    fn append_hms(out: &mut String, t: &Hms)
        ensures
            final(out)@ == old(out)@ + hms_string(*t),
    {
        append_pad2(out, t.hour);
        out.append(":");
        append_pad2(out, t.minute);
        out.append(":");
        append_pad2(out, t.second);
        assert(out@ =~= old(out)@ + hms_string(*t));
    }
}

impl Default for Date {
    /// A wholly unspecified date.
    fn default() -> (r: Self)
        ensures
            r == (Date { date: None, time: None }),
            date_wf(r),
    {
        Date { date: None, time: None }
    }
}

} // verus!
