//! Dates and times as text.
//!
//! The clock and the calendar are the `chrono` crate's. The time of day of a
//! UTC timestamp is plain arithmetic and is computed here.

use vstd::prelude::*;
use crate::text::{decimal, decimal_of, push_all};

verus! {

/// `chrono::Utc::now().timestamp()`: the seconds since the epoch, by the
/// system clock. Nothing is promised of the result.
#[verifier::external_body]
pub(crate) fn now_utc_seconds() -> i64 {
    chrono::Utc::now().timestamp()
}

/// The local time as year, month, day, an underscore, hour, minute and
/// second: `chrono::Local::now()` formatted with `%Y%m%d_%H%M%S`. The result
/// depends on the clock and the time zone, so nothing is promised of it.
#[verifier::external_body]
pub(crate) fn local_timestamp() -> String {
    chrono::Local::now().format("%Y%m%d_%H%M%S").to_string()
}

/// The UTC date of a timestamp as `chrono` writes it with `%Y-%m-%d`, or
/// `None` for a timestamp outside the range of `chrono`.
pub uninterp spec fn utc_date_text(seconds: int) -> Option<Seq<char>>;

/// `chrono::DateTime::from_timestamp(seconds, 0)` formatted with `%Y-%m-%d`.
#[verifier::external_body]
pub(crate) fn utc_date(seconds: i64) -> (date: Option<String>)
    ensures
        date_view(date) == utc_date_text(seconds as int),
{
    match chrono::DateTime::from_timestamp(seconds, 0) {
        Some(d) => Some(d.format("%Y-%m-%d").to_string()),
        None => None,
    }
}

/// The text of a date, if there is one.
pub open spec fn date_view(date: Option<String>) -> Option<Seq<char>> {
    match date {
        Some(d) => Some(d@),
        None => None,
    }
}

/// A number below one hundred with two digits.
pub open spec fn two_digits(n: nat) -> Seq<char> {
    if n < 10 {
        seq!['0'] + decimal(n)
    } else {
        decimal(n)
    }
}

/// The second of the day of a timestamp, in UTC.
pub open spec fn second_of_day(seconds: int) -> nat {
    (seconds % 86400) as nat
}

/// Hours and minutes of a timestamp in UTC, as `HH:MM`.
pub open spec fn hours_minutes(seconds: int) -> Seq<char> {
    let s = second_of_day(seconds);
    two_digits(s / 3600) + seq![':'] + two_digits((s % 3600) / 60)
}

/// The time of day of a timestamp in UTC, as `HH:MM:SS`.
pub open spec fn time_of_day(seconds: int) -> Seq<char> {
    hours_minutes(seconds) + seq![':'] + two_digits(second_of_day(seconds) % 60)
}

/// A time of day behind its date, with a space between them; the time alone
/// where there is no date.
pub open spec fn dated(date: Option<Seq<char>>, time: Seq<char>) -> Seq<char> {
    match date {
        Some(d) => d + seq![' '] + time,
        None => time,
    }
}

/// Date and time of a timestamp in UTC, as `YYYY-MM-DD HH:MM:SS`; without
/// the date where the calendar has none for it.
pub open spec fn date_time(seconds: int) -> Seq<char> {
    dated(utc_date_text(seconds), time_of_day(seconds))
}

/// Date, hours and minutes of a timestamp in UTC, as `YYYY-MM-DD HH:MM`;
/// without the date where the calendar has none for it.
pub open spec fn date_hours_minutes(seconds: int) -> Seq<char> {
    dated(utc_date_text(seconds), hours_minutes(seconds))
}

fn day_second(seconds: i64) -> (s: u64)
    ensures
        s == second_of_day(seconds as int),
        s < 86400,
{
    if seconds >= 0 {
        (seconds as u64) % 86400
    } else {
        let k: u64 = (-(seconds + 1)) as u64;
        let m: u64 = k % 86400;
        proof {
            assert((seconds as int) % 86400 == 86399 - ((-(seconds as int) - 1) % 86400))
                by (nonlinear_arith)
                requires
                    seconds < 0,
            ;
        }
        86399 - m
    }
}

fn push_two_digits(out: &mut Vec<char>, n: u64)
    requires
        n < 100,
    ensures
        final(out)@ == old(out)@ + two_digits(n as nat),
{
    if n < 10 {
        out.push('0');
    }
    let digits = decimal_of(n);
    push_all(out, &digits);
    proof {
        assert(out@ =~= old(out)@ + two_digits(n as nat));
    }
}

/// Appends the hours and minutes of `seconds` to `out`.
pub fn push_hours_minutes(out: &mut Vec<char>, seconds: i64)
    ensures
        final(out)@ == old(out)@ + hours_minutes(seconds as int),
{
    let s = day_second(seconds);
    push_two_digits(out, s / 3600);
    out.push(':');
    push_two_digits(out, (s % 3600) / 60);
    proof {
        assert(out@ =~= old(out)@ + hours_minutes(seconds as int));
    }
}

/// Appends the time of day of `seconds` to `out`.
pub fn push_time_of_day(out: &mut Vec<char>, seconds: i64)
    ensures
        final(out)@ == old(out)@ + time_of_day(seconds as int),
{
    let s = day_second(seconds);
    push_hours_minutes(out, seconds);
    out.push(':');
    push_two_digits(out, s % 60);
    proof {
        assert(out@ =~= old(out)@ + time_of_day(seconds as int));
    }
}

/// Appends `date`, where there is one, and the time of day of `seconds` to
/// `out`.
pub fn push_dated_time(out: &mut Vec<char>, date: &Option<String>, seconds: i64)
    ensures
        final(out)@ == old(out)@ + dated(date_view(*date), time_of_day(seconds as int)),
{
    match date {
        Some(d) => {
            crate::text::push_str(out, d.as_str());
            out.push(' ');
            push_time_of_day(out, seconds);
            proof {
                assert(out@ =~= old(out)@ + dated(
                    date_view(*date),
                    time_of_day(seconds as int),
                ));
            }
        },
        None => {
            push_time_of_day(out, seconds);
        },
    }
}

/// Appends `date`, where there is one, and the hours and minutes of
/// `seconds` to `out`.
pub fn push_dated_hours_minutes(out: &mut Vec<char>, date: &Option<String>, seconds: i64)
    ensures
        final(out)@ == old(out)@ + dated(date_view(*date), hours_minutes(seconds as int)),
{
    match date {
        Some(d) => {
            crate::text::push_str(out, d.as_str());
            out.push(' ');
            push_hours_minutes(out, seconds);
            proof {
                assert(out@ =~= old(out)@ + dated(
                    date_view(*date),
                    hours_minutes(seconds as int),
                ));
            }
        },
        None => {
            push_hours_minutes(out, seconds);
        },
    }
}

/// Appends date and time of `seconds` to `out`.
pub fn push_date_time(out: &mut Vec<char>, seconds: i64)
    ensures
        final(out)@ == old(out)@ + date_time(seconds as int),
{
    let date = utc_date(seconds);
    push_dated_time(out, &date, seconds);
}

/// Appends date, hours and minutes of `seconds` to `out`.
pub fn push_date_hours_minutes(out: &mut Vec<char>, seconds: i64)
    ensures
        final(out)@ == old(out)@ + date_hours_minutes(seconds as int),
{
    let date = utc_date(seconds);
    push_dated_hours_minutes(out, &date, seconds);
}

} // verus!
