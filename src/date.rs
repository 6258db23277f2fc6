use vstd::prelude::*;

verus! {

/// The calendar date, in UTC, of a Unix timestamp: (year, month, day).
pub uninterp spec fn utc_date(timestamp: int) -> (int, int, int);

/// The timestamps that `time` places in its calendar: from the start of
/// -9999-01-01 to the end of 9999-12-31, UTC.
pub open spec fn in_calendar(timestamp: int) -> bool {
    -377705116800 <= timestamp <= 253402300799
}

/// Relies on `time::OffsetDateTime::from_unix_timestamp` and on its `year`,
/// `month` and `day`: the UTC calendar date of a timestamp, with months
/// numbered 1 to 12 and days 1 to 31, and the epoch itself on 1970-01-01.
/// The call succeeds on every timestamp from `Date::MIN` at midnight to
/// `Date::MAX` at 23:59:59 UTC (years -9999 to 9999).
#[verifier::external_body]
fn civil_date(timestamp: i64) -> (r: Option<(i32, u8, u8)>)
    ensures
        r matches Some(d) ==> (d.0 as int, d.1 as int, d.2 as int) == utc_date(timestamp as int)
            && 1 <= d.1 <= 12 && 1 <= d.2 <= 31,
        timestamp == 0 ==> r == Some((1970i32, 1u8, 1u8)),
        in_calendar(timestamp as int) ==> r is Some,
{
    time::OffsetDateTime::from_unix_timestamp(timestamp).ok().map(
        |d| (d.year(), u8::from(d.month()), d.day()),
    )
}

/// The decimal digit `d`.
pub open spec fn digit(d: int) -> char {
    "0123456789"@[d]
}

/// `n` written with two digits, a leading zero where it is under ten.
pub open spec fn two_digits(n: int) -> Seq<char> {
    seq![digit(n / 10), digit(n % 10)]
}

/// The three-letter English name of month `m`.
pub open spec fn month_abbr(m: int) -> Seq<char> {
    if m == 1 {
        "Jan"@
    } else if m == 2 {
        "Feb"@
    } else if m == 3 {
        "Mar"@
    } else if m == 4 {
        "Apr"@
    } else if m == 5 {
        "May"@
    } else if m == 6 {
        "Jun"@
    } else if m == 7 {
        "Jul"@
    } else if m == 8 {
        "Aug"@
    } else if m == 9 {
        "Sep"@
    } else if m == 10 {
        "Oct"@
    } else if m == 11 {
        "Nov"@
    } else {
        "Dec"@
    }
}

/// A date as `Mon DD 'YY`: month name, two-digit day, an apostrophe and the
/// last two digits of the year.
pub open spec fn date_label(year: int, month: int, day: int) -> Seq<char> {
    month_abbr(month) + seq![' '] + two_digits(day) + seq![' ', '\''] + two_digits(year % 100)
}

/// The label of the day on which `timestamp` falls, in UTC.
pub open spec fn timestamp_label(timestamp: int) -> Seq<char> {
    date_label(utc_date(timestamp).0, utc_date(timestamp).1, utc_date(timestamp).2)
}

/// The label of the Unix epoch, which stands for an unknown time.
pub open spec fn epoch_label() -> Seq<char> {
    date_label(1970, 1, 1)
}

fn month_name(m: u8) -> (r: &'static str)
    requires
        1 <= m <= 12,
    ensures
        r@ == month_abbr(m as int),
{
    match m {
        1 => "Jan",
        2 => "Feb",
        3 => "Mar",
        4 => "Apr",
        5 => "May",
        6 => "Jun",
        7 => "Jul",
        8 => "Aug",
        9 => "Sep",
        10 => "Oct",
        11 => "Nov",
        _ => "Dec",
    }
}

fn push_two_digits(s: &mut String, n: u8)
    requires
        n < 100,
    ensures
        final(s)@ == old(s)@ + two_digits(n as int),
{
    let digits = "0123456789";
    proof {
        reveal_strlit("0123456789");
    }
    let tens = (n / 10) as usize;
    let ones = (n % 10) as usize;
    s.append(digits.substring_char(tens, tens + 1));
    s.append(digits.substring_char(ones, ones + 1));
    assert(final(s)@ =~= old(s)@ + two_digits(n as int));
}

/// Writes a calendar date as `Mon DD 'YY` (e.g. `Jan 05 '24`).
pub fn format_date(year: i32, month: u8, day: u8) -> (r: String)
    requires
        1 <= month <= 12,
        1 <= day <= 31,
    ensures
        r@ == date_label(year as int, month as int, day as int),
{
    let mut r = String::from_str(month_name(month));
    r.append(" ");
    push_two_digits(&mut r, day);
    r.append(" '");
    let rem: i32 = year % 100;
    let yy: u8 = if rem < 0 {
        (rem + 100) as u8
    } else {
        rem as u8
    };
    assert(yy as int == year as int % 100);
    push_two_digits(&mut r, yy);
    proof {
        reveal_strlit(" ");
        reveal_strlit(" '");
    }
    assert(r@ =~= date_label(year as int, month as int, day as int));
    r
}

/// The creation label of a profile created at `timestamp`: the UTC day on
/// which it falls, or the epoch's where the calendar cannot place it.
pub fn created_label(timestamp: i64) -> (r: String)
    ensures
        in_calendar(timestamp as int) ==> r@ == timestamp_label(timestamp as int),
        r@ == timestamp_label(timestamp as int) || r@ == epoch_label(),
        timestamp == 0 ==> r@ == epoch_label(),
{
    match civil_date(timestamp) {
        Some((y, m, d)) => format_date(y, m, d),
        None => format_date(1970, 1, 1),
    }
}

} // verus!
