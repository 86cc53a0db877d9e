//! The proleptic Gregorian calendar in UTC, and instants written in ISO 8601.

use crate::text;
use vstd::prelude::*;

verus! {

pub const SECONDS_PER_DAY: i64 = 86_400;

/// Whether `y` has a 29th of February.
pub open spec fn is_leap(y: int) -> bool {
    (y % 4 == 0 && y % 100 != 0) || y % 400 == 0
}

/// The number of days of month `m` of year `y`.
pub open spec fn month_days(y: int, m: int) -> int {
    if m == 4 || m == 6 || m == 9 || m == 11 {
        30
    } else if m == 2 {
        if is_leap(y) {
            29
        } else {
            28
        }
    } else {
        31
    }
}

/// The number of days of the years 1 to `y - 1` (negative before year 1).
pub open spec fn days_before_year(y: int) -> int {
    365 * (y - 1) + (y - 1) / 4 - (y - 1) / 100 + (y - 1) / 400
}

/// The number of days of the months 1 to `m - 1` of year `y`.
pub open spec fn days_before_month(y: int, m: int) -> int
    decreases m,
{
    if m <= 1 {
        0
    } else {
        days_before_month(y, m - 1) + month_days(y, m - 1)
    }
}

/// Whether the three numbers name a day of the calendar.
pub open spec fn valid_date(y: int, m: int, d: int) -> bool {
    1 <= m <= 12 && 1 <= d <= month_days(y, m)
}

/// Days from 1970-01-01 to the given date.
pub open spec fn epoch_day(y: int, m: int, d: int) -> int {
    days_before_year(y) + days_before_month(y, m) + (d - 1) - days_before_year(1970)
}

/// The date that lies `z` days after 1970-01-01.
pub open spec fn date_of(z: int) -> (int, int, int) {
    choose|t: (int, int, int)| #![trigger epoch_day(t.0, t.1, t.2)]
        valid_date(t.0, t.1, t.2) && epoch_day(t.0, t.1, t.2) == z
}

/// One year is as long as its months together: 366 days when it is a leap year
/// and 365 otherwise.
pub proof fn year_length(y: int)
    ensures
        days_before_year(y + 1) - days_before_year(y) == if is_leap(y) { 366int } else { 365 },
        days_before_month(y, 13) == days_before_year(y + 1) - days_before_year(y),
{
    month_table(y);
    reveal_with_fuel(days_before_month, 14);
}

proof fn month_table(y: int)
    ensures
        ({
            let l = if is_leap(y) { 1int } else { 0int };
            &&& days_before_month(y, 1) == 0
            &&& days_before_month(y, 2) == 31
            &&& days_before_month(y, 3) == 59 + l
            &&& days_before_month(y, 4) == 90 + l
            &&& days_before_month(y, 5) == 120 + l
            &&& days_before_month(y, 6) == 151 + l
            &&& days_before_month(y, 7) == 181 + l
            &&& days_before_month(y, 8) == 212 + l
            &&& days_before_month(y, 9) == 243 + l
            &&& days_before_month(y, 10) == 273 + l
            &&& days_before_month(y, 11) == 304 + l
            &&& days_before_month(y, 12) == 334 + l
        }),
{
    reveal_with_fuel(days_before_month, 13);
}

proof fn years_are_ordered(a: int, b: int)
    requires
        a < b,
    ensures
        days_before_year(a + 1) <= days_before_year(b),
{
}

/// Two dates of the calendar are the same day only if they are the same date.
pub proof fn dates_are_unique(y1: int, m1: int, d1: int, y2: int, m2: int, d2: int)
    requires
        valid_date(y1, m1, d1),
        valid_date(y2, m2, d2),
        epoch_day(y1, m1, d1) == epoch_day(y2, m2, d2),
    ensures
        y1 == y2 && m1 == m2 && d1 == d2,
{
    month_table(y1);
    month_table(y2);
    year_length(y1);
    year_length(y2);
    if y1 < y2 {
        years_are_ordered(y1, y2);
    } else if y2 < y1 {
        years_are_ordered(y2, y1);
    }
}

/// Days from 1970-01-01 to a date, in closed form over years that start in
/// March.
pub fn days_from_civil(year: i64, month: i64, day: i64) -> (r: i64)
    requires
        -25_000_000_000_000_000 <= year <= 25_000_000_000_000_000,
        1 <= month <= 12,
        1 <= day <= 31,
    ensures
        r == epoch_day(year as int, month as int, day as int),
{
    let y: i64 = if month <= 2 { year - 1 } else { year };
    let era: i64 = match y.checked_div_euclid(400) {
        Some(e) => e,
        None => 0,
    };
    let year_of_era: i64 = y - era * 400;
    let month_index: i64 = (month + 9) % 12;
    let day_of_year: i64 = (153 * month_index + 2) / 5 + day - 1;
    let day_of_era: i64 = year_of_era * 365 + year_of_era / 4 - year_of_era / 100 + day_of_year;
    proof {
        month_table(year as int);
        let e = era as int;
        let r = year_of_era as int;
        assert(y == 400 * e + r && 0 <= r < 400);
        assert(y as int / 4 == 100 * e + r / 4);
        assert(y as int / 100 == 4 * e + r / 100);
        assert(y as int / 400 == e);
        if month <= 2 {
            assert(days_before_year(year as int) == 365 * y + y as int / 4 - y as int / 100 + y as int / 400);
        } else {
            year_length(year as int);
            assert(days_before_year(year + 1) == 365 * y + y as int / 4 - y as int / 100 + y as int / 400);
        }
        assert(days_before_year(1970) == 719_162);
    }
    era * 146_097 + day_of_era - 719_468
}

/// The number of days of a month; a month number outside 1 to 12 counts as
/// February.
pub fn days_in_month(year: i64, month: i64) -> (r: i64)
    ensures
        1 <= month <= 12 ==> r == month_days(year as int, month as int),
        !(1 <= month <= 12) ==> r == month_days(year as int, 2),
{
    let leap = leap_year(year);
    if month == 1 || month == 3 || month == 5 || month == 7 || month == 8 || month == 10
        || month == 12 {
        31
    } else if month == 4 || month == 6 || month == 9 || month == 11 {
        30
    } else if leap {
        29
    } else {
        28
    }
}

fn leap_year(year: i64) -> (r: bool)
    ensures
        r == is_leap(year as int),
{
    divides(4, year) && !divides(100, year) || divides(400, year)
}

fn divides(d: i64, n: i64) -> (r: bool)
    requires
        0 < d,
    ensures
        r == (n as int % d as int == 0),
{
    match n.checked_rem_euclid(d) {
        Some(rest) => rest == 0,
        None => false,
    }
}

/// Where a day of a 400-year era that starts in March lies: year of the era and
/// day of that year.
proof fn era_split(doe: int, yoe: int)
    requires
        0 <= doe <= 146_096,
        yoe == (doe - doe / 1460 + doe / 36524 - doe / 146_096) / 365,
    ensures
        0 <= yoe <= 399,
        0 <= doe - (365 * yoe + yoe / 4 - yoe / 100) <= 365,
        doe - (365 * yoe + yoe / 4 - yoe / 100) == 365 ==> is_leap(yoe + 1),
{
    let century = doe / 36524;
    assert(0 <= century <= 4);
    assert(0 <= doe / 146_096 <= 1);
}

/// The length of the months before month `m` of a year that starts in March.
spec fn march_days(mp: int) -> int {
    (153 * mp + 2) / 5
}

proof fn march_split(doy: int, mp: int)
    requires
        0 <= doy <= 365,
        mp == (5 * doy + 2) / 153,
    ensures
        0 <= mp <= 11,
        march_days(mp) <= doy,
        mp < 11 ==> doy < march_days(mp + 1),
{
}

/// A date counted in years that start in March, against the calendar.
proof fn march_date(y: int, e: int, r: int, doy: int, mp: int, m: int, year: int)
    requires
        y == r + 400 * e,
        0 <= r <= 399,
        0 <= doy <= 365,
        doy == 365 ==> is_leap(r + 1),
        0 <= mp <= 11,
        march_days(mp) <= doy,
        mp < 11 ==> doy < march_days(mp + 1),
        m == if mp < 10 { mp + 3 } else { mp - 9 },
        year == if m <= 2 { y + 1 } else { y },
    ensures
        valid_date(year, m, doy - march_days(mp) + 1),
        epoch_day(year, m, doy - march_days(mp) + 1) == e * 146_097 + (365 * r + r / 4 - r / 100) + doy - 719_468,
{
    month_table(year);
    assert(y / 4 == 100 * e + r / 4);
    assert(y / 100 == 4 * e + r / 100);
    assert(y / 400 == e);
    assert(days_before_year(1970) == 719_162);
    let before = 365 * y + y / 4 - y / 100 + y / 400;
    assert(before == e * 146_097 + (365 * r + r / 4 - r / 100));
    assert(days_before_year(y + 1) == before);
    if m <= 2 {
        assert(is_leap(year) == is_leap(r + 1));
    } else {
        year_length(year);
    }
}

/// The date that lies `z` days after 1970-01-01: year, month and day.
pub fn civil_from_days(z: i64) -> (r: (i64, u32, u32))
    requires
        -9_000_000_000_000_000_000 <= z <= 9_000_000_000_000_000_000,
    ensures
        valid_date(r.0 as int, r.1 as int, r.2 as int),
        epoch_day(r.0 as int, r.1 as int, r.2 as int) == z,
        date_of(z as int) == (r.0 as int, r.1 as int, r.2 as int),
{
    let shifted: i64 = z + 719_468;
    let era: i64 = match shifted.checked_div_euclid(146_097) {
        Some(e) => e,
        None => 0,
    };
    let doe: i64 = shifted - era * 146_097;
    let yoe: i64 = (doe - doe / 1460 + doe / 36524 - doe / 146_096) / 365;
    proof {
        era_split(doe as int, yoe as int);
    }
    let y: i64 = yoe + era * 400;
    let doy: i64 = doe - (365 * yoe + yoe / 4 - yoe / 100);
    let mp: i64 = (5 * doy + 2) / 153;
    proof {
        march_split(doy as int, mp as int);
    }
    let d: i64 = doy - (153 * mp + 2) / 5 + 1;
    let m: i64 = if mp < 10 { mp + 3 } else { mp - 9 };
    let year: i64 = if m <= 2 { y + 1 } else { y };
    proof {
        march_date(y as int, era as int, yoe as int, doy as int, mp as int, m as int, year as int);
        date_is(z as int, year as int, m as int, d as int);
    }
    (year, m as u32, d as u32)
}

proof fn date_is(z: int, y: int, m: int, d: int)
    requires
        valid_date(y, m, d),
        epoch_day(y, m, d) == z,
    ensures
        date_of(z) == (y, m, d),
{
    let w = (y, m, d);
    assert(valid_date(w.0, w.1, w.2) && epoch_day(w.0, w.1, w.2) == z);
    let t = date_of(z);
    dates_are_unique(t.0, t.1, t.2, y, m, d);
}

/// `n` in decimal, with zeros before it up to `width` digits.
pub open spec fn zero_padded(n: int, width: int) -> Seq<char> {
    text::pad_start(text::dec(n), '0', width)
}

/// `2026-09-25T08:00:00Z` for the given date and time of day.
pub open spec fn stamp(date: (int, int, int), second_of_day: int) -> Seq<char> {
    zero_padded(date.0, 4) + "-"@ + zero_padded(date.1, 2) + "-"@ + zero_padded(date.2, 2) + "T"@
        + zero_padded(second_of_day / 3600, 2) + ":"@ + zero_padded((second_of_day % 3600) / 60, 2)
        + ":"@ + zero_padded(second_of_day % 60, 2) + "Z"@
}

/// An instant in UTC; a dash stands for one that is not after the epoch.
#[verifier::opaque]
pub open spec fn instant_text(seconds: int) -> Seq<char> {
    if seconds <= 0 {
        "-"@
    } else {
        stamp(date_of(seconds / 86_400), seconds % 86_400)
    }
}

fn zero_padded_exec(n: i64, width: usize) -> (r: String)
    ensures
        r@ == zero_padded(n as int, width as int),
{
    let digits = text::dec_i64(n);
    text::pad_start_exec(digits.as_str(), '0', width)
}

/// The instant `seconds` after the epoch as `2026-09-25T08:00:00Z`, or a dash
/// for one that is not after it.
pub fn format_epoch_seconds(seconds: i64) -> (r: String)
    ensures
        r@ == instant_text(seconds as int),
{
    proof {
        reveal(instant_text);
    }
    if seconds <= 0 {
        return text::owned("-");
    }
    let days: i64 = seconds / 86_400;
    let second_of_day: i64 = seconds % 86_400;
    let (year, month, day) = civil_from_days(days);
    let hour: i64 = second_of_day / 3600;
    let minute: i64 = (second_of_day % 3600) / 60;
    let second: i64 = second_of_day % 60;
    let mut r = zero_padded_exec(year, 4);
    r.append("-");
    r.append(zero_padded_exec(month as i64, 2).as_str());
    r.append("-");
    r.append(zero_padded_exec(day as i64, 2).as_str());
    r.append("T");
    r.append(zero_padded_exec(hour, 2).as_str());
    r.append(":");
    r.append(zero_padded_exec(minute, 2).as_str());
    r.append(":");
    r.append(zero_padded_exec(second, 2).as_str());
    r.append("Z");
    r
}

pub open spec fn is_digit(c: char) -> bool {
    '0' <= c && c <= '9'
}

pub open spec fn digit_value(c: char) -> int {
    c as int - '0' as int
}

/// The number written by the two digits at `i`.
pub open spec fn two_digits(s: Seq<char>, i: int) -> Option<int> {
    if is_digit(s[i]) && is_digit(s[i + 1]) {
        Some(10 * digit_value(s[i]) + digit_value(s[i + 1]))
    } else {
        None
    }
}

/// The number written by the four digits at `i`.
pub open spec fn four_digits(s: Seq<char>, i: int) -> Option<int> {
    match (two_digits(s, i), two_digits(s, i + 2)) {
        (Some(high), Some(low)) => Some(100 * high + low),
        _ => None,
    }
}

/// The seconds from the epoch to the `YYYY-MM-DDTHH:MM:SS` that `s` starts
/// with, taken as UTC.
pub open spec fn clock_seconds(s: Seq<char>) -> Option<int> {
    match (
        four_digits(s, 0),
        two_digits(s, 5),
        two_digits(s, 8),
        two_digits(s, 11),
        two_digits(s, 14),
        two_digits(s, 17),
    ) {
        (Some(year), Some(month), Some(day), Some(hour), Some(minute), Some(second)) => {
            if s[4] == '-' && s[7] == '-' && s[10] == 'T' && s[13] == ':' && s[16] == ':'
                && valid_date(year, month, day) && hour <= 23 && minute <= 59 && second <= 59 {
                Some(epoch_day(year, month, day) * 86_400 + hour * 3600 + minute * 60 + second)
            } else {
                None
            }
        },
        _ => None,
    }
}

/// How many digits `s` starts with.
pub open spec fn digit_run(s: Seq<char>) -> int
    decreases s.len(),
{
    if s.len() > 0 && is_digit(s[0]) {
        1 + digit_run(s.skip(1))
    } else {
        0
    }
}

/// What follows an optional fraction; a point without a digit is no fraction.
pub open spec fn after_fraction(s: Seq<char>) -> Option<Seq<char>> {
    if s.len() > 0 && s[0] == '.' {
        if digit_run(s.skip(1)) == 0 {
            None
        } else {
            Some(s.skip(1 + digit_run(s.skip(1))))
        }
    } else {
        Some(s)
    }
}

/// The seconds that a zone lies ahead of UTC: `Z`, or a sign, two digits of
/// hours, a colon and two digits of minutes.
pub open spec fn zone_seconds(s: Seq<char>) -> Option<int> {
    if s.len() == 1 && (s[0] == 'Z' || s[0] == 'z') {
        Some(0)
    } else if s.len() == 6 && (s[0] == '+' || s[0] == '-') && s[3] == ':' {
        match (two_digits(s, 1), two_digits(s, 4)) {
            (Some(hour), Some(minute)) => {
                if hour <= 23 && minute <= 59 {
                    let ahead = hour * 3600 + minute * 60;
                    Some(if s[0] == '+' { ahead } else { -ahead })
                } else {
                    None
                }
            },
            _ => None,
        }
    } else {
        None
    }
}

/// The instant that `s` writes, in seconds from the epoch: a date, a time of
/// day, an optional fraction that is read past, and a zone.
#[verifier::opaque]
pub open spec fn parse_instant(s: Seq<char>) -> Option<int> {
    if s.len() < 20 || !vstd::utf8::is_ascii_chars(s) {
        None
    } else {
        match (clock_seconds(s), after_fraction(s.skip(19))) {
            (Some(clock), Some(zone)) => match zone_seconds(zone) {
                Some(ahead) => Some(clock - ahead),
                None => None,
            },
            _ => None,
        }
    }
}

pub open spec fn not_an_instant(s: Seq<char>) -> Seq<char> {
    "`"@ + s
        + "` is not a timestamp with a timezone, e.g. 2026-09-25T08:00:00Z or 2026-09-25T13:30:00+05:30"@
}

fn digit_at(v: &Vec<char>, i: usize) -> (r: Option<i64>)
    requires
        i < v@.len(),
    ensures
        r == if is_digit(v@[i as int]) { Some(digit_value(v@[i as int]) as i64) } else { None },
        r is Some ==> 0 <= r->0 <= 9 && r->0 == digit_value(v@[i as int]),
{
    let c = v[i];
    if '0' <= c && c <= '9' {
        Some(c as u32 as i64 - 48)
    } else {
        None
    }
}

fn two_digits_at(v: &Vec<char>, i: usize) -> (r: Option<i64>)
    requires
        i + 1 < v.len(),
    ensures
        match two_digits(v@, i as int) {
            Some(n) => r == Some(n as i64) && 0 <= n <= 99,
            None => r is None,
        },
{
    match (digit_at(v, i), digit_at(v, i + 1)) {
        (Some(high), Some(low)) => Some(10 * high + low),
        _ => None,
    }
}

fn clock_at(v: &Vec<char>) -> (r: Option<i64>)
    requires
        v@.len() >= 19,
    ensures
        match clock_seconds(v@) {
            Some(n) => r == Some(n as i64) && -70_000_000_000 <= n <= 300_000_000_000,
            None => r is None,
        },
{
    let year: i64 = match (two_digits_at(v, 0), two_digits_at(v, 2)) {
        (Some(high), Some(low)) => 100 * high + low,
        _ => return None,
    };
    match (
        two_digits_at(v, 5),
        two_digits_at(v, 8),
        two_digits_at(v, 11),
        two_digits_at(v, 14),
        two_digits_at(v, 17),
    ) {
        (Some(month), Some(day), Some(hour), Some(minute), Some(second)) => {
            let separators = v[4] == '-' && v[7] == '-' && v[10] == 'T' && v[13] == ':' && v[16] == ':';
            if !separators || month < 1 || month > 12 || day < 1 || day > days_in_month(year, month)
                || hour > 23 || minute > 59 || second > 59 {
                return None;
            }
            proof {
                year_day_bounds(year as int, month as int, day as int);
            }
            Some(days_from_civil(year, month, day) * SECONDS_PER_DAY + hour * 3600 + minute * 60 + second)
        },
        _ => None,
    }
}

proof fn year_day_bounds(y: int, m: int, d: int)
    requires
        0 <= y <= 9999,
        valid_date(y, m, d),
    ensures
        -719_528 <= epoch_day(y, m, d) <= 2_932_896,
{
    month_table(y);
}

proof fn digit_run_bound(s: Seq<char>)
    ensures
        0 <= digit_run(s) <= s.len(),
    decreases s.len(),
{
    if s.len() > 0 && is_digit(s[0]) {
        digit_run_bound(s.skip(1));
    }
}

fn digit_run_from(v: &Vec<char>, from: usize) -> (r: usize)
    requires
        from <= v@.len(),
    ensures
        r == digit_run(v@.skip(from as int)),
        from + r <= v@.len(),
    decreases v@.len() - from,
{
    if from < v.len() && digit_at(v, from).is_some() {
        assert(v@.skip(from as int).skip(1) =~= v@.skip(from + 1));
        1 + digit_run_from(v, from + 1)
    } else {
        0
    }
}

fn zone_at(v: &Vec<char>, from: usize) -> (r: Option<i64>)
    requires
        from <= v@.len(),
    ensures
        match zone_seconds(v@.skip(from as int)) {
            Some(n) => r == Some(n as i64) && -90_000 <= n <= 90_000,
            None => r is None,
        },
{
    let left: usize = v.len() - from;
    if left == 1 && (v[from] == 'Z' || v[from] == 'z') {
        return Some(0);
    }
    if left != 6 || !(v[from] == '+' || v[from] == '-') || v[from + 3] != ':' {
        return None;
    }
    assert(two_digits(v@.skip(from as int), 1) == two_digits(v@, from + 1));
    assert(two_digits(v@.skip(from as int), 4) == two_digits(v@, from + 4));
    match (two_digits_at(v, from + 1), two_digits_at(v, from + 4)) {
        (Some(hour), Some(minute)) => {
            if hour > 23 || minute > 59 {
                return None;
            }
            let ahead: i64 = hour * 3600 + minute * 60;
            Some(if v[from] == '+' { ahead } else { -ahead })
        },
        _ => None,
    }
}

/// Unix seconds for an ISO 8601 instant that carries its own timezone
/// (`2026-09-25T08:00:00Z`, `...+05:30`, optional fractional seconds).
pub fn parse_iso_instant(text: &str) -> (r: Result<i64, String>)
    ensures
        match parse_instant(text@) {
            Some(n) => r == Ok::<i64, String>(n as i64) && -71_000_000_000 <= n <= 301_000_000_000,
            None => r is Err && r->Err_0@ == not_an_instant(text@),
        },
{
    proof {
        reveal(parse_instant);
    }
    let v = text::chars_of(text);
    if v.len() >= 20 && text.is_ascii() {
        let zone_from: usize = if v[19] == '.' { 20 + digit_run_from(&v, 20) } else { 19 };
        proof {
            assert(v@.skip(19).skip(1) =~= v@.skip(20));
            digit_run_bound(v@.skip(20));
            assert(v@.skip(19).skip(1 + digit_run(v@.skip(20))) =~= v@.skip(20 + digit_run(v@.skip(20))));
        }
        if zone_from != 20 {
            match (clock_at(&v), zone_at(&v, zone_from)) {
                (Some(clock), Some(ahead)) => {
                    return Ok(clock - ahead);
                },
                _ => {},
            }
        }
    }
    Err(
        text::cat3(
            "`",
            text,
            "` is not a timestamp with a timezone, e.g. 2026-09-25T08:00:00Z or 2026-09-25T13:30:00+05:30",
        ),
    )
}

proof fn two_padded(n: int)
    requires
        0 <= n <= 99,
    ensures
        zero_padded(n, 2) == seq![text::digit_char(n / 10), text::digit_char(n % 10)],
{
    reveal_with_fuel(text::dec_nat, 3);
    assert(zero_padded(n, 2) =~= seq![text::digit_char(n / 10), text::digit_char(n % 10)]);
}

proof fn four_padded(n: int)
    requires
        0 <= n <= 9999,
    ensures
        zero_padded(n, 4) == seq![
            text::digit_char(n / 1000),
            text::digit_char(n / 100 % 10),
            text::digit_char(n / 10 % 10),
            text::digit_char(n % 10),
        ],
{
    reveal_with_fuel(text::dec_nat, 5);
    assert(zero_padded(n, 4) =~= seq![
        text::digit_char(n / 1000),
        text::digit_char(n / 100 % 10),
        text::digit_char(n / 10 % 10),
        text::digit_char(n % 10),
    ]);
}

proof fn two_read(s: Seq<char>, i: int, n: int)
    requires
        0 <= n <= 99,
        s[i] == text::digit_char(n / 10),
        s[i + 1] == text::digit_char(n % 10),
    ensures
        two_digits(s, i) == Some(n),
{
}

/// The characters of a written date.
proof fn date_chars(y: int, m: int, d: int) -> (p: Seq<char>)
    requires
        0 <= y <= 9999,
        0 <= m <= 99,
        0 <= d <= 99,
    ensures
        p == zero_padded(y, 4) + "-"@ + zero_padded(m, 2) + "-"@ + zero_padded(d, 2),
        p =~= seq![
            text::digit_char(y / 1000),
            text::digit_char(y / 100 % 10),
            text::digit_char(y / 10 % 10),
            text::digit_char(y % 10),
            '-',
            text::digit_char(m / 10),
            text::digit_char(m % 10),
            '-',
            text::digit_char(d / 10),
            text::digit_char(d % 10),
        ],
{
    reveal_strlit("-");
    four_padded(y);
    two_padded(m);
    two_padded(d);
    zero_padded(y, 4) + "-"@ + zero_padded(m, 2) + "-"@ + zero_padded(d, 2)
}

/// The characters of a time of day put behind a written date.
proof fn time_chars(p: Seq<char>, h: int, mi: int, se: int) -> (s: Seq<char>)
    requires
        p.len() == 10,
        0 <= h <= 99,
        0 <= mi <= 99,
        0 <= se <= 99,
    ensures
        s == p + "T"@ + zero_padded(h, 2) + ":"@ + zero_padded(mi, 2) + ":"@ + zero_padded(se, 2) + "Z"@,
        s =~= p + seq![
            'T',
            text::digit_char(h / 10),
            text::digit_char(h % 10),
            ':',
            text::digit_char(mi / 10),
            text::digit_char(mi % 10),
            ':',
            text::digit_char(se / 10),
            text::digit_char(se % 10),
            'Z',
        ],
{
    reveal_strlit("T");
    reveal_strlit(":");
    reveal_strlit("Z");
    two_padded(h);
    two_padded(mi);
    two_padded(se);
    p + "T"@ + zero_padded(h, 2) + ":"@ + zero_padded(mi, 2) + ":"@ + zero_padded(se, 2) + "Z"@
}

/// The clock reading of twenty characters whose fields and separators are known.
proof fn clock_of(s: Seq<char>, y: int, m: int, d: int, h: int, mi: int, se: int)
    requires
        four_digits(s, 0) == Some(y),
        two_digits(s, 5) == Some(m),
        two_digits(s, 8) == Some(d),
        two_digits(s, 11) == Some(h),
        two_digits(s, 14) == Some(mi),
        two_digits(s, 17) == Some(se),
        s[4] == '-' && s[7] == '-' && s[10] == 'T' && s[13] == ':' && s[16] == ':',
        valid_date(y, m, d),
        h <= 23 && mi <= 59 && se <= 59,
    ensures
        clock_seconds(s) == Some(epoch_day(y, m, d) * 86_400 + h * 3600 + mi * 60 + se),
{
}

proof fn month_day_small(y: int, m: int, d: int)
    requires
        valid_date(y, m, d),
    ensures
        1 <= m <= 12,
        1 <= d <= 31,
{
}

/// The characters of a written instant, field by field.
proof fn stamp_fields(y: int, m: int, d: int, h: int, mi: int, se: int) -> (s: Seq<char>)
    requires
        0 <= y <= 9999,
        0 <= m <= 99,
        0 <= d <= 99,
        0 <= h <= 23,
        0 <= mi <= 59,
        0 <= se <= 59,
    ensures
        s == zero_padded(y, 4) + "-"@ + zero_padded(m, 2) + "-"@ + zero_padded(d, 2) + "T"@
            + zero_padded(h, 2) + ":"@ + zero_padded(mi, 2) + ":"@ + zero_padded(se, 2) + "Z"@,
        s.len() == 20,
        four_digits(s, 0) == Some(y),
        two_digits(s, 5) == Some(m),
        two_digits(s, 8) == Some(d),
        two_digits(s, 11) == Some(h),
        two_digits(s, 14) == Some(mi),
        two_digits(s, 17) == Some(se),
        s[4] == '-' && s[7] == '-' && s[10] == 'T' && s[13] == ':' && s[16] == ':' && s[19] == 'Z',
        vstd::utf8::is_ascii_chars(s),
{
    let p = date_chars(y, m, d);
    let s = time_chars(p, h, mi, se);
    assert(s.len() == 20);
    four_read(s, y);
    assert(two_digits(s, 5) == Some(m)) by {
        two_read(s, 5, m);
    }
    assert(two_digits(s, 8) == Some(d)) by {
        two_read(s, 8, d);
    }
    assert(two_digits(s, 11) == Some(h)) by {
        two_read(s, 11, h);
    }
    assert(two_digits(s, 14) == Some(mi)) by {
        two_read(s, 14, mi);
    }
    assert(two_digits(s, 17) == Some(se)) by {
        two_read(s, 17, se);
    }
    assert(s[19] == 'Z');
    stamp_is_ascii(s);
    s
}

proof fn four_read(s: Seq<char>, y: int)
    requires
        0 <= y <= 9999,
        s[0] == text::digit_char(y / 1000),
        s[1] == text::digit_char(y / 100 % 10),
        s[2] == text::digit_char(y / 10 % 10),
        s[3] == text::digit_char(y % 10),
    ensures
        four_digits(s, 0) == Some(y),
{
    assert(y / 100 / 10 == y / 1000);
    assert(y % 100 / 10 == y / 10 % 10);
    assert(y % 100 % 10 == y % 10);
    two_read(s, 0, y / 100);
    two_read(s, 2, y % 100);
}

proof fn stamp_is_ascii(s: Seq<char>)
    requires
        s.len() == 20,
        four_digits(s, 0) is Some,
        two_digits(s, 5) is Some,
        two_digits(s, 8) is Some,
        two_digits(s, 11) is Some,
        two_digits(s, 14) is Some,
        two_digits(s, 17) is Some,
        s[4] == '-' && s[7] == '-' && s[10] == 'T' && s[13] == ':' && s[16] == ':' && s[19] == 'Z',
    ensures
        vstd::utf8::is_ascii_chars(s),
{
}

/// Reading a written date and time of day gives back the instant.
#[verifier::spinoff_prover]
#[verifier::rlimit(40)]
proof fn stamp_parses(y: int, m: int, d: int, t: int)
    requires
        0 <= y <= 9999,
        valid_date(y, m, d),
        0 <= t < 86_400,
    ensures
        parse_instant(stamp((y, m, d), t)) == Some(epoch_day(y, m, d) * 86_400 + t),
{
    reveal(parse_instant);
    month_day_small(y, m, d);
    let (h, mi, se) = (t / 3600, (t % 3600) / 60, t % 60);
    let s = stamp_fields(y, m, d, h, mi, se);
    clock_of(s, y, m, d, h, mi, se);
    assert(s.skip(19) =~= seq!['Z']);
}

/// A day from 1970 to 9999 has a date in those years.
proof fn date_in_range(z: int)
    requires
        0 <= z <= 2_932_896,
    ensures
        ({
            let t = date_of(z);
            valid_date(t.0, t.1, t.2) && epoch_day(t.0, t.1, t.2) == z && 0 <= t.0 <= 9999
        }),
{
    date_exists(z);
    let t = date_of(z);
    year_of_day(t.0, t.1, t.2);
}

proof fn year_of_day(y: int, m: int, d: int)
    requires
        valid_date(y, m, d),
        0 <= epoch_day(y, m, d) <= 2_932_896,
    ensures
        0 <= y <= 9999,
{
    month_table(y);
    year_length(y);
    if y >= 10_000 {
        years_are_ordered(9_999, y);
    }
    if y < 0 {
        years_are_ordered(y, 0);
    }
}

/// Parsing inverts the formatter: every instant after the epoch and before the
/// year 10000 is read back as itself from the text it is written as.
pub proof fn parsing_inverts_the_formatter(seconds: int)
    requires
        0 < seconds < 253_402_300_800,
    ensures
        parse_instant(instant_text(seconds)) == Some(seconds),
{
    reveal(instant_text);
    let z = seconds / 86_400;
    date_in_range(z);
    let t = date_of(z);
    stamp_parses(t.0, t.1, t.2, seconds % 86_400);
}

/// Every day of the years 1970 to 9999 has a date.
proof fn date_exists(z: int)
    requires
        0 <= z <= 2_932_896,
    ensures
        ({
            let t = date_of(z);
            valid_date(t.0, t.1, t.2) && epoch_day(t.0, t.1, t.2) == z
        }),
{
    let shifted = z + 719_468;
    let e = shifted / 146_097;
    let doe = shifted - e * 146_097;
    let r = (doe - doe / 1460 + doe / 36524 - doe / 146_096) / 365;
    era_split(doe, r);
    let doy = doe - (365 * r + r / 4 - r / 100);
    let mp = (5 * doy + 2) / 153;
    march_split(doy, mp);
    let m = if mp < 10 { mp + 3 } else { mp - 9 };
    let y = r + 400 * e;
    let year = if m <= 2 { y + 1 } else { y };
    march_date(y, e, r, doy, mp, m, year);
    date_is(z, year, m, doy - march_days(mp) + 1);
}

/// The days follow one another: the next day is one later, over the end of a month
/// and of a year too, and they are counted from the first of 1970.
pub proof fn the_next_day_is_one_later(y: int, m: int, d: int)
    requires
        valid_date(y, m, d),
    ensures
        epoch_day(1970, 1, 1) == 0,
        d < month_days(y, m) ==> valid_date(y, m, d + 1) && epoch_day(y, m, d + 1) == epoch_day(y, m, d) + 1,
        d == month_days(y, m) && m < 12 ==> valid_date(y, m + 1, 1) && epoch_day(y, m + 1, 1) == epoch_day(y, m, d) + 1,
        d == month_days(y, m) && m == 12 ==> valid_date(y + 1, 1, 1) && epoch_day(y + 1, 1, 1) == epoch_day(y, m, d) + 1,
{
    assert(days_before_month(1970, 1) == 0);
    assert(days_before_month(y, m + 1) == days_before_month(y, m) + month_days(y, m));
    if m == 12 {
        year_length(y);
        assert(days_before_month(y + 1, 1) == 0);
    }
}

/// A month has thirty or thirty-one days, but for February: that has one more in
/// every fourth year, though not in every hundredth, yet in every four hundredth.
pub proof fn february_is_longer_in_a_leap_year(y: int, m: int)
    requires
        1 <= m <= 12,
    ensures
        m != 2 ==> month_days(y, m) == 30 || month_days(y, m) == 31,
        m == 4 || m == 6 || m == 9 || m == 11 <==> month_days(y, m) == 30,
        month_days(y, 2) == 28 || month_days(y, 2) == 29,
        y % 400 == 0 ==> month_days(y, 2) == 29,
        y % 100 == 0 && y % 400 != 0 ==> month_days(y, 2) == 28,
        y % 4 == 0 && y % 100 != 0 ==> month_days(y, 2) == 29,
        y % 4 != 0 && y % 400 != 0 ==> month_days(y, 2) == 28,
{
}

proof fn a_run_of_digits(s: Seq<char>, digits: Seq<char>, rest: Seq<char>)
    requires
        s =~= digits + rest,
        forall|i: int| 0 <= i < digits.len() ==> '0' <= #[trigger] digits[i] && digits[i] <= '9',
        rest.len() > 0 ==> !('0' <= rest[0] && rest[0] <= '9'),
    ensures
        digit_run(s) == digits.len(),
    decreases digits.len(),
{
    if digits.len() > 0 {
        assert(s[0] == digits[0]);
        let fewer = digits.skip(1);
        assert forall|i: int| 0 <= i < fewer.len() implies '0' <= #[trigger] fewer[i] && fewer[i] <= '9' by {
            assert(fewer[i] == digits[i + 1]);
        }
        a_run_of_digits(s.skip(1), fewer, rest);
    } else if rest.len() > 0 {
        assert(s[0] == rest[0]);
    }
}

/// A clock that is ahead of the world's shows an instant that has come earlier: the
/// same digits with a zone mean that much less, and with one behind that much more.
pub proof fn a_zone_ahead_is_earlier(clock: Seq<char>, hours: Seq<char>, minutes: Seq<char>)
    requires
        clock.len() == 19,
        hours.len() == 2 && minutes.len() == 2,
        vstd::utf8::is_ascii_chars(clock) && vstd::utf8::is_ascii_chars(hours) && vstd::utf8::is_ascii_chars(minutes),
        two_digits(hours, 0) is Some && two_digits(hours, 0)->0 <= 23,
        two_digits(minutes, 0) is Some && two_digits(minutes, 0)->0 <= 59,
        parse_instant(clock + seq!['Z']) is Some,
    ensures
        ({
            let t = parse_instant(clock + seq!['Z'])->0;
            let off = two_digits(hours, 0)->0 * 3600 + two_digits(minutes, 0)->0 * 60;
            &&& parse_instant(clock + (seq!['+'] + hours + seq![':'] + minutes)) == Some(t - off)
            &&& parse_instant(clock + (seq!['-'] + hours + seq![':'] + minutes)) == Some(t + off)
            &&& parse_instant(clock + seq!['z']) == Some(t)
            &&& parse_instant(clock) is None
        }),
{
    reveal(parse_instant);
    let ahead = seq!['+'] + hours + seq![':'] + minutes;
    let behind = seq!['-'] + hours + seq![':'] + minutes;
    a_clock_is_read_on_its_own(clock, seq!['Z']);
    a_clock_is_read_on_its_own(clock, seq!['z']);
    a_clock_is_read_on_its_own(clock, ahead);
    a_clock_is_read_on_its_own(clock, behind);
    assert(vstd::utf8::is_ascii_chars(clock + ahead));
    assert(vstd::utf8::is_ascii_chars(clock + behind));
    assert(vstd::utf8::is_ascii_chars(clock + seq!['z']));
    assert(ahead[1] == hours[0] && ahead[2] == hours[1] && ahead[3] == ':' && ahead[4] == minutes[0] && ahead[5]
        == minutes[1]);
    assert(behind[1] == hours[0] && behind[2] == hours[1] && behind[3] == ':' && behind[4] == minutes[0] && behind[5]
        == minutes[1]);
}

proof fn a_clock_is_read_on_its_own(clock: Seq<char>, zone: Seq<char>)
    requires
        clock.len() == 19,
    ensures
        clock_seconds(clock + zone) == clock_seconds(clock),
        (clock + zone).skip(19) == zone,
{
    let s = clock + zone;
    assert forall|i: int| 0 <= i < 19 implies #[trigger] s[i] == clock[i] by {}
    assert(s.skip(19) =~= zone);
}

/// A fraction of a second is read over: with one or without, the instant is the
/// same.
pub proof fn a_fraction_is_read_over(clock: Seq<char>, digits: Seq<char>, zone: Seq<char>)
    requires
        clock.len() == 19,
        digits.len() > 0,
        zone.len() > 0,
        zone[0] != '.',
        forall|i: int| 0 <= i < digits.len() ==> '0' <= #[trigger] digits[i] && digits[i] <= '9',
        !('0' <= zone[0] && zone[0] <= '9'),
        vstd::utf8::is_ascii_chars(clock) && vstd::utf8::is_ascii_chars(zone),
    ensures
        parse_instant(clock + (seq!['.'] + digits + zone)) == parse_instant(clock + zone),
{
    reveal(parse_instant);
    let long = seq!['.'] + digits + zone;
    a_clock_is_read_on_its_own(clock, long);
    a_clock_is_read_on_its_own(clock, zone);
    assert(long.skip(1) =~= digits + zone);
    a_run_of_digits(long.skip(1), digits, zone);
    assert(long.skip(1 + digits.len() as int) =~= zone);
    assert(vstd::utf8::is_ascii_chars(clock + zone));
    assert(vstd::utf8::is_ascii_chars(clock + long)) by {
        assert forall|i: int| 0 <= i < digits.len() implies (#[trigger] digits[i] as int) < 0x80 by {
            assert('0' <= digits[i] && digits[i] <= '9');
        }
    }
}

/// What is not after the epoch is no instant and shown as a dash; what is, is shown
/// with its day and its time of day.
pub proof fn no_instant_is_shown_before_the_epoch(seconds: int)
    ensures
        seconds <= 0 ==> instant_text(seconds) == seq!['-'],
        seconds > 0 ==> instant_text(seconds) == stamp(date_of(seconds / 86_400), seconds % 86_400),
        parse_instant(seq!['-']) is None,
{
    reveal(instant_text);
    reveal(parse_instant);
    reveal_strlit("-");
    assert("-"@ =~= seq!['-']);
}

/// A stamp is the date and the time, each number in its own width.
pub proof fn a_stamp_has_every_number_in_its_width(y: int, m: int, d: int, hour: int, minute: int, second: int)
    requires
        0 <= hour < 24 && 0 <= minute < 60 && 0 <= second < 60,
    ensures
        stamp((y, m, d), hour * 3600 + minute * 60 + second) == text::pad_start(text::dec(y), '0', 4) + seq!['-']
            + text::pad_start(text::dec(m), '0', 2) + seq!['-'] + text::pad_start(text::dec(d), '0', 2) + seq!['T']
            + text::pad_start(text::dec(hour), '0', 2) + seq![':'] + text::pad_start(text::dec(minute), '0', 2)
            + seq![':'] + text::pad_start(text::dec(second), '0', 2) + seq!['Z'],
{
    reveal_strlit("-");
    reveal_strlit("T");
    reveal_strlit(":");
    reveal_strlit("Z");
    assert("-"@ =~= seq!['-'] && "T"@ =~= seq!['T'] && ":"@ =~= seq![':'] && "Z"@ =~= seq!['Z']);
    let t = hour * 3600 + minute * 60 + second;
    assert(t / 3600 == hour && t % 3600 == minute * 60 + second);
    assert((t % 3600) / 60 == minute && t % 60 == second);
}

} // verus!
