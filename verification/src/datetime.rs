//! Civil date and time arithmetic for the configured fixed offset.
//!
//! Scheduling input arrives as text in the fixed format
//! `YYYY-MM-DD HH:MM`, read in the team's fixed +03:00 offset, and is
//! stored as seconds since the Unix epoch. Listings render an instant back
//! as `DD-MM-YYYY HH:MM:SS` in the same offset. Years 1970 through 9999
//! are representable.

use vstd::prelude::*;

use crate::errors::AppError;

verus! {

/// Seconds the fixed civil offset lies ahead of UTC.
pub const UTC_OFFSET_SECONDS: i64 = 10800;

/// The Gregorian leap-year rule.
pub open spec fn spec_is_leap_year(y: int) -> bool {
    y % 4 == 0 && (y % 100 != 0 || y % 400 == 0)
}

/// Days in the year.
pub open spec fn spec_days_in_year(y: int) -> int {
    if spec_is_leap_year(y) {
        366
    } else {
        365
    }
}

/// Days in the month (1 through 12) of the year.
pub open spec fn spec_days_in_month(y: int, m: int) -> int {
    if m == 2 {
        if spec_is_leap_year(y) {
            29
        } else {
            28
        }
    } else if m == 4 || m == 6 || m == 9 || m == 11 {
        30
    } else {
        31
    }
}

/// Days from 1970-01-01 to January 1 of the year.
pub open spec fn days_before_year(y: int) -> int
    decreases y,
{
    if y <= 1970 {
        0
    } else {
        days_before_year(y - 1) + spec_days_in_year(y - 1)
    }
}

/// Days from January 1 to the first of the month in the year.
pub open spec fn days_before_month(y: int, m: int) -> int
    decreases m,
{
    if m <= 1 {
        0
    } else {
        days_before_month(y, m - 1) + spec_days_in_month(y, m - 1)
    }
}

/// Days from 1970-01-01 to the civil date.
pub open spec fn epoch_days(y: int, m: int, d: int) -> int {
    days_before_year(y) + days_before_month(y, m) + (d - 1)
}

/// Seconds from the epoch, in local civil time, of the civil instant.
pub open spec fn local_seconds(y: int, m: int, d: int, h: int, mi: int, s: int) -> int {
    epoch_days(y, m, d) * 86400 + h * 3600 + mi * 60 + s
}

/// A representable civil instant.
pub open spec fn valid_civil(y: int, m: int, d: int, h: int, mi: int) -> bool {
    &&& 1970 <= y <= 9999
    &&& 1 <= m <= 12
    &&& 1 <= d <= spec_days_in_month(y, m)
    &&& 0 <= h <= 23
    &&& 0 <= mi <= 59
}

/// Day count stays under 366 days per elapsed year.
pub proof fn lemma_days_before_year_le(y: int)
    requires
        y >= 1970,
    ensures
        days_before_year(y) <= 366 * (y - 1970),
    decreases y,
{
    if y > 1970 {
        lemma_days_before_year_le(y - 1);
    }
}

/// An ASCII decimal digit.
pub open spec fn is_digit(c: char) -> bool {
    '0' <= c <= '9'
}

/// Value of an ASCII decimal digit.
pub open spec fn digit_val(c: char) -> int {
    c as int - 48
}

/// Whether the characters have the shape `YYYY-MM-DD HH:MM`.
pub open spec fn datetime_format_ok(cs: Seq<char>) -> bool {
    &&& cs.len() == 16
    &&& is_digit(cs[0]) && is_digit(cs[1]) && is_digit(cs[2]) && is_digit(cs[3])
    &&& cs[4] == '-'
    &&& is_digit(cs[5]) && is_digit(cs[6])
    &&& cs[7] == '-'
    &&& is_digit(cs[8]) && is_digit(cs[9])
    &&& cs[10] == ' '
    &&& is_digit(cs[11]) && is_digit(cs[12])
    &&& cs[13] == ':'
    &&& is_digit(cs[14]) && is_digit(cs[15])
}

/// The UTC instant denoted by scheduling text, if the text is well formed
/// and in range: the civil reading minus the fixed offset.
pub open spec fn spec_to_utc(cs: Seq<char>) -> Option<int> {
    if datetime_format_ok(cs) {
        let y = digit_val(cs[0]) * 1000 + digit_val(cs[1]) * 100 + digit_val(cs[2]) * 10
            + digit_val(cs[3]);
        let m = digit_val(cs[5]) * 10 + digit_val(cs[6]);
        let d = digit_val(cs[8]) * 10 + digit_val(cs[9]);
        let h = digit_val(cs[11]) * 10 + digit_val(cs[12]);
        let mi = digit_val(cs[14]) * 10 + digit_val(cs[15]);
        if valid_civil(y, m, d, h, mi) {
            Some(local_seconds(y, m, d, h, mi, 0) - UTC_OFFSET_SECONDS)
        } else {
            None
        }
    } else {
        None
    }
}

/// Days in the year, executable.
pub fn days_in_year(y: u32) -> (r: u32)
    ensures
        r == spec_days_in_year(y as int),
{
    if y % 4 == 0 && (y % 100 != 0 || y % 400 == 0) {
        366
    } else {
        365
    }
}

/// Days in the month, executable.
pub fn days_in_month(y: u32, m: u32) -> (r: u32)
    ensures
        r == spec_days_in_month(y as int, m as int),
{
    if m == 2 {
        if y % 4 == 0 && (y % 100 != 0 || y % 400 == 0) {
            29
        } else {
            28
        }
    } else if m == 4 || m == 6 || m == 9 || m == 11 {
        30
    } else {
        31
    }
}

/// Days from 1970-01-01 to January 1 of the year, executable.
fn days_before_year_exec(y: u32) -> (r: u64)
    requires
        1970 <= y <= 10000,
    ensures
        r == days_before_year(y as int),
{
    let mut days: u64 = 0;
    let mut yy: u32 = 1970;
    while yy < y
        invariant
            1970 <= yy <= y,
            days == days_before_year(yy as int),
        decreases y - yy,
    {
        proof {
            lemma_days_before_year_le(yy as int);
        }
        days = days + days_in_year(yy) as u64;
        yy = yy + 1;
    }
    days
}

/// Days from January 1 to the first of the month, executable.
fn days_before_month_exec(y: u32, m: u32) -> (r: u32)
    requires
        1 <= m <= 13,
    ensures
        r == days_before_month(y as int, m as int),
{
    let mut days: u32 = 0;
    let mut mm: u32 = 1;
    while mm < m
        invariant
            1 <= mm <= m,
            days == days_before_month(y as int, mm as int),
            days <= 31 * (mm - 1),
        decreases m - mm,
    {
        days = days + days_in_month(y, mm);
        mm = mm + 1;
    }
    days
}

/// Reads scheduling text in the fixed format `YYYY-MM-DD HH:MM`, in the
/// fixed civil offset, as a UTC epoch instant; anything else is rejected
/// before any mutation.
pub fn to_utc(s: &str) -> (r: Result<i64, AppError>)
    ensures
        r matches Ok(t) ==> spec_to_utc(s@) == Some(t as int),
        r matches Err(e) ==> spec_to_utc(s@) is None && e is InvalidArgument,
{
    let n = s.unicode_len();
    if n != 16 {
        return Err(AppError::InvalidArgument);
    }
    let mut i: usize = 0;
    while i < 16
        invariant
            0 <= i <= 16,
            s@.len() == 16,
            forall|k: int|
                0 <= k < i ==> (if k == 4 || k == 7 {
                    s@[k] == '-'
                } else if k == 10 {
                    s@[k] == ' '
                } else if k == 13 {
                    s@[k] == ':'
                } else {
                    is_digit(#[trigger] s@[k])
                }),
        decreases 16 - i,
    {
        let c = s.get_char(i);
        let ok = if i == 4 || i == 7 {
            c == '-'
        } else if i == 10 {
            c == ' '
        } else if i == 13 {
            c == ':'
        } else {
            '0' <= c && c <= '9'
        };
        if !ok {
            return Err(AppError::InvalidArgument);
        }
        i = i + 1;
    }
    assert(datetime_format_ok(s@));
    let d0 = s.get_char(0) as u32 - 48;
    let d1 = s.get_char(1) as u32 - 48;
    let d2 = s.get_char(2) as u32 - 48;
    let d3 = s.get_char(3) as u32 - 48;
    let y: u32 = d0 * 1000 + d1 * 100 + d2 * 10 + d3;
    let m: u32 = (s.get_char(5) as u32 - 48) * 10 + (s.get_char(6) as u32 - 48);
    let d: u32 = (s.get_char(8) as u32 - 48) * 10 + (s.get_char(9) as u32 - 48);
    let h: u32 = (s.get_char(11) as u32 - 48) * 10 + (s.get_char(12) as u32 - 48);
    let mi: u32 = (s.get_char(14) as u32 - 48) * 10 + (s.get_char(15) as u32 - 48);
    if y < 1970 || m < 1 || m > 12 || d < 1 || d > days_in_month(y, m) || h > 23 || mi > 59 {
        return Err(AppError::InvalidArgument);
    }
    proof {
        lemma_days_before_year_le(y as int);
    }
    let days: u64 = days_before_year_exec(y) + days_before_month_exec(y, m) as u64 + (d - 1)
        as u64;
    let total: u64 = days * 86400 + h as u64 * 3600 + mi as u64 * 60;
    let t: i64 = total as i64 - UTC_OFFSET_SECONDS;
    Ok(t)
}

/// The year and the day within it, splitting a day count by walking years
/// upward from 1970.
pub open spec fn split_year(days: int, y: int) -> (int, int)
    decreases 10000 - y,
{
    if y >= 9999 || days < spec_days_in_year(y) {
        (y, days)
    } else {
        split_year(days - spec_days_in_year(y), y + 1)
    }
}

/// The month and the day offset within it, splitting a day-of-year by
/// walking months upward from the given one.
pub open spec fn split_month(doy: int, y: int, m: int) -> (int, int)
    decreases 13 - m,
{
    if m >= 12 || doy < spec_days_in_month(y, m) {
        (m, doy)
    } else {
        split_month(doy - spec_days_in_month(y, m), y, m + 1)
    }
}

/// The character of a decimal digit.
pub open spec fn spec_digit_char(d: int) -> char {
    if d == 0 {
        '0'
    } else if d == 1 {
        '1'
    } else if d == 2 {
        '2'
    } else if d == 3 {
        '3'
    } else if d == 4 {
        '4'
    } else if d == 5 {
        '5'
    } else if d == 6 {
        '6'
    } else if d == 7 {
        '7'
    } else if d == 8 {
        '8'
    } else {
        '9'
    }
}

/// Two zero-padded decimal digits.
pub open spec fn spec_two_digits(n: int) -> Seq<char> {
    seq![spec_digit_char(n / 10), spec_digit_char(n % 10)]
}

/// Four zero-padded decimal digits.
pub open spec fn spec_four_digits(n: int) -> Seq<char> {
    seq![
        spec_digit_char(n / 1000),
        spec_digit_char((n / 100) % 10),
        spec_digit_char((n / 10) % 10),
        spec_digit_char(n % 10),
    ]
}

/// The civil rendering `DD-MM-YYYY HH:MM:SS` of a civil instant.
pub open spec fn spec_civil_text(y: int, m: int, d: int, h: int, mi: int, s: int) -> Seq<char> {
    spec_two_digits(d) + seq!['-'] + spec_two_digits(m) + seq!['-'] + spec_four_digits(y) + seq![
        ' ',
    ] + spec_two_digits(h) + seq![':'] + spec_two_digits(mi) + seq![':'] + spec_two_digits(s)
}

/// The rendering of a UTC instant in the fixed civil offset.
pub open spec fn spec_moscow(ts: int) -> Seq<char> {
    let local = ts + UTC_OFFSET_SECONDS;
    let days = local / 86400;
    let sod = local % 86400;
    let yd = split_year(days, 1970);
    let md = split_month(yd.1, yd.0, 1);
    spec_civil_text(yd.0, md.0, md.1 + 1, sod / 3600, (sod % 3600) / 60, sod % 60)
}

/// The one-character string of a decimal digit.
fn digit_str(d: u32) -> (r: &'static str)
    requires
        d < 10,
    ensures
        r@ == seq![spec_digit_char(d as int)],
{
    proof {
        reveal_strlit("0");
        reveal_strlit("1");
        reveal_strlit("2");
        reveal_strlit("3");
        reveal_strlit("4");
        reveal_strlit("5");
        reveal_strlit("6");
        reveal_strlit("7");
        reveal_strlit("8");
        reveal_strlit("9");
    }
    let r = match d {
        0 => "0",
        1 => "1",
        2 => "2",
        3 => "3",
        4 => "4",
        5 => "5",
        6 => "6",
        7 => "7",
        8 => "8",
        _ => "9",
    };
    proof {
        assert(r@ =~= seq![spec_digit_char(d as int)]);
    }
    r
}

/// Appends two zero-padded digits.
fn push_two_digits(out: &mut String, n: u32)
    requires
        n < 100,
    ensures
        final(out)@ == old(out)@ + spec_two_digits(n as int),
{
    out.append(digit_str(n / 10));
    out.append(digit_str(n % 10));
    proof {
        assert(final(out)@ =~= old(out)@ + spec_two_digits(n as int));
    }
}

/// Appends four zero-padded digits.
fn push_four_digits(out: &mut String, n: u32)
    requires
        n < 10000,
    ensures
        final(out)@ == old(out)@ + spec_four_digits(n as int),
{
    out.append(digit_str(n / 1000));
    out.append(digit_str((n / 100) % 10));
    out.append(digit_str((n / 10) % 10));
    out.append(digit_str(n % 10));
    proof {
        assert(final(out)@ =~= old(out)@ + spec_four_digits(n as int));
    }
}

/// Renders a UTC instant as `DD-MM-YYYY HH:MM:SS` in the fixed civil
/// offset, for listings and session replies.
pub fn moscow(ts: i64) -> (r: String)
    requires
        ts + UTC_OFFSET_SECONDS >= 0,
        ts + UTC_OFFSET_SECONDS < days_before_year(10000) * 86400,
    ensures
        r@ == spec_moscow(ts as int),
{
    proof {
        lemma_days_before_year_le(10000);
    }
    let local: i64 = ts + UTC_OFFSET_SECONDS;
    let local_u: u64 = local as u64;
    let days_total: u64 = local_u / 86400;
    let sod: u64 = local_u % 86400;
    let mut y: u32 = 1970;
    let mut rem: u64 = days_total;
    while !(y >= 9999 || rem < days_in_year(y) as u64)
        invariant
            1970 <= y <= 9999,
            split_year(days_total as int, 1970) == split_year(rem as int, y as int),
            days_before_year(y as int) + rem == days_total,
        decreases 10000 - y,
    {
        rem = rem - days_in_year(y) as u64;
        y = y + 1;
    }
    proof {
        assert(days_total < days_before_year(10000));
        if y == 9999 {
            assert(days_before_year(10000) == days_before_year(9999) + spec_days_in_year(9999));
        }
        assert(rem < spec_days_in_year(y as int));
    }
    let doy: u32 = rem as u32;
    let mut m: u32 = 1;
    let mut rem2: u32 = doy;
    while !(m >= 12 || rem2 < days_in_month(y, m))
        invariant
            1 <= m <= 12,
            split_month(doy as int, y as int, 1) == split_month(rem2 as int, y as int, m as int),
            days_before_month(y as int, m as int) + rem2 == doy,
        decreases 13 - m,
    {
        rem2 = rem2 - days_in_month(y, m);
        m = m + 1;
    }
    proof {
        if m == 12 {
            reveal_with_fuel(days_before_month, 14);
            assert(days_before_month(y as int, 13) == spec_days_in_year(y as int));
        }
        assert(rem2 < spec_days_in_month(y as int, m as int));
    }
    let d: u32 = rem2 + 1;
    let h: u32 = (sod / 3600) as u32;
    let mi: u32 = ((sod % 3600) / 60) as u32;
    let s: u32 = (sod % 60) as u32;
    let mut out = String::new();
    push_two_digits(&mut out, d);
    out.append("-");
    push_two_digits(&mut out, m);
    out.append("-");
    push_four_digits(&mut out, y);
    out.append(" ");
    push_two_digits(&mut out, h);
    out.append(":");
    push_two_digits(&mut out, mi);
    out.append(":");
    push_two_digits(&mut out, s);
    proof {
        reveal_strlit("-");
        reveal_strlit(" ");
        reveal_strlit(":");
        assert("-"@ =~= seq!['-']);
        assert(" "@ =~= seq![' ']);
        assert(":"@ =~= seq![':']);
        assert(out@ =~= spec_moscow(ts as int));
    }
    out
}

} // verus!
