use vstd::prelude::*;

verus! {

/// The lowercase character of a single digit value below 16.
pub open spec fn digit_char(d: nat) -> char {
    if d == 0 {
        '0'
    } else if d == 1 {
        '1'
    } else if d == 2 {
        '2'
    } else if d == 3 {
        '3'
    } else if d == 4 {
        '4'
    } else if d == 5 {
        '5'
    } else if d == 6 {
        '6'
    } else if d == 7 {
        '7'
    } else if d == 8 {
        '8'
    } else if d == 9 {
        '9'
    } else if d == 10 {
        'a'
    } else if d == 11 {
        'b'
    } else if d == 12 {
        'c'
    } else if d == 13 {
        'd'
    } else if d == 14 {
        'e'
    } else {
        'f'
    }
}

/// The decimal digits of a number, most significant first.
pub open spec fn spec_dec(n: nat) -> Seq<char>
    decreases n,
{
    if n < 10 {
        seq![digit_char(n)]
    } else {
        spec_dec(n / 10).push(digit_char(n % 10))
    }
}

/// The lowercase hexadecimal digits of a number, most significant first.
pub open spec fn spec_hex(n: nat) -> Seq<char>
    decreases n,
{
    if n < 16 {
        seq![digit_char(n)]
    } else {
        spec_hex(n / 16).push(digit_char(n % 16))
    }
}

/// `s` left-padded with `'0'` up to at least `width` characters.
pub open spec fn spec_pad_left(s: Seq<char>, width: nat) -> Seq<char> {
    if s.len() >= width {
        s
    } else {
        Seq::new((width - s.len()) as nat, |i: int| '0') + s
    }
}

/// Appends the character of the digit `d`.
fn push_digit(out: &mut String, d: u64)
    requires
        d < 16,
    ensures
        final(out)@ == old(out)@ + seq![digit_char(d as nat)],
{
    proof {
        reveal_strlit("0");
        reveal_strlit("1");
        reveal_strlit("2");
        reveal_strlit("3");
        reveal_strlit("4");
        reveal_strlit("5");
        reveal_strlit("6");
        reveal_strlit("7");
        reveal_strlit("8");
        reveal_strlit("9");
        reveal_strlit("a");
        reveal_strlit("b");
        reveal_strlit("c");
        reveal_strlit("d");
        reveal_strlit("e");
        reveal_strlit("f");
    }
    let d_str: &str = match d {
        0 => "0",
        1 => "1",
        2 => "2",
        3 => "3",
        4 => "4",
        5 => "5",
        6 => "6",
        7 => "7",
        8 => "8",
        9 => "9",
        10 => "a",
        11 => "b",
        12 => "c",
        13 => "d",
        14 => "e",
        _ => "f",
    };
    assert(d_str@ =~= seq![digit_char(d as nat)]);
    out.append(d_str);
    assert(final(out)@ =~= old(out)@ + seq![digit_char(d as nat)]);
}

/// Appends the decimal rendering of `n`.
fn push_dec(out: &mut String, n: u64)
    ensures
        final(out)@ == old(out)@ + spec_dec(n as nat),
    decreases n,
{
    if n >= 10 {
        push_dec(out, n / 10);
        push_digit(out, n % 10);
        assert(final(out)@ =~= old(out)@ + spec_dec(n as nat));
    } else {
        push_digit(out, n);
    }
}

/// Appends the lowercase hexadecimal rendering of `n`.
fn push_hex(out: &mut String, n: u64)
    ensures
        final(out)@ == old(out)@ + spec_hex(n as nat),
    decreases n,
{
    if n >= 16 {
        push_hex(out, n / 16);
        push_digit(out, n % 16);
        assert(final(out)@ =~= old(out)@ + spec_hex(n as nat));
    } else {
        push_digit(out, n);
    }
}

/// Renders `n` in decimal.
pub fn u64_to_dec(n: u64) -> (r: String)
    ensures
        r@ == spec_dec(n as nat),
{
    let mut out = String::new();
    push_dec(&mut out, n);
    assert(out@ =~= spec_dec(n as nat));
    out
}

/// Renders `n` in lowercase hexadecimal.
pub fn u64_to_hex(n: u64) -> (r: String)
    ensures
        r@ == spec_hex(n as nat),
{
    let mut out = String::new();
    push_hex(&mut out, n);
    assert(out@ =~= spec_hex(n as nat));
    out
}

/// Renders `n` in decimal, left-padded with `'0'` to at least `width` digits.
pub fn u64_to_dec_pad(n: u64, width: usize) -> (r: String)
    ensures
        r@ == spec_pad_left(spec_dec(n as nat), width as nat),
{
    proof {
        reveal_strlit("0");
    }
    let ds = u64_to_dec(n);
    let len = ds.as_str().unicode_len();
    let mut out = String::new();
    let mut k: usize = len;
    while k < width
        invariant
            len == spec_dec(n as nat).len(),
            len <= k,
            k == len || k <= width,
            out@.len() == k - len,
            forall|i: int| 0 <= i < out@.len() ==> out@[i] == '0',
        decreases width - k,
    {
        proof {
            reveal_strlit("0");
        }
        out.append("0");
        k += 1;
    }
    out.append(ds.as_str());
    assert(out@ =~= spec_pad_left(spec_dec(n as nat), width as nat));
    out
}

/// A calendar date as plain values.
#[derive(Clone, Copy, Debug, PartialEq, Eq, Structural)]
pub struct Date {
    pub year: u64,
    pub month: u64,
    pub day: u64,
}

/// A year is a leap year of the Gregorian calendar.
pub open spec fn spec_is_leap(y: int) -> bool {
    y % 4 == 0 && (y % 100 != 0 || y % 400 == 0)
}

/// The days of a year.
pub open spec fn spec_days_in_year(y: int) -> int {
    if spec_is_leap(y) {
        366
    } else {
        365
    }
}

/// The days of a month.
pub open spec fn spec_days_in_month(y: int, m: int) -> int {
    if m == 2 {
        if spec_is_leap(y) {
            29
        } else {
            28
        }
    } else if m == 4 || m == 6 || m == 9 || m == 11 {
        30
    } else {
        31
    }
}

/// The days from the epoch to the start of year `y`.
pub open spec fn spec_days_before_year(y: int) -> int
    decreases y - 1970,
{
    if y <= 1970 {
        0
    } else {
        spec_days_before_year(y - 1) + spec_days_in_year(y - 1)
    }
}

/// The days from the start of year `y` to the start of its month `m`.
pub open spec fn spec_days_before_month(y: int, m: int) -> int
    decreases m,
{
    if m <= 1 {
        0
    } else {
        spec_days_before_month(y, m - 1) + spec_days_in_month(y, m - 1)
    }
}

/// The day number of a date, counted from the epoch: the unique inverse of
/// the calendar conversion.
pub open spec fn spec_day_number(d: Date) -> int {
    spec_days_before_year(d.year as int) + spec_days_before_month(d.year as int, d.month as int)
        + d.day - 1
}

/// A year's start lies at least 365 days per elapsed year after the epoch.
proof fn lemma_days_before_year_lower(y: int)
    requires
        y >= 1970,
    ensures
        spec_days_before_year(y) >= (y - 1970) * 365,
    decreases y - 1970,
{
    if y > 1970 {
        lemma_days_before_year_lower(y - 1);
    }
}

/// The twelve months cover the year exactly.
proof fn lemma_months_cover_year(y: int)
    ensures
        spec_days_before_month(y, 13) == spec_days_in_year(y),
{
    assert(spec_days_before_month(y, 2) == spec_days_before_month(y, 1) + spec_days_in_month(y, 1));
    assert(spec_days_before_month(y, 3) == spec_days_before_month(y, 2) + spec_days_in_month(y, 2));
    assert(spec_days_before_month(y, 4) == spec_days_before_month(y, 3) + spec_days_in_month(y, 3));
    assert(spec_days_before_month(y, 5) == spec_days_before_month(y, 4) + spec_days_in_month(y, 4));
    assert(spec_days_before_month(y, 6) == spec_days_before_month(y, 5) + spec_days_in_month(y, 5));
    assert(spec_days_before_month(y, 7) == spec_days_before_month(y, 6) + spec_days_in_month(y, 6));
    assert(spec_days_before_month(y, 8) == spec_days_before_month(y, 7) + spec_days_in_month(y, 7));
    assert(spec_days_before_month(y, 9) == spec_days_before_month(y, 8) + spec_days_in_month(y, 8));
    assert(spec_days_before_month(y, 10) == spec_days_before_month(y, 9) + spec_days_in_month(
        y,
        9,
    ));
    assert(spec_days_before_month(y, 11) == spec_days_before_month(y, 10) + spec_days_in_month(
        y,
        10,
    ));
    assert(spec_days_before_month(y, 12) == spec_days_before_month(y, 11) + spec_days_in_month(
        y,
        11,
    ));
    assert(spec_days_before_month(y, 13) == spec_days_before_month(y, 12) + spec_days_in_month(
        y,
        12,
    ));
}

/// Whether a year is a leap year.
fn is_leap(y: u64) -> (r: bool)
    ensures
        r == spec_is_leap(y as int),
{
    y % 4 == 0 && (y % 100 != 0 || y % 400 == 0)
}

/// The days of a month.
fn days_in_month(y: u64, m: u64) -> (r: u64)
    ensures
        r as int == spec_days_in_month(y as int, m as int),
        28 <= r <= 31,
{
    if m == 2 {
        if is_leap(y) {
            29
        } else {
            28
        }
    } else if m == 4 || m == 6 || m == 9 || m == 11 {
        30
    } else {
        31
    }
}

impl Date {
    /// The calendar date `days` days after the epoch, 1970-01-01: the
    /// unique well-formed date whose day number is `days`.
    pub fn from_unix_days(days: u64) -> (r: Date)
        ensures
            r.year >= 1970,
            1 <= r.month <= 12,
            1 <= r.day,
            r.day as int <= spec_days_in_month(r.year as int, r.month as int),
            spec_day_number(r) == days as int,
    {
        let mut year: u64 = 1970;
        let mut rem: u64 = days;
        let mut dy: u64 = if is_leap(year) {
            366
        } else {
            365
        };
        while rem >= dy
            invariant
                year >= 1970,
                dy as int == spec_days_in_year(year as int),
                spec_days_before_year(year as int) + rem as int == days as int,
                (year as int - 1970) * 365 <= days as int,
            decreases rem,
        {
            proof {
                assert(spec_days_before_year(year as int + 1) == spec_days_before_year(
                    year as int,
                ) + spec_days_in_year(year as int));
                lemma_days_before_year_lower(year as int + 1);
                assert((year as int - 1970) <= u64::MAX as int / 365) by (nonlinear_arith)
                    requires
                        (year as int - 1970) * 365 <= u64::MAX as int,
                        year as int >= 1970,
                ;
            }
            rem = rem - dy;
            year = year + 1;
            dy = if is_leap(year) {
                366
            } else {
                365
            };
        }
        let ghost rem0 = rem as int;
        let mut month: u64 = 1;
        let mut dm: u64 = days_in_month(year, month);
        while month < 12 && rem >= dm
            invariant
                year >= 1970,
                1 <= month <= 12,
                dm as int == spec_days_in_month(year as int, month as int),
                spec_days_before_month(year as int, month as int) + rem as int == rem0,
                rem0 < spec_days_in_year(year as int),
                spec_days_before_year(year as int) + rem0 == days as int,
            decreases 12 - month,
        {
            rem = rem - dm;
            month = month + 1;
            dm = days_in_month(year, month);
        }
        proof {
            if month == 12 && rem as int >= spec_days_in_month(year as int, 12) {
                lemma_months_cover_year(year as int);
                assert(spec_days_before_month(year as int, 13) == spec_days_before_month(
                    year as int,
                    12,
                ) + spec_days_in_month(year as int, 12));
                assert(false);
            }
        }
        Date { year, month, day: rem + 1 }
    }

    /// The calendar date of a timestamp given in seconds from the epoch.
    pub fn from_unix_seconds(secs: u64) -> (r: Date)
        ensures
            r.year >= 1970,
            1 <= r.month <= 12,
            1 <= r.day,
            r.day as int <= spec_days_in_month(r.year as int, r.month as int),
            spec_day_number(r) == secs as int / 86400,
    {
        Date::from_unix_days(secs / 86400)
    }
}

/// The rendered form of a date: the year alone when truncated, else
/// `YYYY-MM-DD`.
pub open spec fn spec_date(d: Date, truncate: bool) -> Seq<char> {
    if truncate {
        spec_pad_left(spec_dec(d.year as nat), 4)
    } else {
        spec_pad_left(spec_dec(d.year as nat), 4) + "-"@ + spec_pad_left(
            spec_dec(d.month as nat),
            2,
        ) + "-"@ + spec_pad_left(spec_dec(d.day as nat), 2)
    }
}

/// Renders a date: the year alone when truncated, else `YYYY-MM-DD`.
pub fn format_date(d: &Date, truncate: bool) -> (r: String)
    ensures
        r@ == spec_date(*d, truncate),
{
    let mut out = u64_to_dec_pad(d.year, 4);
    if !truncate {
        out.append("-");
        let m = u64_to_dec_pad(d.month, 2);
        out.append(m.as_str());
        out.append("-");
        let day = u64_to_dec_pad(d.day, 2);
        out.append(day.as_str());
        assert(out@ =~= spec_date(*d, truncate));
    }
    out
}

} // verus!
