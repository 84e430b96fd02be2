use vstd::prelude::*;

use crate::strutil::spec_digit_char;
use crate::strutil::string_push;

verus! {

/// A wall-clock instant in the API's fixed `+05:00` offset, written on the
/// wire as `YYYY-MM-DD HH:MM:SS`. Because the offset is fixed, the record of
/// calendar fields determines the absolute instant exactly.
#[derive(Clone, Copy, Debug, PartialEq, Eq, Structural)]
pub struct KdlDateTime {
    pub year: u32,
    pub month: u8,
    pub day: u8,
    pub hour: u8,
    pub minute: u8,
    pub second: u8,
}

/// A leap year of the proleptic Gregorian calendar.
pub open spec fn spec_is_leap_year(y: int) -> bool {
    (y % 4 == 0 && y % 100 != 0) || y % 400 == 0
}

/// The number of days of a month.
pub open spec fn spec_days_in_month(y: int, m: int) -> int
    recommends
        1 <= m <= 12,
{
    if m == 2 {
        if spec_is_leap_year(y) {
            29
        } else {
            28
        }
    } else if m == 4 || m == 6 || m == 9 || m == 11 {
        30
    } else {
        31
    }
}

impl KdlDateTime {
    /// A real calendar date and time of day, within the four-digit years.
    pub open spec fn valid(&self) -> bool {
        &&& 1 <= self.year <= 9999
        &&& 1 <= self.month <= 12
        &&& 1 <= self.day <= spec_days_in_month(self.year as int, self.month as int)
        &&& self.hour <= 23
        &&& self.minute <= 59
        &&& self.second <= 59
    }
}

/// Two decimal digits, zero padded.
pub open spec fn spec_pad2(n: int) -> Seq<char>
    recommends
        0 <= n < 100,
{
    seq![spec_digit_char(n / 10), spec_digit_char(n % 10)]
}

/// Four decimal digits, zero padded.
pub open spec fn spec_pad4(n: int) -> Seq<char>
    recommends
        0 <= n < 10000,
{
    seq![
        spec_digit_char(n / 1000),
        spec_digit_char((n / 100) % 10),
        spec_digit_char((n / 10) % 10),
        spec_digit_char(n % 10),
    ]
}

/// The wire text of a date value: `YYYY-MM-DD HH:MM:SS`.
pub open spec fn spec_format_datetime(dt: KdlDateTime) -> Seq<char> {
    spec_pad4(dt.year as int) + seq!['-'] + spec_pad2(dt.month as int) + seq!['-'] + spec_pad2(
        dt.day as int,
    ) + seq![' '] + spec_pad2(dt.hour as int) + seq![':'] + spec_pad2(dt.minute as int) + seq![':']
        + spec_pad2(dt.second as int)
}

fn digit_char_of(d: u32) -> (c: char)
    requires
        d < 10,
    ensures
        c == spec_digit_char(d as int),
{
    match d {
        0 => '0',
        1 => '1',
        2 => '2',
        3 => '3',
        4 => '4',
        5 => '5',
        6 => '6',
        7 => '7',
        8 => '8',
        _ => '9',
    }
}

fn push_pad2(n: u32, out: &mut String)
    requires
        n < 100,
    ensures
        final(out)@ == old(out)@ + spec_pad2(n as int),
{
    string_push(out, digit_char_of(n / 10));
    string_push(out, digit_char_of(n % 10));
    proof {
        assert(final(out)@ =~= old(out)@ + spec_pad2(n as int));
    }
}

fn push_pad4(n: u32, out: &mut String)
    requires
        n < 10000,
    ensures
        final(out)@ == old(out)@ + spec_pad4(n as int),
{
    string_push(out, digit_char_of(n / 1000));
    string_push(out, digit_char_of((n / 100) % 10));
    string_push(out, digit_char_of((n / 10) % 10));
    string_push(out, digit_char_of(n % 10));
    proof {
        assert(final(out)@ =~= old(out)@ + spec_pad4(n as int));
    }
}

/// Render a date value as its wire text in the fixed `+05:00` offset.
pub fn format_datetime(dt: &KdlDateTime) -> (r: String)
    requires
        dt.valid(),
    ensures
        r@ == spec_format_datetime(*dt),
{
    let mut s = String::new();
    push_pad4(dt.year, &mut s);
    string_push(&mut s, '-');
    push_pad2(dt.month as u32, &mut s);
    string_push(&mut s, '-');
    push_pad2(dt.day as u32, &mut s);
    string_push(&mut s, ' ');
    push_pad2(dt.hour as u32, &mut s);
    string_push(&mut s, ':');
    push_pad2(dt.minute as u32, &mut s);
    string_push(&mut s, ':');
    push_pad2(dt.second as u32, &mut s);
    proof {
        assert(s@ =~= spec_format_datetime(*dt));
    }
    s
}

/// The numeric value of a digit character, or 10 for any other character.
pub open spec fn spec_char_digit(c: char) -> int {
    if c == '0' {
        0
    } else if c == '1' {
        1
    } else if c == '2' {
        2
    } else if c == '3' {
        3
    } else if c == '4' {
        4
    } else if c == '5' {
        5
    } else if c == '6' {
        6
    } else if c == '7' {
        7
    } else if c == '8' {
        8
    } else if c == '9' {
        9
    } else {
        10
    }
}

/// The two-digit number at position `i`, or 100 if either character is no
/// digit.
pub open spec fn spec_num2(s: Seq<char>, i: int) -> int
    recommends
        0 <= i && i + 2 <= s.len(),
{
    if spec_char_digit(s[i]) < 10 && spec_char_digit(s[i + 1]) < 10 {
        spec_char_digit(s[i]) * 10 + spec_char_digit(s[i + 1])
    } else {
        100
    }
}

/// The four-digit number at position `i`, or 10000 if some character is no
/// digit.
pub open spec fn spec_num4(s: Seq<char>, i: int) -> int
    recommends
        0 <= i && i + 4 <= s.len(),
{
    if spec_char_digit(s[i]) < 10 && spec_char_digit(s[i + 1]) < 10 && spec_char_digit(s[i + 2])
        < 10 && spec_char_digit(s[i + 3]) < 10 {
        spec_char_digit(s[i]) * 1000 + spec_char_digit(s[i + 1]) * 100 + spec_char_digit(s[i + 2])
            * 10 + spec_char_digit(s[i + 3])
    } else {
        10000
    }
}

/// Parse the wire text of a date value: exactly `YYYY-MM-DD HH:MM:SS`, and
/// the fields must form a real calendar date and time of day.
pub open spec fn spec_parse_datetime(s: Seq<char>) -> Option<KdlDateTime> {
    if s.len() != 19 {
        None
    } else if !(s[4] == '-' && s[7] == '-' && s[10] == ' ' && s[13] == ':' && s[16] == ':') {
        None
    } else {
        let dt = KdlDateTime {
            year: spec_num4(s, 0) as u32,
            month: spec_num2(s, 5) as u8,
            day: spec_num2(s, 8) as u8,
            hour: spec_num2(s, 11) as u8,
            minute: spec_num2(s, 14) as u8,
            second: spec_num2(s, 17) as u8,
        };
        if spec_num4(s, 0) < 10000 && spec_num2(s, 5) < 100 && spec_num2(s, 8) < 100 && spec_num2(
            s,
            11,
        ) < 100 && spec_num2(s, 14) < 100 && spec_num2(s, 17) < 100 && dt.valid() {
            Some(dt)
        } else {
            None
        }
    }
}

fn char_digit(c: char) -> (d: u32)
    ensures
        d as int == spec_char_digit(c),
{
    if c == '0' {
        0
    } else if c == '1' {
        1
    } else if c == '2' {
        2
    } else if c == '3' {
        3
    } else if c == '4' {
        4
    } else if c == '5' {
        5
    } else if c == '6' {
        6
    } else if c == '7' {
        7
    } else if c == '8' {
        8
    } else if c == '9' {
        9
    } else {
        10
    }
}

fn num2(s: &str, i: usize) -> (n: u32)
    requires
        i + 2 <= s@.len(),
        s@.len() <= usize::MAX,
    ensures
        n as int == spec_num2(s@, i as int),
        n <= 100,
{
    let d0 = char_digit(s.get_char(i));
    let d1 = char_digit(s.get_char(i + 1));
    if d0 < 10 && d1 < 10 {
        d0 * 10 + d1
    } else {
        100
    }
}

fn num4(s: &str, i: usize) -> (n: u32)
    requires
        i + 4 <= s@.len(),
        s@.len() <= usize::MAX,
    ensures
        n as int == spec_num4(s@, i as int),
        n <= 10000,
{
    let d0 = char_digit(s.get_char(i));
    let d1 = char_digit(s.get_char(i + 1));
    let d2 = char_digit(s.get_char(i + 2));
    let d3 = char_digit(s.get_char(i + 3));
    if d0 < 10 && d1 < 10 && d2 < 10 && d3 < 10 {
        d0 * 1000 + d1 * 100 + d2 * 10 + d3
    } else {
        10000
    }
}

fn days_in_month(y: u32, m: u8) -> (d: u8)
    requires
        1 <= m <= 12,
    ensures
        d as int == spec_days_in_month(y as int, m as int),
{
    if m == 2 {
        if (y % 4 == 0 && y % 100 != 0) || y % 400 == 0 {
            29
        } else {
            28
        }
    } else if m == 4 || m == 6 || m == 9 || m == 11 {
        30
    } else {
        31
    }
}

/// Parse the wire text of a date value in the fixed `+05:00` offset;
/// malformed text or an impossible calendar date yields nothing.
pub fn parse_datetime(s: &str) -> (r: Option<KdlDateTime>)
    ensures
        r == spec_parse_datetime(s@),
{
    let n = s.unicode_len();
    if n != 19 {
        return None;
    }
    if !(s.get_char(4) == '-' && s.get_char(7) == '-' && s.get_char(10) == ' ' && s.get_char(13)
        == ':' && s.get_char(16) == ':') {
        return None;
    }
    let year = num4(s, 0);
    let month = num2(s, 5);
    let day = num2(s, 8);
    let hour = num2(s, 11);
    let minute = num2(s, 14);
    let second = num2(s, 17);
    if !(year < 10000 && month < 100 && day < 100 && hour < 100 && minute < 100 && second < 100) {
        return None;
    }
    let dt = KdlDateTime {
        year,
        month: month as u8,
        day: day as u8,
        hour: hour as u8,
        minute: minute as u8,
        second: second as u8,
    };
    if 1 <= dt.year && dt.year <= 9999 && 1 <= dt.month && dt.month <= 12 && 1 <= dt.day && dt.day
        <= days_in_month(dt.year, dt.month) && dt.hour <= 23 && dt.minute <= 59 && dt.second <= 59 {
        Some(dt)
    } else {
        None
    }
}

proof fn lemma_digit_roundtrip(d: int)
    requires
        0 <= d < 10,
    ensures
        spec_char_digit(spec_digit_char(d)) == d,
{
}

proof fn lemma_pad4_reconstruct(y: int)
    requires
        0 <= y <= 9999,
    ensures
        (y / 1000) * 1000 + ((y / 100) % 10) * 100 + ((y / 10) % 10) * 10 + y % 10 == y,
{
    vstd::arithmetic::div_mod::lemma_div_denominator(y, 10, 10);
    vstd::arithmetic::div_mod::lemma_div_denominator(y, 100, 10);
    vstd::arithmetic::div_mod::lemma_fundamental_div_mod(y, 10);
    vstd::arithmetic::div_mod::lemma_fundamental_div_mod(y / 10, 10);
    vstd::arithmetic::div_mod::lemma_fundamental_div_mod(y / 100, 10);
    assert((y / 10) / 10 == y / 100);
    assert((y / 100) / 10 == y / 1000);
}

proof fn lemma_pad2_reconstruct(n: int)
    requires
        0 <= n <= 99,
    ensures
        (n / 10) * 10 + n % 10 == n,
{
    vstd::arithmetic::div_mod::lemma_fundamental_div_mod(n, 10);
}

/// Round trip: parsing the wire text of a valid date value yields exactly
/// that value.
pub proof fn lemma_datetime_round_trip(dt: KdlDateTime)
    requires
        dt.valid(),
    ensures
        spec_parse_datetime(spec_format_datetime(dt)) == Some(dt),
{
    let f = spec_format_datetime(dt);
    let y = dt.year as int;
    let mo = dt.month as int;
    let d = dt.day as int;
    let h = dt.hour as int;
    let mi = dt.minute as int;
    let se = dt.second as int;
    assert(f =~= seq![
        spec_digit_char(y / 1000),
        spec_digit_char((y / 100) % 10),
        spec_digit_char((y / 10) % 10),
        spec_digit_char(y % 10),
        '-',
        spec_digit_char(mo / 10),
        spec_digit_char(mo % 10),
        '-',
        spec_digit_char(d / 10),
        spec_digit_char(d % 10),
        ' ',
        spec_digit_char(h / 10),
        spec_digit_char(h % 10),
        ':',
        spec_digit_char(mi / 10),
        spec_digit_char(mi % 10),
        ':',
        spec_digit_char(se / 10),
        spec_digit_char(se % 10),
    ]);
    lemma_digit_roundtrip(y / 1000);
    lemma_digit_roundtrip((y / 100) % 10);
    lemma_digit_roundtrip((y / 10) % 10);
    lemma_digit_roundtrip(y % 10);
    lemma_digit_roundtrip(mo / 10);
    lemma_digit_roundtrip(mo % 10);
    lemma_digit_roundtrip(d / 10);
    lemma_digit_roundtrip(d % 10);
    lemma_digit_roundtrip(h / 10);
    lemma_digit_roundtrip(h % 10);
    lemma_digit_roundtrip(mi / 10);
    lemma_digit_roundtrip(mi % 10);
    lemma_digit_roundtrip(se / 10);
    lemma_digit_roundtrip(se % 10);
    lemma_pad4_reconstruct(y);
    lemma_pad2_reconstruct(mo);
    lemma_pad2_reconstruct(d);
    lemma_pad2_reconstruct(h);
    lemma_pad2_reconstruct(mi);
    lemma_pad2_reconstruct(se);
    assert(spec_num4(f, 0) == y);
    assert(spec_num2(f, 5) == mo);
    assert(spec_num2(f, 8) == d);
    assert(spec_num2(f, 11) == h);
    assert(spec_num2(f, 14) == mi);
    assert(spec_num2(f, 17) == se);
}

} // verus!
