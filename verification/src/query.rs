use vstd::prelude::*;

use vstd::string::StringSliceAdditionalSpecFns;

use crate::strutil::string_push;

verus! {

/// The UTF-8 bytes of a piece of text.
pub open spec fn spec_text_bytes(s: Seq<char>) -> Seq<u8> {
    vstd::utf8::encode_utf8(s)
}

/// A byte a query component may carry unescaped: the RFC 3986 unreserved
/// characters (letters, digits, `-`, `.`, `_`, `~`).
pub open spec fn spec_is_unreserved(b: u8) -> bool {
    (65 <= b && b <= 90) || (97 <= b && b <= 122) || (48 <= b && b <= 57) || b == 45 || b == 46
        || b == 95 || b == 126
}

/// The character for one hexadecimal digit, upper case.
pub open spec fn spec_hex_char(d: int) -> char {
    if d == 0 {
        '0'
    } else if d == 1 {
        '1'
    } else if d == 2 {
        '2'
    } else if d == 3 {
        '3'
    } else if d == 4 {
        '4'
    } else if d == 5 {
        '5'
    } else if d == 6 {
        '6'
    } else if d == 7 {
        '7'
    } else if d == 8 {
        '8'
    } else if d == 9 {
        '9'
    } else if d == 10 {
        'A'
    } else if d == 11 {
        'B'
    } else if d == 12 {
        'C'
    } else if d == 13 {
        'D'
    } else if d == 14 {
        'E'
    } else {
        'F'
    }
}

/// How one byte is written in a query component: itself if unreserved, else
/// `%` and two upper-case hexadecimal digits.
pub open spec fn spec_encode_byte(b: u8) -> Seq<char> {
    if spec_is_unreserved(b) {
        seq![b as char]
    } else {
        seq!['%', spec_hex_char(b as int / 16), spec_hex_char(b as int % 16)]
    }
}

/// The percent-encoding of a byte sequence.
pub open spec fn spec_percent_encode(bs: Seq<u8>) -> Seq<char>
    decreases bs.len(),
{
    if bs.len() == 0 {
        Seq::empty()
    } else {
        spec_percent_encode(bs.drop_last()) + spec_encode_byte(bs.last())
    }
}

fn is_unreserved(b: u8) -> (r: bool)
    ensures
        r == spec_is_unreserved(b),
{
    (65 <= b && b <= 90) || (97 <= b && b <= 122) || (48 <= b && b <= 57) || b == 45 || b == 46
        || b == 95 || b == 126
}

fn hex_char(d: u8) -> (c: char)
    requires
        d < 16,
    ensures
        c == spec_hex_char(d as int),
{
    match d {
        0 => '0',
        1 => '1',
        2 => '2',
        3 => '3',
        4 => '4',
        5 => '5',
        6 => '6',
        7 => '7',
        8 => '8',
        9 => '9',
        10 => 'A',
        11 => 'B',
        12 => 'C',
        13 => 'D',
        14 => 'E',
        _ => 'F',
    }
}

/// Append the percent-encoding of the UTF-8 bytes of `s` to `out`.
pub fn percent_encode_into(s: &str, out: &mut String)
    ensures
        final(out)@ == old(out)@ + spec_percent_encode(spec_text_bytes(s@)),
{
    let bytes = s.as_bytes();
    let m = bytes.len();
    let mut idx: usize = 0;
    proof {
        assert(bytes@.take(0) =~= Seq::<u8>::empty());
    }
    while idx < m
        invariant
            m == bytes@.len(),
            bytes@ == s.spec_bytes(),
            idx <= m,
            out@ == old(out)@ + spec_percent_encode(bytes@.take(idx as int)),
        decreases m - idx,
    {
        let b = bytes[idx];
        if is_unreserved(b) {
            string_push(out, b as char);
        } else {
            string_push(out, '%');
            string_push(out, hex_char(b / 16));
            string_push(out, hex_char(b % 16));
        }
        idx = idx + 1;
        proof {
            assert(bytes@.take(idx as int).drop_last() =~= bytes@.take(idx as int - 1));
            assert(bytes@.take(idx as int).last() == b);
            assert(out@ =~= old(out)@ + spec_percent_encode(bytes@.take(idx as int)));
        }
    }
    proof {
        assert(bytes@.take(m as int) =~= bytes@);
    }
}

/// The percent-encoding of the UTF-8 bytes of a piece of text.
pub fn percent_encode(s: &str) -> (r: String)
    ensures
        r@ == spec_percent_encode(spec_text_bytes(s@)),
{
    let mut out = String::new();
    percent_encode_into(s, &mut out);
    proof {
        assert(out@ =~= spec_percent_encode(spec_text_bytes(s@)));
    }
    out
}

/// One `key=value` query component, both sides percent-encoded.
pub open spec fn spec_encode_pair(k: Seq<char>, v: Seq<char>) -> Seq<char> {
    spec_percent_encode(spec_text_bytes(k)) + seq!['='] + spec_percent_encode(spec_text_bytes(v))
}

/// The text of a sequence of key/value pairs.
pub open spec fn qpairs_view(ps: Seq<(String, String)>) -> Seq<(Seq<char>, Seq<char>)> {
    Seq::new(
        ps.len(),
        |i: int|
            if 0 <= i < ps.len() {
                (ps[i].0@, ps[i].1@)
            } else {
                (Seq::empty(), Seq::empty())
            },
    )
}

/// The query string of a pair sequence: the `key=value` components in order,
/// joined by `&`.
pub open spec fn spec_query_string(pairs: Seq<(Seq<char>, Seq<char>)>) -> Seq<char>
    decreases pairs.len(),
{
    if pairs.len() == 0 {
        Seq::empty()
    } else if pairs.len() == 1 {
        spec_encode_pair(pairs[0].0, pairs[0].1)
    } else {
        spec_query_string(pairs.drop_last()) + seq!['&'] + spec_encode_pair(
            pairs.last().0,
            pairs.last().1,
        )
    }
}

/// Render key/value pairs as a query string: components in pair order,
/// joined by `&`, keys and values percent-encoded. Deterministic in the pair
/// order it is given.
pub fn query_string(pairs: &Vec<(String, String)>) -> (r: String)
    ensures
        r@ == spec_query_string(qpairs_view(pairs@)),
{
    let mut out = String::new();
    let m = pairs.len();
    let mut idx: usize = 0;
    while idx < m
        invariant
            m == pairs@.len(),
            idx <= m,
            out@ == spec_query_string(qpairs_view(pairs@).take(idx as int)),
        decreases m - idx,
    {
        if idx > 0 {
            string_push(&mut out, '&');
        }
        percent_encode_into(pairs[idx].0.as_str(), &mut out);
        string_push(&mut out, '=');
        percent_encode_into(pairs[idx].1.as_str(), &mut out);
        idx = idx + 1;
        proof {
            let pv = qpairs_view(pairs@);
            assert(pv.take(idx as int).drop_last() =~= pv.take(idx as int - 1));
            assert(out@ =~= spec_query_string(pv.take(idx as int)));
        }
    }
    proof {
        assert(qpairs_view(pairs@).take(m as int) =~= qpairs_view(pairs@));
    }
    out
}

} // verus!
