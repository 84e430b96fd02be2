use vstd::prelude::*;

use crate::strutil::string_push;

verus! {

/// A JSON value of the wire format, as far as the API uses it: null,
/// booleans, integers, strings, arrays and objects (an object keeps its
/// members in wire order). Numbers with a fraction or an exponent, and the
/// `\uXXXX` string escape, are outside this grammar and make decoding fail.
#[derive(Debug, PartialEq, Eq)]
pub enum JsonValue {
    Null,
    Bool(bool),
    Int(i64),
    Str(String),
    Arr(Vec<JsonValue>),
    Obj(Vec<(String, JsonValue)>),
}

/// The mathematical model of a JSON value.
pub enum JsonModel {
    Null,
    Bool(bool),
    Int(int),
    Str(Seq<char>),
    Arr(Seq<JsonModel>),
    Obj(Seq<(Seq<char>, JsonModel)>),
}

/// The model of a sequence of values: each element's model, in order.
pub open spec fn vals_view(items: Seq<JsonValue>) -> Seq<JsonModel>
    decreases items, 0int,
{
    Seq::new(
        items.len(),
        |k: int|
            if 0 <= k < items.len() {
                items[k]@
            } else {
                JsonModel::Null
            },
    )
}

/// The model of a sequence of object members: each key and value model, in
/// order.
pub open spec fn pairs_view(pairs: Seq<(String, JsonValue)>) -> Seq<(Seq<char>, JsonModel)>
    decreases pairs, 0int,
{
    Seq::new(
        pairs.len(),
        |k: int|
            if 0 <= k < pairs.len() {
                (pairs[k].0@, pairs[k].1@)
            } else {
                (Seq::empty(), JsonModel::Null)
            },
    )
}

impl View for JsonValue {
    type V = JsonModel;

    open spec fn view(&self) -> JsonModel
        decreases self, 1int,
    {
        match self {
            JsonValue::Null => JsonModel::Null,
            JsonValue::Bool(b) => JsonModel::Bool(*b),
            JsonValue::Int(n) => JsonModel::Int(*n as int),
            JsonValue::Str(s) => JsonModel::Str(s@),
            JsonValue::Arr(items) => JsonModel::Arr(vals_view(items@)),
            JsonValue::Obj(pairs) => JsonModel::Obj(pairs_view(pairs@)),
        }
    }
}

/// JSON insignificant whitespace.
pub open spec fn spec_is_ws(c: char) -> bool {
    c == ' ' || c == '\t' || c == '\n' || c == '\r'
}

/// The first position at or after `i` holding no whitespace.
pub open spec fn spec_skip_ws(s: Seq<char>, i: int) -> int
    decreases s.len() - i, 0int,
{
    if 0 <= i && i < s.len() && spec_is_ws(s[i]) {
        spec_skip_ws(s, i + 1)
    } else {
        i
    }
}

fn skip_ws(s: &str, i: usize) -> (j: usize)
    requires
        i as int <= s@.len(),
    ensures
        j as int == spec_skip_ws(s@, i as int),
        i <= j,
        j as int <= s@.len(),
    decreases s@.len() - i, 0int,
{
    let n = s.unicode_len();
    if i < n {
        let c = s.get_char(i);
        if c == ' ' || c == '\t' || c == '\n' || c == '\r' {
            skip_ws(s, i + 1)
        } else {
            i
        }
    } else {
        i
    }
}

/// A decimal digit.
pub open spec fn spec_is_digit(c: char) -> bool {
    c == '0' || c == '1' || c == '2' || c == '3' || c == '4' || c == '5' || c == '6' || c == '7'
        || c == '8' || c == '9'
}

/// The numeric value of a decimal digit.
pub open spec fn spec_digit_val(c: char) -> int
    recommends
        spec_is_digit(c),
{
    if c == '0' {
        0
    } else if c == '1' {
        1
    } else if c == '2' {
        2
    } else if c == '3' {
        3
    } else if c == '4' {
        4
    } else if c == '5' {
        5
    } else if c == '6' {
        6
    } else if c == '7' {
        7
    } else if c == '8' {
        8
    } else {
        9
    }
}

pub(crate) fn is_digit(c: char) -> (b: bool)
    ensures
        b == spec_is_digit(c),
{
    c == '0' || c == '1' || c == '2' || c == '3' || c == '4' || c == '5' || c == '6' || c == '7'
        || c == '8' || c == '9'
}

pub(crate) fn digit_val(c: char) -> (d: i64)
    requires
        spec_is_digit(c),
    ensures
        d as int == spec_digit_val(c),
        0 <= d < 10,
{
    if c == '0' {
        0
    } else if c == '1' {
        1
    } else if c == '2' {
        2
    } else if c == '3' {
        3
    } else if c == '4' {
        4
    } else if c == '5' {
        5
    } else if c == '6' {
        6
    } else if c == '7' {
        7
    } else if c == '8' {
        8
    } else {
        9
    }
}

/// Consume a run of digits starting at `i`, extending the already-read value
/// `acc`; the value must stay within `i64`.
pub open spec fn spec_parse_digits(s: Seq<char>, i: int, acc: int) -> Option<(int, int)>
    decreases s.len() - i, 0int,
{
    if 0 <= i && i < s.len() && spec_is_digit(s[i]) {
        let acc2 = acc * 10 + spec_digit_val(s[i]);
        if acc2 <= i64::MAX as int {
            spec_parse_digits(s, i + 1, acc2)
        } else {
            None
        }
    } else {
        Some((acc, i))
    }
}

pub(crate) fn parse_digits(s: &str, i: usize, acc: i64) -> (r: Option<(i64, usize)>)
    requires
        i as int <= s@.len(),
        0 <= acc,
    ensures
        (r matches Some((v, j)) ==> (spec_parse_digits(s@, i as int, acc as int) == Some(
            (v as int, j as int),
        ) && i <= j && j as int <= s@.len() && 0 <= v)),
        (r is None ==> spec_parse_digits(s@, i as int, acc as int) is None),
    decreases s@.len() - i, 0int,
{
    let n = s.unicode_len();
    if i < n {
        let c = s.get_char(i);
        if is_digit(c) {
            let d = digit_val(c);
            if acc < 922337203685477580i64 || (acc == 922337203685477580i64 && d <= 7) {
                parse_digits(s, i + 1, acc * 10 + d)
            } else {
                None
            }
        } else {
            Some((acc, i))
        }
    } else {
        Some((acc, i))
    }
}

proof fn lemma_parse_digits_lower_bound(s: Seq<char>, i: int, acc: int)
    ensures
        (spec_parse_digits(s, i, acc) matches Some((v, j)) ==> j >= i),
    decreases s.len() - i, 0int,
{
    if 0 <= i && i < s.len() && spec_is_digit(s[i]) {
        let acc2 = acc * 10 + spec_digit_val(s[i]);
        if acc2 <= i64::MAX as int {
            lemma_parse_digits_lower_bound(s, i + 1, acc2);
        }
    }
}

/// After the digits of an integer, neither a fraction nor an exponent may
/// follow: such a number is outside the grammar.
pub open spec fn spec_int_end_ok(s: Seq<char>, j: int) -> bool {
    !(0 <= j && j < s.len() && (s[j] == '.' || s[j] == 'e' || s[j] == 'E'))
}

/// Parse an integer (an optional minus sign and a run of digits) at `i`.
pub open spec fn spec_parse_int(s: Seq<char>, i: int) -> Option<(int, int)>
    decreases s.len() - i, 1int,
{
    if !(0 <= i && i < s.len()) {
        None
    } else if s[i] == '-' {
        if i + 1 < s.len() && spec_is_digit(s[i + 1]) {
            match spec_parse_digits(s, i + 1, 0) {
                Some((m, j)) => if spec_int_end_ok(s, j) {
                    Some((-m, j))
                } else {
                    None
                },
                None => None,
            }
        } else {
            None
        }
    } else if spec_is_digit(s[i]) {
        match spec_parse_digits(s, i, 0) {
            Some((m, j)) => if spec_int_end_ok(s, j) {
                Some((m, j))
            } else {
                None
            },
            None => None,
        }
    } else {
        None
    }
}

fn int_end_ok(s: &str, j: usize) -> (b: bool)
    requires
        j as int <= s@.len(),
    ensures
        b == spec_int_end_ok(s@, j as int),
{
    let n = s.unicode_len();
    if j < n {
        let c = s.get_char(j);
        !(c == '.' || c == 'e' || c == 'E')
    } else {
        true
    }
}

fn parse_int(s: &str, i: usize) -> (r: Option<(i64, usize)>)
    requires
        i as int <= s@.len(),
    ensures
        (r matches Some((v, j)) ==> (spec_parse_int(s@, i as int) == Some((v as int, j as int))
            && i < j && j as int <= s@.len())),
        (r is None ==> spec_parse_int(s@, i as int) is None),
    decreases s@.len() - i, 1int,
{
    let n = s.unicode_len();
    if i >= n {
        return None;
    }
    let c = s.get_char(i);
    if c == '-' {
        if i + 1 < n && is_digit(s.get_char(i + 1)) {
            match parse_digits(s, i + 1, 0) {
                Some((m, j)) => {
                    if int_end_ok(s, j) {
                        Some((-m, j))
                    } else {
                        None
                    }
                },
                None => None,
            }
        } else {
            None
        }
    } else if is_digit(c) {
        match parse_digits(s, i, 0) {
            Some((m, j)) => {
                if int_end_ok(s, j) {
                    proof {
                        let d = spec_digit_val(s@[i as int]);
                        assert(spec_parse_digits(s@, i as int, 0) == spec_parse_digits(
                            s@,
                            i as int + 1,
                            d,
                        ));
                        lemma_parse_digits_lower_bound(s@, i as int + 1, d);
                    }
                    Some((m, j))
                } else {
                    None
                }
            },
            None => None,
        }
    } else {
        None
    }
}

/// The replacement for a backslash escape; `\uXXXX` and unknown escapes are
/// outside the grammar.
pub open spec fn spec_unescape(c: char) -> Option<char> {
    if c == '"' {
        Some('"')
    } else if c == '\\' {
        Some('\\')
    } else if c == '/' {
        Some('/')
    } else if c == 'n' {
        Some('\n')
    } else if c == 't' {
        Some('\t')
    } else if c == 'r' {
        Some('\r')
    } else if c == 'b' {
        Some('\u{0008}')
    } else if c == 'f' {
        Some('\u{000C}')
    } else {
        None
    }
}

fn unescape(c: char) -> (r: Option<char>)
    ensures
        r == spec_unescape(c),
{
    if c == '"' {
        Some('"')
    } else if c == '\\' {
        Some('\\')
    } else if c == '/' {
        Some('/')
    } else if c == 'n' {
        Some('\n')
    } else if c == 't' {
        Some('\t')
    } else if c == 'r' {
        Some('\r')
    } else if c == 'b' {
        Some('\u{0008}')
    } else if c == 'f' {
        Some('\u{000C}')
    } else {
        None
    }
}

/// Consume the rest of a string literal (the opening quote already read),
/// appending each character to the accumulator `acc`, up to and including the
/// closing quote.
pub open spec fn spec_parse_string_rest(s: Seq<char>, i: int, acc: Seq<char>) -> Option<
    (Seq<char>, int),
>
    decreases s.len() - i, 0int,
{
    if !(0 <= i && i < s.len()) {
        None
    } else if s[i] == '"' {
        Some((acc, i + 1))
    } else if s[i] == '\\' {
        if i + 1 < s.len() {
            match spec_unescape(s[i + 1]) {
                Some(c) => spec_parse_string_rest(s, i + 2, acc.push(c)),
                None => None,
            }
        } else {
            None
        }
    } else {
        spec_parse_string_rest(s, i + 1, acc.push(s[i]))
    }
}

fn parse_string_rest(s: &str, i: usize, acc: String) -> (r: Option<(String, usize)>)
    requires
        i as int <= s@.len(),
    ensures
        (r matches Some((out, j)) ==> (spec_parse_string_rest(s@, i as int, acc@) == Some(
            (out@, j as int),
        ) && i < j && j as int <= s@.len())),
        (r is None ==> spec_parse_string_rest(s@, i as int, acc@) is None),
    decreases s@.len() - i, 0int,
{
    let n = s.unicode_len();
    if i >= n {
        return None;
    }
    let c = s.get_char(i);
    if c == '"' {
        Some((acc, i + 1))
    } else if c == '\\' {
        if i + 1 < n {
            match unescape(s.get_char(i + 1)) {
                Some(c2) => {
                    let mut a = acc;
                    string_push(&mut a, c2);
                    parse_string_rest(s, i + 2, a)
                },
                None => None,
            }
        } else {
            None
        }
    } else {
        let mut a = acc;
        string_push(&mut a, c);
        parse_string_rest(s, i + 1, a)
    }
}

/// Parse one JSON value at `i`: a literal, an integer, a string, an array or
/// an object.
pub open spec fn spec_parse_value(s: Seq<char>, i: int) -> Option<(JsonModel, int)>
    decreases s.len() - i, 2int,
{
    if !(0 <= i && i < s.len()) {
        None
    } else {
        let c = s[i];
        if c == 'n' {
            if i + 4 <= s.len() && s[i + 1] == 'u' && s[i + 2] == 'l' && s[i + 3] == 'l' {
                Some((JsonModel::Null, i + 4))
            } else {
                None
            }
        } else if c == 't' {
            if i + 4 <= s.len() && s[i + 1] == 'r' && s[i + 2] == 'u' && s[i + 3] == 'e' {
                Some((JsonModel::Bool(true), i + 4))
            } else {
                None
            }
        } else if c == 'f' {
            if i + 5 <= s.len() && s[i + 1] == 'a' && s[i + 2] == 'l' && s[i + 3] == 's' && s[i + 4]
                == 'e' {
                Some((JsonModel::Bool(false), i + 5))
            } else {
                None
            }
        } else if c == '"' {
            match spec_parse_string_rest(s, i + 1, Seq::empty()) {
                Some((out, j)) => Some((JsonModel::Str(out), j)),
                None => None,
            }
        } else if c == '-' || spec_is_digit(c) {
            match spec_parse_int(s, i) {
                Some((v, j)) => Some((JsonModel::Int(v), j)),
                None => None,
            }
        } else if c == '[' {
            let j = spec_skip_ws(s, i + 1);
            if !(i < j && j <= s.len()) {
                None
            } else if j < s.len() && s[j] == ']' {
                Some((JsonModel::Arr(Seq::empty()), j + 1))
            } else {
                match spec_parse_arr_items(s, j) {
                    Some((items, k)) => Some((JsonModel::Arr(items), k)),
                    None => None,
                }
            }
        } else if c == '{' {
            let j = spec_skip_ws(s, i + 1);
            if !(i < j && j <= s.len()) {
                None
            } else if j < s.len() && s[j] == '}' {
                Some((JsonModel::Obj(Seq::empty()), j + 1))
            } else {
                match spec_parse_obj_items(s, j) {
                    Some((pairs, k)) => Some((JsonModel::Obj(pairs), k)),
                    None => None,
                }
            }
        } else {
            None
        }
    }
}

/// Parse the members of a non-empty array at `i` (the opening bracket and
/// any whitespace after it already consumed), up to and including the closing
/// bracket.
pub open spec fn spec_parse_arr_items(s: Seq<char>, i: int) -> Option<(Seq<JsonModel>, int)>
    decreases s.len() - i, 3int,
{
    match spec_parse_value(s, i) {
        None => None,
        Some((v, j)) => if !(i < j && j <= s.len()) {
            None
        } else {
            let k = spec_skip_ws(s, j);
            if !(j <= k && k <= s.len()) {
                None
            } else if k < s.len() && s[k] == ',' {
                let k2 = spec_skip_ws(s, k + 1);
                if !(k < k2 && k2 <= s.len()) {
                    None
                } else {
                    match spec_parse_arr_items(s, k2) {
                        Some((rest, m)) => Some((seq![v] + rest, m)),
                        None => None,
                    }
                }
            } else if k < s.len() && s[k] == ']' {
                Some((seq![v], k + 1))
            } else {
                None
            }
        },
    }
}

/// Parse the members of a non-empty object at `i` (the opening brace and any
/// whitespace after it already consumed), up to and including the closing
/// brace.
pub open spec fn spec_parse_obj_items(s: Seq<char>, i: int) -> Option<
    (Seq<(Seq<char>, JsonModel)>, int),
>
    decreases s.len() - i, 3int,
{
    if !(0 <= i && i < s.len() && s[i] == '"') {
        None
    } else {
        match spec_parse_string_rest(s, i + 1, Seq::empty()) {
            None => None,
            Some((key, j)) => if !(i < j && j <= s.len()) {
                None
            } else {
                let k = spec_skip_ws(s, j);
                if !(j <= k && k <= s.len() && k < s.len() && s[k] == ':') {
                    None
                } else {
                    let k2 = spec_skip_ws(s, k + 1);
                    if !(k < k2 && k2 <= s.len()) {
                        None
                    } else {
                        match spec_parse_value(s, k2) {
                            None => None,
                            Some((v, m)) => if !(k2 < m && m <= s.len()) {
                                None
                            } else {
                                let m2 = spec_skip_ws(s, m);
                                if !(m <= m2 && m2 <= s.len()) {
                                    None
                                } else if m2 < s.len() && s[m2] == ',' {
                                    let m3 = spec_skip_ws(s, m2 + 1);
                                    if !(m2 < m3 && m3 <= s.len()) {
                                        None
                                    } else {
                                        match spec_parse_obj_items(s, m3) {
                                            Some((rest, end)) => Some(
                                                (seq![(key, v)] + rest, end),
                                            ),
                                            None => None,
                                        }
                                    }
                                } else if m2 < s.len() && s[m2] == '}' {
                                    Some((seq![(key, v)], m2 + 1))
                                } else {
                                    None
                                }
                            },
                        }
                    }
                }
            },
        }
    }
}

fn parse_value(s: &str, i: usize) -> (r: Option<(JsonValue, usize)>)
    requires
        i as int <= s@.len(),
    ensures
        (r matches Some((v, j)) ==> (spec_parse_value(s@, i as int) == Some((v@, j as int)) && i
            < j && j as int <= s@.len())),
        (r is None ==> (spec_parse_value(s@, i as int) is None)),
    decreases s@.len() - i, 2int,
{
    let n = s.unicode_len();
    if i >= n {
        return None;
    }
    let c = s.get_char(i);
    if c == 'n' {
        if n - i >= 4 && s.get_char(i + 1) == 'u' && s.get_char(i + 2) == 'l' && s.get_char(i + 3)
            == 'l' {
            Some((JsonValue::Null, i + 4))
        } else {
            None
        }
    } else if c == 't' {
        if n - i >= 4 && s.get_char(i + 1) == 'r' && s.get_char(i + 2) == 'u' && s.get_char(i + 3)
            == 'e' {
            Some((JsonValue::Bool(true), i + 4))
        } else {
            None
        }
    } else if c == 'f' {
        if n - i >= 5 && s.get_char(i + 1) == 'a' && s.get_char(i + 2) == 'l' && s.get_char(i + 3)
            == 's' && s.get_char(i + 4) == 'e' {
            Some((JsonValue::Bool(false), i + 5))
        } else {
            None
        }
    } else if c == '"' {
        match parse_string_rest(s, i + 1, String::new()) {
            Some((out, j)) => Some((JsonValue::Str(out), j)),
            None => None,
        }
    } else if c == '-' || is_digit(c) {
        match parse_int(s, i) {
            Some((v, j)) => Some((JsonValue::Int(v), j)),
            None => None,
        }
    } else if c == '[' {
        let j = skip_ws(s, i + 1);
        if j < n && s.get_char(j) == ']' {
            let items: Vec<JsonValue> = Vec::new();
            proof {
                assert(vals_view(items@) =~= Seq::<JsonModel>::empty());
            }
            Some((JsonValue::Arr(items), j + 1))
        } else {
            match parse_arr_items(s, j) {
                Some((items, k)) => Some((JsonValue::Arr(items), k)),
                None => None,
            }
        }
    } else if c == '{' {
        let j = skip_ws(s, i + 1);
        if j < n && s.get_char(j) == '}' {
            let pairs: Vec<(String, JsonValue)> = Vec::new();
            proof {
                assert(pairs_view(pairs@) =~= Seq::<(Seq<char>, JsonModel)>::empty());
            }
            Some((JsonValue::Obj(pairs), j + 1))
        } else {
            match parse_obj_items(s, j) {
                Some((pairs, k)) => Some((JsonValue::Obj(pairs), k)),
                None => None,
            }
        }
    } else {
        None
    }
}

fn parse_arr_items(s: &str, i: usize) -> (r: Option<(Vec<JsonValue>, usize)>)
    requires
        i as int <= s@.len(),
    ensures
        (r matches Some((items, j)) ==> (spec_parse_arr_items(s@, i as int) == Some(
            (vals_view(items@), j as int),
        ) && i < j && j as int <= s@.len())),
        (r is None ==> (spec_parse_arr_items(s@, i as int) is None)),
    decreases s@.len() - i, 3int,
{
    let n = s.unicode_len();
    match parse_value(s, i) {
        None => None,
        Some((v, j)) => {
            let k = skip_ws(s, j);
            if k < n && s.get_char(k) == ',' {
                let k2 = skip_ws(s, k + 1);
                match parse_arr_items(s, k2) {
                    Some((rest, m)) => {
                        let ghost rest_v = rest@;
                        let ghost v_g = v;
                        let mut items = rest;
                        items.insert(0, v);
                        proof {
                            rest_v.insert_ensures(0, v_g);
                            assert(vals_view(items@) =~= seq![v_g@] + vals_view(rest_v));
                        }
                        Some((items, m))
                    },
                    None => None,
                }
            } else if k < n && s.get_char(k) == ']' {
                let ghost v_g = v;
                let mut items: Vec<JsonValue> = Vec::new();
                items.push(v);
                proof {
                    assert(vals_view(items@) =~= seq![v_g@]);
                }
                Some((items, k + 1))
            } else {
                None
            }
        },
    }
}

fn parse_obj_items(s: &str, i: usize) -> (r: Option<(Vec<(String, JsonValue)>, usize)>)
    requires
        i as int <= s@.len(),
    ensures
        (r matches Some((pairs, j)) ==> (spec_parse_obj_items(s@, i as int) == Some(
            (pairs_view(pairs@), j as int),
        ) && i < j && j as int <= s@.len())),
        (r is None ==> (spec_parse_obj_items(s@, i as int) is None)),
    decreases s@.len() - i, 3int,
{
    let n = s.unicode_len();
    if !(i < n && s.get_char(i) == '"') {
        return None;
    }
    match parse_string_rest(s, i + 1, String::new()) {
        None => None,
        Some((key, j)) => {
            let k = skip_ws(s, j);
            if !(k < n && s.get_char(k) == ':') {
                return None;
            }
            let k2 = skip_ws(s, k + 1);
            match parse_value(s, k2) {
                None => None,
                Some((v, m)) => {
                    let m2 = skip_ws(s, m);
                    if m2 < n && s.get_char(m2) == ',' {
                        let m3 = skip_ws(s, m2 + 1);
                        match parse_obj_items(s, m3) {
                            Some((rest, end)) => {
                                let pair = (key, v);
                                let ghost rest_v = rest@;
                                let ghost pair_g = pair;
                                let mut pairs = rest;
                                pairs.insert(0, pair);
                                proof {
                                    rest_v.insert_ensures(0, pair_g);
                                    assert(pairs_view(pairs@) =~= seq![(pair_g.0@, pair_g.1@)]
                                        + pairs_view(rest_v));
                                }
                                Some((pairs, end))
                            },
                            None => None,
                        }
                    } else if m2 < n && s.get_char(m2) == '}' {
                        let ghost key_v = key@;
                        let ghost v_v = v@;
                        let mut pairs: Vec<(String, JsonValue)> = Vec::new();
                        pairs.push((key, v));
                        proof {
                            assert(pairs_view(pairs@) =~= seq![(key_v, v_v)]);
                        }
                        Some((pairs, m2 + 1))
                    } else {
                        None
                    }
                },
            }
        },
    }
}

/// Parse a complete JSON document: one value, possibly surrounded by
/// whitespace, covering the whole input.
pub open spec fn spec_parse_json(s: Seq<char>) -> Option<JsonModel> {
    let i = spec_skip_ws(s, 0);
    if !(0 <= i && i <= s.len()) {
        None
    } else {
        match spec_parse_value(s, i) {
            Some((v, j)) => if !(i < j && j <= s.len()) {
                None
            } else {
                if spec_skip_ws(s, j) == s.len() {
                    Some(v)
                } else {
                    None
                }
            },
            None => None,
        }
    }
}

/// Parse a complete JSON document from text.
pub fn parse_json(s: &str) -> (r: Option<JsonValue>)
    ensures
        (r matches Some(v) ==> spec_parse_json(s@) == Some(v@)),
        (r is None ==> (spec_parse_json(s@) is None)),
{
    let n = s.unicode_len();
    let i = skip_ws(s, 0);
    match parse_value(s, i) {
        Some((v, j)) => {
            let k = skip_ws(s, j);
            if k == n {
                Some(v)
            } else {
                None
            }
        },
        None => None,
    }
}

/// The value of the first member of `pairs` at or after position `i` whose
/// key is `key`.
pub open spec fn spec_lookup_from(
    pairs: Seq<(Seq<char>, JsonModel)>,
    key: Seq<char>,
    i: int,
) -> Option<JsonModel>
    decreases pairs.len() - i,
{
    if !(0 <= i && i < pairs.len()) {
        None
    } else if pairs[i].0 == key {
        Some(pairs[i].1)
    } else {
        spec_lookup_from(pairs, key, i + 1)
    }
}

/// The value of the first member of an object with the given key.
pub open spec fn spec_obj_lookup(pairs: Seq<(Seq<char>, JsonModel)>, key: Seq<char>) -> Option<
    JsonModel,
> {
    spec_lookup_from(pairs, key, 0)
}

fn lookup_from<'a>(
    pairs: &'a Vec<(String, JsonValue)>,
    key: &str,
    i: usize,
) -> (r: Option<&'a JsonValue>)
    requires
        i <= pairs@.len(),
    ensures
        (r matches Some(v) ==> spec_lookup_from(pairs_view(pairs@), key@, i as int) == Some(v@)),
        (r is None ==> (spec_lookup_from(pairs_view(pairs@), key@, i as int) is None)),
    decreases pairs@.len() - i,
{
    if i >= pairs.len() {
        None
    } else if str_eq(pairs[i].0.as_str(), key) {
        Some(&pairs[i].1)
    } else {
        lookup_from(pairs, key, i + 1)
    }
}

/// Find the first member of an object with the given key.
pub fn obj_lookup<'a>(pairs: &'a Vec<(String, JsonValue)>, key: &str) -> (r: Option<&'a JsonValue>)
    ensures
        (r matches Some(v) ==> spec_obj_lookup(pairs_view(pairs@), key@) == Some(v@)),
        (r is None ==> (spec_obj_lookup(pairs_view(pairs@), key@) is None)),
{
    lookup_from(pairs, key, 0)
}

/// Whether two pieces of text hold the same characters.
pub fn str_eq(a: &str, b: &str) -> (r: bool)
    ensures
        r == (a@ == b@),
{
    let a_string = a.to_owned();
    let b_string = b.to_owned();
    a_string.eq(&b_string)
}

} // verus!
