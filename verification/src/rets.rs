use vstd::prelude::*;

use crate::args::strs_view;
use crate::classify::KdlError;
use crate::datetime::parse_datetime;
use crate::datetime::spec_parse_datetime;
use crate::datetime::KdlDateTime;
use crate::json::digit_val;
use crate::json::is_digit;
use crate::json::obj_lookup;
use crate::json::pairs_view;
use crate::json::parse_digits;
use crate::json::spec_digit_val;
use crate::json::spec_is_digit;
use crate::json::spec_obj_lookup;
use crate::json::spec_parse_digits;
use crate::json::vals_view;
use crate::json::JsonModel;
use crate::json::JsonValue;

verus! {

fn data_error() -> (e: KdlError)
    ensures
        e matches KdlError::DeserializeError { .. },
{
    KdlError::DeserializeError {
        message: "the data value does not have the operation's return shape".to_owned(),
    }
}

/// The string member of an object under the given key, if any.
pub open spec fn spec_get_string(m: JsonModel, key: Seq<char>) -> Option<Seq<char>> {
    match m {
        JsonModel::Obj(pairs) => match spec_obj_lookup(pairs, key) {
            Some(JsonModel::Str(s)) => Some(s),
            _ => None,
        },
        _ => None,
    }
}

/// The integer member of an object under the given key, if any and within
/// `u32`.
pub open spec fn spec_get_u32(m: JsonModel, key: Seq<char>) -> Option<u32> {
    match m {
        JsonModel::Obj(pairs) => match spec_obj_lookup(pairs, key) {
            Some(JsonModel::Int(c)) => if 0 <= c <= u32::MAX {
                Some(c as u32)
            } else {
                None
            },
            _ => None,
        },
        _ => None,
    }
}

/// The integer member of an object under the given key, if any and within
/// `i32`.
pub open spec fn spec_get_i32(m: JsonModel, key: Seq<char>) -> Option<i32> {
    match m {
        JsonModel::Obj(pairs) => match spec_obj_lookup(pairs, key) {
            Some(JsonModel::Int(c)) => if i32::MIN <= c <= i32::MAX {
                Some(c as i32)
            } else {
                None
            },
            _ => None,
        },
        _ => None,
    }
}

/// The strings of an array whose members are all strings.
pub open spec fn spec_str_items(items: Seq<JsonModel>) -> Option<Seq<Seq<char>>> {
    if forall|i: int| 0 <= i < items.len() ==> items[i] is Str {
        Some(
            Seq::new(
                items.len(),
                |i: int|
                    if 0 <= i < items.len() {
                        items[i]->Str_0
                    } else {
                        Seq::empty()
                    },
            ),
        )
    } else {
        None
    }
}

/// The string-array member of an object under the given key, if any.
pub open spec fn spec_get_string_list(m: JsonModel, key: Seq<char>) -> Option<Seq<Seq<char>>> {
    match m {
        JsonModel::Obj(pairs) => match spec_obj_lookup(pairs, key) {
            Some(JsonModel::Arr(items)) => spec_str_items(items),
            _ => None,
        },
        _ => None,
    }
}

fn get_string(v: &JsonValue, key: &str) -> (r: Result<String, KdlError>)
    ensures
        (r matches Ok(s) ==> spec_get_string(v@, key@) == Some(s@)),
        (r matches Err(e) ==> (spec_get_string(v@, key@) is None) && (e
            matches KdlError::DeserializeError { .. })),
{
    match v {
        JsonValue::Obj(pairs) => match obj_lookup(pairs, key) {
            Some(member) => match member {
                JsonValue::Str(s) => Ok(s.clone()),
                _ => Err(data_error()),
            },
            None => Err(data_error()),
        },
        _ => Err(data_error()),
    }
}

fn get_u32(v: &JsonValue, key: &str) -> (r: Result<u32, KdlError>)
    ensures
        (r matches Ok(n) ==> spec_get_u32(v@, key@) == Some(n)),
        (r matches Err(e) ==> (spec_get_u32(v@, key@) is None) && (e
            matches KdlError::DeserializeError { .. })),
{
    match v {
        JsonValue::Obj(pairs) => match obj_lookup(pairs, key) {
            Some(member) => match member {
                JsonValue::Int(c) => {
                    if 0 <= *c && *c <= 4294967295i64 {
                        Ok(*c as u32)
                    } else {
                        Err(data_error())
                    }
                },
                _ => Err(data_error()),
            },
            None => Err(data_error()),
        },
        _ => Err(data_error()),
    }
}

fn get_i32(v: &JsonValue, key: &str) -> (r: Result<i32, KdlError>)
    ensures
        (r matches Ok(n) ==> spec_get_i32(v@, key@) == Some(n)),
        (r matches Err(e) ==> (spec_get_i32(v@, key@) is None) && (e
            matches KdlError::DeserializeError { .. })),
{
    match v {
        JsonValue::Obj(pairs) => match obj_lookup(pairs, key) {
            Some(member) => match member {
                JsonValue::Int(c) => {
                    if -2147483648i64 <= *c && *c <= 2147483647i64 {
                        Ok(*c as i32)
                    } else {
                        Err(data_error())
                    }
                },
                _ => Err(data_error()),
            },
            None => Err(data_error()),
        },
        _ => Err(data_error()),
    }
}

fn collect_strings(items: &Vec<JsonValue>) -> (r: Result<Vec<String>, KdlError>)
    ensures
        (r matches Ok(out) ==> spec_str_items(vals_view(items@)) == Some(strs_view(out@))),
        (r matches Err(e) ==> (spec_str_items(vals_view(items@)) is None) && (e
            matches KdlError::DeserializeError { .. })),
{
    let mut out: Vec<String> = Vec::new();
    let m = items.len();
    let mut idx: usize = 0;
    while idx < m
        invariant
            m == items@.len(),
            idx <= m,
            out@.len() == idx,
            forall|k: int| 0 <= k < idx ==> vals_view(items@)[k] is Str,
            forall|k: int| 0 <= k < idx ==> out@[k]@ == vals_view(items@)[k]->Str_0,
        decreases m - idx,
    {
        match &items[idx] {
            JsonValue::Str(s) => {
                out.push(s.clone());
            },
            _ => {
                proof {
                    assert(vals_view(items@)[idx as int] !is Str);
                }
                return Err(data_error());
            },
        }
        idx = idx + 1;
    }
    proof {
        let iv = vals_view(items@);
        assert(spec_str_items(iv) matches Some(ss) && ss =~= strs_view(out@));
    }
    Ok(out)
}

fn get_string_list(v: &JsonValue, key: &str) -> (r: Result<Vec<String>, KdlError>)
    ensures
        (r matches Ok(out) ==> spec_get_string_list(v@, key@) == Some(strs_view(out@))),
        (r matches Err(e) ==> (spec_get_string_list(v@, key@) is None) && (e
            matches KdlError::DeserializeError { .. })),
{
    match v {
        JsonValue::Obj(pairs) => match obj_lookup(pairs, key) {
            Some(member) => match member {
                JsonValue::Arr(items) => collect_strings(items),
                _ => Err(data_error()),
            },
            None => Err(data_error()),
        },
        _ => Err(data_error()),
    }
}

/// A money amount in hundredths of the account currency; the wire carries it
/// as a decimal string such as `12.50`.
#[derive(Clone, Copy, Debug, PartialEq, Eq, Structural)]
pub struct Amount {
    pub cents: i64,
}

/// Parse a decimal amount (an optional minus sign, digits, and optionally a
/// point with one or two fraction digits) into hundredths; anything else, or
/// a value outside `i64` hundredths, yields nothing.
pub open spec fn spec_parse_amount(s: Seq<char>) -> Option<int> {
    if s.len() == 0 {
        None
    } else {
        let neg = s[0] == '-';
        let start: int = if neg {
            1
        } else {
            0
        };
        match spec_parse_digits(s, start, 0) {
            None => None,
            Some((units, j)) => if j == start {
                None
            } else {
                let frac: Option<int> = if j == s.len() {
                    Some(0)
                } else if s[j] == '.' && j + 2 == s.len() && spec_is_digit(s[j + 1]) {
                    Some(spec_digit_val(s[j + 1]) * 10)
                } else if s[j] == '.' && j + 3 == s.len() && spec_is_digit(s[j + 1])
                    && spec_is_digit(s[j + 2]) {
                    Some(spec_digit_val(s[j + 1]) * 10 + spec_digit_val(s[j + 2]))
                } else {
                    None
                };
                match frac {
                    None => None,
                    Some(f) => if units * 100 + f <= i64::MAX as int {
                        if neg {
                            Some(-(units * 100 + f))
                        } else {
                            Some(units * 100 + f)
                        }
                    } else {
                        None
                    },
                }
            },
        }
    }
}

/// Parse a decimal amount string into hundredths.
pub fn parse_amount(s: &str) -> (r: Option<Amount>)
    ensures
        (r matches Some(a) ==> spec_parse_amount(s@) == Some(a.cents as int)),
        (r is None ==> (spec_parse_amount(s@) is None)),
{
    let n = s.unicode_len();
    if n == 0 {
        return None;
    }
    let neg = s.get_char(0) == '-';
    let start: usize = if neg {
        1
    } else {
        0
    };
    let (units, j) = match parse_digits(s, start, 0) {
        Some(p) => p,
        None => {
            return None;
        },
    };
    if j == start {
        return None;
    }
    let frac: i64 = if j == n {
        0
    } else if s.get_char(j) == '.' && n - j == 2 && is_digit(s.get_char(j + 1)) {
        digit_val(s.get_char(j + 1)) * 10
    } else if s.get_char(j) == '.' && n - j == 3 && is_digit(s.get_char(j + 1)) && is_digit(
        s.get_char(j + 2),
    ) {
        digit_val(s.get_char(j + 1)) * 10 + digit_val(s.get_char(j + 2))
    } else {
        return None;
    };
    let limit = (i64::MAX - frac) / 100;
    if units <= limit {
        proof {
            assert(units * 100 + frac <= i64::MAX as int) by {
                assert(i64::MAX - frac >= 100 * ((i64::MAX - frac) / 100));
            };
        }
        let magnitude = units * 100 + frac;
        if neg {
            Some(Amount { cents: -magnitude })
        } else {
            Some(Amount { cents: magnitude })
        }
    } else {
        proof {
            assert(units * 100 + frac > i64::MAX as int) by {
                assert(i64::MAX - frac < 100 * ((i64::MAX - frac) / 100) + 100);
            };
        }
        None
    }
}

/// The text and flag of each entry of a key/boolean list.
pub open spec fn bool_entries_view(entries: Seq<(String, bool)>) -> Seq<(Seq<char>, bool)> {
    Seq::new(
        entries.len(),
        |i: int|
            if 0 <= i < entries.len() {
                (entries[i].0@, entries[i].1)
            } else {
                (Seq::empty(), false)
            },
    )
}

/// The text and number of each entry of a key/number list.
pub open spec fn u32_entries_view(entries: Seq<(String, u32)>) -> Seq<(Seq<char>, u32)> {
    Seq::new(
        entries.len(),
        |i: int|
            if 0 <= i < entries.len() {
                (entries[i].0@, entries[i].1)
            } else {
                (Seq::empty(), 0u32)
            },
    )
}

/// An object whose members are all booleans, as key/flag entries in wire
/// order.
pub open spec fn spec_bool_map_data(m: JsonModel) -> Option<Seq<(Seq<char>, bool)>> {
    match m {
        JsonModel::Obj(pairs) => if forall|i: int| 0 <= i < pairs.len() ==> pairs[i].1 is Bool {
            Some(
                Seq::new(
                    pairs.len(),
                    |i: int|
                        if 0 <= i < pairs.len() {
                            (pairs[i].0, pairs[i].1->Bool_0)
                        } else {
                            (Seq::empty(), false)
                        },
                ),
            )
        } else {
            None
        },
        _ => None,
    }
}

/// An object whose members are all integers within `u32`, as key/number
/// entries in wire order.
pub open spec fn spec_u32_map_data(m: JsonModel) -> Option<Seq<(Seq<char>, u32)>> {
    match m {
        JsonModel::Obj(pairs) => if forall|i: int|
            0 <= i < pairs.len() ==> pairs[i].1 is Int && 0 <= pairs[i].1->Int_0 <= u32::MAX {
            Some(
                Seq::new(
                    pairs.len(),
                    |i: int|
                        if 0 <= i < pairs.len() {
                            (pairs[i].0, pairs[i].1->Int_0 as u32)
                        } else {
                            (Seq::empty(), 0u32)
                        },
                ),
            )
        } else {
            None
        },
        _ => None,
    }
}

/// Decode an object of boolean members (the shape of a validity check's
/// `data`) into key/flag entries.
pub fn decode_bool_map(v: &JsonValue) -> (r: Result<Vec<(String, bool)>, KdlError>)
    ensures
        (r matches Ok(out) ==> spec_bool_map_data(v@) == Some(bool_entries_view(out@))),
        (r matches Err(e) ==> (spec_bool_map_data(v@) is None) && (e
            matches KdlError::DeserializeError { .. })),
{
    let pairs = match v {
        JsonValue::Obj(pairs) => pairs,
        _ => {
            return Err(data_error());
        },
    };
    let mut out: Vec<(String, bool)> = Vec::new();
    let m = pairs.len();
    let mut idx: usize = 0;
    while idx < m
        invariant
            v@ == JsonModel::Obj(pairs_view(pairs@)),
            m == pairs@.len(),
            idx <= m,
            out@.len() == idx,
            forall|k: int| 0 <= k < idx ==> pairs_view(pairs@)[k].1 is Bool,
            forall|k: int| 0 <= k < idx ==> out@[k].0@ == pairs_view(pairs@)[k].0,
            forall|k: int| 0 <= k < idx ==> out@[k].1 == pairs_view(pairs@)[k].1->Bool_0,
        decreases m - idx,
    {
        match &pairs[idx].1 {
            JsonValue::Bool(b) => {
                out.push((pairs[idx].0.clone(), *b));
            },
            _ => {
                proof {
                    let pv = pairs_view(pairs@);
                    assert(v@ == JsonModel::Obj(pv));
                    assert(!(forall|i: int| 0 <= i < pv.len() ==> pv[i].1 is Bool)) by {
                        assert(pv[idx as int].1 !is Bool);
                    }
                }
                return Err(data_error());
            },
        }
        idx = idx + 1;
    }
    proof {
        let pv = pairs_view(pairs@);
        assert(spec_bool_map_data(v@) matches Some(es) && es =~= bool_entries_view(out@));
    }
    Ok(out)
}

/// Decode an object of integer members (the shape of a remaining-time
/// query's `data`) into key/number entries.
pub fn decode_u32_map(v: &JsonValue) -> (r: Result<Vec<(String, u32)>, KdlError>)
    ensures
        (r matches Ok(out) ==> spec_u32_map_data(v@) == Some(u32_entries_view(out@))),
        (r matches Err(e) ==> (spec_u32_map_data(v@) is None) && (e
            matches KdlError::DeserializeError { .. })),
{
    let pairs = match v {
        JsonValue::Obj(pairs) => pairs,
        _ => {
            return Err(data_error());
        },
    };
    let mut out: Vec<(String, u32)> = Vec::new();
    let m = pairs.len();
    let mut idx: usize = 0;
    while idx < m
        invariant
            v@ == JsonModel::Obj(pairs_view(pairs@)),
            m == pairs@.len(),
            idx <= m,
            out@.len() == idx,
            forall|k: int|
                0 <= k < idx ==> pairs_view(pairs@)[k].1 is Int && 0 <= pairs_view(pairs@)[k].1->Int_0
                    <= u32::MAX,
            forall|k: int| 0 <= k < idx ==> out@[k].0@ == pairs_view(pairs@)[k].0,
            forall|k: int| 0 <= k < idx ==> out@[k].1 == pairs_view(pairs@)[k].1->Int_0 as u32,
        decreases m - idx,
    {
        match &pairs[idx].1 {
            JsonValue::Int(c) => {
                if 0 <= *c && *c <= 4294967295i64 {
                    out.push((pairs[idx].0.clone(), *c as u32));
                } else {
                    proof {
                        let pv = pairs_view(pairs@);
                        assert(v@ == JsonModel::Obj(pv));
                        assert(!(forall|i: int|
                            0 <= i < pv.len() ==> pv[i].1 is Int && 0 <= pv[i].1->Int_0
                                <= u32::MAX)) by {
                            assert(!(0 <= pv[idx as int].1->Int_0 <= u32::MAX));
                        }
                    }
                    return Err(data_error());
                }
            },
            _ => {
                proof {
                    let pv = pairs_view(pairs@);
                    assert(v@ == JsonModel::Obj(pv));
                    assert(!(forall|i: int|
                        0 <= i < pv.len() ==> pv[i].1 is Int && 0 <= pv[i].1->Int_0 <= u32::MAX))
                        by {
                        assert(pv[idx as int].1 !is Int);
                    }
                }
                return Err(data_error());
            },
        }
        idx = idx + 1;
    }
    proof {
        let pv = pairs_view(pairs@);
        assert(spec_u32_map_data(v@) matches Some(es) && es =~= u32_entries_view(out@));
    }
    Ok(out)
}

/// A `data` value that is one bare string.
pub open spec fn spec_string_data(m: JsonModel) -> Option<Seq<char>> {
    match m {
        JsonModel::Str(s) => Some(s),
        _ => None,
    }
}

/// Decode a `data` value that the API sends as one bare string.
pub fn decode_string_data(v: &JsonValue) -> (r: Result<String, KdlError>)
    ensures
        (r matches Ok(s) ==> spec_string_data(v@) == Some(s@)),
        (r matches Err(e) ==> (spec_string_data(v@) is None) && (e
            matches KdlError::DeserializeError { .. })),
{
    match v {
        JsonValue::Str(s) => Ok(s.clone()),
        _ => Err(data_error()),
    }
}

/// Return value of `set_ip_whitelist`: the bare string the API sends back.
pub type SetIpWhitelistRets = String;

/// Return value of `check_dps_valid`: each proxy and whether it is valid.
pub type CheckDpsValidRets = Vec<(String, bool)>;

/// Return value of `check_ops_valid`: each proxy and whether it is valid.
pub type CheckOpsValidRets = Vec<(String, bool)>;

/// Return value of `get_dps_valid_time`: each proxy and its remaining
/// seconds.
pub type GetDpsValidTimeRets = Vec<(String, u32)>;

/// Return value of `tps_current_ip`.
#[derive(Clone, Debug, PartialEq, Eq)]
pub struct TpsCurrentIpRets {
    pub current_ip: String,
}

/// Decode the `data` of `tps_current_ip`.
pub fn decode_tps_current_ip_data(v: &JsonValue) -> (r: Result<TpsCurrentIpRets, KdlError>)
    ensures
        (r matches Ok(x) ==> spec_get_string(v@, "current_ip"@) == Some(x.current_ip@)),
        (r matches Err(e) ==> (spec_get_string(v@, "current_ip"@) is None) && (e
            matches KdlError::DeserializeError { .. })),
{
    match get_string(v, "current_ip") {
        Ok(current_ip) => Ok(TpsCurrentIpRets { current_ip }),
        Err(e) => Err(e),
    }
}

/// Return value of `change_tps_ip`.
#[derive(Clone, Debug, PartialEq, Eq)]
pub struct ChangeTpsIpRets {
    pub current_ip: String,
}

/// Decode the `data` of `change_tps_ip`.
pub fn decode_change_tps_ip_data(v: &JsonValue) -> (r: Result<ChangeTpsIpRets, KdlError>)
    ensures
        (r matches Ok(x) ==> spec_get_string(v@, "current_ip"@) == Some(x.current_ip@)),
        (r matches Err(e) ==> (spec_get_string(v@, "current_ip"@) is None) && (e
            matches KdlError::DeserializeError { .. })),
{
    match get_string(v, "current_ip") {
        Ok(current_ip) => Ok(ChangeTpsIpRets { current_ip }),
        Err(e) => Err(e),
    }
}

/// Return value of `get_tps`.
#[derive(Clone, Debug, PartialEq, Eq)]
pub struct GetTpsRets {
    pub count: u32,
    pub proxy_list: Vec<String>,
}

/// Decode the `data` of `get_tps`.
pub fn decode_get_tps_data(v: &JsonValue) -> (r: Result<GetTpsRets, KdlError>)
    ensures
        (r matches Ok(x) ==> (spec_get_u32(v@, "count"@) == Some(x.count) && spec_get_string_list(
            v@,
            "proxy_list"@,
        ) == Some(strs_view(x.proxy_list@)))),
        (r matches Err(e) ==> !((spec_get_u32(v@, "count"@) is Some) && (spec_get_string_list(
            v@,
            "proxy_list"@,
        ) is Some)) && (e matches KdlError::DeserializeError { .. })),
{
    let count = match get_u32(v, "count") {
        Ok(n) => n,
        Err(e) => {
            return Err(e);
        },
    };
    let proxy_list = match get_string_list(v, "proxy_list") {
        Ok(l) => l,
        Err(e) => {
            return Err(e);
        },
    };
    Ok(GetTpsRets { count, proxy_list })
}

/// Return value of `get_kps`.
#[derive(Clone, Debug, PartialEq, Eq)]
pub struct GetKpsRets {
    pub count: u32,
    pub proxy_list: Vec<String>,
}

/// Decode the `data` of `get_kps`.
pub fn decode_get_kps_data(v: &JsonValue) -> (r: Result<GetKpsRets, KdlError>)
    ensures
        (r matches Ok(x) ==> (spec_get_u32(v@, "count"@) == Some(x.count) && spec_get_string_list(
            v@,
            "proxy_list"@,
        ) == Some(strs_view(x.proxy_list@)))),
        (r matches Err(e) ==> !((spec_get_u32(v@, "count"@) is Some) && (spec_get_string_list(
            v@,
            "proxy_list"@,
        ) is Some)) && (e matches KdlError::DeserializeError { .. })),
{
    let count = match get_u32(v, "count") {
        Ok(n) => n,
        Err(e) => {
            return Err(e);
        },
    };
    let proxy_list = match get_string_list(v, "proxy_list") {
        Ok(l) => l,
        Err(e) => {
            return Err(e);
        },
    };
    Ok(GetKpsRets { count, proxy_list })
}

/// Return value of `get_proxy`.
#[derive(Clone, Debug, PartialEq, Eq)]
pub struct GetProxyRets {
    pub count: u32,
    pub proxy_list: Vec<String>,
}

/// Decode the `data` of `get_proxy`.
pub fn decode_get_proxy_data(v: &JsonValue) -> (r: Result<GetProxyRets, KdlError>)
    ensures
        (r matches Ok(x) ==> (spec_get_u32(v@, "count"@) == Some(x.count) && spec_get_string_list(
            v@,
            "proxy_list"@,
        ) == Some(strs_view(x.proxy_list@)))),
        (r matches Err(e) ==> !((spec_get_u32(v@, "count"@) is Some) && (spec_get_string_list(
            v@,
            "proxy_list"@,
        ) is Some)) && (e matches KdlError::DeserializeError { .. })),
{
    let count = match get_u32(v, "count") {
        Ok(n) => n,
        Err(e) => {
            return Err(e);
        },
    };
    let proxy_list = match get_string_list(v, "proxy_list") {
        Ok(l) => l,
        Err(e) => {
            return Err(e);
        },
    };
    Ok(GetProxyRets { count, proxy_list })
}

/// Return value of `get_ua`.
#[derive(Clone, Debug, PartialEq, Eq)]
pub struct GetUARets {
    pub count: u32,
    pub ua_list: Vec<String>,
}

/// Decode the `data` of `get_ua`.
pub fn decode_get_ua_data(v: &JsonValue) -> (r: Result<GetUARets, KdlError>)
    ensures
        (r matches Ok(x) ==> (spec_get_u32(v@, "count"@) == Some(x.count) && spec_get_string_list(
            v@,
            "ua_list"@,
        ) == Some(strs_view(x.ua_list@)))),
        (r matches Err(e) ==> !((spec_get_u32(v@, "count"@) is Some) && (spec_get_string_list(
            v@,
            "ua_list"@,
        ) is Some)) && (e matches KdlError::DeserializeError { .. })),
{
    let count = match get_u32(v, "count") {
        Ok(n) => n,
        Err(e) => {
            return Err(e);
        },
    };
    let ua_list = match get_string_list(v, "ua_list") {
        Ok(l) => l,
        Err(e) => {
            return Err(e);
        },
    };
    Ok(GetUARets { count, ua_list })
}

/// Return value of `get_dps`.
#[derive(Clone, Debug, PartialEq, Eq)]
pub struct GetDpsRets {
    pub count: u32,
    pub dedup_count: u32,
    pub order_left_count: u32,
    pub today_left_count: u32,
    pub proxy_list: Vec<String>,
}

/// Decode the `data` of `get_dps`.
pub fn decode_get_dps_data(v: &JsonValue) -> (r: Result<GetDpsRets, KdlError>)
    ensures
        (r matches Ok(x) ==> (spec_get_u32(v@, "count"@) == Some(x.count) && spec_get_u32(
            v@,
            "dedup_count"@,
        ) == Some(x.dedup_count) && spec_get_u32(v@, "order_left_count"@) == Some(
            x.order_left_count,
        ) && spec_get_u32(v@, "today_left_count"@) == Some(x.today_left_count)
            && spec_get_string_list(v@, "proxy_list"@) == Some(strs_view(x.proxy_list@)))),
        (r matches Err(e) ==> !((spec_get_u32(v@, "count"@) is Some) && (spec_get_u32(
            v@,
            "dedup_count"@,
        ) is Some) && (spec_get_u32(v@, "order_left_count"@) is Some) && (spec_get_u32(
            v@,
            "today_left_count"@,
        ) is Some) && (spec_get_string_list(v@, "proxy_list"@) is Some)) && (e
            matches KdlError::DeserializeError { .. })),
{
    let count = match get_u32(v, "count") {
        Ok(n) => n,
        Err(e) => {
            return Err(e);
        },
    };
    let dedup_count = match get_u32(v, "dedup_count") {
        Ok(n) => n,
        Err(e) => {
            return Err(e);
        },
    };
    let order_left_count = match get_u32(v, "order_left_count") {
        Ok(n) => n,
        Err(e) => {
            return Err(e);
        },
    };
    let today_left_count = match get_u32(v, "today_left_count") {
        Ok(n) => n,
        Err(e) => {
            return Err(e);
        },
    };
    let proxy_list = match get_string_list(v, "proxy_list") {
        Ok(l) => l,
        Err(e) => {
            return Err(e);
        },
    };
    Ok(GetDpsRets { count, dedup_count, order_left_count, today_left_count, proxy_list })
}

/// Return value of `get_ip_whitelist`.
#[derive(Clone, Debug, PartialEq, Eq)]
pub struct GetIpWhitelistRets {
    pub count: u32,
    pub ip_whitelist: Vec<String>,
    pub limit: u32,
}

/// Decode the `data` of `get_ip_whitelist`; the whitelist comes under the
/// wire key `ipwhitelist`.
pub fn decode_get_ip_whitelist_data(v: &JsonValue) -> (r: Result<GetIpWhitelistRets, KdlError>)
    ensures
        (r matches Ok(x) ==> (spec_get_u32(v@, "count"@) == Some(x.count) && spec_get_string_list(
            v@,
            "ipwhitelist"@,
        ) == Some(strs_view(x.ip_whitelist@)) && spec_get_u32(v@, "limit"@) == Some(x.limit))),
        (r matches Err(e) ==> !((spec_get_u32(v@, "count"@) is Some) && (spec_get_string_list(
            v@,
            "ipwhitelist"@,
        ) is Some) && (spec_get_u32(v@, "limit"@) is Some)) && (e
            matches KdlError::DeserializeError { .. })),
{
    let count = match get_u32(v, "count") {
        Ok(n) => n,
        Err(e) => {
            return Err(e);
        },
    };
    let ip_whitelist = match get_string_list(v, "ipwhitelist") {
        Ok(l) => l,
        Err(e) => {
            return Err(e);
        },
    };
    let limit = match get_u32(v, "limit") {
        Ok(n) => n,
        Err(e) => {
            return Err(e);
        },
    };
    Ok(GetIpWhitelistRets { count, ip_whitelist, limit })
}

/// Return value of `get_order_expire_time`: the expiry as the wire's date
/// text.
#[derive(Clone, Debug, PartialEq, Eq)]
pub struct GetOrderExpireTimeRets {
    pub expire_time: String,
}

/// Decode the `data` of `get_order_expire_time`, keeping the date text.
pub fn decode_get_order_expire_time_data(v: &JsonValue) -> (r: Result<
    GetOrderExpireTimeRets,
    KdlError,
>)
    ensures
        (r matches Ok(x) ==> spec_get_string(v@, "expire_time"@) == Some(x.expire_time@)),
        (r matches Err(e) ==> (spec_get_string(v@, "expire_time"@) is None) && (e
            matches KdlError::DeserializeError { .. })),
{
    match get_string(v, "expire_time") {
        Ok(expire_time) => Ok(GetOrderExpireTimeRets { expire_time }),
        Err(e) => Err(e),
    }
}

/// Typed return value of `get_order_expire_time`: the expiry as a date value
/// in the fixed `+05:00` offset.
#[derive(Clone, Copy, Debug, PartialEq, Eq, Structural)]
pub struct GetOrderExpireTimeData {
    pub expire_time: KdlDateTime,
}

/// Decode the `data` of `get_order_expire_time` into a typed date value: the
/// field must hold well-formed date text.
pub fn decode_get_order_expire_time_typed(v: &JsonValue) -> (r: Result<
    GetOrderExpireTimeData,
    KdlError,
>)
    ensures
        (r matches Ok(x) ==> (spec_get_string(v@, "expire_time"@) matches Some(txt)
            && spec_parse_datetime(txt) == Some(x.expire_time))),
        (r matches Err(e) ==> (match spec_get_string(v@, "expire_time"@) {
            Some(txt) => spec_parse_datetime(txt) is None,
            None => true,
        }) && (e matches KdlError::DeserializeError { .. })),
{
    let txt = match get_string(v, "expire_time") {
        Ok(s) => s,
        Err(e) => {
            return Err(e);
        },
    };
    match parse_datetime(txt.as_str()) {
        Some(dt) => Ok(GetOrderExpireTimeData { expire_time: dt }),
        None => Err(data_error()),
    }
}

/// Return value of `get_proxy_authorization`.
#[derive(Clone, Debug, PartialEq, Eq)]
pub struct GetProxyAuthorizationRets {
    pub auth_type: String,
    pub credentials: String,
    pub username: String,
    pub password: String,
}

/// Decode the `data` of `get_proxy_authorization`; the kind of authorization
/// comes under the wire key `type`.
pub fn decode_get_proxy_authorization_data(v: &JsonValue) -> (r: Result<
    GetProxyAuthorizationRets,
    KdlError,
>)
    ensures
        (r matches Ok(x) ==> (spec_get_string(v@, "type"@) == Some(x.auth_type@)
            && spec_get_string(v@, "credentials"@) == Some(x.credentials@) && spec_get_string(
            v@,
            "username"@,
        ) == Some(x.username@) && spec_get_string(v@, "password"@) == Some(x.password@))),
        (r matches Err(e) ==> !((spec_get_string(v@, "type"@) is Some) && (spec_get_string(
            v@,
            "credentials"@,
        ) is Some) && (spec_get_string(v@, "username"@) is Some) && (spec_get_string(
            v@,
            "password"@,
        ) is Some)) && (e matches KdlError::DeserializeError { .. })),
{
    let auth_type = match get_string(v, "type") {
        Ok(s) => s,
        Err(e) => {
            return Err(e);
        },
    };
    let credentials = match get_string(v, "credentials") {
        Ok(s) => s,
        Err(e) => {
            return Err(e);
        },
    };
    let username = match get_string(v, "username") {
        Ok(s) => s,
        Err(e) => {
            return Err(e);
        },
    };
    let password = match get_string(v, "password") {
        Ok(s) => s,
        Err(e) => {
            return Err(e);
        },
    };
    Ok(GetProxyAuthorizationRets { auth_type, credentials, username, password })
}

/// Return value of `get_account_balance`: the balance as a decimal amount in
/// hundredths (the wire carries it as a string such as `12.50`).
#[derive(Clone, Copy, Debug, PartialEq, Eq, Structural)]
pub struct GetAccountBalanceRets {
    pub balance: Amount,
}

/// Decode the `data` of `get_account_balance`: the `balance` field must hold
/// decimal text.
pub fn decode_get_account_balance_data(v: &JsonValue) -> (r: Result<GetAccountBalanceRets, KdlError>)
    ensures
        (r matches Ok(x) ==> (spec_get_string(v@, "balance"@) matches Some(txt)
            && spec_parse_amount(txt) == Some(x.balance.cents as int))),
        (r matches Err(e) ==> (match spec_get_string(v@, "balance"@) {
            Some(txt) => spec_parse_amount(txt) is None,
            None => true,
        }) && (e matches KdlError::DeserializeError { .. })),
{
    let txt = match get_string(v, "balance") {
        Ok(s) => s,
        Err(e) => {
            return Err(e);
        },
    };
    match parse_amount(txt.as_str()) {
        Some(balance) => Ok(GetAccountBalanceRets { balance }),
        None => Err(data_error()),
    }
}

/// Whole-unit return value of `get_account_balance`: the balance as a bare
/// integer, the shape an older revision of the API sends.
#[derive(Clone, Copy, Debug, PartialEq, Eq, Structural)]
pub struct GetAccountBalanceData {
    pub balance: i32,
}

/// Decode a whole-unit `get_account_balance` `data` value.
pub fn decode_get_account_balance_whole(v: &JsonValue) -> (r: Result<GetAccountBalanceData, KdlError>)
    ensures
        (r matches Ok(x) ==> spec_get_i32(v@, "balance"@) == Some(x.balance)),
        (r matches Err(e) ==> (spec_get_i32(v@, "balance"@) is None) && (e
            matches KdlError::DeserializeError { .. })),
{
    match get_i32(v, "balance") {
        Ok(balance) => Ok(GetAccountBalanceData { balance }),
        Err(e) => Err(e),
    }
}

/// Return value of `get_ip_balance`.
#[derive(Clone, Copy, Debug, PartialEq, Eq, Structural)]
pub struct GetIpBalanceRets {
    pub balance: u32,
}

/// Decode the `data` of `get_ip_balance`.
pub fn decode_get_ip_balance_data(v: &JsonValue) -> (r: Result<GetIpBalanceRets, KdlError>)
    ensures
        (r matches Ok(x) ==> spec_get_u32(v@, "balance"@) == Some(x.balance)),
        (r matches Err(e) ==> (spec_get_u32(v@, "balance"@) is None) && (e
            matches KdlError::DeserializeError { .. })),
{
    match get_u32(v, "balance") {
        Ok(balance) => Ok(GetIpBalanceRets { balance }),
        Err(e) => Err(e),
    }
}

/// Return value of `get_area_code`; the wire keys are `are_anme` and
/// `are_code`, exactly as the API spells them.
#[derive(Clone, Debug, PartialEq, Eq)]
pub struct GetAreaCodeRets {
    pub area_name: String,
    pub area_code: String,
}

/// Decode the `data` of `get_area_code`.
pub fn decode_get_area_code_data(v: &JsonValue) -> (r: Result<GetAreaCodeRets, KdlError>)
    ensures
        (r matches Ok(x) ==> (spec_get_string(v@, "are_anme"@) == Some(x.area_name@)
            && spec_get_string(v@, "are_code"@) == Some(x.area_code@))),
        (r matches Err(e) ==> !((spec_get_string(v@, "are_anme"@) is Some) && (spec_get_string(
            v@,
            "are_code"@,
        ) is Some)) && (e matches KdlError::DeserializeError { .. })),
{
    let area_name = match get_string(v, "are_anme") {
        Ok(s) => s,
        Err(e) => {
            return Err(e);
        },
    };
    let area_code = match get_string(v, "are_code") {
        Ok(s) => s,
        Err(e) => {
            return Err(e);
        },
    };
    Ok(GetAreaCodeRets { area_name, area_code })
}

/// What a decoded `tps_current_ip` value holds of the `data` model.
pub open spec fn spec_tps_current_ip_ok(m: JsonModel, x: TpsCurrentIpRets) -> bool {
    spec_get_string(m, "current_ip"@) == Some(x.current_ip@)
}

/// Whether a `data` model has the `tps_current_ip` return shape.
pub open spec fn spec_tps_current_ip_decodes(m: JsonModel) -> bool {
    spec_get_string(m, "current_ip"@) is Some
}

/// What a decoded `change_tps_ip` value holds of the `data` model.
pub open spec fn spec_change_tps_ip_ok(m: JsonModel, x: ChangeTpsIpRets) -> bool {
    spec_get_string(m, "current_ip"@) == Some(x.current_ip@)
}

/// Whether a `data` model has the `change_tps_ip` return shape.
pub open spec fn spec_change_tps_ip_decodes(m: JsonModel) -> bool {
    spec_get_string(m, "current_ip"@) is Some
}

/// What a decoded `get_tps` value holds of the `data` model.
pub open spec fn spec_get_tps_ok(m: JsonModel, x: GetTpsRets) -> bool {
    &&& spec_get_u32(m, "count"@) == Some(x.count)
    &&& spec_get_string_list(m, "proxy_list"@) == Some(strs_view(x.proxy_list@))
}

/// Whether a `data` model has the `get_tps` return shape.
pub open spec fn spec_get_tps_decodes(m: JsonModel) -> bool {
    &&& spec_get_u32(m, "count"@) is Some
    &&& spec_get_string_list(m, "proxy_list"@) is Some
}

/// What a decoded `get_kps` value holds of the `data` model.
pub open spec fn spec_get_kps_ok(m: JsonModel, x: GetKpsRets) -> bool {
    &&& spec_get_u32(m, "count"@) == Some(x.count)
    &&& spec_get_string_list(m, "proxy_list"@) == Some(strs_view(x.proxy_list@))
}

/// Whether a `data` model has the `get_kps` return shape.
pub open spec fn spec_get_kps_decodes(m: JsonModel) -> bool {
    &&& spec_get_u32(m, "count"@) is Some
    &&& spec_get_string_list(m, "proxy_list"@) is Some
}

/// What a decoded `get_proxy` value holds of the `data` model.
pub open spec fn spec_get_proxy_ok(m: JsonModel, x: GetProxyRets) -> bool {
    &&& spec_get_u32(m, "count"@) == Some(x.count)
    &&& spec_get_string_list(m, "proxy_list"@) == Some(strs_view(x.proxy_list@))
}

/// Whether a `data` model has the `get_proxy` return shape.
pub open spec fn spec_get_proxy_decodes(m: JsonModel) -> bool {
    &&& spec_get_u32(m, "count"@) is Some
    &&& spec_get_string_list(m, "proxy_list"@) is Some
}

/// What a decoded `get_ua` value holds of the `data` model.
pub open spec fn spec_get_ua_ok(m: JsonModel, x: GetUARets) -> bool {
    &&& spec_get_u32(m, "count"@) == Some(x.count)
    &&& spec_get_string_list(m, "ua_list"@) == Some(strs_view(x.ua_list@))
}

/// Whether a `data` model has the `get_ua` return shape.
pub open spec fn spec_get_ua_decodes(m: JsonModel) -> bool {
    &&& spec_get_u32(m, "count"@) is Some
    &&& spec_get_string_list(m, "ua_list"@) is Some
}

/// What a decoded `get_dps` value holds of the `data` model.
pub open spec fn spec_get_dps_ok(m: JsonModel, x: GetDpsRets) -> bool {
    &&& spec_get_u32(m, "count"@) == Some(x.count)
    &&& spec_get_u32(m, "dedup_count"@) == Some(x.dedup_count)
    &&& spec_get_u32(m, "order_left_count"@) == Some(x.order_left_count)
    &&& spec_get_u32(m, "today_left_count"@) == Some(x.today_left_count)
    &&& spec_get_string_list(m, "proxy_list"@) == Some(strs_view(x.proxy_list@))
}

/// Whether a `data` model has the `get_dps` return shape.
pub open spec fn spec_get_dps_decodes(m: JsonModel) -> bool {
    &&& spec_get_u32(m, "count"@) is Some
    &&& spec_get_u32(m, "dedup_count"@) is Some
    &&& spec_get_u32(m, "order_left_count"@) is Some
    &&& spec_get_u32(m, "today_left_count"@) is Some
    &&& spec_get_string_list(m, "proxy_list"@) is Some
}

/// What a decoded `get_ip_whitelist` value holds of the `data` model.
pub open spec fn spec_get_ip_whitelist_ok(m: JsonModel, x: GetIpWhitelistRets) -> bool {
    &&& spec_get_u32(m, "count"@) == Some(x.count)
    &&& spec_get_string_list(m, "ipwhitelist"@) == Some(strs_view(x.ip_whitelist@))
    &&& spec_get_u32(m, "limit"@) == Some(x.limit)
}

/// Whether a `data` model has the `get_ip_whitelist` return shape.
pub open spec fn spec_get_ip_whitelist_decodes(m: JsonModel) -> bool {
    &&& spec_get_u32(m, "count"@) is Some
    &&& spec_get_string_list(m, "ipwhitelist"@) is Some
    &&& spec_get_u32(m, "limit"@) is Some
}

/// What a decoded `get_order_expire_time` value holds of the `data` model.
pub open spec fn spec_get_order_expire_time_ok(m: JsonModel, x: GetOrderExpireTimeRets) -> bool {
    spec_get_string(m, "expire_time"@) == Some(x.expire_time@)
}

/// Whether a `data` model has the `get_order_expire_time` return shape.
pub open spec fn spec_get_order_expire_time_decodes(m: JsonModel) -> bool {
    spec_get_string(m, "expire_time"@) is Some
}

/// What a decoded `get_proxy_authorization` value holds of the `data` model.
pub open spec fn spec_get_proxy_authorization_ok(m: JsonModel, x: GetProxyAuthorizationRets) -> bool {
    &&& spec_get_string(m, "type"@) == Some(x.auth_type@)
    &&& spec_get_string(m, "credentials"@) == Some(x.credentials@)
    &&& spec_get_string(m, "username"@) == Some(x.username@)
    &&& spec_get_string(m, "password"@) == Some(x.password@)
}

/// Whether a `data` model has the `get_proxy_authorization` return shape.
pub open spec fn spec_get_proxy_authorization_decodes(m: JsonModel) -> bool {
    &&& spec_get_string(m, "type"@) is Some
    &&& spec_get_string(m, "credentials"@) is Some
    &&& spec_get_string(m, "username"@) is Some
    &&& spec_get_string(m, "password"@) is Some
}

/// What a decoded `get_account_balance` value holds of the `data` model.
pub open spec fn spec_get_account_balance_ok(m: JsonModel, x: GetAccountBalanceRets) -> bool {
    spec_get_string(m, "balance"@) matches Some(txt) && spec_parse_amount(txt) == Some(
        x.balance.cents as int,
    )
}

/// Whether a `data` model has the `get_account_balance` return shape.
pub open spec fn spec_get_account_balance_decodes(m: JsonModel) -> bool {
    match spec_get_string(m, "balance"@) {
        Some(txt) => spec_parse_amount(txt) is Some,
        None => false,
    }
}

/// What a decoded `get_ip_balance` value holds of the `data` model.
pub open spec fn spec_get_ip_balance_ok(m: JsonModel, x: GetIpBalanceRets) -> bool {
    spec_get_u32(m, "balance"@) == Some(x.balance)
}

/// Whether a `data` model has the `get_ip_balance` return shape.
pub open spec fn spec_get_ip_balance_decodes(m: JsonModel) -> bool {
    spec_get_u32(m, "balance"@) is Some
}

/// What a decoded `get_area_code` value holds of the `data` model.
pub open spec fn spec_get_area_code_ok(m: JsonModel, x: GetAreaCodeRets) -> bool {
    &&& spec_get_string(m, "are_anme"@) == Some(x.area_name@)
    &&& spec_get_string(m, "are_code"@) == Some(x.area_code@)
}

/// Whether a `data` model has the `get_area_code` return shape.
pub open spec fn spec_get_area_code_decodes(m: JsonModel) -> bool {
    &&& spec_get_string(m, "are_anme"@) is Some
    &&& spec_get_string(m, "are_code"@) is Some
}

/// What a decoded `set_ip_whitelist` value holds of the `data` model.
pub open spec fn spec_set_ip_whitelist_ok(m: JsonModel, x: SetIpWhitelistRets) -> bool {
    spec_string_data(m) == Some(x@)
}

/// Whether a `data` model has the `set_ip_whitelist` return shape.
pub open spec fn spec_set_ip_whitelist_decodes(m: JsonModel) -> bool {
    spec_string_data(m) is Some
}

/// What a decoded validity map holds of the `data` model.
pub open spec fn spec_bool_map_ok(m: JsonModel, x: Vec<(String, bool)>) -> bool {
    spec_bool_map_data(m) == Some(bool_entries_view(x@))
}

/// Whether a `data` model has the validity-map return shape.
pub open spec fn spec_bool_map_decodes(m: JsonModel) -> bool {
    spec_bool_map_data(m) is Some
}

/// What a decoded remaining-time map holds of the `data` model.
pub open spec fn spec_u32_map_ok(m: JsonModel, x: Vec<(String, u32)>) -> bool {
    spec_u32_map_data(m) == Some(u32_entries_view(x@))
}

/// Whether a `data` model has the remaining-time-map return shape.
pub open spec fn spec_u32_map_decodes(m: JsonModel) -> bool {
    spec_u32_map_data(m) is Some
}

} // verus!
