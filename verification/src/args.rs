use vstd::prelude::*;

use crate::classify::KdlError;
use crate::query::qpairs_view;
use crate::strutil::spec_dec;
use crate::strutil::string_push;
use crate::strutil::u64_to_dec;

verus! {

/// The query pairs of an argument record, pre-encoding: key and value text.
pub type QPairs = Seq<(Seq<char>, Seq<char>)>;

/// How a boolean argument is written on the wire: `1` for true, `0` for
/// false, never `true`/`false`.
pub open spec fn spec_bool_qs(b: bool) -> Seq<char> {
    if b {
        "1"@
    } else {
        "0"@
    }
}

fn bool_qs(b: bool) -> (r: String)
    ensures
        r@ == spec_bool_qs(b),
{
    if b {
        "1".to_owned()
    } else {
        "0".to_owned()
    }
}

/// Boolean arguments are written as the characters `1` and `0`.
pub proof fn lemma_bool_encoding()
    ensures
        spec_bool_qs(true) =~= seq!['1'],
        spec_bool_qs(false) =~= seq!['0'],
{
    reveal_strlit("1");
    reveal_strlit("0");
}

/// Type of the proxy to draw: the API models it as the numeric code 1
/// (HTTP) or 2 (SOCKS).
#[derive(Clone, Copy, Debug, PartialEq, Eq, Structural)]
pub enum ProxyType {
    Http,
    Socks,
}

/// The numeric code of a proxy type.
pub open spec fn spec_proxy_type_qs(t: ProxyType) -> Seq<char> {
    match t {
        ProxyType::Http => "1"@,
        ProxyType::Socks => "2"@,
    }
}

fn proxy_type_qs(t: ProxyType) -> (r: String)
    ensures
        r@ == spec_proxy_type_qs(t),
{
    match t {
        ProxyType::Http => "1".to_owned(),
        ProxyType::Socks => "2".to_owned(),
    }
}

/// Carrier of the proxy: the API models it as the numeric code 1 (Unicom)
/// or 2 (Telecom).
#[derive(Clone, Copy, Debug, PartialEq, Eq, Structural)]
pub enum ProxyCarrier {
    Unicom,
    Telecom,
}

/// The numeric code of a proxy carrier.
pub open spec fn spec_proxy_carrier_qs(c: ProxyCarrier) -> Seq<char> {
    match c {
        ProxyCarrier::Unicom => "1"@,
        ProxyCarrier::Telecom => "2"@,
    }
}

fn proxy_carrier_qs(c: ProxyCarrier) -> (r: String)
    ensures
        r@ == spec_proxy_carrier_qs(c),
{
    match c {
        ProxyCarrier::Unicom => "1".to_owned(),
        ProxyCarrier::Telecom => "2".to_owned(),
    }
}

/// Device type of a user agent, written as its lowercase tag.
#[derive(Clone, Copy, Debug, PartialEq, Eq, Structural)]
pub enum UADeviceType {
    All,
    Pc,
    Mobile,
    Pad,
}

/// The lowercase tag of a device type.
pub open spec fn spec_ua_device_qs(d: UADeviceType) -> Seq<char> {
    match d {
        UADeviceType::All => "all"@,
        UADeviceType::Pc => "pc"@,
        UADeviceType::Mobile => "mobile"@,
        UADeviceType::Pad => "pad"@,
    }
}

fn ua_device_qs(d: UADeviceType) -> (r: String)
    ensures
        r@ == spec_ua_device_qs(d),
{
    match d {
        UADeviceType::All => "all".to_owned(),
        UADeviceType::Pc => "pc".to_owned(),
        UADeviceType::Mobile => "mobile".to_owned(),
        UADeviceType::Pad => "pad".to_owned(),
    }
}

/// Platform of a user agent, written as its lowercase tag.
#[derive(Clone, Copy, Debug, PartialEq, Eq, Structural)]
pub enum UAPlatform {
    All,
    Win,
    Macos,
    Linux,
    Ios,
    Android,
}

/// The lowercase tag of a platform.
pub open spec fn spec_ua_platform_qs(p: UAPlatform) -> Seq<char> {
    match p {
        UAPlatform::All => "all"@,
        UAPlatform::Win => "win"@,
        UAPlatform::Macos => "macos"@,
        UAPlatform::Linux => "linux"@,
        UAPlatform::Ios => "ios"@,
        UAPlatform::Android => "android"@,
    }
}

fn ua_platform_qs(p: UAPlatform) -> (r: String)
    ensures
        r@ == spec_ua_platform_qs(p),
{
    match p {
        UAPlatform::All => "all".to_owned(),
        UAPlatform::Win => "win".to_owned(),
        UAPlatform::Macos => "macos".to_owned(),
        UAPlatform::Linux => "linux".to_owned(),
        UAPlatform::Ios => "ios".to_owned(),
        UAPlatform::Android => "android".to_owned(),
    }
}

/// Browser of a user agent, written as its lowercase tag.
#[derive(Clone, Copy, Debug, PartialEq, Eq, Structural)]
pub enum UABrowser {
    All,
    Chrome,
    Firefox,
    Ie,
    Weixin,
}

/// The lowercase tag of a browser.
pub open spec fn spec_ua_browser_qs(b: UABrowser) -> Seq<char> {
    match b {
        UABrowser::All => "all"@,
        UABrowser::Chrome => "chrome"@,
        UABrowser::Firefox => "firefox"@,
        UABrowser::Ie => "ie"@,
        UABrowser::Weixin => "weixin"@,
    }
}

fn ua_browser_qs(b: UABrowser) -> (r: String)
    ensures
        r@ == spec_ua_browser_qs(b),
{
    match b {
        UABrowser::All => "all".to_owned(),
        UABrowser::Chrome => "chrome".to_owned(),
        UABrowser::Firefox => "firefox".to_owned(),
        UABrowser::Ie => "ie".to_owned(),
        UABrowser::Weixin => "weixin".to_owned(),
    }
}

/// The text of each string of a sequence.
pub open spec fn strs_view(items: Seq<String>) -> Seq<Seq<char>> {
    Seq::new(
        items.len(),
        |i: int|
            if 0 <= i < items.len() {
                items[i]@
            } else {
                Seq::empty()
            },
    )
}

/// The items joined by commas (an area list is written as one
/// comma-delimited value).
pub open spec fn spec_join_comma(items: Seq<Seq<char>>) -> Seq<char>
    decreases items.len(),
{
    if items.len() == 0 {
        Seq::empty()
    } else if items.len() == 1 {
        items[0]
    } else {
        spec_join_comma(items.drop_last()) + seq![','] + items.last()
    }
}

fn join_comma(items: &Vec<String>) -> (r: String)
    ensures
        r@ == spec_join_comma(strs_view(items@)),
{
    let mut out = String::new();
    let m = items.len();
    let mut idx: usize = 0;
    while idx < m
        invariant
            m == items@.len(),
            idx <= m,
            out@ == spec_join_comma(strs_view(items@).take(idx as int)),
        decreases m - idx,
    {
        if idx > 0 {
            string_push(&mut out, ',');
        }
        out.append(items[idx].as_str());
        idx = idx + 1;
        proof {
            let sv = strs_view(items@);
            assert(sv.take(idx as int).drop_last() =~= sv.take(idx as int - 1));
            assert(out@ =~= spec_join_comma(sv.take(idx as int)));
        }
    }
    proof {
        assert(strs_view(items@).take(m as int) =~= strs_view(items@));
    }
    out
}

fn push_pair(out: &mut Vec<(String, String)>, key: &str, value: String)
    ensures
        qpairs_view(final(out)@) == qpairs_view(old(out)@).push((key@, value@)),
{
    let ghost value_v = value@;
    out.push((key.to_owned(), value));
    proof {
        assert(qpairs_view(out@) =~= qpairs_view(old(out)@).push((key@, value_v)));
    }
}

/// Arguments of `set_ip_whitelist`: the whitelist, one comma-delimited value
/// under the key `iplist`.
#[derive(Clone, Debug, PartialEq, Eq)]
pub struct SetIpWhitelistArgs {
    pub ip_list: String,
}

impl SetIpWhitelistArgs {
    /// The query pairs of this record.
    pub open spec fn spec_pairs(&self) -> QPairs {
        seq![("iplist"@, self.ip_list@)]
    }

    /// Encode this record as query pairs, in field order.
    pub fn encode(&self) -> (r: Vec<(String, String)>)
        ensures
            qpairs_view(r@) == self.spec_pairs(),
    {
        let mut out: Vec<(String, String)> = Vec::new();
        push_pair(&mut out, "iplist", self.ip_list.clone());
        proof {
            assert(qpairs_view(out@) =~= self.spec_pairs());
        }
        out
    }
}

/// Builder of [`SetIpWhitelistArgs`]; `ip_list` has no default and must be
/// supplied.
#[derive(Clone, Debug, PartialEq, Eq, Default)]
pub struct SetIpWhitelistArgsBuilder {
    pub ip_list: Option<String>,
}

impl SetIpWhitelistArgsBuilder {
    pub fn new() -> (b: SetIpWhitelistArgsBuilder)
        ensures
            b.ip_list is None,
    {
        SetIpWhitelistArgsBuilder { ip_list: None }
    }

    pub fn ip_list(self, v: String) -> (b: SetIpWhitelistArgsBuilder)
        ensures
            b.ip_list == Some(v),
    {
        SetIpWhitelistArgsBuilder { ip_list: Some(v) }
    }

    /// Build the record; fails, before any request could be made, exactly
    /// when the required `ip_list` was not supplied.
    pub fn build(self) -> (r: Result<SetIpWhitelistArgs, KdlError>)
        ensures
            (self.ip_list matches Some(v) ==> r == Ok::<SetIpWhitelistArgs, KdlError>(
                SetIpWhitelistArgs { ip_list: v },
            )),
            (self.ip_list is None ==> (r matches Err(e) && (e matches KdlError::BuilderError {
                ..
            }))),
    {
        match self.ip_list {
            Some(v) => Ok(SetIpWhitelistArgs { ip_list: v }),
            None => Err(KdlError::BuilderError { field: "ip_list".to_owned() }),
        }
    }
}

/// Arguments of `tps_current_ip`: none.
#[derive(Clone, Copy, Debug, PartialEq, Eq, Structural)]
pub struct TpsCurrentIpArgs;

/// Arguments of `change_tps_ip`: none.
#[derive(Clone, Copy, Debug, PartialEq, Eq, Structural)]
pub struct ChangeTpsIpArgs;

/// Arguments of `get_ip_whitelist`: none.
#[derive(Clone, Copy, Debug, PartialEq, Eq, Structural)]
pub struct GetIpWhitelistArgs;

/// Arguments of `get_order_expire_time`: none.
#[derive(Clone, Copy, Debug, PartialEq, Eq, Structural)]
pub struct GetOrderExpireTimeArgs;

/// Arguments of `get_account_balance`: none.
#[derive(Clone, Copy, Debug, PartialEq, Eq, Structural)]
pub struct GetAccountBalanceArgs;

/// Arguments of `get_ip_balance`: none.
#[derive(Clone, Copy, Debug, PartialEq, Eq, Structural)]
pub struct GetIpBalanceArgs;

/// An argument record without fields encodes to the empty pair set.
pub fn encode_no_args() -> (r: Vec<(String, String)>)
    ensures
        qpairs_view(r@) == Seq::<(Seq<char>, Seq<char>)>::empty(),
{
    let out: Vec<(String, String)> = Vec::new();
    proof {
        assert(qpairs_view(out@) =~= Seq::<(Seq<char>, Seq<char>)>::empty());
    }
    out
}

impl TpsCurrentIpArgs {
    /// The query pairs of this record: none.
    pub open spec fn spec_pairs(&self) -> QPairs {
        Seq::empty()
    }

    pub fn encode(&self) -> (r: Vec<(String, String)>)
        ensures
            qpairs_view(r@) == self.spec_pairs(),
    {
        encode_no_args()
    }
}

impl ChangeTpsIpArgs {
    /// The query pairs of this record: none.
    pub open spec fn spec_pairs(&self) -> QPairs {
        Seq::empty()
    }

    pub fn encode(&self) -> (r: Vec<(String, String)>)
        ensures
            qpairs_view(r@) == self.spec_pairs(),
    {
        encode_no_args()
    }
}

impl GetIpWhitelistArgs {
    /// The query pairs of this record: none.
    pub open spec fn spec_pairs(&self) -> QPairs {
        Seq::empty()
    }

    pub fn encode(&self) -> (r: Vec<(String, String)>)
        ensures
            qpairs_view(r@) == self.spec_pairs(),
    {
        encode_no_args()
    }
}

impl GetOrderExpireTimeArgs {
    /// The query pairs of this record: none.
    pub open spec fn spec_pairs(&self) -> QPairs {
        Seq::empty()
    }

    pub fn encode(&self) -> (r: Vec<(String, String)>)
        ensures
            qpairs_view(r@) == self.spec_pairs(),
    {
        encode_no_args()
    }
}

impl GetAccountBalanceArgs {
    /// The query pairs of this record: none.
    pub open spec fn spec_pairs(&self) -> QPairs {
        Seq::empty()
    }

    pub fn encode(&self) -> (r: Vec<(String, String)>)
        ensures
            qpairs_view(r@) == self.spec_pairs(),
    {
        encode_no_args()
    }
}

impl GetIpBalanceArgs {
    /// The query pairs of this record: none.
    pub open spec fn spec_pairs(&self) -> QPairs {
        Seq::empty()
    }

    pub fn encode(&self) -> (r: Vec<(String, String)>)
        ensures
            qpairs_view(r@) == self.spec_pairs(),
    {
        encode_no_args()
    }
}

/// An argument record without fields encodes to the empty query-pair set:
/// with every optional field absent and no declared defaults, nothing is
/// emitted.
pub proof fn lemma_no_arguments_encode_empty(
    a1: TpsCurrentIpArgs,
    a2: ChangeTpsIpArgs,
    a3: GetIpWhitelistArgs,
    a4: GetOrderExpireTimeArgs,
    a5: GetAccountBalanceArgs,
    a6: GetIpBalanceArgs,
)
    ensures
        a1.spec_pairs() == Seq::<(Seq<char>, Seq<char>)>::empty(),
        a2.spec_pairs() == Seq::<(Seq<char>, Seq<char>)>::empty(),
        a3.spec_pairs() == Seq::<(Seq<char>, Seq<char>)>::empty(),
        a4.spec_pairs() == Seq::<(Seq<char>, Seq<char>)>::empty(),
        a5.spec_pairs() == Seq::<(Seq<char>, Seq<char>)>::empty(),
        a6.spec_pairs() == Seq::<(Seq<char>, Seq<char>)>::empty(),
{
}

/// An argument record built with every field left to its declared default
/// encodes to exactly those defaults.
pub proof fn lemma_default_get_tps_encoding(a: GetTpsArgs)
    requires
        a.num == 1,
        a.pt == 1,
        a.format@ == "json"@,
        a.sep@ == "\n"@,
    ensures
        a.spec_pairs() =~= seq![
            ("num"@, seq!['1']),
            ("pt"@, seq!['1']),
            ("format"@, "json"@),
            ("sep"@, "\n"@),
        ],
{
    reveal_strlit("1");
    assert(spec_dec(1nat) =~= seq!['1']);
}

/// Arguments of `check_dps_valid`: the proxies to check.
#[derive(Clone, Debug, PartialEq, Eq)]
pub struct CheckDpsValidArgs {
    pub proxy: String,
}

impl CheckDpsValidArgs {
    /// The query pairs of this record.
    pub open spec fn spec_pairs(&self) -> QPairs {
        seq![("proxy"@, self.proxy@)]
    }

    pub fn encode(&self) -> (r: Vec<(String, String)>)
        ensures
            qpairs_view(r@) == self.spec_pairs(),
    {
        let mut out: Vec<(String, String)> = Vec::new();
        push_pair(&mut out, "proxy", self.proxy.clone());
        proof {
            assert(qpairs_view(out@) =~= self.spec_pairs());
        }
        out
    }
}

/// Arguments of `check_ops_valid`: the proxies to check.
#[derive(Clone, Debug, PartialEq, Eq)]
pub struct CheckOpsValidArgs {
    pub proxy: String,
}

impl CheckOpsValidArgs {
    /// The query pairs of this record.
    pub open spec fn spec_pairs(&self) -> QPairs {
        seq![("proxy"@, self.proxy@)]
    }

    pub fn encode(&self) -> (r: Vec<(String, String)>)
        ensures
            qpairs_view(r@) == self.spec_pairs(),
    {
        let mut out: Vec<(String, String)> = Vec::new();
        push_pair(&mut out, "proxy", self.proxy.clone());
        proof {
            assert(qpairs_view(out@) =~= self.spec_pairs());
        }
        out
    }
}

/// Builder of [`CheckOpsValidArgs`]; `proxy` has no default and must be
/// supplied.
#[derive(Clone, Debug, PartialEq, Eq, Default)]
pub struct CheckOpsValidArgsBuilder {
    pub proxy: Option<String>,
}

impl CheckOpsValidArgsBuilder {
    pub fn new() -> (b: CheckOpsValidArgsBuilder)
        ensures
            b.proxy is None,
    {
        CheckOpsValidArgsBuilder { proxy: None }
    }

    pub fn proxy(self, v: String) -> (b: CheckOpsValidArgsBuilder)
        ensures
            b.proxy == Some(v),
    {
        CheckOpsValidArgsBuilder { proxy: Some(v) }
    }

    /// Build the record; fails, before any request could be made, exactly
    /// when the required `proxy` was not supplied.
    pub fn build(self) -> (r: Result<CheckOpsValidArgs, KdlError>)
        ensures
            (self.proxy matches Some(v) ==> r == Ok::<CheckOpsValidArgs, KdlError>(
                CheckOpsValidArgs { proxy: v },
            )),
            (self.proxy is None ==> (r matches Err(e) && (e matches KdlError::BuilderError {
                ..
            }))),
    {
        match self.proxy {
            Some(v) => Ok(CheckOpsValidArgs { proxy: v }),
            None => Err(KdlError::BuilderError { field: "proxy".to_owned() }),
        }
    }
}

/// Arguments of `get_dps_valid_time`: the proxies to ask about.
#[derive(Clone, Debug, PartialEq, Eq)]
pub struct GetDpsValidTimeArgs {
    pub proxy: String,
}

impl GetDpsValidTimeArgs {
    /// The query pairs of this record.
    pub open spec fn spec_pairs(&self) -> QPairs {
        seq![("proxy"@, self.proxy@)]
    }

    pub fn encode(&self) -> (r: Vec<(String, String)>)
        ensures
            qpairs_view(r@) == self.spec_pairs(),
    {
        let mut out: Vec<(String, String)> = Vec::new();
        push_pair(&mut out, "proxy", self.proxy.clone());
        proof {
            assert(qpairs_view(out@) =~= self.spec_pairs());
        }
        out
    }
}

/// Builder of [`GetDpsValidTimeArgs`]; `proxy` has no default and must be
/// supplied.
#[derive(Clone, Debug, PartialEq, Eq, Default)]
pub struct GetDpsValidTimeArgsBuilder {
    pub proxy: Option<String>,
}

impl GetDpsValidTimeArgsBuilder {
    pub fn new() -> (b: GetDpsValidTimeArgsBuilder)
        ensures
            b.proxy is None,
    {
        GetDpsValidTimeArgsBuilder { proxy: None }
    }

    pub fn proxy(self, v: String) -> (b: GetDpsValidTimeArgsBuilder)
        ensures
            b.proxy == Some(v),
    {
        GetDpsValidTimeArgsBuilder { proxy: Some(v) }
    }

    /// Build the record; fails, before any request could be made, exactly
    /// when the required `proxy` was not supplied.
    pub fn build(self) -> (r: Result<GetDpsValidTimeArgs, KdlError>)
        ensures
            (self.proxy matches Some(v) ==> r == Ok::<GetDpsValidTimeArgs, KdlError>(
                GetDpsValidTimeArgs { proxy: v },
            )),
            (self.proxy is None ==> (r matches Err(e) && (e matches KdlError::BuilderError {
                ..
            }))),
    {
        match self.proxy {
            Some(v) => Ok(GetDpsValidTimeArgs { proxy: v }),
            None => Err(KdlError::BuilderError { field: "proxy".to_owned() }),
        }
    }
}

/// Arguments of `get_area_code`: the area to look up.
#[derive(Clone, Debug, PartialEq, Eq)]
pub struct GetAreaCodeArgs {
    pub area: String,
}

impl GetAreaCodeArgs {
    /// The query pairs of this record.
    pub open spec fn spec_pairs(&self) -> QPairs {
        seq![("area"@, self.area@)]
    }

    pub fn encode(&self) -> (r: Vec<(String, String)>)
        ensures
            qpairs_view(r@) == self.spec_pairs(),
    {
        let mut out: Vec<(String, String)> = Vec::new();
        push_pair(&mut out, "area", self.area.clone());
        proof {
            assert(qpairs_view(out@) =~= self.spec_pairs());
        }
        out
    }
}

/// Builder of [`GetAreaCodeArgs`]; `area` has no default and must be
/// supplied.
#[derive(Clone, Debug, PartialEq, Eq, Default)]
pub struct GetAreaCodeArgsBuilder {
    pub area: Option<String>,
}

impl GetAreaCodeArgsBuilder {
    pub fn new() -> (b: GetAreaCodeArgsBuilder)
        ensures
            b.area is None,
    {
        GetAreaCodeArgsBuilder { area: None }
    }

    pub fn area(self, v: String) -> (b: GetAreaCodeArgsBuilder)
        ensures
            b.area == Some(v),
    {
        GetAreaCodeArgsBuilder { area: Some(v) }
    }

    /// Build the record; fails, before any request could be made, exactly
    /// when the required `area` was not supplied.
    pub fn build(self) -> (r: Result<GetAreaCodeArgs, KdlError>)
        ensures
            (self.area matches Some(v) ==> r == Ok::<GetAreaCodeArgs, KdlError>(
                GetAreaCodeArgs { area: v },
            )),
            (self.area is None ==> (r matches Err(e) && (e matches KdlError::BuilderError {
                ..
            }))),
    {
        match self.area {
            Some(v) => Ok(GetAreaCodeArgs { area: v }),
            None => Err(KdlError::BuilderError { field: "area".to_owned() }),
        }
    }
}

/// Arguments of `get_tps`: how many tunnel proxies to draw, the proxy type
/// code, the response format, and the separator of a plain-text response.
#[derive(Clone, Debug, PartialEq, Eq)]
pub struct GetTpsArgs {
    pub num: u32,
    pub pt: u32,
    pub format: String,
    pub sep: String,
}

impl GetTpsArgs {
    /// The query pairs of this record, in field order.
    pub open spec fn spec_pairs(&self) -> QPairs {
        seq![
            ("num"@, spec_dec(self.num as nat)),
            ("pt"@, spec_dec(self.pt as nat)),
            ("format"@, self.format@),
            ("sep"@, self.sep@),
        ]
    }

    pub fn encode(&self) -> (r: Vec<(String, String)>)
        ensures
            qpairs_view(r@) == self.spec_pairs(),
    {
        let mut out: Vec<(String, String)> = Vec::new();
        push_pair(&mut out, "num", u64_to_dec(self.num as u64));
        push_pair(&mut out, "pt", u64_to_dec(self.pt as u64));
        push_pair(&mut out, "format", self.format.clone());
        push_pair(&mut out, "sep", self.sep.clone());
        proof {
            assert(qpairs_view(out@) =~= self.spec_pairs());
        }
        out
    }
}

/// Builder of [`GetTpsArgs`]; every field has a default (`num = 1`, `pt = 1`,
/// `format = "json"`, `sep` a newline), so building never fails.
#[derive(Clone, Debug, PartialEq, Eq, Default)]
pub struct GetTpsArgsBuilder {
    pub num: Option<u32>,
    pub pt: Option<u32>,
    pub format: Option<String>,
    pub sep: Option<String>,
}

impl GetTpsArgsBuilder {
    pub fn new() -> (b: GetTpsArgsBuilder)
        ensures
            b.num is None,
            b.pt is None,
            b.format is None,
            b.sep is None,
    {
        GetTpsArgsBuilder { num: None, pt: None, format: None, sep: None }
    }

    pub fn num(self, v: u32) -> (b: GetTpsArgsBuilder)
        ensures
            b == (GetTpsArgsBuilder { num: Some(v), ..self }),
    {
        GetTpsArgsBuilder { num: Some(v), ..self }
    }

    pub fn pt(self, v: u32) -> (b: GetTpsArgsBuilder)
        ensures
            b == (GetTpsArgsBuilder { pt: Some(v), ..self }),
    {
        GetTpsArgsBuilder { pt: Some(v), ..self }
    }

    pub fn format(self, v: String) -> (b: GetTpsArgsBuilder)
        ensures
            b == (GetTpsArgsBuilder { format: Some(v), ..self }),
    {
        GetTpsArgsBuilder { format: Some(v), ..self }
    }

    pub fn sep(self, v: String) -> (b: GetTpsArgsBuilder)
        ensures
            b == (GetTpsArgsBuilder { sep: Some(v), ..self }),
    {
        GetTpsArgsBuilder { sep: Some(v), ..self }
    }

    /// Build the record, filling each absent field with its declared
    /// default; never fails.
    pub fn build(self) -> (r: Result<GetTpsArgs, KdlError>)
        ensures
            r is Ok,
            (r matches Ok(a) ==> {
                &&& (self.num matches Some(v) ==> a.num == v)
                &&& (self.num is None ==> a.num == 1)
                &&& (self.pt matches Some(v) ==> a.pt == v)
                &&& (self.pt is None ==> a.pt == 1)
                &&& (self.format matches Some(v) ==> a.format == v)
                &&& (self.format is None ==> a.format@ == "json"@)
                &&& (self.sep matches Some(v) ==> a.sep == v)
                &&& (self.sep is None ==> a.sep@ == "\n"@)
            }),
    {
        Ok(
            GetTpsArgs {
                num: match self.num {
                    Some(v) => v,
                    None => 1,
                },
                pt: match self.pt {
                    Some(v) => v,
                    None => 1,
                },
                format: match self.format {
                    Some(v) => v,
                    None => "json".to_owned(),
                },
                sep: match self.sep {
                    Some(v) => v,
                    None => "\n".to_owned(),
                },
            },
        )
    }
}

/// Arguments of `get_kps`: how many exclusive proxies to draw, the response
/// format, and the separator of a plain-text response.
#[derive(Clone, Debug, PartialEq, Eq)]
pub struct GetKpsArgs {
    pub num: u32,
    pub format: String,
    pub sep: String,
}

impl GetKpsArgs {
    /// The query pairs of this record, in field order.
    pub open spec fn spec_pairs(&self) -> QPairs {
        seq![("num"@, spec_dec(self.num as nat)), ("format"@, self.format@), ("sep"@, self.sep@)]
    }

    pub fn encode(&self) -> (r: Vec<(String, String)>)
        ensures
            qpairs_view(r@) == self.spec_pairs(),
    {
        let mut out: Vec<(String, String)> = Vec::new();
        push_pair(&mut out, "num", u64_to_dec(self.num as u64));
        push_pair(&mut out, "format", self.format.clone());
        push_pair(&mut out, "sep", self.sep.clone());
        proof {
            assert(qpairs_view(out@) =~= self.spec_pairs());
        }
        out
    }
}

/// Builder of [`GetKpsArgs`]; `num` has no default and must be supplied,
/// `format` and `sep` default to `"json"` and a newline.
#[derive(Clone, Debug, PartialEq, Eq, Default)]
pub struct GetKpsArgsBuilder {
    pub num: Option<u32>,
    pub format: Option<String>,
    pub sep: Option<String>,
}

impl GetKpsArgsBuilder {
    pub fn new() -> (b: GetKpsArgsBuilder)
        ensures
            b.num is None,
            b.format is None,
            b.sep is None,
    {
        GetKpsArgsBuilder { num: None, format: None, sep: None }
    }

    pub fn num(self, v: u32) -> (b: GetKpsArgsBuilder)
        ensures
            b == (GetKpsArgsBuilder { num: Some(v), ..self }),
    {
        GetKpsArgsBuilder { num: Some(v), ..self }
    }

    pub fn format(self, v: String) -> (b: GetKpsArgsBuilder)
        ensures
            b == (GetKpsArgsBuilder { format: Some(v), ..self }),
    {
        GetKpsArgsBuilder { format: Some(v), ..self }
    }

    pub fn sep(self, v: String) -> (b: GetKpsArgsBuilder)
        ensures
            b == (GetKpsArgsBuilder { sep: Some(v), ..self }),
    {
        GetKpsArgsBuilder { sep: Some(v), ..self }
    }

    /// Build the record; fails, before any request could be made, exactly
    /// when the required `num` was not supplied.
    pub fn build(self) -> (r: Result<GetKpsArgs, KdlError>)
        ensures
            (self.num is None ==> (r matches Err(e) && (e matches KdlError::BuilderError { .. }))),
            (self.num matches Some(n) ==> (r matches Ok(a) && {
                &&& a.num == n
                &&& (self.format matches Some(v) ==> a.format == v)
                &&& (self.format is None ==> a.format@ == "json"@)
                &&& (self.sep matches Some(v) ==> a.sep == v)
                &&& (self.sep is None ==> a.sep@ == "\n"@)
            })),
    {
        let num = match self.num {
            Some(v) => v,
            None => {
                return Err(KdlError::BuilderError { field: "num".to_owned() });
            },
        };
        Ok(
            GetKpsArgs {
                num,
                format: match self.format {
                    Some(v) => v,
                    None => "json".to_owned(),
                },
                sep: match self.sep {
                    Some(v) => v,
                    None => "\n".to_owned(),
                },
            },
        )
    }
}

/// Arguments of `get_proxy`: how many open proxies to draw, the response
/// format, and the separator of a plain-text response.
#[derive(Clone, Debug, PartialEq, Eq)]
pub struct GetProxyArgs {
    pub num: u32,
    pub format: String,
    pub sep: String,
}

impl GetProxyArgs {
    /// The query pairs of this record, in field order.
    pub open spec fn spec_pairs(&self) -> QPairs {
        seq![("num"@, spec_dec(self.num as nat)), ("format"@, self.format@), ("sep"@, self.sep@)]
    }

    pub fn encode(&self) -> (r: Vec<(String, String)>)
        ensures
            qpairs_view(r@) == self.spec_pairs(),
    {
        let mut out: Vec<(String, String)> = Vec::new();
        push_pair(&mut out, "num", u64_to_dec(self.num as u64));
        push_pair(&mut out, "format", self.format.clone());
        push_pair(&mut out, "sep", self.sep.clone());
        proof {
            assert(qpairs_view(out@) =~= self.spec_pairs());
        }
        out
    }
}

/// Builder of [`GetProxyArgs`]; `num` has no default and must be supplied,
/// `format` and `sep` default to `"json"` and a newline.
#[derive(Clone, Debug, PartialEq, Eq, Default)]
pub struct GetProxyArgsBuilder {
    pub num: Option<u32>,
    pub format: Option<String>,
    pub sep: Option<String>,
}

impl GetProxyArgsBuilder {
    pub fn new() -> (b: GetProxyArgsBuilder)
        ensures
            b.num is None,
            b.format is None,
            b.sep is None,
    {
        GetProxyArgsBuilder { num: None, format: None, sep: None }
    }

    pub fn num(self, v: u32) -> (b: GetProxyArgsBuilder)
        ensures
            b == (GetProxyArgsBuilder { num: Some(v), ..self }),
    {
        GetProxyArgsBuilder { num: Some(v), ..self }
    }

    pub fn format(self, v: String) -> (b: GetProxyArgsBuilder)
        ensures
            b == (GetProxyArgsBuilder { format: Some(v), ..self }),
    {
        GetProxyArgsBuilder { format: Some(v), ..self }
    }

    pub fn sep(self, v: String) -> (b: GetProxyArgsBuilder)
        ensures
            b == (GetProxyArgsBuilder { sep: Some(v), ..self }),
    {
        GetProxyArgsBuilder { sep: Some(v), ..self }
    }

    /// Build the record; fails, before any request could be made, exactly
    /// when the required `num` was not supplied.
    pub fn build(self) -> (r: Result<GetProxyArgs, KdlError>)
        ensures
            (self.num is None ==> (r matches Err(e) && (e matches KdlError::BuilderError { .. }))),
            (self.num matches Some(n) ==> (r matches Ok(a) && {
                &&& a.num == n
                &&& (self.format matches Some(v) ==> a.format == v)
                &&& (self.format is None ==> a.format@ == "json"@)
                &&& (self.sep matches Some(v) ==> a.sep == v)
                &&& (self.sep is None ==> a.sep@ == "\n"@)
            })),
    {
        let num = match self.num {
            Some(v) => v,
            None => {
                return Err(KdlError::BuilderError { field: "num".to_owned() });
            },
        };
        Ok(
            GetProxyArgs {
                num,
                format: match self.format {
                    Some(v) => v,
                    None => "json".to_owned(),
                },
                sep: match self.sep {
                    Some(v) => v,
                    None => "\n".to_owned(),
                },
            },
        )
    }
}

/// Arguments of `get_proxy_authorization`: whether the password comes back
/// in plain text (the numeric flag the API expects).
#[derive(Clone, Copy, Debug, PartialEq, Eq, Structural)]
pub struct GetProxyAuthorizationArgs {
    pub plain_text: u8,
}

impl GetProxyAuthorizationArgs {
    /// The query pairs of this record.
    pub open spec fn spec_pairs(&self) -> QPairs {
        seq![("plain_text"@, spec_dec(self.plain_text as nat))]
    }

    pub fn encode(&self) -> (r: Vec<(String, String)>)
        ensures
            qpairs_view(r@) == self.spec_pairs(),
    {
        let mut out: Vec<(String, String)> = Vec::new();
        push_pair(&mut out, "plain_text", u64_to_dec(self.plain_text as u64));
        proof {
            assert(qpairs_view(out@) =~= self.spec_pairs());
        }
        out
    }
}

/// Builder of [`GetProxyAuthorizationArgs`]; `plain_text` defaults to 1, so
/// building never fails.
#[derive(Clone, Copy, Debug, PartialEq, Eq, Default)]
pub struct GetProxyAuthorizationArgsBuilder {
    pub plain_text: Option<u8>,
}

impl GetProxyAuthorizationArgsBuilder {
    pub fn new() -> (b: GetProxyAuthorizationArgsBuilder)
        ensures
            b.plain_text is None,
    {
        GetProxyAuthorizationArgsBuilder { plain_text: None }
    }

    pub fn plain_text(self, v: u8) -> (b: GetProxyAuthorizationArgsBuilder)
        ensures
            b.plain_text == Some(v),
    {
        GetProxyAuthorizationArgsBuilder { plain_text: Some(v) }
    }

    /// Build the record, filling an absent `plain_text` with 1; never fails.
    pub fn build(self) -> (r: Result<GetProxyAuthorizationArgs, KdlError>)
        ensures
            r is Ok,
            (r matches Ok(a) ==> {
                &&& (self.plain_text matches Some(v) ==> a.plain_text == v)
                &&& (self.plain_text is None ==> a.plain_text == 1)
            }),
    {
        Ok(
            GetProxyAuthorizationArgs {
                plain_text: match self.plain_text {
                    Some(v) => v,
                    None => 1,
                },
            },
        )
    }
}

/// The repeated `dt` pairs of a device-type list.
pub open spec fn ua_dt_pairs(items: Seq<UADeviceType>) -> QPairs {
    Seq::new(
        items.len(),
        |i: int|
            if 0 <= i < items.len() {
                ("dt"@, spec_ua_device_qs(items[i]))
            } else {
                ("dt"@, Seq::empty())
            },
    )
}

/// The repeated `platform` pairs of a platform list.
pub open spec fn ua_platform_pairs(items: Seq<UAPlatform>) -> QPairs {
    Seq::new(
        items.len(),
        |i: int|
            if 0 <= i < items.len() {
                ("platform"@, spec_ua_platform_qs(items[i]))
            } else {
                ("platform"@, Seq::empty())
            },
    )
}

/// The repeated `browser` pairs of a browser list.
pub open spec fn ua_browser_pairs(items: Seq<UABrowser>) -> QPairs {
    Seq::new(
        items.len(),
        |i: int|
            if 0 <= i < items.len() {
                ("browser"@, spec_ua_browser_qs(items[i]))
            } else {
                ("browser"@, Seq::empty())
            },
    )
}

/// Arguments of `get_ua`: how many user agents to draw and the device,
/// platform and browser filters; each list is written as repeated same-key
/// pairs.
#[derive(Clone, Debug, PartialEq, Eq)]
pub struct GetUAArgs {
    pub num: u32,
    pub dt: Vec<UADeviceType>,
    pub platform: Vec<UAPlatform>,
    pub browser: Vec<UABrowser>,
}

impl GetUAArgs {
    /// The query pairs of this record, in field order.
    pub open spec fn spec_pairs(&self) -> QPairs {
        seq![("num"@, spec_dec(self.num as nat))] + ua_dt_pairs(self.dt@) + ua_platform_pairs(
            self.platform@,
        ) + ua_browser_pairs(self.browser@)
    }

    pub fn encode(&self) -> (r: Vec<(String, String)>)
        ensures
            qpairs_view(r@) == self.spec_pairs(),
    {
        let mut out: Vec<(String, String)> = Vec::new();
        push_pair(&mut out, "num", u64_to_dec(self.num as u64));
        let ghost base0 = seq![("num"@, spec_dec(self.num as nat))];
        proof {
            assert(qpairs_view(out@) =~= base0);
        }
        let mut idx: usize = 0;
        while idx < self.dt.len()
            invariant
                idx <= self.dt@.len(),
                qpairs_view(out@) == base0 + ua_dt_pairs(self.dt@).take(idx as int),
            decreases self.dt@.len() - idx,
        {
            push_pair(&mut out, "dt", ua_device_qs(self.dt[idx]));
            idx = idx + 1;
            proof {
                assert(qpairs_view(out@) =~= base0 + ua_dt_pairs(self.dt@).take(idx as int));
            }
        }
        let ghost base1 = base0 + ua_dt_pairs(self.dt@);
        proof {
            assert(ua_dt_pairs(self.dt@).take(self.dt@.len() as int) =~= ua_dt_pairs(self.dt@));
        }
        let mut idx: usize = 0;
        while idx < self.platform.len()
            invariant
                idx <= self.platform@.len(),
                qpairs_view(out@) == base1 + ua_platform_pairs(self.platform@).take(idx as int),
            decreases self.platform@.len() - idx,
        {
            push_pair(&mut out, "platform", ua_platform_qs(self.platform[idx]));
            idx = idx + 1;
            proof {
                assert(qpairs_view(out@) =~= base1 + ua_platform_pairs(self.platform@).take(
                    idx as int,
                ));
            }
        }
        let ghost base2 = base1 + ua_platform_pairs(self.platform@);
        proof {
            assert(ua_platform_pairs(self.platform@).take(self.platform@.len() as int)
                =~= ua_platform_pairs(self.platform@));
        }
        let mut idx: usize = 0;
        while idx < self.browser.len()
            invariant
                idx <= self.browser@.len(),
                qpairs_view(out@) == base2 + ua_browser_pairs(self.browser@).take(idx as int),
            decreases self.browser@.len() - idx,
        {
            push_pair(&mut out, "browser", ua_browser_qs(self.browser[idx]));
            idx = idx + 1;
            proof {
                assert(qpairs_view(out@) =~= base2 + ua_browser_pairs(self.browser@).take(
                    idx as int,
                ));
            }
        }
        proof {
            assert(ua_browser_pairs(self.browser@).take(self.browser@.len() as int)
                =~= ua_browser_pairs(self.browser@));
            assert(qpairs_view(out@) =~= self.spec_pairs());
        }
        out
    }
}

/// Builder of [`GetUAArgs`]; every field has a default (`num = 1`, each
/// filter the all-values tag), so building never fails.
#[derive(Clone, Debug, PartialEq, Eq, Default)]
pub struct GetUAArgsBuilder {
    pub num: Option<u32>,
    pub dt: Option<Vec<UADeviceType>>,
    pub platform: Option<Vec<UAPlatform>>,
    pub browser: Option<Vec<UABrowser>>,
}

impl GetUAArgsBuilder {
    pub fn new() -> (b: GetUAArgsBuilder)
        ensures
            b.num is None,
            b.dt is None,
            b.platform is None,
            b.browser is None,
    {
        GetUAArgsBuilder { num: None, dt: None, platform: None, browser: None }
    }

    pub fn num(self, v: u32) -> (b: GetUAArgsBuilder)
        ensures
            b == (GetUAArgsBuilder { num: Some(v), ..self }),
    {
        GetUAArgsBuilder { num: Some(v), ..self }
    }

    pub fn dt(self, v: Vec<UADeviceType>) -> (b: GetUAArgsBuilder)
        ensures
            b == (GetUAArgsBuilder { dt: Some(v), ..self }),
    {
        GetUAArgsBuilder { dt: Some(v), ..self }
    }

    pub fn platform(self, v: Vec<UAPlatform>) -> (b: GetUAArgsBuilder)
        ensures
            b == (GetUAArgsBuilder { platform: Some(v), ..self }),
    {
        GetUAArgsBuilder { platform: Some(v), ..self }
    }

    pub fn browser(self, v: Vec<UABrowser>) -> (b: GetUAArgsBuilder)
        ensures
            b == (GetUAArgsBuilder { browser: Some(v), ..self }),
    {
        GetUAArgsBuilder { browser: Some(v), ..self }
    }

    /// Build the record, filling each absent field with its declared
    /// default; never fails.
    pub fn build(self) -> (r: Result<GetUAArgs, KdlError>)
        ensures
            r is Ok,
            (r matches Ok(a) ==> {
                &&& (self.num matches Some(v) ==> a.num == v)
                &&& (self.num is None ==> a.num == 1)
                &&& (self.dt matches Some(v) ==> a.dt == v)
                &&& (self.dt is None ==> a.dt@ =~= seq![UADeviceType::All])
                &&& (self.platform matches Some(v) ==> a.platform == v)
                &&& (self.platform is None ==> a.platform@ =~= seq![UAPlatform::All])
                &&& (self.browser matches Some(v) ==> a.browser == v)
                &&& (self.browser is None ==> a.browser@ =~= seq![UABrowser::All])
            }),
    {
        Ok(
            GetUAArgs {
                num: match self.num {
                    Some(v) => v,
                    None => 1,
                },
                dt: match self.dt {
                    Some(v) => v,
                    None => vec![UADeviceType::All],
                },
                platform: match self.platform {
                    Some(v) => v,
                    None => vec![UAPlatform::All],
                },
                browser: match self.browser {
                    Some(v) => v,
                    None => vec![UABrowser::All],
                },
            },
        )
    }
}

/// Arguments of `get_dps`: how many private proxies to draw, the area and
/// address filters, the proxy type and carrier, the detail flags, the
/// response format, and the separator of a plain-text response. Only filters
/// that were supplied are written; booleans are written as `1`/`0`; an area
/// list is one comma-delimited value.
#[derive(Clone, Debug, PartialEq, Eq)]
pub struct GetDpsArgs {
    pub num: u32,
    pub area: Option<Vec<String>>,
    pub area_ex: Option<Vec<String>>,
    pub ipstart: Option<Vec<String>>,
    pub ipstart_ex: Option<Vec<String>>,
    pub pt: Option<ProxyType>,
    pub st: bool,
    pub f_loc: bool,
    pub f_citycode: bool,
    pub f_et: bool,
    pub dedup: bool,
    pub carrier: Option<ProxyCarrier>,
    pub format: String,
    pub sep: String,
}

impl GetDpsArgs {
    /// The query pairs of this record: fields in declaration order, absent
    /// optional fields omitted entirely.
    pub open spec fn spec_pairs(&self) -> QPairs {
        let p = seq![("num"@, spec_dec(self.num as nat))];
        let p = if self.area is Some {
            p.push(("area"@, spec_join_comma(strs_view(self.area->0@))))
        } else {
            p
        };
        let p = if self.area_ex is Some {
            p.push(("area_ex"@, spec_join_comma(strs_view(self.area_ex->0@))))
        } else {
            p
        };
        let p = if self.ipstart is Some {
            p.push(("ipstart"@, spec_join_comma(strs_view(self.ipstart->0@))))
        } else {
            p
        };
        let p = if self.ipstart_ex is Some {
            p.push(("ipstart_ex"@, spec_join_comma(strs_view(self.ipstart_ex->0@))))
        } else {
            p
        };
        let p = if self.pt is Some {
            p.push(("pt"@, spec_proxy_type_qs(self.pt->0)))
        } else {
            p
        };
        let p = p.push(("st"@, spec_bool_qs(self.st)));
        let p = p.push(("f_loc"@, spec_bool_qs(self.f_loc)));
        let p = p.push(("f_citycode"@, spec_bool_qs(self.f_citycode)));
        let p = p.push(("f_et"@, spec_bool_qs(self.f_et)));
        let p = p.push(("dedup"@, spec_bool_qs(self.dedup)));
        let p = if self.carrier is Some {
            p.push(("carrier"@, spec_proxy_carrier_qs(self.carrier->0)))
        } else {
            p
        };
        let p = p.push(("format"@, self.format@));
        p.push(("sep"@, self.sep@))
    }

    pub fn encode(&self) -> (r: Vec<(String, String)>)
        ensures
            qpairs_view(r@) == self.spec_pairs(),
    {
        let ghost p1: QPairs = seq![("num"@, spec_dec(self.num as nat))];
        let ghost p2: QPairs = if self.area is Some {
            p1.push(("area"@, spec_join_comma(strs_view(self.area->0@))))
        } else {
            p1
        };
        let ghost p3: QPairs = if self.area_ex is Some {
            p2.push(("area_ex"@, spec_join_comma(strs_view(self.area_ex->0@))))
        } else {
            p2
        };
        let ghost p4: QPairs = if self.ipstart is Some {
            p3.push(("ipstart"@, spec_join_comma(strs_view(self.ipstart->0@))))
        } else {
            p3
        };
        let ghost p5: QPairs = if self.ipstart_ex is Some {
            p4.push(("ipstart_ex"@, spec_join_comma(strs_view(self.ipstart_ex->0@))))
        } else {
            p4
        };
        let ghost p6: QPairs = if self.pt is Some {
            p5.push(("pt"@, spec_proxy_type_qs(self.pt->0)))
        } else {
            p5
        };
        let ghost p7: QPairs = p6.push(("st"@, spec_bool_qs(self.st))).push(
            ("f_loc"@, spec_bool_qs(self.f_loc)),
        ).push(("f_citycode"@, spec_bool_qs(self.f_citycode))).push(
            ("f_et"@, spec_bool_qs(self.f_et)),
        ).push(("dedup"@, spec_bool_qs(self.dedup)));
        let ghost p8: QPairs = if self.carrier is Some {
            p7.push(("carrier"@, spec_proxy_carrier_qs(self.carrier->0)))
        } else {
            p7
        };
        let mut out: Vec<(String, String)> = Vec::new();
        push_pair(&mut out, "num", u64_to_dec(self.num as u64));
        proof {
            assert(qpairs_view(out@) =~= p1);
        }
        match &self.area {
            Some(v) => push_pair(&mut out, "area", join_comma(v)),
            None => {},
        }
        proof {
            assert(qpairs_view(out@) == p2);
        }
        match &self.area_ex {
            Some(v) => push_pair(&mut out, "area_ex", join_comma(v)),
            None => {},
        }
        proof {
            assert(qpairs_view(out@) == p3);
        }
        match &self.ipstart {
            Some(v) => push_pair(&mut out, "ipstart", join_comma(v)),
            None => {},
        }
        proof {
            assert(qpairs_view(out@) == p4);
        }
        match &self.ipstart_ex {
            Some(v) => push_pair(&mut out, "ipstart_ex", join_comma(v)),
            None => {},
        }
        proof {
            assert(qpairs_view(out@) == p5);
        }
        match &self.pt {
            Some(t) => push_pair(&mut out, "pt", proxy_type_qs(*t)),
            None => {},
        }
        proof {
            assert(qpairs_view(out@) == p6);
        }
        push_pair(&mut out, "st", bool_qs(self.st));
        push_pair(&mut out, "f_loc", bool_qs(self.f_loc));
        push_pair(&mut out, "f_citycode", bool_qs(self.f_citycode));
        push_pair(&mut out, "f_et", bool_qs(self.f_et));
        push_pair(&mut out, "dedup", bool_qs(self.dedup));
        proof {
            assert(qpairs_view(out@) == p7);
        }
        match &self.carrier {
            Some(c) => push_pair(&mut out, "carrier", proxy_carrier_qs(*c)),
            None => {},
        }
        proof {
            assert(qpairs_view(out@) == p8);
        }
        push_pair(&mut out, "format", self.format.clone());
        push_pair(&mut out, "sep", self.sep.clone());
        proof {
            assert(qpairs_view(out@) == p8.push(("format"@, self.format@)).push(
                ("sep"@, self.sep@),
            ));
            assert(self.spec_pairs() == p8.push(("format"@, self.format@)).push(
                ("sep"@, self.sep@),
            ));
        }
        out
    }
}

/// An optional field that was not supplied is omitted entirely: with every
/// optional filter absent, only the mandatory fields are emitted, in
/// declaration order.
pub proof fn lemma_dps_absent_fields_are_omitted(a: GetDpsArgs)
    requires
        a.area is None,
        a.area_ex is None,
        a.ipstart is None,
        a.ipstart_ex is None,
        a.pt is None,
        a.carrier is None,
    ensures
        a.spec_pairs() =~= seq![
            ("num"@, spec_dec(a.num as nat)),
            ("st"@, spec_bool_qs(a.st)),
            ("f_loc"@, spec_bool_qs(a.f_loc)),
            ("f_citycode"@, spec_bool_qs(a.f_citycode)),
            ("f_et"@, spec_bool_qs(a.f_et)),
            ("dedup"@, spec_bool_qs(a.dedup)),
            ("format"@, a.format@),
            ("sep"@, a.sep@),
        ],
{
}

/// Builder of [`GetDpsArgs`]; `num` has no default and must be supplied,
/// the filters default to absent, the flags to false, `format` and `sep` to
/// `"json"` and a newline.
#[derive(Clone, Debug, PartialEq, Eq, Default)]
pub struct GetDpsArgsBuilder {
    pub num: Option<u32>,
    pub area: Option<Vec<String>>,
    pub area_ex: Option<Vec<String>>,
    pub ipstart: Option<Vec<String>>,
    pub ipstart_ex: Option<Vec<String>>,
    pub pt: Option<ProxyType>,
    pub st: Option<bool>,
    pub f_loc: Option<bool>,
    pub f_citycode: Option<bool>,
    pub f_et: Option<bool>,
    pub dedup: Option<bool>,
    pub carrier: Option<ProxyCarrier>,
    pub format: Option<String>,
    pub sep: Option<String>,
}

impl GetDpsArgsBuilder {
    pub fn new() -> (b: GetDpsArgsBuilder)
        ensures
            b == (GetDpsArgsBuilder {
                num: None,
                area: None,
                area_ex: None,
                ipstart: None,
                ipstart_ex: None,
                pt: None,
                st: None,
                f_loc: None,
                f_citycode: None,
                f_et: None,
                dedup: None,
                carrier: None,
                format: None,
                sep: None,
            }),
    {
        GetDpsArgsBuilder {
            num: None,
            area: None,
            area_ex: None,
            ipstart: None,
            ipstart_ex: None,
            pt: None,
            st: None,
            f_loc: None,
            f_citycode: None,
            f_et: None,
            dedup: None,
            carrier: None,
            format: None,
            sep: None,
        }
    }

    pub fn num(self, v: u32) -> (b: GetDpsArgsBuilder)
        ensures
            b == (GetDpsArgsBuilder { num: Some(v), ..self }),
    {
        GetDpsArgsBuilder { num: Some(v), ..self }
    }

    pub fn area(self, v: Vec<String>) -> (b: GetDpsArgsBuilder)
        ensures
            b == (GetDpsArgsBuilder { area: Some(v), ..self }),
    {
        GetDpsArgsBuilder { area: Some(v), ..self }
    }

    pub fn area_ex(self, v: Vec<String>) -> (b: GetDpsArgsBuilder)
        ensures
            b == (GetDpsArgsBuilder { area_ex: Some(v), ..self }),
    {
        GetDpsArgsBuilder { area_ex: Some(v), ..self }
    }

    pub fn ipstart(self, v: Vec<String>) -> (b: GetDpsArgsBuilder)
        ensures
            b == (GetDpsArgsBuilder { ipstart: Some(v), ..self }),
    {
        GetDpsArgsBuilder { ipstart: Some(v), ..self }
    }

    pub fn ipstart_ex(self, v: Vec<String>) -> (b: GetDpsArgsBuilder)
        ensures
            b == (GetDpsArgsBuilder { ipstart_ex: Some(v), ..self }),
    {
        GetDpsArgsBuilder { ipstart_ex: Some(v), ..self }
    }

    pub fn pt(self, v: ProxyType) -> (b: GetDpsArgsBuilder)
        ensures
            b == (GetDpsArgsBuilder { pt: Some(v), ..self }),
    {
        GetDpsArgsBuilder { pt: Some(v), ..self }
    }

    pub fn st(self, v: bool) -> (b: GetDpsArgsBuilder)
        ensures
            b == (GetDpsArgsBuilder { st: Some(v), ..self }),
    {
        GetDpsArgsBuilder { st: Some(v), ..self }
    }

    pub fn f_loc(self, v: bool) -> (b: GetDpsArgsBuilder)
        ensures
            b == (GetDpsArgsBuilder { f_loc: Some(v), ..self }),
    {
        GetDpsArgsBuilder { f_loc: Some(v), ..self }
    }

    pub fn f_citycode(self, v: bool) -> (b: GetDpsArgsBuilder)
        ensures
            b == (GetDpsArgsBuilder { f_citycode: Some(v), ..self }),
    {
        GetDpsArgsBuilder { f_citycode: Some(v), ..self }
    }

    pub fn f_et(self, v: bool) -> (b: GetDpsArgsBuilder)
        ensures
            b == (GetDpsArgsBuilder { f_et: Some(v), ..self }),
    {
        GetDpsArgsBuilder { f_et: Some(v), ..self }
    }

    pub fn dedup(self, v: bool) -> (b: GetDpsArgsBuilder)
        ensures
            b == (GetDpsArgsBuilder { dedup: Some(v), ..self }),
    {
        GetDpsArgsBuilder { dedup: Some(v), ..self }
    }

    pub fn carrier(self, v: ProxyCarrier) -> (b: GetDpsArgsBuilder)
        ensures
            b == (GetDpsArgsBuilder { carrier: Some(v), ..self }),
    {
        GetDpsArgsBuilder { carrier: Some(v), ..self }
    }

    pub fn format(self, v: String) -> (b: GetDpsArgsBuilder)
        ensures
            b == (GetDpsArgsBuilder { format: Some(v), ..self }),
    {
        GetDpsArgsBuilder { format: Some(v), ..self }
    }

    pub fn sep(self, v: String) -> (b: GetDpsArgsBuilder)
        ensures
            b == (GetDpsArgsBuilder { sep: Some(v), ..self }),
    {
        GetDpsArgsBuilder { sep: Some(v), ..self }
    }

    /// Build the record; fails, before any request could be made, exactly
    /// when the required `num` was not supplied. Every other absent field is
    /// filled with its declared default.
    pub fn build(self) -> (r: Result<GetDpsArgs, KdlError>)
        ensures
            (self.num is None ==> (r matches Err(e) && (e matches KdlError::BuilderError { .. }))),
            (self.num matches Some(n) ==> (r matches Ok(a) && {
                &&& a.num == n
                &&& a.area == self.area
                &&& a.area_ex == self.area_ex
                &&& a.ipstart == self.ipstart
                &&& a.ipstart_ex == self.ipstart_ex
                &&& a.pt == self.pt
                &&& a.st == (self.st matches Some(true))
                &&& a.f_loc == (self.f_loc matches Some(true))
                &&& a.f_citycode == (self.f_citycode matches Some(true))
                &&& a.f_et == (self.f_et matches Some(true))
                &&& a.dedup == (self.dedup matches Some(true))
                &&& a.carrier == self.carrier
                &&& (self.format matches Some(v) ==> a.format == v)
                &&& (self.format is None ==> a.format@ == "json"@)
                &&& (self.sep matches Some(v) ==> a.sep == v)
                &&& (self.sep is None ==> a.sep@ == "\n"@)
            })),
    {
        let num = match self.num {
            Some(v) => v,
            None => {
                return Err(KdlError::BuilderError { field: "num".to_owned() });
            },
        };
        Ok(
            GetDpsArgs {
                num,
                area: self.area,
                area_ex: self.area_ex,
                ipstart: self.ipstart,
                ipstart_ex: self.ipstart_ex,
                pt: self.pt,
                st: match self.st {
                    Some(v) => v,
                    None => false,
                },
                f_loc: match self.f_loc {
                    Some(v) => v,
                    None => false,
                },
                f_citycode: match self.f_citycode {
                    Some(v) => v,
                    None => false,
                },
                f_et: match self.f_et {
                    Some(v) => v,
                    None => false,
                },
                dedup: match self.dedup {
                    Some(v) => v,
                    None => false,
                },
                carrier: self.carrier,
                format: match self.format {
                    Some(v) => v,
                    None => "json".to_owned(),
                },
                sep: match self.sep {
                    Some(v) => v,
                    None => "\n".to_owned(),
                },
            },
        )
    }
}

} // verus!
