use vstd::prelude::*;

verus! {

/// A logical operation of the API: one variant per endpoint method the
/// client exposes. Error codes outside the global range are scoped to one
/// of these operations.
#[derive(Clone, Copy, Debug, PartialEq, Eq, Structural)]
pub enum OperationId {
    GetOrderExpireTime,
    GetIpWhitelist,
    SetIpWhitelist,
    GetKps,
    GetDps,
    GetProxy,
    CheckDpsValid,
    CheckOpsValid,
    GetIpBalance,
    GetDpsValidTime,
    TpsCurrentIp,
    ChangeTpsIp,
    GetTps,
    GetProxyAuthorization,
    GetUa,
    GetAreaCode,
    GetAccountBalance,
}

/// Host and path of one API endpoint, resolved against a top-level domain as
/// `{host_first}.{domain}/api/{path_last}`.
pub struct Endpoint {
    host_first: String,
    domain: String,
    path_last: String,
}

impl Endpoint {
    pub closed spec fn spec_host_first(&self) -> Seq<char> {
        self.host_first@
    }

    pub closed spec fn spec_domain(&self) -> Seq<char> {
        self.domain@
    }

    pub closed spec fn spec_path_last(&self) -> Seq<char> {
        self.path_last@
    }

    /// The endpoint without the scheme: `{host_first}.{domain}/api/{path_last}`.
    pub open spec fn spec_base_url(&self) -> Seq<char> {
        self.spec_host_first() + "."@ + self.spec_domain() + "/api/"@ + self.spec_path_last()
    }

    /// An endpoint under the default `kdlapi.com` domain.
    pub fn new(host_first: &str, path_last: &str) -> (e: Endpoint)
        ensures
            e.spec_host_first() == host_first@,
            e.spec_domain() == "kdlapi.com"@,
            e.spec_path_last() == path_last@,
    {
        Endpoint {
            host_first: host_first.to_owned(),
            domain: "kdlapi.com".to_owned(),
            path_last: path_last.to_owned(),
        }
    }

    /// An endpoint under an explicit top-level domain (one operation lives
    /// under `kuaidaili.com` instead of `kdlapi.com`).
    pub fn new_with_domain(host_first: &str, domain: &str, path_last: &str) -> (e: Endpoint)
        ensures
            e.spec_host_first() == host_first@,
            e.spec_domain() == domain@,
            e.spec_path_last() == path_last@,
    {
        Endpoint {
            host_first: host_first.to_owned(),
            domain: domain.to_owned(),
            path_last: path_last.to_owned(),
        }
    }

    /// Render the endpoint as `{host_first}.{domain}/api/{path_last}`.
    pub fn base_url(&self) -> (r: String)
        ensures
            r@ == self.spec_base_url(),
    {
        let mut s = self.host_first.clone();
        s.append(".");
        s.append(self.domain.as_str());
        s.append("/api/");
        s.append(self.path_last.as_str());
        proof {
            assert(s@ =~= self.spec_base_url());
        }
        s
    }
}

/// The first host segment of an operation's endpoint.
pub open spec fn spec_op_host_first(op: OperationId) -> Seq<char> {
    match op {
        OperationId::GetOrderExpireTime => "dev"@,
        OperationId::GetIpWhitelist => "dev"@,
        OperationId::SetIpWhitelist => "dev"@,
        OperationId::GetKps => "kps"@,
        OperationId::GetDps => "dps"@,
        OperationId::GetProxy => "dev"@,
        OperationId::CheckDpsValid => "dps"@,
        OperationId::CheckOpsValid => "dev"@,
        OperationId::GetIpBalance => "dps"@,
        OperationId::GetDpsValidTime => "dps"@,
        OperationId::TpsCurrentIp => "tps"@,
        OperationId::ChangeTpsIp => "tps"@,
        OperationId::GetTps => "tps"@,
        OperationId::GetProxyAuthorization => "dev"@,
        OperationId::GetUa => "www"@,
        OperationId::GetAreaCode => "dev"@,
        OperationId::GetAccountBalance => "dev"@,
    }
}

/// The top-level domain of an operation's endpoint. Every operation lives
/// under `kdlapi.com`, except the user-agent one under `kuaidaili.com`.
pub open spec fn spec_op_domain(op: OperationId) -> Seq<char> {
    match op {
        OperationId::GetUa => "kuaidaili.com"@,
        _ => "kdlapi.com"@,
    }
}

/// The path segment of an operation's endpoint.
pub open spec fn spec_op_path_last(op: OperationId) -> Seq<char> {
    match op {
        OperationId::GetOrderExpireTime => "getorderexpiretime"@,
        OperationId::GetIpWhitelist => "getipwhitelist"@,
        OperationId::SetIpWhitelist => "setipwhitelist"@,
        OperationId::GetKps => "getkps"@,
        OperationId::GetDps => "getdps"@,
        OperationId::GetProxy => "getproxy"@,
        OperationId::CheckDpsValid => "checkdpsvalid"@,
        OperationId::CheckOpsValid => "checkopsvalid"@,
        OperationId::GetIpBalance => "getipbalance"@,
        OperationId::GetDpsValidTime => "getdpsvalidtime"@,
        OperationId::TpsCurrentIp => "tpscurrentip"@,
        OperationId::ChangeTpsIp => "changetpsip"@,
        OperationId::GetTps => "gettps"@,
        OperationId::GetProxyAuthorization => "getproxyauthorization"@,
        OperationId::GetUa => "getua"@,
        OperationId::GetAreaCode => "getareacode"@,
        OperationId::GetAccountBalance => "getaccountbalance"@,
    }
}

/// The base URL of an operation's endpoint, without the scheme.
pub open spec fn spec_op_base_url(op: OperationId) -> Seq<char> {
    spec_op_host_first(op) + "."@ + spec_op_domain(op) + "/api/"@ + spec_op_path_last(op)
}

/// The endpoint registry: every operation maps to exactly one fixed endpoint;
/// the mapping is closed and total.
pub fn endpoint_of(op: OperationId) -> (e: Endpoint)
    ensures
        e.spec_host_first() == spec_op_host_first(op),
        e.spec_domain() == spec_op_domain(op),
        e.spec_path_last() == spec_op_path_last(op),
        e.spec_base_url() == spec_op_base_url(op),
{
    match op {
        OperationId::GetOrderExpireTime => Endpoint::new("dev", "getorderexpiretime"),
        OperationId::GetIpWhitelist => Endpoint::new("dev", "getipwhitelist"),
        OperationId::SetIpWhitelist => Endpoint::new("dev", "setipwhitelist"),
        OperationId::GetKps => Endpoint::new("kps", "getkps"),
        OperationId::GetDps => Endpoint::new("dps", "getdps"),
        OperationId::GetProxy => Endpoint::new("dev", "getproxy"),
        OperationId::CheckDpsValid => Endpoint::new("dps", "checkdpsvalid"),
        OperationId::CheckOpsValid => Endpoint::new("dev", "checkopsvalid"),
        OperationId::GetIpBalance => Endpoint::new("dps", "getipbalance"),
        OperationId::GetDpsValidTime => Endpoint::new("dps", "getdpsvalidtime"),
        OperationId::TpsCurrentIp => Endpoint::new("tps", "tpscurrentip"),
        OperationId::ChangeTpsIp => Endpoint::new("tps", "changetpsip"),
        OperationId::GetTps => Endpoint::new("tps", "gettps"),
        OperationId::GetProxyAuthorization => Endpoint::new("dev", "getproxyauthorization"),
        OperationId::GetUa => Endpoint::new_with_domain("www", "kuaidaili.com", "getua"),
        OperationId::GetAreaCode => Endpoint::new("dev", "getareacode"),
        OperationId::GetAccountBalance => Endpoint::new("dev", "getaccountbalance"),
    }
}

/// Order level of an open-proxy order; the svip and enterprise levels are
/// served from hosts of their own.
#[derive(Clone, Copy, Debug, PartialEq, Eq, Structural)]
pub enum OpsOrderLevel {
    Normal,
    Vip,
    Svip,
    Pro,
}

/// The first host segment serving an open-proxy order of the given level.
pub open spec fn spec_ops_host_first(level: OpsOrderLevel) -> Seq<char> {
    match level {
        OpsOrderLevel::Normal => "dev"@,
        OpsOrderLevel::Vip => "dev"@,
        OpsOrderLevel::Svip => "svip"@,
        OpsOrderLevel::Pro => "ent"@,
    }
}

/// The open-proxy endpoint for an order level: same path, level-specific host.
pub fn ops_proxy_endpoint(level: OpsOrderLevel) -> (e: Endpoint)
    ensures
        e.spec_host_first() == spec_ops_host_first(level),
        e.spec_domain() == "kdlapi.com"@,
        e.spec_path_last() == "getproxy"@,
{
    match level {
        OpsOrderLevel::Normal => Endpoint::new("dev", "getproxy"),
        OpsOrderLevel::Vip => Endpoint::new("dev", "getproxy"),
        OpsOrderLevel::Svip => Endpoint::new("svip", "getproxy"),
        OpsOrderLevel::Pro => Endpoint::new("ent", "getproxy"),
    }
}

} // verus!
