use vstd::prelude::*;

use crate::args::encode_no_args;
use crate::args::CheckDpsValidArgs;
use crate::args::CheckOpsValidArgs;
use crate::args::GetAreaCodeArgs;
use crate::args::GetDpsArgs;
use crate::args::GetDpsValidTimeArgs;
use crate::args::GetKpsArgs;
use crate::args::GetProxyArgs;
use crate::args::GetProxyAuthorizationArgs;
use crate::args::GetTpsArgs;
use crate::args::GetUAArgs;
use crate::args::QPairs;
use crate::args::SetIpWhitelistArgs;
use crate::auth::Auth;
use crate::classify::KdlError;
use crate::classify::KdlResult;
use crate::endpoint::endpoint_of;
use crate::endpoint::ops_proxy_endpoint;
use crate::endpoint::spec_op_base_url;
use crate::endpoint::spec_ops_host_first;
use crate::endpoint::Endpoint;
use crate::endpoint::OperationId;
use crate::endpoint::OpsOrderLevel;
use crate::envelope::response_data;
use crate::envelope::spec_envelope_success;
use crate::envelope::spec_pipeline_err;
use crate::envelope::TransportOutcome;
use crate::query::qpairs_view;
use crate::query::query_string;
use crate::query::spec_query_string;
use crate::rets::decode_bool_map;
use crate::rets::decode_change_tps_ip_data;
use crate::rets::decode_get_account_balance_data;
use crate::rets::decode_get_area_code_data;
use crate::rets::decode_get_dps_data;
use crate::rets::decode_get_ip_balance_data;
use crate::rets::decode_get_ip_whitelist_data;
use crate::rets::decode_get_kps_data;
use crate::rets::decode_get_order_expire_time_data;
use crate::rets::decode_get_proxy_authorization_data;
use crate::rets::decode_get_proxy_data;
use crate::rets::decode_get_tps_data;
use crate::rets::decode_get_ua_data;
use crate::rets::decode_string_data;
use crate::rets::decode_tps_current_ip_data;
use crate::rets::decode_u32_map;
use crate::rets::spec_bool_map_decodes;
use crate::rets::spec_bool_map_ok;
use crate::rets::spec_change_tps_ip_decodes;
use crate::rets::spec_change_tps_ip_ok;
use crate::rets::spec_get_account_balance_decodes;
use crate::rets::spec_get_account_balance_ok;
use crate::rets::spec_get_area_code_decodes;
use crate::rets::spec_get_area_code_ok;
use crate::rets::spec_get_dps_decodes;
use crate::rets::spec_get_dps_ok;
use crate::rets::spec_get_ip_balance_decodes;
use crate::rets::spec_get_ip_balance_ok;
use crate::rets::spec_get_ip_whitelist_decodes;
use crate::rets::spec_get_ip_whitelist_ok;
use crate::rets::spec_get_kps_decodes;
use crate::rets::spec_get_kps_ok;
use crate::rets::spec_get_order_expire_time_decodes;
use crate::rets::spec_get_order_expire_time_ok;
use crate::rets::spec_get_proxy_authorization_decodes;
use crate::rets::spec_get_proxy_authorization_ok;
use crate::rets::spec_get_proxy_decodes;
use crate::rets::spec_get_proxy_ok;
use crate::rets::spec_get_tps_decodes;
use crate::rets::spec_get_tps_ok;
use crate::rets::spec_get_ua_decodes;
use crate::rets::spec_get_ua_ok;
use crate::rets::spec_set_ip_whitelist_decodes;
use crate::rets::spec_set_ip_whitelist_ok;
use crate::rets::spec_tps_current_ip_decodes;
use crate::rets::spec_tps_current_ip_ok;
use crate::rets::spec_u32_map_decodes;
use crate::rets::spec_u32_map_ok;
use crate::rets::ChangeTpsIpRets;
use crate::rets::CheckDpsValidRets;
use crate::rets::CheckOpsValidRets;
use crate::rets::GetAccountBalanceRets;
use crate::rets::GetAreaCodeRets;
use crate::rets::GetDpsRets;
use crate::rets::GetDpsValidTimeRets;
use crate::rets::GetIpBalanceRets;
use crate::rets::GetIpWhitelistRets;
use crate::rets::GetKpsRets;
use crate::rets::GetOrderExpireTimeRets;
use crate::rets::GetProxyAuthorizationRets;
use crate::rets::GetProxyRets;
use crate::rets::GetTpsRets;
use crate::rets::GetUARets;
use crate::rets::SetIpWhitelistRets;
use crate::rets::TpsCurrentIpRets;

verus! {

/// The client: immutable credentials and, for each operation, the pure halves
/// of the request/response pipeline. Building the URL for an argument record
/// is one half; turning the transport's outcome into a typed result is the
/// other. The embedding program performs the network call in between.
pub struct Client {
    auth: Auth,
}

/// The full request URL: the scheme, the endpoint, the two credential
/// parameters, and the encoded argument pairs.
pub open spec fn spec_request_url(
    oid: Seq<char>,
    key: Seq<char>,
    base: Seq<char>,
    pairs: QPairs,
) -> Seq<char> {
    "https://"@ + base + "?orderid="@ + oid + "&signature="@ + key + "&"@ + spec_query_string(
        pairs,
    )
}

impl Client {
    /// The order id of the credentials.
    pub closed spec fn spec_order_id(&self) -> Seq<char> {
        self.auth.spec_order_id()
    }

    /// The api key of the credentials.
    pub closed spec fn spec_api_key(&self) -> Seq<char> {
        self.auth.spec_api_key()
    }

    /// A client holding the given credentials.
    pub fn new(auth: Auth) -> (c: Client)
        ensures
            c.spec_order_id() == auth.spec_order_id(),
            c.spec_api_key() == auth.spec_api_key(),
    {
        Client { auth }
    }

    fn url_for_endpoint(&self, e: &Endpoint, pairs: &Vec<(String, String)>) -> (u: String)
        ensures
            u@ == spec_request_url(
                self.spec_order_id(),
                self.spec_api_key(),
                e.spec_base_url(),
                qpairs_view(pairs@),
            ),
    {
        let mut url = "https://".to_owned();
        url.append(e.base_url().as_str());
        url.append("?orderid=");
        url.append(self.auth.get_order_id().as_str());
        url.append("&signature=");
        url.append(self.auth.get_api_key().as_str());
        url.append("&");
        url.append(query_string(pairs).as_str());
        proof {
            assert(url@ =~= spec_request_url(
                self.spec_order_id(),
                self.spec_api_key(),
                e.spec_base_url(),
                qpairs_view(pairs@),
            ));
        }
        url
    }

    /// The request URL of an operation, from already-encoded argument pairs.
    pub fn request_url(&self, op: OperationId, pairs: &Vec<(String, String)>) -> (u: String)
        ensures
            u@ == spec_request_url(
                self.spec_order_id(),
                self.spec_api_key(),
                spec_op_base_url(op),
                qpairs_view(pairs@),
            ),
    {
        let e = endpoint_of(op);
        self.url_for_endpoint(&e, pairs)
    }

    /// The request URL for drawing open proxies of a given order level; the
    /// svip and enterprise levels are served from hosts of their own.
    pub fn get_proxy_url_for_level(&self, level: OpsOrderLevel, args: &GetProxyArgs) -> (u: String)
        ensures
            u@ == spec_request_url(
                self.spec_order_id(),
                self.spec_api_key(),
                spec_ops_host_first(level) + "."@ + "kdlapi.com"@ + "/api/"@ + "getproxy"@,
                args.spec_pairs(),
            ),
    {
        let e = ops_proxy_endpoint(level);
        let pairs = args.encode();
        self.url_for_endpoint(&e, &pairs)
    }

    /// The request URL of `get_order_expire_time` (asks for the expiry of the order; the operation takes no
    /// arguments).
    pub fn get_order_expire_time_url(&self) -> (u: String)
        ensures
            u@ == spec_request_url(
                self.spec_order_id(),
                self.spec_api_key(),
                spec_op_base_url(OperationId::GetOrderExpireTime),
                Seq::empty(),
            ),
    {
        let pairs = encode_no_args();
        self.request_url(OperationId::GetOrderExpireTime, &pairs)
    }

    /// Turn the transport outcome of a `get_order_expire_time` call into its typed result:
    /// the decoded value on a zero code, the classified API error on any
    /// other code, a deserialization failure for a body outside the wire
    /// shapes, and a network error for a transport failure (decoded not at
    /// all).
    pub fn get_order_expire_time_result(&self, outcome: TransportOutcome) -> (r: KdlResult<GetOrderExpireTimeRets>)
        ensures
            (outcome matches TransportOutcome::Failure(m) ==> r == Err::<GetOrderExpireTimeRets, KdlError>(
                KdlError::NetworkError { message: m },
            )),
            (outcome matches TransportOutcome::Body(b) ==> {
                &&& (r matches Ok(x) ==> (spec_envelope_success(b@) matches Some(data)
                    && spec_get_order_expire_time_ok(data, x)))
                &&& (r matches Err(e) ==> (spec_pipeline_err(b@, OperationId::GetOrderExpireTime, e) || (
                spec_envelope_success(b@) matches Some(data) && !spec_get_order_expire_time_decodes(data) && (e
                    matches KdlError::DeserializeError { .. }))))
            }),
    {
        match response_data(OperationId::GetOrderExpireTime, outcome) {
            Err(e) => Err(e),
            Ok(data) => decode_get_order_expire_time_data(&data),
        }
    }

    /// The request URL of `get_proxy_authorization` (asks for the authorization info of the order).
    pub fn get_proxy_authorization_url(&self, args: &GetProxyAuthorizationArgs) -> (u: String)
        ensures
            u@ == spec_request_url(
                self.spec_order_id(),
                self.spec_api_key(),
                spec_op_base_url(OperationId::GetProxyAuthorization),
                args.spec_pairs(),
            ),
    {
        let pairs = args.encode();
        self.request_url(OperationId::GetProxyAuthorization, &pairs)
    }

    /// Turn the transport outcome of a `get_proxy_authorization` call into its typed result:
    /// the decoded value on a zero code, the classified API error on any
    /// other code, a deserialization failure for a body outside the wire
    /// shapes, and a network error for a transport failure (decoded not at
    /// all).
    pub fn get_proxy_authorization_result(&self, outcome: TransportOutcome) -> (r: KdlResult<GetProxyAuthorizationRets>)
        ensures
            (outcome matches TransportOutcome::Failure(m) ==> r == Err::<GetProxyAuthorizationRets, KdlError>(
                KdlError::NetworkError { message: m },
            )),
            (outcome matches TransportOutcome::Body(b) ==> {
                &&& (r matches Ok(x) ==> (spec_envelope_success(b@) matches Some(data)
                    && spec_get_proxy_authorization_ok(data, x)))
                &&& (r matches Err(e) ==> (spec_pipeline_err(b@, OperationId::GetProxyAuthorization, e) || (
                spec_envelope_success(b@) matches Some(data) && !spec_get_proxy_authorization_decodes(data) && (e
                    matches KdlError::DeserializeError { .. }))))
            }),
    {
        match response_data(OperationId::GetProxyAuthorization, outcome) {
            Err(e) => Err(e),
            Ok(data) => decode_get_proxy_authorization_data(&data),
        }
    }

    /// The request URL of `get_account_balance` (asks for the balance of the account; the operation takes no
    /// arguments).
    pub fn get_account_balance_url(&self) -> (u: String)
        ensures
            u@ == spec_request_url(
                self.spec_order_id(),
                self.spec_api_key(),
                spec_op_base_url(OperationId::GetAccountBalance),
                Seq::empty(),
            ),
    {
        let pairs = encode_no_args();
        self.request_url(OperationId::GetAccountBalance, &pairs)
    }

    /// Turn the transport outcome of a `get_account_balance` call into its typed result:
    /// the decoded value on a zero code, the classified API error on any
    /// other code, a deserialization failure for a body outside the wire
    /// shapes, and a network error for a transport failure (decoded not at
    /// all).
    pub fn get_account_balance_result(&self, outcome: TransportOutcome) -> (r: KdlResult<GetAccountBalanceRets>)
        ensures
            (outcome matches TransportOutcome::Failure(m) ==> r == Err::<GetAccountBalanceRets, KdlError>(
                KdlError::NetworkError { message: m },
            )),
            (outcome matches TransportOutcome::Body(b) ==> {
                &&& (r matches Ok(x) ==> (spec_envelope_success(b@) matches Some(data)
                    && spec_get_account_balance_ok(data, x)))
                &&& (r matches Err(e) ==> (spec_pipeline_err(b@, OperationId::GetAccountBalance, e) || (
                spec_envelope_success(b@) matches Some(data) && !spec_get_account_balance_decodes(data) && (e
                    matches KdlError::DeserializeError { .. }))))
            }),
    {
        match response_data(OperationId::GetAccountBalance, outcome) {
            Err(e) => Err(e),
            Ok(data) => decode_get_account_balance_data(&data),
        }
    }

    /// The request URL of `get_ua` (asks for user agents).
    pub fn get_ua_url(&self, args: &GetUAArgs) -> (u: String)
        ensures
            u@ == spec_request_url(
                self.spec_order_id(),
                self.spec_api_key(),
                spec_op_base_url(OperationId::GetUa),
                args.spec_pairs(),
            ),
    {
        let pairs = args.encode();
        self.request_url(OperationId::GetUa, &pairs)
    }

    /// Turn the transport outcome of a `get_ua` call into its typed result:
    /// the decoded value on a zero code, the classified API error on any
    /// other code, a deserialization failure for a body outside the wire
    /// shapes, and a network error for a transport failure (decoded not at
    /// all).
    pub fn get_ua_result(&self, outcome: TransportOutcome) -> (r: KdlResult<GetUARets>)
        ensures
            (outcome matches TransportOutcome::Failure(m) ==> r == Err::<GetUARets, KdlError>(
                KdlError::NetworkError { message: m },
            )),
            (outcome matches TransportOutcome::Body(b) ==> {
                &&& (r matches Ok(x) ==> (spec_envelope_success(b@) matches Some(data)
                    && spec_get_ua_ok(data, x)))
                &&& (r matches Err(e) ==> (spec_pipeline_err(b@, OperationId::GetUa, e) || (
                spec_envelope_success(b@) matches Some(data) && !spec_get_ua_decodes(data) && (e
                    matches KdlError::DeserializeError { .. }))))
            }),
    {
        match response_data(OperationId::GetUa, outcome) {
            Err(e) => Err(e),
            Ok(data) => decode_get_ua_data(&data),
        }
    }

    /// The request URL of `get_area_code` (asks for the code of an area).
    pub fn get_area_code_url(&self, args: &GetAreaCodeArgs) -> (u: String)
        ensures
            u@ == spec_request_url(
                self.spec_order_id(),
                self.spec_api_key(),
                spec_op_base_url(OperationId::GetAreaCode),
                args.spec_pairs(),
            ),
    {
        let pairs = args.encode();
        self.request_url(OperationId::GetAreaCode, &pairs)
    }

    /// Turn the transport outcome of a `get_area_code` call into its typed result:
    /// the decoded value on a zero code, the classified API error on any
    /// other code, a deserialization failure for a body outside the wire
    /// shapes, and a network error for a transport failure (decoded not at
    /// all).
    pub fn get_area_code_result(&self, outcome: TransportOutcome) -> (r: KdlResult<GetAreaCodeRets>)
        ensures
            (outcome matches TransportOutcome::Failure(m) ==> r == Err::<GetAreaCodeRets, KdlError>(
                KdlError::NetworkError { message: m },
            )),
            (outcome matches TransportOutcome::Body(b) ==> {
                &&& (r matches Ok(x) ==> (spec_envelope_success(b@) matches Some(data)
                    && spec_get_area_code_ok(data, x)))
                &&& (r matches Err(e) ==> (spec_pipeline_err(b@, OperationId::GetAreaCode, e) || (
                spec_envelope_success(b@) matches Some(data) && !spec_get_area_code_decodes(data) && (e
                    matches KdlError::DeserializeError { .. }))))
            }),
    {
        match response_data(OperationId::GetAreaCode, outcome) {
            Err(e) => Err(e),
            Ok(data) => decode_get_area_code_data(&data),
        }
    }

    /// The request URL of `check_ops_valid` (asks for the validity of open proxies).
    pub fn check_ops_valid_url(&self, args: &CheckOpsValidArgs) -> (u: String)
        ensures
            u@ == spec_request_url(
                self.spec_order_id(),
                self.spec_api_key(),
                spec_op_base_url(OperationId::CheckOpsValid),
                args.spec_pairs(),
            ),
    {
        let pairs = args.encode();
        self.request_url(OperationId::CheckOpsValid, &pairs)
    }

    /// Turn the transport outcome of a `check_ops_valid` call into its typed result:
    /// the decoded value on a zero code, the classified API error on any
    /// other code, a deserialization failure for a body outside the wire
    /// shapes, and a network error for a transport failure (decoded not at
    /// all).
    pub fn check_ops_valid_result(&self, outcome: TransportOutcome) -> (r: KdlResult<CheckOpsValidRets>)
        ensures
            (outcome matches TransportOutcome::Failure(m) ==> r == Err::<CheckOpsValidRets, KdlError>(
                KdlError::NetworkError { message: m },
            )),
            (outcome matches TransportOutcome::Body(b) ==> {
                &&& (r matches Ok(x) ==> (spec_envelope_success(b@) matches Some(data)
                    && spec_bool_map_ok(data, x)))
                &&& (r matches Err(e) ==> (spec_pipeline_err(b@, OperationId::CheckOpsValid, e) || (
                spec_envelope_success(b@) matches Some(data) && !spec_bool_map_decodes(data) && (e
                    matches KdlError::DeserializeError { .. }))))
            }),
    {
        match response_data(OperationId::CheckOpsValid, outcome) {
            Err(e) => Err(e),
            Ok(data) => decode_bool_map(&data),
        }
    }

    /// The request URL of `get_ip_balance` (asks for the ip balance of the order; the operation takes no
    /// arguments).
    pub fn get_ip_balance_url(&self) -> (u: String)
        ensures
            u@ == spec_request_url(
                self.spec_order_id(),
                self.spec_api_key(),
                spec_op_base_url(OperationId::GetIpBalance),
                Seq::empty(),
            ),
    {
        let pairs = encode_no_args();
        self.request_url(OperationId::GetIpBalance, &pairs)
    }

    /// Turn the transport outcome of a `get_ip_balance` call into its typed result:
    /// the decoded value on a zero code, the classified API error on any
    /// other code, a deserialization failure for a body outside the wire
    /// shapes, and a network error for a transport failure (decoded not at
    /// all).
    pub fn get_ip_balance_result(&self, outcome: TransportOutcome) -> (r: KdlResult<GetIpBalanceRets>)
        ensures
            (outcome matches TransportOutcome::Failure(m) ==> r == Err::<GetIpBalanceRets, KdlError>(
                KdlError::NetworkError { message: m },
            )),
            (outcome matches TransportOutcome::Body(b) ==> {
                &&& (r matches Ok(x) ==> (spec_envelope_success(b@) matches Some(data)
                    && spec_get_ip_balance_ok(data, x)))
                &&& (r matches Err(e) ==> (spec_pipeline_err(b@, OperationId::GetIpBalance, e) || (
                spec_envelope_success(b@) matches Some(data) && !spec_get_ip_balance_decodes(data) && (e
                    matches KdlError::DeserializeError { .. }))))
            }),
    {
        match response_data(OperationId::GetIpBalance, outcome) {
            Err(e) => Err(e),
            Ok(data) => decode_get_ip_balance_data(&data),
        }
    }

    /// The request URL of `get_ip_whitelist` (asks for the ip whitelist of the order; the operation takes no
    /// arguments).
    pub fn get_ip_whitelist_url(&self) -> (u: String)
        ensures
            u@ == spec_request_url(
                self.spec_order_id(),
                self.spec_api_key(),
                spec_op_base_url(OperationId::GetIpWhitelist),
                Seq::empty(),
            ),
    {
        let pairs = encode_no_args();
        self.request_url(OperationId::GetIpWhitelist, &pairs)
    }

    /// Turn the transport outcome of a `get_ip_whitelist` call into its typed result:
    /// the decoded value on a zero code, the classified API error on any
    /// other code, a deserialization failure for a body outside the wire
    /// shapes, and a network error for a transport failure (decoded not at
    /// all).
    pub fn get_ip_whitelist_result(&self, outcome: TransportOutcome) -> (r: KdlResult<GetIpWhitelistRets>)
        ensures
            (outcome matches TransportOutcome::Failure(m) ==> r == Err::<GetIpWhitelistRets, KdlError>(
                KdlError::NetworkError { message: m },
            )),
            (outcome matches TransportOutcome::Body(b) ==> {
                &&& (r matches Ok(x) ==> (spec_envelope_success(b@) matches Some(data)
                    && spec_get_ip_whitelist_ok(data, x)))
                &&& (r matches Err(e) ==> (spec_pipeline_err(b@, OperationId::GetIpWhitelist, e) || (
                spec_envelope_success(b@) matches Some(data) && !spec_get_ip_whitelist_decodes(data) && (e
                    matches KdlError::DeserializeError { .. }))))
            }),
    {
        match response_data(OperationId::GetIpWhitelist, outcome) {
            Err(e) => Err(e),
            Ok(data) => decode_get_ip_whitelist_data(&data),
        }
    }

    /// The request URL of `check_dps_valid` (asks for the validity of private proxies).
    pub fn check_dps_valid_url(&self, args: &CheckDpsValidArgs) -> (u: String)
        ensures
            u@ == spec_request_url(
                self.spec_order_id(),
                self.spec_api_key(),
                spec_op_base_url(OperationId::CheckDpsValid),
                args.spec_pairs(),
            ),
    {
        let pairs = args.encode();
        self.request_url(OperationId::CheckDpsValid, &pairs)
    }

    /// Turn the transport outcome of a `check_dps_valid` call into its typed result:
    /// the decoded value on a zero code, the classified API error on any
    /// other code, a deserialization failure for a body outside the wire
    /// shapes, and a network error for a transport failure (decoded not at
    /// all).
    pub fn check_dps_valid_result(&self, outcome: TransportOutcome) -> (r: KdlResult<CheckDpsValidRets>)
        ensures
            (outcome matches TransportOutcome::Failure(m) ==> r == Err::<CheckDpsValidRets, KdlError>(
                KdlError::NetworkError { message: m },
            )),
            (outcome matches TransportOutcome::Body(b) ==> {
                &&& (r matches Ok(x) ==> (spec_envelope_success(b@) matches Some(data)
                    && spec_bool_map_ok(data, x)))
                &&& (r matches Err(e) ==> (spec_pipeline_err(b@, OperationId::CheckDpsValid, e) || (
                spec_envelope_success(b@) matches Some(data) && !spec_bool_map_decodes(data) && (e
                    matches KdlError::DeserializeError { .. }))))
            }),
    {
        match response_data(OperationId::CheckDpsValid, outcome) {
            Err(e) => Err(e),
            Ok(data) => decode_bool_map(&data),
        }
    }

    /// The request URL of `set_ip_whitelist` (asks for the new ip whitelist of the order).
    pub fn set_ip_whitelist_url(&self, args: &SetIpWhitelistArgs) -> (u: String)
        ensures
            u@ == spec_request_url(
                self.spec_order_id(),
                self.spec_api_key(),
                spec_op_base_url(OperationId::SetIpWhitelist),
                args.spec_pairs(),
            ),
    {
        let pairs = args.encode();
        self.request_url(OperationId::SetIpWhitelist, &pairs)
    }

    /// Turn the transport outcome of a `set_ip_whitelist` call into its typed result:
    /// the decoded value on a zero code, the classified API error on any
    /// other code, a deserialization failure for a body outside the wire
    /// shapes, and a network error for a transport failure (decoded not at
    /// all).
    pub fn set_ip_whitelist_result(&self, outcome: TransportOutcome) -> (r: KdlResult<SetIpWhitelistRets>)
        ensures
            (outcome matches TransportOutcome::Failure(m) ==> r == Err::<SetIpWhitelistRets, KdlError>(
                KdlError::NetworkError { message: m },
            )),
            (outcome matches TransportOutcome::Body(b) ==> {
                &&& (r matches Ok(x) ==> (spec_envelope_success(b@) matches Some(data)
                    && spec_set_ip_whitelist_ok(data, x)))
                &&& (r matches Err(e) ==> (spec_pipeline_err(b@, OperationId::SetIpWhitelist, e) || (
                spec_envelope_success(b@) matches Some(data) && !spec_set_ip_whitelist_decodes(data) && (e
                    matches KdlError::DeserializeError { .. }))))
            }),
    {
        match response_data(OperationId::SetIpWhitelist, outcome) {
            Err(e) => Err(e),
            Ok(data) => decode_string_data(&data),
        }
    }

    /// The request URL of `tps_current_ip` (asks for the tunnel's current ip; the operation takes no
    /// arguments).
    pub fn tps_current_ip_url(&self) -> (u: String)
        ensures
            u@ == spec_request_url(
                self.spec_order_id(),
                self.spec_api_key(),
                spec_op_base_url(OperationId::TpsCurrentIp),
                Seq::empty(),
            ),
    {
        let pairs = encode_no_args();
        self.request_url(OperationId::TpsCurrentIp, &pairs)
    }

    /// Turn the transport outcome of a `tps_current_ip` call into its typed result:
    /// the decoded value on a zero code, the classified API error on any
    /// other code, a deserialization failure for a body outside the wire
    /// shapes, and a network error for a transport failure (decoded not at
    /// all).
    pub fn tps_current_ip_result(&self, outcome: TransportOutcome) -> (r: KdlResult<TpsCurrentIpRets>)
        ensures
            (outcome matches TransportOutcome::Failure(m) ==> r == Err::<TpsCurrentIpRets, KdlError>(
                KdlError::NetworkError { message: m },
            )),
            (outcome matches TransportOutcome::Body(b) ==> {
                &&& (r matches Ok(x) ==> (spec_envelope_success(b@) matches Some(data)
                    && spec_tps_current_ip_ok(data, x)))
                &&& (r matches Err(e) ==> (spec_pipeline_err(b@, OperationId::TpsCurrentIp, e) || (
                spec_envelope_success(b@) matches Some(data) && !spec_tps_current_ip_decodes(data) && (e
                    matches KdlError::DeserializeError { .. }))))
            }),
    {
        match response_data(OperationId::TpsCurrentIp, outcome) {
            Err(e) => Err(e),
            Ok(data) => decode_tps_current_ip_data(&data),
        }
    }

    /// The request URL of `change_tps_ip` (asks for a change of the tunnel's ip; the operation takes no
    /// arguments).
    pub fn change_tps_ip_url(&self) -> (u: String)
        ensures
            u@ == spec_request_url(
                self.spec_order_id(),
                self.spec_api_key(),
                spec_op_base_url(OperationId::ChangeTpsIp),
                Seq::empty(),
            ),
    {
        let pairs = encode_no_args();
        self.request_url(OperationId::ChangeTpsIp, &pairs)
    }

    /// Turn the transport outcome of a `change_tps_ip` call into its typed result:
    /// the decoded value on a zero code, the classified API error on any
    /// other code, a deserialization failure for a body outside the wire
    /// shapes, and a network error for a transport failure (decoded not at
    /// all).
    pub fn change_tps_ip_result(&self, outcome: TransportOutcome) -> (r: KdlResult<ChangeTpsIpRets>)
        ensures
            (outcome matches TransportOutcome::Failure(m) ==> r == Err::<ChangeTpsIpRets, KdlError>(
                KdlError::NetworkError { message: m },
            )),
            (outcome matches TransportOutcome::Body(b) ==> {
                &&& (r matches Ok(x) ==> (spec_envelope_success(b@) matches Some(data)
                    && spec_change_tps_ip_ok(data, x)))
                &&& (r matches Err(e) ==> (spec_pipeline_err(b@, OperationId::ChangeTpsIp, e) || (
                spec_envelope_success(b@) matches Some(data) && !spec_change_tps_ip_decodes(data) && (e
                    matches KdlError::DeserializeError { .. }))))
            }),
    {
        match response_data(OperationId::ChangeTpsIp, outcome) {
            Err(e) => Err(e),
            Ok(data) => decode_change_tps_ip_data(&data),
        }
    }

    /// The request URL of `get_tps` (asks for tunnel proxies).
    pub fn get_tps_url(&self, args: &GetTpsArgs) -> (u: String)
        ensures
            u@ == spec_request_url(
                self.spec_order_id(),
                self.spec_api_key(),
                spec_op_base_url(OperationId::GetTps),
                args.spec_pairs(),
            ),
    {
        let pairs = args.encode();
        self.request_url(OperationId::GetTps, &pairs)
    }

    /// Turn the transport outcome of a `get_tps` call into its typed result:
    /// the decoded value on a zero code, the classified API error on any
    /// other code, a deserialization failure for a body outside the wire
    /// shapes, and a network error for a transport failure (decoded not at
    /// all).
    pub fn get_tps_result(&self, outcome: TransportOutcome) -> (r: KdlResult<GetTpsRets>)
        ensures
            (outcome matches TransportOutcome::Failure(m) ==> r == Err::<GetTpsRets, KdlError>(
                KdlError::NetworkError { message: m },
            )),
            (outcome matches TransportOutcome::Body(b) ==> {
                &&& (r matches Ok(x) ==> (spec_envelope_success(b@) matches Some(data)
                    && spec_get_tps_ok(data, x)))
                &&& (r matches Err(e) ==> (spec_pipeline_err(b@, OperationId::GetTps, e) || (
                spec_envelope_success(b@) matches Some(data) && !spec_get_tps_decodes(data) && (e
                    matches KdlError::DeserializeError { .. }))))
            }),
    {
        match response_data(OperationId::GetTps, outcome) {
            Err(e) => Err(e),
            Ok(data) => decode_get_tps_data(&data),
        }
    }

    /// The request URL of `get_dps_valid_time` (asks for the remaining time of private proxies).
    pub fn get_dps_valid_time_url(&self, args: &GetDpsValidTimeArgs) -> (u: String)
        ensures
            u@ == spec_request_url(
                self.spec_order_id(),
                self.spec_api_key(),
                spec_op_base_url(OperationId::GetDpsValidTime),
                args.spec_pairs(),
            ),
    {
        let pairs = args.encode();
        self.request_url(OperationId::GetDpsValidTime, &pairs)
    }

    /// Turn the transport outcome of a `get_dps_valid_time` call into its typed result:
    /// the decoded value on a zero code, the classified API error on any
    /// other code, a deserialization failure for a body outside the wire
    /// shapes, and a network error for a transport failure (decoded not at
    /// all).
    pub fn get_dps_valid_time_result(&self, outcome: TransportOutcome) -> (r: KdlResult<GetDpsValidTimeRets>)
        ensures
            (outcome matches TransportOutcome::Failure(m) ==> r == Err::<GetDpsValidTimeRets, KdlError>(
                KdlError::NetworkError { message: m },
            )),
            (outcome matches TransportOutcome::Body(b) ==> {
                &&& (r matches Ok(x) ==> (spec_envelope_success(b@) matches Some(data)
                    && spec_u32_map_ok(data, x)))
                &&& (r matches Err(e) ==> (spec_pipeline_err(b@, OperationId::GetDpsValidTime, e) || (
                spec_envelope_success(b@) matches Some(data) && !spec_u32_map_decodes(data) && (e
                    matches KdlError::DeserializeError { .. }))))
            }),
    {
        match response_data(OperationId::GetDpsValidTime, outcome) {
            Err(e) => Err(e),
            Ok(data) => decode_u32_map(&data),
        }
    }

    /// The request URL of `get_dps` (asks for private proxies).
    pub fn get_dps_url(&self, args: &GetDpsArgs) -> (u: String)
        ensures
            u@ == spec_request_url(
                self.spec_order_id(),
                self.spec_api_key(),
                spec_op_base_url(OperationId::GetDps),
                args.spec_pairs(),
            ),
    {
        let pairs = args.encode();
        self.request_url(OperationId::GetDps, &pairs)
    }

    /// Turn the transport outcome of a `get_dps` call into its typed result:
    /// the decoded value on a zero code, the classified API error on any
    /// other code, a deserialization failure for a body outside the wire
    /// shapes, and a network error for a transport failure (decoded not at
    /// all).
    pub fn get_dps_result(&self, outcome: TransportOutcome) -> (r: KdlResult<GetDpsRets>)
        ensures
            (outcome matches TransportOutcome::Failure(m) ==> r == Err::<GetDpsRets, KdlError>(
                KdlError::NetworkError { message: m },
            )),
            (outcome matches TransportOutcome::Body(b) ==> {
                &&& (r matches Ok(x) ==> (spec_envelope_success(b@) matches Some(data)
                    && spec_get_dps_ok(data, x)))
                &&& (r matches Err(e) ==> (spec_pipeline_err(b@, OperationId::GetDps, e) || (
                spec_envelope_success(b@) matches Some(data) && !spec_get_dps_decodes(data) && (e
                    matches KdlError::DeserializeError { .. }))))
            }),
    {
        match response_data(OperationId::GetDps, outcome) {
            Err(e) => Err(e),
            Ok(data) => decode_get_dps_data(&data),
        }
    }

    /// The request URL of `get_kps` (asks for exclusive proxies).
    pub fn get_kps_url(&self, args: &GetKpsArgs) -> (u: String)
        ensures
            u@ == spec_request_url(
                self.spec_order_id(),
                self.spec_api_key(),
                spec_op_base_url(OperationId::GetKps),
                args.spec_pairs(),
            ),
    {
        let pairs = args.encode();
        self.request_url(OperationId::GetKps, &pairs)
    }

    /// Turn the transport outcome of a `get_kps` call into its typed result:
    /// the decoded value on a zero code, the classified API error on any
    /// other code, a deserialization failure for a body outside the wire
    /// shapes, and a network error for a transport failure (decoded not at
    /// all).
    pub fn get_kps_result(&self, outcome: TransportOutcome) -> (r: KdlResult<GetKpsRets>)
        ensures
            (outcome matches TransportOutcome::Failure(m) ==> r == Err::<GetKpsRets, KdlError>(
                KdlError::NetworkError { message: m },
            )),
            (outcome matches TransportOutcome::Body(b) ==> {
                &&& (r matches Ok(x) ==> (spec_envelope_success(b@) matches Some(data)
                    && spec_get_kps_ok(data, x)))
                &&& (r matches Err(e) ==> (spec_pipeline_err(b@, OperationId::GetKps, e) || (
                spec_envelope_success(b@) matches Some(data) && !spec_get_kps_decodes(data) && (e
                    matches KdlError::DeserializeError { .. }))))
            }),
    {
        match response_data(OperationId::GetKps, outcome) {
            Err(e) => Err(e),
            Ok(data) => decode_get_kps_data(&data),
        }
    }

    /// The request URL of `get_proxy` (asks for open proxies).
    pub fn get_proxy_url(&self, args: &GetProxyArgs) -> (u: String)
        ensures
            u@ == spec_request_url(
                self.spec_order_id(),
                self.spec_api_key(),
                spec_op_base_url(OperationId::GetProxy),
                args.spec_pairs(),
            ),
    {
        let pairs = args.encode();
        self.request_url(OperationId::GetProxy, &pairs)
    }

    /// Turn the transport outcome of a `get_proxy` call into its typed result:
    /// the decoded value on a zero code, the classified API error on any
    /// other code, a deserialization failure for a body outside the wire
    /// shapes, and a network error for a transport failure (decoded not at
    /// all).
    pub fn get_proxy_result(&self, outcome: TransportOutcome) -> (r: KdlResult<GetProxyRets>)
        ensures
            (outcome matches TransportOutcome::Failure(m) ==> r == Err::<GetProxyRets, KdlError>(
                KdlError::NetworkError { message: m },
            )),
            (outcome matches TransportOutcome::Body(b) ==> {
                &&& (r matches Ok(x) ==> (spec_envelope_success(b@) matches Some(data)
                    && spec_get_proxy_ok(data, x)))
                &&& (r matches Err(e) ==> (spec_pipeline_err(b@, OperationId::GetProxy, e) || (
                spec_envelope_success(b@) matches Some(data) && !spec_get_proxy_decodes(data) && (e
                    matches KdlError::DeserializeError { .. }))))
            }),
    {
        match response_data(OperationId::GetProxy, outcome) {
            Err(e) => Err(e),
            Ok(data) => decode_get_proxy_data(&data),
        }
    }
}

} // verus!
