//! A typed client core for the kuaidaili proxy-rental HTTP API.
//!
//! The library covers the generic request/response pipeline shared by every
//! endpoint method: encoding typed argument records into query-string pairs,
//! building the signed request URL, decoding the universal `{code, msg, data}`
//! JSON envelope, and classifying non-success codes into a closed taxonomy of
//! typed errors. The network call itself is left to the embedding program;
//! the library turns its outcome (a response body, or a transport failure)
//! into a typed result.

pub mod args;
pub mod auth;
pub mod classify;
pub mod client;
pub mod datetime;
pub mod endpoint;
pub mod envelope;
pub mod json;
pub mod query;
pub mod rets;
pub mod strutil;

pub use args::ChangeTpsIpArgs;
pub use args::CheckDpsValidArgs;
pub use args::CheckOpsValidArgs;
pub use args::CheckOpsValidArgsBuilder;
pub use args::GetAccountBalanceArgs;
pub use args::GetAreaCodeArgs;
pub use args::GetAreaCodeArgsBuilder;
pub use args::GetDpsArgs;
pub use args::GetDpsArgsBuilder;
pub use args::GetDpsValidTimeArgs;
pub use args::GetDpsValidTimeArgsBuilder;
pub use args::GetIpBalanceArgs;
pub use args::GetIpWhitelistArgs;
pub use args::GetKpsArgs;
pub use args::GetKpsArgsBuilder;
pub use args::GetOrderExpireTimeArgs;
pub use args::GetProxyArgs;
pub use args::GetProxyArgsBuilder;
pub use args::GetProxyAuthorizationArgs;
pub use args::GetProxyAuthorizationArgsBuilder;
pub use args::GetTpsArgs;
pub use args::GetTpsArgsBuilder;
pub use args::GetUAArgs;
pub use args::GetUAArgsBuilder;
pub use args::ProxyCarrier;
pub use args::ProxyType;
pub use args::SetIpWhitelistArgs;
pub use args::SetIpWhitelistArgsBuilder;
pub use args::TpsCurrentIpArgs;
pub use args::UABrowser;
pub use args::UADeviceType;
pub use args::UAPlatform;
pub use auth::Auth;
pub use classify::ApiError;
pub use classify::GeneralError;
pub use classify::KdlError;
pub use classify::KdlResult;
pub use classify::OpError;
pub use client::Client;
pub use datetime::KdlDateTime;
pub use endpoint::Endpoint;
pub use endpoint::OperationId;
pub use endpoint::OpsOrderLevel;
pub use envelope::Envelope;
pub use envelope::TransportOutcome;
pub use json::JsonValue;
pub use rets::Amount;
pub use rets::ChangeTpsIpRets;
pub use rets::CheckDpsValidRets;
pub use rets::CheckOpsValidRets;
pub use rets::GetAccountBalanceData;
pub use rets::GetAccountBalanceRets;
pub use rets::GetAreaCodeRets;
pub use rets::GetDpsRets;
pub use rets::GetDpsValidTimeRets;
pub use rets::GetIpBalanceRets;
pub use rets::GetIpWhitelistRets;
pub use rets::GetKpsRets;
pub use rets::GetOrderExpireTimeData;
pub use rets::GetOrderExpireTimeRets;
pub use rets::GetProxyAuthorizationRets;
pub use rets::GetProxyRets;
pub use rets::GetTpsRets;
pub use rets::GetUARets;
pub use rets::SetIpWhitelistRets;
pub use rets::TpsCurrentIpRets;
