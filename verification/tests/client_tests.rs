use kuaidaili::json::parse_json;
use kuaidaili::rets::decode_get_order_expire_time_typed;
use kuaidaili::Amount;
use kuaidaili::ApiError;
use kuaidaili::Auth;
use kuaidaili::Client;
use kuaidaili::GeneralError;
use kuaidaili::GetAccountBalanceRets;
use kuaidaili::GetDpsArgsBuilder;
use kuaidaili::GetDpsRets;
use kuaidaili::GetIpBalanceRets;
use kuaidaili::GetTpsArgsBuilder;
use kuaidaili::KdlError;
use kuaidaili::OpsOrderLevel;
use kuaidaili::TransportOutcome;

fn client() -> Client {
    Client::new(Auth::new("o123", "k456"))
}

#[test]
fn auth_hands_back_its_credentials() {
    let auth = Auth::new("order", "key");
    assert_eq!(auth.get_order_id(), "order");
    assert_eq!(auth.get_api_key(), "key");
}

#[test]
fn urls_carry_the_endpoint_credentials_and_encoded_arguments() {
    let c = client();
    assert_eq!(
        c.get_account_balance_url(),
        "https://dev.kdlapi.com/api/getaccountbalance?orderid=o123&signature=k456&"
    );
    assert_eq!(
        c.tps_current_ip_url(),
        "https://tps.kdlapi.com/api/tpscurrentip?orderid=o123&signature=k456&"
    );
    assert_eq!(
        c.get_ua_url(&kuaidaili::GetUAArgsBuilder::new().build().unwrap()),
        "https://www.kuaidaili.com/api/getua?orderid=o123&signature=k456&num=1&dt=all&platform=all&browser=all"
    );
    let dps = GetDpsArgsBuilder::new().num(2).build().unwrap();
    assert_eq!(
        c.get_dps_url(&dps),
        "https://dps.kdlapi.com/api/getdps?orderid=o123&signature=k456&num=2&st=0&f_loc=0&f_citycode=0&f_et=0&dedup=0&format=json&sep=%0A"
    );
    let tps = GetTpsArgsBuilder::new().build().unwrap();
    assert_eq!(
        c.get_tps_url(&tps),
        "https://tps.kdlapi.com/api/gettps?orderid=o123&signature=k456&num=1&pt=1&format=json&sep=%0A"
    );
}

#[test]
fn open_proxy_urls_vary_with_the_order_level() {
    let c = client();
    let args = kuaidaili::GetProxyArgsBuilder::new().num(1).build().unwrap();
    assert!(c.get_proxy_url_for_level(OpsOrderLevel::Normal, &args).starts_with(
        "https://dev.kdlapi.com/api/getproxy?"
    ));
    assert!(c.get_proxy_url_for_level(OpsOrderLevel::Svip, &args).starts_with(
        "https://svip.kdlapi.com/api/getproxy?"
    ));
    assert!(c.get_proxy_url_for_level(OpsOrderLevel::Pro, &args).starts_with(
        "https://ent.kdlapi.com/api/getproxy?"
    ));
}

#[test]
fn a_success_envelope_with_a_balance_decodes_to_the_amount() {
    let c = client();
    let body = "{\"code\":0,\"msg\":\"success\",\"data\":{\"balance\":\"12.50\"}}";
    let r = c.get_account_balance_result(TransportOutcome::Body(body.to_string()));
    assert_eq!(r, Ok(GetAccountBalanceRets { balance: Amount { cents: 1250 } }));
}

#[test]
fn a_wrong_signature_envelope_classifies_to_the_global_variant() {
    let c = client();
    let body = "{\"code\":-104,\"msg\":\"签名错误\",\"data\":null}";
    let r = c.get_account_balance_result(TransportOutcome::Body(body.to_string()));
    assert_eq!(
        r,
        Err(KdlError::Api(ApiError::Global(GeneralError::WrongSignature {
            msg: "签名错误".to_string()
        })))
    );
}

#[test]
fn a_transport_failure_surfaces_without_any_decoding() {
    let c = client();
    let r = c.get_dps_result(TransportOutcome::Failure("connection refused".to_string()));
    assert_eq!(
        r,
        Err(KdlError::NetworkError { message: "connection refused".to_string() })
    );
    let r = c.get_ua_result(TransportOutcome::Failure("dns failure".to_string()));
    assert_eq!(
        r,
        Err(KdlError::NetworkError { message: "dns failure".to_string() })
    );
}

#[test]
fn a_missing_required_argument_fails_before_any_request_exists() {
    let built = GetDpsArgsBuilder::new().build();
    match built {
        Err(KdlError::BuilderError { field }) => assert_eq!(field, "num"),
        Ok(_) => panic!("building without the required field must fail"),
        Err(other) => panic!("unexpected error {:?}", other),
    }
    // With the build failed there is no argument record, so no URL can be
    // formed and no call issued: the failure precedes the network by type.
}

#[test]
fn dps_responses_decode_their_typed_fields() {
    let c = client();
    let body = "{\"code\":0,\"msg\":\"ok\",\"data\":{\"count\":2,\"dedup_count\":2,\
        \"order_left_count\":98,\"today_left_count\":50,\
        \"proxy_list\":[\"1.2.3.4:80\",\"5.6.7.8:8080\"]}}";
    let r = c.get_dps_result(TransportOutcome::Body(body.to_string()));
    assert_eq!(
        r,
        Ok(GetDpsRets {
            count: 2,
            dedup_count: 2,
            order_left_count: 98,
            today_left_count: 50,
            proxy_list: vec!["1.2.3.4:80".to_string(), "5.6.7.8:8080".to_string()],
        })
    );
}

#[test]
fn a_success_envelope_with_the_wrong_data_shape_is_a_deserialization_failure() {
    let c = client();
    let body = "{\"code\":0,\"msg\":\"ok\",\"data\":{\"count\":\"two\"}}";
    match c.get_dps_result(TransportOutcome::Body(body.to_string())) {
        Err(KdlError::DeserializeError { .. }) => {}
        other => panic!("got {:?}", other),
    }
    let body = "{\"code\":0,\"msg\":\"ok\",\"data\":{\"balance\":\"12.5.0\"}}";
    match c.get_account_balance_result(TransportOutcome::Body(body.to_string())) {
        Err(KdlError::DeserializeError { .. }) => {}
        other => panic!("got {:?}", other),
    }
}

#[test]
fn map_valued_responses_keep_wire_order() {
    let c = client();
    let body = "{\"code\":0,\"msg\":\"ok\",\"data\":{\"1.2.3.4:80\":true,\"5.6.7.8:80\":false}}";
    let r = c.check_dps_valid_result(TransportOutcome::Body(body.to_string()));
    assert_eq!(
        r,
        Ok(vec![
            ("1.2.3.4:80".to_string(), true),
            ("5.6.7.8:80".to_string(), false),
        ])
    );
    let body = "{\"code\":0,\"msg\":\"ok\",\"data\":{\"1.2.3.4:80\":300}}";
    let r = c.get_dps_valid_time_result(TransportOutcome::Body(body.to_string()));
    assert_eq!(r, Ok(vec![("1.2.3.4:80".to_string(), 300u32)]));
}

#[test]
fn remaining_responses_decode_their_fields() {
    let c = client();
    let r = c.get_ip_balance_result(TransportOutcome::Body(
        "{\"code\":0,\"msg\":\"ok\",\"data\":{\"balance\":97}}".to_string(),
    ));
    assert_eq!(r, Ok(GetIpBalanceRets { balance: 97 }));
    let r = c.tps_current_ip_result(TransportOutcome::Body(
        "{\"code\":0,\"msg\":\"ok\",\"data\":{\"current_ip\":\"9.9.9.9\"}}".to_string(),
    ));
    assert_eq!(r.unwrap().current_ip, "9.9.9.9");
    let r = c.set_ip_whitelist_result(TransportOutcome::Body(
        "{\"code\":0,\"msg\":\"ok\",\"data\":\"success\"}".to_string(),
    ));
    assert_eq!(r, Ok("success".to_string()));
    let r = c.get_order_expire_time_result(TransportOutcome::Body(
        "{\"code\":0,\"msg\":\"ok\",\"data\":{\"expire_time\":\"2021-12-31 23:59:59\"}}".to_string(),
    ));
    assert_eq!(r.unwrap().expire_time, "2021-12-31 23:59:59");
    let r = c.get_area_code_result(TransportOutcome::Body(
        "{\"code\":0,\"msg\":\"ok\",\"data\":{\"are_anme\":\"beijing\",\"are_code\":\"11\"}}"
            .to_string(),
    ));
    let rets = r.unwrap();
    assert_eq!(rets.area_name, "beijing");
    assert_eq!(rets.area_code, "11");
    let r = c.get_proxy_authorization_result(TransportOutcome::Body(
        "{\"code\":0,\"msg\":\"ok\",\"data\":{\"type\":\"basic\",\"credentials\":\"c\",\
         \"username\":\"u\",\"password\":\"p\"}}"
            .to_string(),
    ));
    let rets = r.unwrap();
    assert_eq!(rets.auth_type, "basic");
    assert_eq!(rets.username, "u");
}

#[test]
fn typed_expire_time_parses_the_wire_date() {
    let data = parse_json("{\"expire_time\":\"2021-12-31 23:59:59\"}").unwrap();
    let typed = decode_get_order_expire_time_typed(&data).unwrap();
    assert_eq!(typed.expire_time.year, 2021);
    assert_eq!(typed.expire_time.month, 12);
    assert_eq!(typed.expire_time.second, 59);
    let bad = parse_json("{\"expire_time\":\"2021-13-31 23:59:59\"}").unwrap();
    assert!(decode_get_order_expire_time_typed(&bad).is_err());
}
