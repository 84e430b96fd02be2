use kuaidaili::args::ProxyCarrier;
use kuaidaili::datetime::format_datetime;
use kuaidaili::datetime::parse_datetime;
use kuaidaili::query::percent_encode;
use kuaidaili::query::query_string;
use kuaidaili::rets::parse_amount;
use kuaidaili::rets::Amount;
use kuaidaili::strutil::u64_to_dec;
use kuaidaili::GetDpsArgs;
use kuaidaili::GetDpsArgsBuilder;
use kuaidaili::GetTpsArgsBuilder;
use kuaidaili::GetUAArgsBuilder;
use kuaidaili::KdlDateTime;
use kuaidaili::KdlError;
use kuaidaili::ProxyType;
use kuaidaili::TpsCurrentIpArgs;
use kuaidaili::UABrowser;
use kuaidaili::UADeviceType;
use kuaidaili::UAPlatform;

#[test]
fn no_argument_records_encode_to_the_empty_pair_set() {
    assert_eq!(TpsCurrentIpArgs.encode(), Vec::<(String, String)>::new());
    assert_eq!(kuaidaili::GetAccountBalanceArgs.encode(), Vec::<(String, String)>::new());
    assert_eq!(kuaidaili::GetOrderExpireTimeArgs.encode(), Vec::<(String, String)>::new());
    assert_eq!(kuaidaili::GetIpWhitelistArgs.encode(), Vec::<(String, String)>::new());
    assert_eq!(kuaidaili::GetIpBalanceArgs.encode(), Vec::<(String, String)>::new());
    assert_eq!(kuaidaili::ChangeTpsIpArgs.encode(), Vec::<(String, String)>::new());
}

#[test]
fn default_built_tps_args_encode_exactly_the_defaults() {
    let args = GetTpsArgsBuilder::new().build().unwrap();
    let expected: Vec<(String, String)> = vec![
        ("num".to_string(), "1".to_string()),
        ("pt".to_string(), "1".to_string()),
        ("format".to_string(), "json".to_string()),
        ("sep".to_string(), "\n".to_string()),
    ];
    assert_eq!(args.encode(), expected);
}

#[test]
fn booleans_encode_as_one_and_zero() {
    let args = GetDpsArgsBuilder::new()
        .num(2)
        .st(true)
        .f_loc(false)
        .build()
        .unwrap();
    let pairs = args.encode();
    let st = pairs.iter().find(|(k, _)| k == "st").unwrap();
    let f_loc = pairs.iter().find(|(k, _)| k == "f_loc").unwrap();
    assert_eq!(st.1, "1");
    assert_eq!(f_loc.1, "0");
}

#[test]
fn dps_args_encode_in_declaration_order_with_absent_fields_omitted() {
    let args = GetDpsArgsBuilder::new().num(5).build().unwrap();
    let expected: Vec<(String, String)> = vec![
        ("num".to_string(), "5".to_string()),
        ("st".to_string(), "0".to_string()),
        ("f_loc".to_string(), "0".to_string()),
        ("f_citycode".to_string(), "0".to_string()),
        ("f_et".to_string(), "0".to_string()),
        ("dedup".to_string(), "0".to_string()),
        ("format".to_string(), "json".to_string()),
        ("sep".to_string(), "\n".to_string()),
    ];
    assert_eq!(args.encode(), expected);
}

#[test]
fn dps_args_encode_enums_as_numeric_codes_and_areas_comma_joined() {
    let args = GetDpsArgs {
        num: 1,
        area: Some(vec!["beijing".to_string(), "tianjin".to_string()]),
        area_ex: None,
        ipstart: None,
        ipstart_ex: None,
        pt: Some(ProxyType::Socks),
        st: false,
        f_loc: false,
        f_citycode: false,
        f_et: false,
        dedup: true,
        carrier: Some(ProxyCarrier::Telecom),
        format: "json".to_string(),
        sep: "\n".to_string(),
    };
    let pairs = args.encode();
    let area = pairs.iter().find(|(k, _)| k == "area").unwrap();
    assert_eq!(area.1, "beijing,tianjin");
    let pt = pairs.iter().find(|(k, _)| k == "pt").unwrap();
    assert_eq!(pt.1, "2");
    let carrier = pairs.iter().find(|(k, _)| k == "carrier").unwrap();
    assert_eq!(carrier.1, "2");
    let dedup = pairs.iter().find(|(k, _)| k == "dedup").unwrap();
    assert_eq!(dedup.1, "1");
    assert!(pairs.iter().find(|(k, _)| k == "area_ex").is_none());
    assert!(pairs.iter().find(|(k, _)| k == "ipstart").is_none());
}

#[test]
fn proxy_type_http_encodes_as_one() {
    let args = GetDpsArgsBuilder::new().num(1).pt(ProxyType::Http).build().unwrap();
    let pairs = args.encode();
    let pt = pairs.iter().find(|(k, _)| k == "pt").unwrap();
    assert_eq!(pt.1, "1");
}

#[test]
fn missing_required_field_fails_the_build_before_any_encoding() {
    let r = GetDpsArgsBuilder::new().st(true).build();
    match r {
        Err(KdlError::BuilderError { field }) => assert_eq!(field, "num"),
        other => panic!("expected a builder failure, got {:?}", other),
    }
    assert!(kuaidaili::GetKpsArgsBuilder::new().build().is_err());
    assert!(kuaidaili::GetProxyArgsBuilder::new().build().is_err());
    assert!(kuaidaili::SetIpWhitelistArgsBuilder::new().build().is_err());
    assert!(kuaidaili::GetAreaCodeArgsBuilder::new().build().is_err());
    assert!(kuaidaili::GetDpsValidTimeArgsBuilder::new().build().is_err());
    assert!(kuaidaili::CheckOpsValidArgsBuilder::new().build().is_err());
}

#[test]
fn ua_args_encode_lists_as_repeated_keys_with_lowercase_tags() {
    let args = GetUAArgsBuilder::new()
        .num(3)
        .dt(vec![UADeviceType::Pc, UADeviceType::Mobile, UADeviceType::Pad])
        .platform(vec![UAPlatform::Win, UAPlatform::Macos, UAPlatform::Android])
        .browser(vec![UABrowser::Chrome, UABrowser::Weixin])
        .build()
        .unwrap();
    let expected: Vec<(String, String)> = vec![
        ("num".to_string(), "3".to_string()),
        ("dt".to_string(), "pc".to_string()),
        ("dt".to_string(), "mobile".to_string()),
        ("dt".to_string(), "pad".to_string()),
        ("platform".to_string(), "win".to_string()),
        ("platform".to_string(), "macos".to_string()),
        ("platform".to_string(), "android".to_string()),
        ("browser".to_string(), "chrome".to_string()),
        ("browser".to_string(), "weixin".to_string()),
    ];
    assert_eq!(args.encode(), expected);
}

#[test]
fn ua_args_default_to_the_all_tags() {
    let args = GetUAArgsBuilder::new().build().unwrap();
    let expected: Vec<(String, String)> = vec![
        ("num".to_string(), "1".to_string()),
        ("dt".to_string(), "all".to_string()),
        ("platform".to_string(), "all".to_string()),
        ("browser".to_string(), "all".to_string()),
    ];
    assert_eq!(args.encode(), expected);
}

#[test]
fn decimal_formatting_is_exact() {
    assert_eq!(u64_to_dec(0), "0");
    assert_eq!(u64_to_dec(7), "7");
    assert_eq!(u64_to_dec(42), "42");
    assert_eq!(u64_to_dec(1000), "1000");
    assert_eq!(u64_to_dec(u64::MAX), "18446744073709551615");
}

#[test]
fn percent_encoding_is_exact() {
    assert_eq!(percent_encode("abcXYZ019-._~"), "abcXYZ019-._~");
    assert_eq!(percent_encode("\n"), "%0A");
    assert_eq!(percent_encode("a b&c=d"), "a%20b%26c%3Dd");
    assert_eq!(percent_encode("1.2.3.4:80"), "1.2.3.4%3A80");
    assert_eq!(percent_encode("北京"), "%E5%8C%97%E4%BA%AC");
}

#[test]
fn query_strings_join_encoded_pairs_with_ampersands() {
    let pairs = vec![
        ("num".to_string(), "1".to_string()),
        ("sep".to_string(), "\n".to_string()),
        ("area".to_string(), "beijing,tianjin".to_string()),
    ];
    assert_eq!(query_string(&pairs), "num=1&sep=%0A&area=beijing%2Ctianjin");
    assert_eq!(query_string(&Vec::new()), "");
}

#[test]
fn date_round_trip_reproduces_the_instant() {
    let dt = KdlDateTime { year: 2021, month: 6, day: 1, hour: 8, minute: 30, second: 0 };
    let text = format_datetime(&dt);
    assert_eq!(text, "2021-06-01 08:30:00");
    assert_eq!(parse_datetime(&text), Some(dt));
}

#[test]
fn date_parsing_validates_the_calendar() {
    assert!(parse_datetime("2021-06-01 08:30:00").is_some());
    assert!(parse_datetime("2020-02-29 00:00:00").is_some());
    assert!(parse_datetime("2021-02-29 00:00:00").is_none());
    assert!(parse_datetime("2000-02-29 23:59:59").is_some());
    assert!(parse_datetime("1900-02-29 00:00:00").is_none());
    assert!(parse_datetime("2021-13-01 00:00:00").is_none());
    assert!(parse_datetime("2021-00-01 00:00:00").is_none());
    assert!(parse_datetime("2021-04-31 00:00:00").is_none());
    assert!(parse_datetime("2021-06-01 24:00:00").is_none());
    assert!(parse_datetime("2021-06-01 08:60:00").is_none());
    assert!(parse_datetime("2021-06-01 08:30:60").is_none());
    assert!(parse_datetime("2021-06-01T08:30:00").is_none());
    assert!(parse_datetime("2021-6-1 08:30:00").is_none());
    assert!(parse_datetime("").is_none());
    assert!(parse_datetime("2021-06-01 08:30:00 ").is_none());
}

#[test]
fn amounts_parse_as_hundredths() {
    assert_eq!(parse_amount("12.50"), Some(Amount { cents: 1250 }));
    assert_eq!(parse_amount("12.5"), Some(Amount { cents: 1250 }));
    assert_eq!(parse_amount("12"), Some(Amount { cents: 1200 }));
    assert_eq!(parse_amount("0.07"), Some(Amount { cents: 7 }));
    assert_eq!(parse_amount("-3.07"), Some(Amount { cents: -307 }));
    assert_eq!(parse_amount("0"), Some(Amount { cents: 0 }));
    assert_eq!(parse_amount(""), None);
    assert_eq!(parse_amount("-"), None);
    assert_eq!(parse_amount("12."), None);
    assert_eq!(parse_amount("12.345"), None);
    assert_eq!(parse_amount("1e5"), None);
    assert_eq!(parse_amount("a12"), None);
    assert_eq!(parse_amount("92233720368547758.07"), Some(Amount { cents: i64::MAX }));
    assert_eq!(parse_amount("92233720368547758.08"), None);
}
