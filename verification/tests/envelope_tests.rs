use kuaidaili::envelope::decode_envelope;
use kuaidaili::envelope::decode_response;
use kuaidaili::json::parse_json;
use kuaidaili::ApiError;
use kuaidaili::GeneralError;
use kuaidaili::JsonValue;
use kuaidaili::KdlError;
use kuaidaili::OperationId;

fn s(text: &str) -> JsonValue {
    JsonValue::Str(text.to_string())
}

#[test]
fn json_scalars_parse() {
    assert_eq!(parse_json("null"), Some(JsonValue::Null));
    assert_eq!(parse_json("true"), Some(JsonValue::Bool(true)));
    assert_eq!(parse_json("false"), Some(JsonValue::Bool(false)));
    assert_eq!(parse_json("0"), Some(JsonValue::Int(0)));
    assert_eq!(parse_json("-104"), Some(JsonValue::Int(-104)));
    assert_eq!(parse_json("9223372036854775807"), Some(JsonValue::Int(i64::MAX)));
    assert_eq!(parse_json("\"hi\""), Some(s("hi")));
    assert_eq!(parse_json("  null  "), Some(JsonValue::Null));
}

#[test]
fn json_rejects_what_is_outside_the_wire_grammar() {
    assert_eq!(parse_json(""), None);
    assert_eq!(parse_json("nul"), None);
    assert_eq!(parse_json("12.5"), None);
    assert_eq!(parse_json("1e9"), None);
    assert_eq!(parse_json("9223372036854775808"), None);
    assert_eq!(parse_json("\"unterminated"), None);
    assert_eq!(parse_json("\"bad \\u0041 escape\""), None);
    assert_eq!(parse_json("[1,]"), None);
    assert_eq!(parse_json("{\"a\":}"), None);
    assert_eq!(parse_json("{\"a\" 1}"), None);
    assert_eq!(parse_json("null garbage"), None);
    assert_eq!(parse_json("-"), None);
}

#[test]
fn json_integer_bounds_are_the_signed_sixty_four_bit_range() {
    assert_eq!(
        parse_json("-9223372036854775807"),
        Some(JsonValue::Int(-9223372036854775807))
    );
    assert_eq!(parse_json("-9223372036854775808"), None);
}

#[test]
fn json_nesting_parses() {
    assert_eq!(
        parse_json("[[[[1]]]]"),
        Some(JsonValue::Arr(vec![JsonValue::Arr(vec![JsonValue::Arr(vec![JsonValue::Arr(
            vec![JsonValue::Int(1)]
        )])])]))
    );
}

#[test]
fn json_strings_handle_escapes_and_unicode() {
    assert_eq!(parse_json("\"a\\\"b\""), Some(s("a\"b")));
    assert_eq!(parse_json("\"a\\\\b\\/c\""), Some(s("a\\b/c")));
    assert_eq!(parse_json("\"line\\nbreak\\ttab\""), Some(s("line\nbreak\ttab")));
    assert_eq!(parse_json("\"签名错误\""), Some(s("签名错误")));
}

#[test]
fn json_composites_parse_with_whitespace() {
    assert_eq!(
        parse_json(" [ 1 , \"two\" , null ] "),
        Some(JsonValue::Arr(vec![JsonValue::Int(1), s("two"), JsonValue::Null]))
    );
    assert_eq!(parse_json("[]"), Some(JsonValue::Arr(Vec::new())));
    assert_eq!(parse_json("{}"), Some(JsonValue::Obj(Vec::new())));
    assert_eq!(
        parse_json("{\"a\": [true], \"b\": {\"c\": 2}}"),
        Some(JsonValue::Obj(vec![
            ("a".to_string(), JsonValue::Arr(vec![JsonValue::Bool(true)])),
            (
                "b".to_string(),
                JsonValue::Obj(vec![("c".to_string(), JsonValue::Int(2))])
            ),
        ]))
    );
}

#[test]
fn envelopes_decode_with_fields_in_any_order() {
    let env = decode_envelope("{\"msg\":\"ok\",\"data\":null,\"code\":0}").unwrap();
    assert_eq!(env.code, 0);
    assert_eq!(env.msg, "ok");
    assert_eq!(env.data, JsonValue::Null);
}

#[test]
fn the_first_member_wins_among_equal_keys() {
    let env = decode_envelope(
        "{\"code\":0,\"code\":7,\"msg\":\"first\",\"msg\":\"second\",\"data\":1}",
    )
    .unwrap();
    assert_eq!(env.code, 0);
    assert_eq!(env.msg, "first");
}

#[test]
fn a_missing_or_mistyped_envelope_field_is_a_deserialization_failure() {
    let bodies = [
        "{\"code\":0,\"msg\":\"ok\"}",
        "{\"msg\":\"ok\",\"data\":null}",
        "{\"code\":\"0\",\"msg\":\"ok\",\"data\":null}",
        "{\"code\":0,\"msg\":7,\"data\":null}",
        "[1,2]",
        "not json at all",
        "",
    ];
    for body in bodies {
        match decode_envelope(body) {
            Err(KdlError::DeserializeError { .. }) => {}
            other => panic!("body {:?} gave {:?}", body, other),
        }
    }
}

#[test]
fn a_zero_code_hands_out_the_data_value() {
    let r = decode_response("{\"code\":0,\"msg\":\"success\",\"data\":[\"a\",\"b\"]}", OperationId::GetDps);
    assert_eq!(r, Ok(JsonValue::Arr(vec![s("a"), s("b")])));
}

#[test]
fn a_nonzero_code_classifies_under_the_calling_operation() {
    let r = decode_response("{\"code\":2,\"msg\":\"m\",\"data\":null}", OperationId::GetDps);
    match r {
        Err(KdlError::Api(ApiError::Scoped { op, .. })) => assert_eq!(op, OperationId::GetDps),
        other => panic!("got {:?}", other),
    }
    let r = decode_response("{\"code\":2,\"msg\":\"m\",\"data\":null}", OperationId::GetUa);
    match r {
        Err(KdlError::Api(ApiError::Unrecognized { code, msg })) => {
            assert_eq!(code, 2);
            assert_eq!(msg, "m");
        }
        other => panic!("got {:?}", other),
    }
}

#[test]
fn wrong_signature_envelope_classifies_globally_with_the_message_kept() {
    let body = "{\"code\":-104,\"msg\":\"签名错误\",\"data\":null}";
    let r = decode_response(body, OperationId::GetAccountBalance);
    assert_eq!(
        r,
        Err(KdlError::Api(ApiError::Global(GeneralError::WrongSignature {
            msg: "签名错误".to_string()
        })))
    );
}
