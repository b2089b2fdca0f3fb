use power_daemon::interface::codec::{
    assemble_envelope, decode, encode, request_of_value, DecodeError, Field,
};
use power_daemon::interface::model::ResponseData;

fn request_text(kind: &str) -> String {
    let quoted = serde_json::to_string(kind).unwrap();
    format!("{{\"source\":\"cli\",\"version\":1.0,\"request\":{{\"type\":{}}}}}", quoted)
}

fn response(status: &str, message: &str, code: i32) -> ResponseData {
    ResponseData { status: status.to_string(), message: message.to_string(), code }
}

#[test]
fn a_request_is_decoded() {
    let request =
        decode("{\"source\":\"cli\",\"version\":1.0,\"request\":{\"type\":\"pwr-status\"}}")
            .unwrap();
    assert_eq!(request.source, "cli");
    assert_eq!(request.version, "1.0");
    assert_eq!(request.request.kind, "pwr-status");
}

#[test]
fn decoding_gives_back_the_kind_that_was_written() {
    let kinds = [
        "pwr-off",
        "pwr-status",
        "",
        " ",
        "a b\tc",
        "quote\"and\\backslash",
        "line\nbreak",
        "Système opérationnel",
        "éteindre",
        "電源オフ",
        "🔌💤",
        "\u{0}\u{1f}",
        "{\"type\":\"nested\"}",
    ];
    for kind in kinds {
        let request = decode(&request_text(kind)).unwrap();
        assert_eq!(request.request.kind, kind);
    }
}

#[test]
fn members_may_come_in_any_order_and_with_others() {
    let text = " { \"extra\" : [1, 2, {\"type\": \"no\"}], \"request\" : { \"id\": 7, \"type\" : \"pwr-off\" },\n \"version\" : 2, \"source\" : \"gui\" } ";
    let request = decode(text).unwrap();
    assert_eq!(request.source, "gui");
    assert_eq!(request.version, "2");
    assert_eq!(request.request.kind, "pwr-off");
}

#[test]
fn the_version_is_kept_as_the_number_text() {
    let version_of = |number: &str| {
        let text =
            format!("{{\"source\":\"s\",\"version\":{},\"request\":{{\"type\":\"t\"}}}}", number);
        decode(&text).unwrap().version
    };
    assert_eq!(version_of("1.0"), "1.0");
    assert_eq!(version_of("1"), "1");
    assert_eq!(version_of("-3"), "-3");
    assert_eq!(version_of("1e2"), "100.0");
    assert_eq!(version_of("0.25"), "0.25");
}

#[test]
fn text_that_is_no_json_is_a_syntax_error() {
    assert_eq!(
        decode("not json at all"),
        Err(DecodeError::Syntax("expected ident at line 1 column 2".to_string()))
    );
    assert_eq!(
        decode("{\"source\":\"cli\",\"version\":1.0,\"request\":{\"type\":\"pwr-sta"),
        Err(DecodeError::Syntax("EOF while parsing a string at line 1 column 56".to_string()))
    );
    assert_eq!(
        decode("{\"source\":\"cli\""),
        Err(DecodeError::Syntax("EOF while parsing an object at line 1 column 15".to_string()))
    );
    assert_eq!(
        decode(""),
        Err(DecodeError::Syntax("EOF while parsing a value at line 1 column 0".to_string()))
    );
    assert_eq!(
        decode("{} {}"),
        Err(DecodeError::Syntax("trailing characters at line 1 column 4".to_string()))
    );
}

#[test]
fn a_document_that_is_no_object_is_rejected() {
    for text in ["[\"cli\", 1.0, [\"pwr-off\"]]", "\"pwr-off\"", "12", "null", "true"] {
        assert_eq!(decode(text), Err(DecodeError::NotAnObject));
    }
}

#[test]
fn missing_members_are_named() {
    assert_eq!(decode("{}"), Err(DecodeError::MissingField(Field::Source)));
    assert_eq!(
        decode("{\"version\":1.0,\"request\":{\"type\":\"pwr-off\"}}"),
        Err(DecodeError::MissingField(Field::Source))
    );
    assert_eq!(
        decode("{\"source\":\"cli\",\"request\":{\"type\":\"pwr-off\"}}"),
        Err(DecodeError::MissingField(Field::Version))
    );
    assert_eq!(
        decode("{\"source\":\"cli\",\"version\":1.0}"),
        Err(DecodeError::MissingField(Field::Request))
    );
    assert_eq!(
        decode("{\"source\":\"cli\",\"version\":1.0,\"request\":{}}"),
        Err(DecodeError::MissingField(Field::Kind))
    );
    assert_eq!(
        decode("{\"source\":\"cli\",\"version\":1.0,\"request\":{\"Type\":\"pwr-off\"},\"type\":\"pwr-off\"}"),
        Err(DecodeError::MissingField(Field::Kind))
    );
}

#[test]
fn members_of_the_wrong_type_are_named() {
    assert_eq!(
        decode("{\"source\":7,\"version\":1.0,\"request\":{\"type\":\"pwr-off\"}}"),
        Err(DecodeError::InvalidType(Field::Source))
    );
    assert_eq!(
        decode("{\"source\":\"cli\",\"version\":\"1.0\",\"request\":{\"type\":\"pwr-off\"}}"),
        Err(DecodeError::InvalidType(Field::Version))
    );
    assert_eq!(
        decode("{\"source\":\"cli\",\"version\":null,\"request\":{\"type\":\"pwr-off\"}}"),
        Err(DecodeError::InvalidType(Field::Version))
    );
    assert_eq!(
        decode("{\"source\":\"cli\",\"version\":1.0,\"request\":\"pwr-off\"}"),
        Err(DecodeError::InvalidType(Field::Request))
    );
    assert_eq!(
        decode("{\"source\":\"cli\",\"version\":1.0,\"request\":[\"pwr-off\"]}"),
        Err(DecodeError::InvalidType(Field::Request))
    );
    assert_eq!(
        decode("{\"source\":\"cli\",\"version\":1.0,\"request\":{\"type\":1}}"),
        Err(DecodeError::InvalidType(Field::Kind))
    );
}

#[test]
fn the_first_fault_is_the_one_reported() {
    assert_eq!(
        decode("{\"source\":1,\"version\":\"x\",\"request\":3}"),
        Err(DecodeError::InvalidType(Field::Source))
    );
    assert_eq!(
        decode("{\"source\":\"s\",\"version\":\"x\"}"),
        Err(DecodeError::InvalidType(Field::Version))
    );
}

#[test]
fn diagnostics_have_their_texts() {
    assert_eq!(DecodeError::Syntax("expected value".to_string()).diagnostic(), "expected value");
    assert_eq!(DecodeError::NotAnObject.diagnostic(), "invalid type: expected a request object");
    assert_eq!(DecodeError::MissingField(Field::Source).diagnostic(), "missing field `source`");
    assert_eq!(DecodeError::MissingField(Field::Version).diagnostic(), "missing field `version`");
    assert_eq!(DecodeError::MissingField(Field::Request).diagnostic(), "missing field `request`");
    assert_eq!(DecodeError::MissingField(Field::Kind).diagnostic(), "missing field `type`");
    assert_eq!(
        DecodeError::InvalidType(Field::Kind).diagnostic(),
        "invalid type for field `type`"
    );
    assert_eq!(
        DecodeError::InvalidType(Field::Version).diagnostic(),
        "invalid type for field `version`"
    );
    assert_eq!(Field::Request.key(), "request");
}

#[test]
fn a_parsed_value_is_read_as_a_request() {
    let value: serde_json::Value = serde_json::from_str(
        "{\"source\":\"cli\",\"version\":3.5,\"request\":{\"type\":\"pwr-restart\"}}",
    )
    .unwrap();
    let request = request_of_value(&value).unwrap();
    assert_eq!(request.source, "cli");
    assert_eq!(request.version, "3.5");
    assert_eq!(request.request.kind, "pwr-restart");

    let mut inner = serde_json::Map::new();
    inner.insert("type".to_string(), serde_json::Value::from("pwr-off"));
    let mut outer = serde_json::Map::new();
    outer.insert("source".to_string(), serde_json::Value::from("built"));
    outer.insert("version".to_string(), serde_json::Value::from(4));
    outer.insert("request".to_string(), serde_json::Value::Object(inner));
    let request = request_of_value(&serde_json::Value::Object(outer)).unwrap();
    assert_eq!(request.source, "built");
    assert_eq!(request.version, "4");
    assert_eq!(request.request.kind, "pwr-off");

    assert_eq!(request_of_value(&serde_json::Value::Null), Err(DecodeError::NotAnObject));
    assert_eq!(
        request_of_value(&serde_json::Value::Object(serde_json::Map::new())),
        Err(DecodeError::MissingField(Field::Source))
    );
}

#[test]
fn a_response_is_encoded_in_field_order() {
    assert_eq!(
        encode(&response("success", "Système opérationnel", 200)).unwrap(),
        "{\"status\":\"success\",\"message\":\"Système opérationnel\",\"code\":200}"
    );
    assert_eq!(
        encode(&response("error", "unknown command: nope", 400)).unwrap(),
        "{\"status\":\"error\",\"message\":\"unknown command: nope\",\"code\":400}"
    );
}

#[test]
fn strings_are_escaped_as_json() {
    assert_eq!(
        encode(&response("error", "a \"quoted\" \\ line\nnext\ttab \u{1} é 💤", 500)).unwrap(),
        "{\"status\":\"error\",\"message\":\"a \\\"quoted\\\" \\\\ line\\nnext\\ttab \\u0001 é 💤\",\"code\":500}"
    );
    assert_eq!(
        encode(&response("odd\"status", "", 0)).unwrap(),
        "{\"status\":\"odd\\\"status\",\"message\":\"\",\"code\":0}"
    );
}

#[test]
fn codes_are_written_in_decimal() {
    let code_text = |code: i32| {
        let text = encode(&response("s", "m", code)).unwrap();
        text["{\"status\":\"s\",\"message\":\"m\",\"code\":".len()..text.len() - 1].to_string()
    };
    assert_eq!(code_text(0), "0");
    assert_eq!(code_text(7), "7");
    assert_eq!(code_text(10), "10");
    assert_eq!(code_text(200), "200");
    assert_eq!(code_text(-1), "-1");
    assert_eq!(code_text(-400), "-400");
    assert_eq!(code_text(i32::MAX), "2147483647");
    assert_eq!(code_text(i32::MIN), "-2147483648");
}

#[test]
fn an_encoded_response_reads_back_with_serde_json() {
    let sent = response("error", "Format JSON invalide: \"x\" \\ \n", 400);
    let text = encode(&sent).unwrap();
    let value: serde_json::Value = serde_json::from_str(&text).unwrap();
    assert_eq!(value.get("status").and_then(|v| v.as_str()), Some("error"));
    assert_eq!(value.get("message").and_then(|v| v.as_str()), Some(sent.message.as_str()));
    assert_eq!(value.get("code").and_then(|v| v.as_i64()), Some(400));
    assert_eq!(value.as_object().map(|members| members.len()), Some(3));
}

#[test]
fn an_envelope_is_put_together_from_literals() {
    assert_eq!(
        assemble_envelope("\"success\"", "\"ok\"", 200),
        "{\"status\":\"success\",\"message\":\"ok\",\"code\":200}"
    );
    assert_eq!(assemble_envelope("", "", -5), "{\"status\":,\"message\":,\"code\":-5}");
}

#[test]
fn responses_are_built_with_their_codes() {
    let ok = ResponseData::success("fait".to_string());
    assert_eq!((ok.status.as_str(), ok.message.as_str(), ok.code), ("success", "fait", 200));
    let failed = ResponseData::action_failed("raté".to_string());
    assert_eq!((failed.status.as_str(), failed.message.as_str(), failed.code), ("error", "raté", 500));
    let bad = ResponseData::bad_request("quoi".to_string());
    assert_eq!((bad.status.as_str(), bad.message.as_str(), bad.code), ("error", "quoi", 400));
}
