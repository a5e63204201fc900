use sidero::json::Json;
use sidero::protocol::JsonRpcError;
use sidero::protocol::JsonRpcErrorResponse;
use sidero::protocol::JsonRpcMessage;
use sidero::protocol::JsonRpcNotification;
use sidero::protocol::JsonRpcRequest;
use sidero::protocol::JsonRpcResponse;
use sidero::protocol::RequestId;
use sidero::protocol::INTERNAL_ERROR;
use sidero::protocol::INVALID_PARAMS;
use sidero::protocol::NOT_FOUND;
use sidero::protocol::PARSE_ERROR;

fn text(s: &str) -> Json {
    Json::String(s.to_string())
}

fn object(entries: Vec<(&str, Json)>) -> Json {
    Json::Object(entries.into_iter().map(|(k, v)| (k.to_string(), v)).collect())
}

fn request(id: RequestId, method: &str, params: Option<Json>) -> JsonRpcMessage {
    JsonRpcMessage::Request(JsonRpcRequest {
        jsonrpc: "2.0".to_string(),
        id,
        method: method.to_string(),
        params,
    })
}

fn response(id: RequestId, result: Json) -> JsonRpcMessage {
    JsonRpcMessage::Response(JsonRpcResponse { jsonrpc: "2.0".to_string(), id, result })
}

fn error_response(id: Option<RequestId>, code: i32, message: &str, data: Option<Json>) -> JsonRpcMessage {
    JsonRpcMessage::Error(JsonRpcErrorResponse {
        jsonrpc: "2.0".to_string(),
        id,
        error: JsonRpcError { code, message: message.to_string(), data },
    })
}

#[test]
fn reserved_codes_have_their_wire_values() {
    assert_eq!(PARSE_ERROR, -32700);
    assert_eq!(NOT_FOUND, -32601);
    assert_eq!(INVALID_PARAMS, -32602);
    assert_eq!(INTERNAL_ERROR, -32603);
}

#[test]
fn a_line_with_method_and_id_is_a_request() {
    assert_eq!(
        JsonRpcMessage::from_text(r#"{"jsonrpc":"2.0","id":1,"method":"tools/list"}"#),
        Some(request(RequestId::Number(1), "tools/list", None))
    );
    assert_eq!(
        JsonRpcMessage::from_text(
            r#"{"jsonrpc":"2.0","id":"abc","method":"tools/call","params":{"name":"get_version"}}"#
        ),
        Some(request(
            RequestId::String("abc".to_string()),
            "tools/call",
            Some(object(vec![("name", text("get_version"))]))
        ))
    );
}

#[test]
fn the_variant_of_an_identifier_is_kept() {
    let number = JsonRpcMessage::from_text(r#"{"jsonrpc":"2.0","id":7,"method":"m"}"#);
    let string = JsonRpcMessage::from_text(r#"{"jsonrpc":"2.0","id":"7","method":"m"}"#);
    assert_eq!(number, Some(request(RequestId::Number(7), "m", None)));
    assert_eq!(string, Some(request(RequestId::String("7".to_string()), "m", None)));
    assert_ne!(number, string);
    assert!(!RequestId::Number(7).same_as(&RequestId::String("7".to_string())));
    assert!(RequestId::Number(7).same_as(&RequestId::Number(7)));
    assert!(RequestId::String("7".to_string()).same_as(&RequestId::String("7".to_string())));
    assert!(!RequestId::String("7".to_string()).same_as(&RequestId::String("8".to_string())));
    assert!(!RequestId::Number(7).same_as(&RequestId::Number(8)));
}

#[test]
fn identifiers_at_the_limits_of_64_bits() {
    assert_eq!(
        JsonRpcMessage::from_text(r#"{"jsonrpc":"2.0","id":-9223372036854775808,"method":"m"}"#),
        Some(request(RequestId::Number(i64::MIN), "m", None))
    );
    assert_eq!(
        JsonRpcMessage::from_text(r#"{"jsonrpc":"2.0","id":9223372036854775807,"method":"m"}"#),
        Some(request(RequestId::Number(i64::MAX), "m", None))
    );
    // One beyond: no identifier, so the line is a notification.
    assert_eq!(
        JsonRpcMessage::from_text(r#"{"jsonrpc":"2.0","id":9223372036854775808,"method":"m"}"#),
        Some(JsonRpcMessage::Notification(JsonRpcNotification {
            jsonrpc: "2.0".to_string(),
            method: "m".to_string(),
            params: None,
        }))
    );
}

#[test]
fn a_line_with_method_and_no_identifier_is_a_notification() {
    let expected = Some(JsonRpcMessage::Notification(JsonRpcNotification {
        jsonrpc: "2.0".to_string(),
        method: "notifications/initialized".to_string(),
        params: None,
    }));
    assert_eq!(
        JsonRpcMessage::from_text(r#"{"jsonrpc":"2.0","method":"notifications/initialized"}"#),
        expected
    );
    assert_eq!(
        JsonRpcMessage::from_text(r#"{"jsonrpc":"2.0","id":null,"method":"notifications/initialized"}"#),
        expected
    );
    assert_eq!(
        JsonRpcMessage::from_text(r#"{"jsonrpc":"2.0","id":1.5,"method":"notifications/initialized"}"#),
        expected
    );
    assert_eq!(
        JsonRpcMessage::from_text(
            r#"{"jsonrpc":"2.0","id":true,"method":"notifications/initialized","params":null}"#
        ),
        expected
    );
}

#[test]
fn a_line_with_identifier_and_result_is_a_response() {
    assert_eq!(
        JsonRpcMessage::from_text(r#"{"jsonrpc":"2.0","id":3,"result":null}"#),
        Some(response(RequestId::Number(3), Json::Null))
    );
    assert_eq!(
        JsonRpcMessage::from_text(r#"{"jsonrpc":"2.0","id":"x","result":[1,"a",false]}"#),
        Some(response(
            RequestId::String("x".to_string()),
            Json::Array(vec![Json::Integer(1), text("a"), Json::Bool(false)])
        ))
    );
}

#[test]
fn a_line_with_error_is_an_error_response() {
    assert_eq!(
        JsonRpcMessage::from_text(r#"{"jsonrpc":"2.0","id":3,"error":{"code":-32601,"message":"no"}}"#),
        Some(error_response(Some(RequestId::Number(3)), -32601, "no", None))
    );
    assert_eq!(
        JsonRpcMessage::from_text(r#"{"jsonrpc":"2.0","id":null,"error":{"code":-32700,"message":"Parse error"}}"#),
        Some(error_response(None, -32700, "Parse error", None))
    );
    assert_eq!(
        JsonRpcMessage::from_text(r#"{"jsonrpc":"2.0","error":{"code":1,"message":"m","data":{"k":[]}}}"#),
        Some(error_response(None, 1, "m", Some(object(vec![("k", Json::Array(vec![]))]))))
    );
    assert_eq!(
        JsonRpcMessage::from_text(r#"{"jsonrpc":"2.0","error":{"code":1,"message":"m","data":null}}"#),
        Some(error_response(None, 1, "m", None))
    );
}

#[test]
fn the_shapes_are_tried_in_a_fixed_order() {
    // A request wins over a response.
    assert_eq!(
        JsonRpcMessage::from_text(r#"{"jsonrpc":"2.0","id":1,"method":"m","result":1}"#),
        Some(request(RequestId::Number(1), "m", None))
    );
    // A response wins over an error response.
    assert_eq!(
        JsonRpcMessage::from_text(r#"{"jsonrpc":"2.0","id":1,"result":1,"error":{"code":1,"message":"m"}}"#),
        Some(response(RequestId::Number(1), Json::Integer(1)))
    );
    // A method that is no string does not count.
    assert_eq!(
        JsonRpcMessage::from_text(r#"{"jsonrpc":"2.0","id":1,"method":5,"result":1}"#),
        Some(response(RequestId::Number(1), Json::Integer(1)))
    );
}

#[test]
fn what_has_the_shape_of_no_message_is_none() {
    for line in [
        "",
        "{",
        "not json",
        "[1,2]",
        "5",
        "null",
        "{}",
        r#"{"id":1,"method":"m"}"#,
        r#"{"jsonrpc":2,"id":1,"method":"m"}"#,
        r#"{"jsonrpc":"2.0","id":1}"#,
        r#"{"jsonrpc":"2.0","result":1}"#,
        r#"{"jsonrpc":"2.0","id":true,"error":{"code":1,"message":"m"}}"#,
        r#"{"jsonrpc":"2.0","id":1,"error":{"code":"1","message":"m"}}"#,
        r#"{"jsonrpc":"2.0","id":1,"error":{"code":1.5,"message":"m"}}"#,
        r#"{"jsonrpc":"2.0","id":1,"error":{"code":2147483648,"message":"m"}}"#,
        r#"{"jsonrpc":"2.0","id":1,"error":{"code":-2147483649,"message":"m"}}"#,
        r#"{"jsonrpc":"2.0","id":1,"error":{"code":1}}"#,
        r#"{"jsonrpc":"2.0","id":1,"error":{"message":"m"}}"#,
        r#"{"jsonrpc":"2.0","id":1,"error":"boom"}"#,
    ] {
        assert_eq!(JsonRpcMessage::from_text(line), None, "{}", line);
    }
}

#[test]
fn error_codes_at_the_limits_of_32_bits() {
    assert_eq!(
        JsonRpcMessage::from_text(r#"{"jsonrpc":"2.0","id":1,"error":{"code":2147483647,"message":"m"}}"#),
        Some(error_response(Some(RequestId::Number(1)), i32::MAX, "m", None))
    );
    assert_eq!(
        JsonRpcMessage::from_text(r#"{"jsonrpc":"2.0","id":1,"error":{"code":-2147483648,"message":"m"}}"#),
        Some(error_response(Some(RequestId::Number(1)), i32::MIN, "m", None))
    );
}

#[test]
fn messages_are_written_with_their_members_in_order() {
    assert_eq!(
        request(RequestId::Number(1), "m", None).to_json(),
        object(vec![("jsonrpc", text("2.0")), ("id", Json::Integer(1)), ("method", text("m"))])
    );
    assert_eq!(
        request(RequestId::String("a".to_string()), "m", Some(Json::Array(vec![]))).to_json(),
        object(vec![
            ("jsonrpc", text("2.0")),
            ("id", text("a")),
            ("method", text("m")),
            ("params", Json::Array(vec![])),
        ])
    );
    assert_eq!(
        JsonRpcMessage::Notification(JsonRpcNotification {
            jsonrpc: "2.0".to_string(),
            method: "m".to_string(),
            params: None,
        })
        .to_json(),
        object(vec![("jsonrpc", text("2.0")), ("method", text("m"))])
    );
    assert_eq!(
        response(RequestId::Number(2), Json::Null).to_json(),
        object(vec![("jsonrpc", text("2.0")), ("id", Json::Integer(2)), ("result", Json::Null)])
    );
    assert_eq!(
        error_response(None, -32700, "Parse error", None).to_json(),
        object(vec![
            ("jsonrpc", text("2.0")),
            ("error", object(vec![("code", Json::Integer(-32700)), ("message", text("Parse error"))])),
        ])
    );
    assert_eq!(
        error_response(Some(RequestId::Number(4)), 5, "m", Some(Json::Bool(true))).to_json(),
        object(vec![
            ("jsonrpc", text("2.0")),
            ("id", Json::Integer(4)),
            (
                "error",
                object(vec![("code", Json::Integer(5)), ("message", text("m")), ("data", Json::Bool(true))])
            ),
        ])
    );
}

#[test]
fn messages_are_written_as_compact_text() {
    assert_eq!(
        response(RequestId::Number(1), object(vec![("a", Json::Integer(1))])).to_text(),
        Some(r#"{"id":1,"jsonrpc":"2.0","result":{"a":1}}"#.to_string())
    );
    assert_eq!(
        response(RequestId::String("1".to_string()), Json::Null).to_text(),
        Some(r#"{"id":"1","jsonrpc":"2.0","result":null}"#.to_string())
    );
    assert_eq!(
        error_response(None, -32700, "Parse error", None).to_text(),
        Some(r#"{"error":{"code":-32700,"message":"Parse error"},"jsonrpc":"2.0"}"#.to_string())
    );
    assert_eq!(
        request(RequestId::Number(1), "m", None).to_text(),
        Some(r#"{"id":1,"jsonrpc":"2.0","method":"m"}"#.to_string())
    );
}

#[test]
fn responses_and_errors_survive_a_round_trip() {
    let number = serde_json::Number::from_f64(0.25).unwrap();
    let messages = vec![
        response(RequestId::Number(1), Json::Null),
        response(RequestId::Number(-5), Json::Number(number)),
        response(
            RequestId::String("id with \"quotes\" and \n".to_string()),
            object(vec![("a", Json::Array(vec![Json::Integer(1), text("é"), Json::Bool(true)]))]),
        ),
        error_response(Some(RequestId::Number(9)), -32601, "Method not found: x", None),
        error_response(Some(RequestId::String("s".to_string())), -32603, "boom", Some(text("d"))),
        error_response(None, -32700, "Parse error", None),
    ];
    for message in messages {
        assert_eq!(JsonRpcMessage::from_json(&message.to_json()), Some(message.clone()));
        let written = message.to_text().unwrap();
        assert_eq!(JsonRpcMessage::from_text(&written), Some(message));
    }
}

#[test]
fn an_error_whose_data_is_null_reads_as_one_without_data() {
    let message = error_response(Some(RequestId::Number(1)), 1, "m", Some(Json::Null));
    assert_eq!(
        JsonRpcMessage::from_json(&message.to_json()),
        Some(error_response(Some(RequestId::Number(1)), 1, "m", None))
    );
}

#[test]
fn identifiers_and_errors_are_read_and_written_alone() {
    assert_eq!(RequestId::Number(3).to_json(), Json::Integer(3));
    assert_eq!(RequestId::String("3".to_string()).to_json(), text("3"));
    assert_eq!(RequestId::from_json(&Json::Integer(3)), Some(RequestId::Number(3)));
    assert_eq!(RequestId::from_json(&text("3")), Some(RequestId::String("3".to_string())));
    assert_eq!(RequestId::from_json(&Json::Null), None);
    assert_eq!(RequestId::from_json(&Json::Bool(true)), None);
    assert_eq!(
        RequestId::from_json(&Json::Number(serde_json::Number::from_f64(1.5).unwrap())),
        None
    );
    let error = JsonRpcError::new(-32602, "Invalid paths".to_string());
    assert_eq!(error, JsonRpcError { code: -32602, message: "Invalid paths".to_string(), data: None });
    assert_eq!(JsonRpcError::from_json(&error.to_json()), Some(error.clone()));
    assert_eq!(JsonRpcError::from_json(&Json::Null), None);
}

#[test]
fn an_error_response_without_identifier_is_written_without_the_member() {
    let message = error_response(None, -32700, "Parse error", None);
    let written = message.to_json();
    assert_eq!(written.get("id"), None);
    assert_eq!(
        written.get("error").and_then(|error| error.get("code")),
        Some(&Json::Integer(-32700))
    );
    let line = message.to_text().unwrap();
    let read: serde_json::Value = serde_json::from_str(&line).unwrap();
    let members = read.as_object().unwrap();
    assert!(!members.contains_key("id"));
    assert_eq!(members["error"]["code"].as_i64(), Some(-32700));
    assert_eq!(members["error"].as_object().unwrap().contains_key("data"), false);
    assert_eq!(JsonRpcMessage::from_text(&line), Some(message));
}

#[test]
fn an_error_response_with_identifier_is_written_with_it() {
    assert_eq!(
        error_response(Some(RequestId::Number(3)), -32601, "no", None).to_text(),
        Some(r#"{"error":{"code":-32601,"message":"no"},"id":3,"jsonrpc":"2.0"}"#.to_string())
    );
    assert_eq!(
        error_response(Some(RequestId::String("3".to_string())), -32601, "no", None).to_text(),
        Some(r#"{"error":{"code":-32601,"message":"no"},"id":"3","jsonrpc":"2.0"}"#.to_string())
    );
}
