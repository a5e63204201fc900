use sidero::json::Json;
use sidero::protocol::JsonRpcError;
use sidero::protocol::JsonRpcErrorResponse;
use sidero::protocol::JsonRpcMessage;
use sidero::protocol::JsonRpcNotification;
use sidero::protocol::JsonRpcRequest;
use sidero::protocol::JsonRpcResponse;
use sidero::protocol::RequestId;
use sidero::transport::Input;
use sidero::transport::Reaction;
use sidero::transport::State;
use sidero::transport::Transport;

fn parse_error() -> JsonRpcMessage {
    JsonRpcMessage::Error(JsonRpcErrorResponse {
        jsonrpc: "2.0".to_string(),
        id: None,
        error: JsonRpcError { code: -32700, message: "Parse error".to_string(), data: None },
    })
}

#[test]
fn the_loop_begins_reading() {
    assert_eq!(Transport::start(), State::Reading);
}

#[test]
fn blank_lines_are_ignored() {
    for line in ["", "\n", "   ", "\t\r\n", " \u{a0} \n"] {
        assert_eq!(Transport::react(line), Reaction::Nothing, "{:?}", line);
    }
}

#[test]
fn a_malformed_line_is_answered_with_a_parse_error_without_identifier() {
    for line in ["{", "hello\n", "[1,2]\n", "{}", r#"{"jsonrpc":"2.0"}"#, r#"{"id":1,"method":"m"}"#] {
        assert_eq!(Transport::react(line), Reaction::Send(parse_error()), "{:?}", line);
    }
    assert_eq!(
        Transport::frame(&parse_error()),
        Some("{\"error\":{\"code\":-32700,\"message\":\"Parse error\"},\"jsonrpc\":\"2.0\"}\n".to_string())
    );
}

#[test]
fn a_request_is_handed_on_with_its_identifier() {
    assert_eq!(
        Transport::react("  {\"jsonrpc\":\"2.0\",\"id\":\"r1\",\"method\":\"tools/list\"}\r\n"),
        Reaction::Dispatch(JsonRpcRequest {
            jsonrpc: "2.0".to_string(),
            id: RequestId::String("r1".to_string()),
            method: "tools/list".to_string(),
            params: None,
        })
    );
}

#[test]
fn a_notification_is_never_answered() {
    assert_eq!(
        Transport::react("{\"jsonrpc\":\"2.0\",\"method\":\"notifications/initialized\"}\n"),
        Reaction::Notified(JsonRpcNotification {
            jsonrpc: "2.0".to_string(),
            method: "notifications/initialized".to_string(),
            params: None,
        })
    );
    assert_eq!(
        Transport::react("{\"jsonrpc\":\"2.0\",\"method\":\"no/such/method\",\"params\":[1]}\n"),
        Reaction::Notified(JsonRpcNotification {
            jsonrpc: "2.0".to_string(),
            method: "no/such/method".to_string(),
            params: Some(Json::Array(vec![Json::Integer(1)])),
        })
    );
}

#[test]
fn responses_and_errors_sent_to_the_server_are_ignored() {
    assert_eq!(Transport::react(r#"{"jsonrpc":"2.0","id":1,"result":{}}"#), Reaction::Nothing);
    assert_eq!(
        Transport::react(r#"{"jsonrpc":"2.0","id":1,"error":{"code":1,"message":"m"}}"#),
        Reaction::Nothing
    );
}

#[test]
fn only_the_end_of_the_input_ends_the_loop() {
    assert_eq!(
        Transport::step(State::Reading, Input::EndOfStream),
        (State::Terminated, Reaction::Nothing)
    );
    assert_eq!(
        Transport::step(State::Reading, Input::Line("{".to_string())),
        (State::Reading, Reaction::Send(parse_error()))
    );
    assert_eq!(
        Transport::step(State::Reading, Input::Line("\n".to_string())),
        (State::Reading, Reaction::Nothing)
    );
    assert_eq!(
        Transport::step(State::Terminated, Input::Line("{".to_string())),
        (State::Terminated, Reaction::Nothing)
    );
    assert_eq!(
        Transport::step(State::Terminated, Input::EndOfStream),
        (State::Terminated, Reaction::Nothing)
    );
}

#[test]
fn the_answer_carries_the_identifier_of_the_request() {
    assert_eq!(
        Transport::answer(RequestId::Number(12), Ok(Json::Bool(true))),
        JsonRpcMessage::Response(JsonRpcResponse {
            jsonrpc: "2.0".to_string(),
            id: RequestId::Number(12),
            result: Json::Bool(true),
        })
    );
    assert_eq!(
        Transport::answer(
            RequestId::String("12".to_string()),
            Err(JsonRpcError { code: -32601, message: "Method not found: x".to_string(), data: None })
        ),
        JsonRpcMessage::Error(JsonRpcErrorResponse {
            jsonrpc: "2.0".to_string(),
            id: Some(RequestId::String("12".to_string())),
            error: JsonRpcError { code: -32601, message: "Method not found: x".to_string(), data: None },
        })
    );
}

#[test]
fn every_message_is_written_as_one_line() {
    assert_eq!(Transport::line_of("abc"), "abc\n");
    assert_eq!(Transport::line_of(""), "\n");
    let message = Transport::answer(RequestId::Number(12), Ok(Json::String("a\nb".to_string())));
    let line = Transport::frame(&message).unwrap();
    assert_eq!(line, "{\"id\":12,\"jsonrpc\":\"2.0\",\"result\":\"a\\nb\"}\n");
    assert_eq!(line.matches('\n').count(), 1);
    let message = Transport::answer(
        RequestId::String("x".to_string()),
        Err(JsonRpcError { code: -32602, message: "Missing rule".to_string(), data: None }),
    );
    assert_eq!(
        Transport::frame(&message),
        Some("{\"error\":{\"code\":-32602,\"message\":\"Missing rule\"},\"id\":\"x\",\"jsonrpc\":\"2.0\"}\n".to_string())
    );
}
