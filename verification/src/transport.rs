//! The transport loop as a state machine over lines: what each line of input
//! calls for, and which message answers a request. Reading and writing the
//! lines is left to the caller.

use vstd::prelude::*;
use crate::handler::reply_view;
use crate::json::Json;
use crate::json::JsonValue;
use crate::protocol::ErrorValue;
use crate::protocol::IdValue;
use crate::protocol::JsonRpcError;
use crate::protocol::JsonRpcErrorResponse;
use crate::protocol::JsonRpcMessage;
use crate::protocol::JsonRpcNotification;
use crate::protocol::JsonRpcRequest;
use crate::protocol::JsonRpcResponse;
use crate::protocol::MessageValue;
use crate::protocol::RequestId;
use crate::protocol::PARSE_ERROR;
use crate::text::chain;
use crate::text::trim;
use crate::text::trimmed;

verus! {

/// The state of the loop.
#[derive(Debug, PartialEq, Eq, Clone, Copy)]
pub enum State {
    /// The next line is read.
    Reading,
    /// The input has ended; nothing more is read.
    Terminated,
}

/// What reading brought.
#[derive(Debug, PartialEq)]
pub enum Input {
    /// One line, with or without its end.
    Line(String),
    /// The input has ended.
    EndOfStream,
}

/// What an `Input` stands for.
pub enum InputValue {
    Line(Seq<char>),
    EndOfStream,
}

impl View for Input {
    type V = InputValue;

    open spec fn view(&self) -> InputValue {
        match self {
            Input::Line(line) => InputValue::Line(line@),
            Input::EndOfStream => InputValue::EndOfStream,
        }
    }
}

/// What a line of input calls for.
#[derive(Debug, PartialEq)]
pub enum Reaction {
    /// Nothing: the line is blank, or holds a message that a server does not answer.
    Nothing,
    /// Nothing to write: the line holds this notification.
    Notified(JsonRpcNotification),
    /// This message is to be written.
    Send(JsonRpcMessage),
    /// This request is to be handled, and its answer written.
    Dispatch(JsonRpcRequest),
}

/// What a `Reaction` stands for.
pub enum ReactionValue {
    Nothing,
    Notified(MessageValue),
    Send(MessageValue),
    Dispatch(MessageValue),
}

impl View for Reaction {
    type V = ReactionValue;

    open spec fn view(&self) -> ReactionValue {
        match self {
            Reaction::Nothing => ReactionValue::Nothing,
            Reaction::Notified(m) => ReactionValue::Notified(m@),
            Reaction::Send(m) => ReactionValue::Send(m@),
            Reaction::Dispatch(m) => ReactionValue::Dispatch(m@),
        }
    }
}

/// The version of the protocol that every message of the server names.
pub open spec fn version() -> Seq<char> {
    "2.0"@
}

/// The answer to a line that holds no message: a parse error without identifier.
pub open spec fn parse_error() -> MessageValue {
    MessageValue::Error {
        jsonrpc: version(),
        id: None,
        error: ErrorValue { code: PARSE_ERROR, message: "Parse error"@, data: None },
    }
}

/// The answer to the request `id`: a response with the result, or an error
/// response with the error, under the same identifier.
pub open spec fn answer(id: IdValue, outcome: Result<JsonValue, ErrorValue>) -> MessageValue {
    match outcome {
        Ok(result) => MessageValue::Response { jsonrpc: version(), id, result },
        Err(error) => MessageValue::Error { jsonrpc: version(), id: Some(id), error },
    }
}

/// What the line `line` calls for. White space around it does not count. A
/// blank line calls for nothing; a line that holds no message for a parse
/// error; a request for its handling; a notification, a response and an
/// error response for nothing to be written.
pub open spec fn reaction(line: Seq<char>) -> ReactionValue {
    let text = trimmed(line);
    if text.len() == 0 {
        ReactionValue::Nothing
    } else {
        match MessageValue::of_text(text) {
            None => ReactionValue::Send(parse_error()),
            Some(m) => if m is Request {
                ReactionValue::Dispatch(m)
            } else if m is Notification {
                ReactionValue::Notified(m)
            } else {
                ReactionValue::Nothing
            },
        }
    }
}

/// One turn of the loop: the state after `input` and what the input calls
/// for. The end of the input ends the loop; nothing else does.
pub open spec fn turn(state: State, input: InputValue) -> (State, ReactionValue) {
    match (state, input) {
        (State::Reading, InputValue::Line(line)) => (State::Reading, reaction(line)),
        _ => (State::Terminated, ReactionValue::Nothing),
    }
}

/// The messages that are written for a line that calls for `reaction`, where
/// `outcome` is what handling its request gave.
pub open spec fn emitted(reaction: ReactionValue, outcome: Result<JsonValue, ErrorValue>) -> Seq<
    MessageValue,
> {
    match reaction {
        ReactionValue::Nothing => Seq::empty(),
        ReactionValue::Notified(_) => Seq::empty(),
        ReactionValue::Send(m) => seq![m],
        ReactionValue::Dispatch(m) => match m {
            MessageValue::Request { id, .. } => seq![answer(id, outcome)],
            _ => Seq::empty(),
        },
    }
}

/// Whether a text is one line: it ends with a line feed and holds no other.
pub open spec fn one_line(text: Seq<char>) -> bool {
    text.len() > 0 && text.last() == '\n' && !text.drop_last().contains('\n')
}

/// The transport loop.
pub struct Transport;

impl Transport {
    /// The state in which the loop begins.
    pub fn start() -> (r: State)
        ensures
            r == State::Reading,
    {
        State::Reading
    }

    /// One turn of the loop.
    pub fn step(state: State, input: Input) -> (r: (State, Reaction))
        ensures
            (r.0, r.1@) == turn(state, input@),
    {
        match (state, input) {
            (State::Reading, Input::Line(line)) => (State::Reading, Self::react(line.as_str())),
            _ => (State::Terminated, Reaction::Nothing),
        }
    }

    /// What the line `line` calls for.
    pub fn react(line: &str) -> (r: Reaction)
        ensures
            r@ == reaction(line@),
    {
        let text = trim(line);
        if text.is_empty() {
            return Reaction::Nothing;
        }
        match JsonRpcMessage::from_text(text) {
            None => Reaction::Send(Self::parse_error()),
            Some(JsonRpcMessage::Request(m)) => Reaction::Dispatch(m),
            Some(JsonRpcMessage::Notification(m)) => Reaction::Notified(m),
            Some(_) => Reaction::Nothing,
        }
    }

    /// The answer to a line that holds no message.
    pub fn parse_error() -> (r: JsonRpcMessage)
        ensures
            r@ == parse_error(),
    {
        JsonRpcMessage::Error(
            JsonRpcErrorResponse {
                jsonrpc: "2.0".to_owned(),
                id: None,
                error: JsonRpcError::new(PARSE_ERROR, "Parse error".to_owned()),
            },
        )
    }

    /// The answer to the request `id`, given what handling it gave.
    pub fn answer(id: RequestId, outcome: Result<Json, JsonRpcError>) -> (r: JsonRpcMessage)
        ensures
            r@ == answer(id@, reply_view(outcome)),
    {
        match outcome {
            Ok(result) => JsonRpcMessage::Response(
                JsonRpcResponse { jsonrpc: "2.0".to_owned(), id, result },
            ),
            Err(error) => JsonRpcMessage::Error(
                JsonRpcErrorResponse { jsonrpc: "2.0".to_owned(), id: Some(id), error },
            ),
        }
    }

    /// A text as a line: the text and the line's end.
    pub fn line_of(text: &str) -> (r: String)
        ensures
            r@ == text@ + "\n"@,
            r@ == text@.push('\n'),
    {
        proof {
            reveal_strlit("\n");
            assert(text@ + "\n"@ =~= text@.push('\n'));
        }
        chain(text, "\n")
    }

    /// The message as the line that is written for it; `None` where the
    /// writer fails.
    pub fn frame(message: &JsonRpcMessage) -> (r: Option<String>)
        ensures
            match r {
                Some(line) => message@.text() is Some && line@ == message@.text()->0 + "\n"@
                    && one_line(line@),
                None => message@.text() is None,
            },
    {
        match message.to_text() {
            Some(text) => {
                let line = Self::line_of(text.as_str());
                proof {
                    assert(line@.drop_last() =~= text@);
                }
                Some(line)
            },
            None => None,
        }
    }
}

/// A line that holds a request is answered by exactly one message, whatever
/// handling the request gives: a response or an error response that carries
/// the request's identifier, integer for integer and string for string.
pub proof fn lemma_request_answered_once(line: Seq<char>, outcome: Result<JsonValue, ErrorValue>)
    requires
        trimmed(line).len() > 0,
        MessageValue::of_text(trimmed(line)) matches Some(m) && m is Request,
    ensures
        emitted(reaction(line), outcome).len() == 1,
        ({
            let id = MessageValue::of_text(trimmed(line))->0->Request_id;
            match emitted(reaction(line), outcome)[0] {
                MessageValue::Response { id: answered, .. } => outcome is Ok && answered == id,
                MessageValue::Error { id: answered, .. } => outcome is Err && answered == Some(id),
                _ => false,
            }
        }),
{
}

/// A line that holds a notification is answered by no message, whatever
/// happens while it is handled.
pub proof fn lemma_notification_unanswered(line: Seq<char>, outcome: Result<JsonValue, ErrorValue>)
    requires
        MessageValue::of_text(trimmed(line)) matches Some(m) && m is Notification,
    ensures
        emitted(reaction(line), outcome).len() == 0,
{
}

/// A line that is not blank and holds no message is answered by exactly one
/// message: an error response without identifier whose code is -32700. The
/// loop goes on reading.
pub proof fn lemma_malformed_line(line: Seq<char>, outcome: Result<JsonValue, ErrorValue>)
    requires
        trimmed(line).len() > 0,
        MessageValue::of_text(trimmed(line)) is None,
    ensures
        emitted(reaction(line), outcome) == seq![parse_error()],
        parse_error() matches MessageValue::Error { id, error, .. } && id is None && error.code
            == -32700,
        turn(State::Reading, InputValue::Line(line)).0 == State::Reading,
{
}

/// The loop ends at the end of the input and nowhere else, and once ended
/// it stays so.
pub proof fn lemma_loop_ends(state: State, input: InputValue)
    ensures
        turn(state, input).0 == State::Terminated <==> (state == State::Terminated || input
            is EndOfStream),
{
}

} // verus!
