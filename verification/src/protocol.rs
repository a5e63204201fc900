//! The JSON-RPC message model: requests, notifications, responses and errors,
//! how each is written as a JSON value, and how a JSON value is told apart
//! into one of the four by its shape alone.

use vstd::prelude::*;
use crate::codec::compact;
use crate::codec::parse;
use crate::codec::parsed;
use crate::codec::to_text;
use crate::json::entries_view;
use crate::json::lookup;
use crate::json::new_entries;
use crate::json::push_entry;
use crate::json::Json;
use crate::json::JsonValue;
use crate::text::same;

verus! {

/// Parse error: the line is not well-formed JSON or has the shape of no message.
pub const PARSE_ERROR: i32 = -32700;

/// Not found: the method, tool, prompt or resource is not registered.
pub const NOT_FOUND: i32 = -32601;

/// Invalid params: the parameters do not have the shape that the method asks for.
pub const INVALID_PARAMS: i32 = -32602;

/// Internal error: a collaborator failed.
pub const INTERNAL_ERROR: i32 = -32603;

/// The view of an optional JSON value.
pub open spec fn optional_view(o: Option<Json>) -> Option<JsonValue> {
    match o {
        Some(j) => Some(j@),
        None => None,
    }
}

/// A correlation identifier: an integer or a string, never turned into one another.
#[derive(Debug, PartialEq, Eq, Hash)]
pub enum RequestId {
    Number(i64),
    String(String),
}

/// What a `RequestId` stands for.
pub enum IdValue {
    Number(i64),
    String(Seq<char>),
}

impl View for RequestId {
    type V = IdValue;

    open spec fn view(&self) -> IdValue {
        match self {
            RequestId::Number(i) => IdValue::Number(*i),
            RequestId::String(s) => IdValue::String(s@),
        }
    }
}

impl IdValue {
    /// The identifier as a JSON value: a bare integer or a bare string.
    pub open spec fn json(self) -> JsonValue {
        match self {
            IdValue::Number(i) => JsonValue::Integer(i),
            IdValue::String(s) => JsonValue::String(s),
        }
    }

    /// The identifier that a JSON value is: an integer or a string, nothing else.
    pub open spec fn of(j: JsonValue) -> Option<IdValue> {
        match j {
            JsonValue::Integer(i) => Some(IdValue::Number(i)),
            JsonValue::String(s) => Some(IdValue::String(s)),
            _ => None,
        }
    }
}

/// The view of an optional identifier.
pub open spec fn optional_id(o: Option<RequestId>) -> Option<IdValue> {
    match o {
        Some(id) => Some(id@),
        None => None,
    }
}

impl Clone for RequestId {
    fn clone(&self) -> (r: RequestId)
        ensures
            r@ == self@,
    {
        match self {
            RequestId::Number(i) => RequestId::Number(*i),
            RequestId::String(s) => RequestId::String(s.clone()),
        }
    }
}

impl RequestId {
    /// Whether two identifiers are the same: same variant, same content.
    pub fn same_as(&self, other: &RequestId) -> (r: bool)
        ensures
            r == (self@ == other@),
    {
        match (self, other) {
            (RequestId::Number(a), RequestId::Number(b)) => *a == *b,
            (RequestId::String(a), RequestId::String(b)) => same(a.as_str(), b.as_str()),
            _ => false,
        }
    }

    /// The identifier as a JSON value.
    pub fn to_json(&self) -> (r: Json)
        ensures
            r@ == self@.json(),
    {
        match self {
            RequestId::Number(i) => Json::Integer(*i),
            RequestId::String(s) => Json::String(s.clone()),
        }
    }

    /// The identifier that `j` is.
    pub fn from_json(j: &Json) -> (r: Option<RequestId>)
        ensures
            optional_id(r) == IdValue::of(j@),
    {
        match j {
            Json::Integer(i) => Some(RequestId::Number(*i)),
            Json::String(s) => Some(RequestId::String(s.clone())),
            _ => None,
        }
    }
}

/// The error of a failed request.
#[derive(Debug, PartialEq)]
pub struct JsonRpcError {
    pub code: i32,
    pub message: String,
    pub data: Option<Json>,
}

/// What a `JsonRpcError` stands for.
pub struct ErrorValue {
    pub code: i32,
    pub message: Seq<char>,
    pub data: Option<JsonValue>,
}

impl View for JsonRpcError {
    type V = ErrorValue;

    open spec fn view(&self) -> ErrorValue {
        ErrorValue { code: self.code, message: self.message@, data: optional_view(self.data) }
    }
}

/// A member that is written only when it is there.
pub open spec fn written_if_some(key: Seq<char>, o: Option<JsonValue>) -> Seq<(Seq<char>, JsonValue)> {
    match o {
        Some(v) => seq![(key, v)],
        None => Seq::empty(),
    }
}

/// The member `key` of `j` where it is there and not null.
pub open spec fn optional_field(j: JsonValue, key: Seq<char>) -> Option<JsonValue> {
    match j.field(key) {
        Some(v) => if v is Null {
            None
        } else {
            Some(v)
        },
        None => None,
    }
}

/// The characters of the member `key` of `j` where it is there and a string.
pub open spec fn text_field(j: JsonValue, key: Seq<char>) -> Option<Seq<char>> {
    match j.field(key) {
        Some(v) => v.text(),
        None => None,
    }
}

impl ErrorValue {
    /// The error as a JSON object. `data` is left out when there is none, and
    /// written as it is when there is one, be it the value null.
    pub open spec fn json(self) -> JsonValue {
        JsonValue::Object(
            seq![
                ("code"@, JsonValue::Integer(self.code as i64)),
                ("message"@, JsonValue::String(self.message)),
            ] + written_if_some("data"@, self.data),
        )
    }

    /// The error that a JSON value is: an object with an integer `code` of 32
    /// bits and a string `message`; a `data` that is missing or null is none.
    pub open spec fn of(j: JsonValue) -> Option<ErrorValue> {
        match (j.field("code"@), text_field(j, "message"@)) {
            (Some(JsonValue::Integer(c)), Some(m)) => if i32::MIN <= c <= i32::MAX {
                Some(ErrorValue { code: c as i32, message: m, data: optional_field(j, "data"@) })
            } else {
                None
            },
            _ => None,
        }
    }
}

impl Clone for JsonRpcError {
    fn clone(&self) -> (r: JsonRpcError)
        ensures
            r@ == self@,
    {
        let data = match &self.data {
            Some(d) => Some(d.clone()),
            None => None,
        };
        JsonRpcError { code: self.code, message: self.message.clone(), data }
    }
}

/// Adds the member `key` to the entries when there is a value for it.
fn push_if_some(entries: &mut Vec<(String, Json)>, key: &str, o: &Option<Json>)
    ensures
        entries_view(final(entries)@) == entries_view(old(entries)@) + written_if_some(
            key@,
            optional_view(*o),
        ),
{
    match o {
        Some(v) => {
            push_entry(entries, key, v.clone());
            assert(entries_view(old(entries)@).push((key@, v@)) =~= entries_view(old(entries)@)
                + written_if_some(key@, optional_view(*o)));
        },
        None => {
            assert(entries_view(old(entries)@) =~= entries_view(old(entries)@) + written_if_some(
                key@,
                optional_view(*o),
            ));
        },
    }
}

/// The member `key` of `j`, copied, where it is there and not null.
fn get_optional(j: &Json, key: &str) -> (r: Option<Json>)
    ensures
        optional_view(r) == optional_field(j@, key@),
{
    match j.get(key) {
        Some(v) => if v.is_null() {
            None
        } else {
            Some(v.clone())
        },
        None => None,
    }
}

/// The member `key` of `j` where it is there and a string.
fn get_text<'a>(j: &'a Json, key: &str) -> (r: Option<&'a str>)
    ensures
        match r {
            Some(s) => text_field(j@, key@) == Some(s@),
            None => text_field(j@, key@) is None,
        },
{
    match j.get(key) {
        Some(v) => v.as_str(),
        None => None,
    }
}

impl JsonRpcError {
    /// An error with a code and a message, and no data.
    pub fn new(code: i32, message: String) -> (r: JsonRpcError)
        ensures
            r@ == (ErrorValue { code, message: message@, data: None }),
    {
        JsonRpcError { code, message, data: None }
    }

    /// The error as a JSON value.
    pub fn to_json(&self) -> (r: Json)
        ensures
            r@ == self@.json(),
    {
        let mut entries = new_entries();
        push_entry(&mut entries, "code", Json::Integer(self.code as i64));
        push_entry(&mut entries, "message", Json::String(self.message.clone()));
        push_if_some(&mut entries, "data", &self.data);
        proof {
            assert(entries_view(entries@) =~= self@.json()->Object_0);
        }
        Json::object(entries)
    }

    /// The error that `j` is.
    pub fn from_json(j: &Json) -> (r: Option<JsonRpcError>)
        ensures
            match r {
                Some(e) => ErrorValue::of(j@) == Some(e@),
                None => ErrorValue::of(j@) is None,
            },
    {
        let code: i64 = match j.get("code") {
            Some(Json::Integer(c)) => *c,
            _ => {
                return None;
            },
        };
        let message = match get_text(j, "message") {
            Some(m) => m.to_owned(),
            None => {
                return None;
            },
        };
        if code < -2147483648 || code > 2147483647 {
            return None;
        }
        let data = get_optional(j, "data");
        Some(JsonRpcError { code: code as i32, message, data })
    }
}

/// A call that expects an answer.
#[derive(Debug, PartialEq)]
pub struct JsonRpcRequest {
    pub jsonrpc: String,
    pub id: RequestId,
    pub method: String,
    pub params: Option<Json>,
}

/// A call that expects no answer.
#[derive(Debug, PartialEq)]
pub struct JsonRpcNotification {
    pub jsonrpc: String,
    pub method: String,
    pub params: Option<Json>,
}

/// The answer to a request that succeeded.
#[derive(Debug, PartialEq)]
pub struct JsonRpcResponse {
    pub jsonrpc: String,
    pub id: RequestId,
    pub result: Json,
}

/// The answer to a request that failed, or to a line that could not be read:
/// then there is no identifier, and none is written.
#[derive(Debug, PartialEq)]
pub struct JsonRpcErrorResponse {
    pub jsonrpc: String,
    pub id: Option<RequestId>,
    pub error: JsonRpcError,
}

/// One message of the protocol.
#[derive(Debug, PartialEq)]
pub enum JsonRpcMessage {
    Request(JsonRpcRequest),
    Response(JsonRpcResponse),
    Notification(JsonRpcNotification),
    Error(JsonRpcErrorResponse),
}

/// What a `JsonRpcMessage` stands for.
#[allow(inconsistent_fields)]
pub enum MessageValue {
    Request { jsonrpc: Seq<char>, id: IdValue, method: Seq<char>, params: Option<JsonValue> },
    Response { jsonrpc: Seq<char>, id: IdValue, result: JsonValue },
    Notification { jsonrpc: Seq<char>, method: Seq<char>, params: Option<JsonValue> },
    Error { jsonrpc: Seq<char>, id: Option<IdValue>, error: ErrorValue },
}

impl View for JsonRpcRequest {
    type V = MessageValue;

    open spec fn view(&self) -> MessageValue {
        MessageValue::Request {
            jsonrpc: self.jsonrpc@,
            id: self.id@,
            method: self.method@,
            params: optional_view(self.params),
        }
    }
}

impl View for JsonRpcNotification {
    type V = MessageValue;

    open spec fn view(&self) -> MessageValue {
        MessageValue::Notification {
            jsonrpc: self.jsonrpc@,
            method: self.method@,
            params: optional_view(self.params),
        }
    }
}

impl View for JsonRpcResponse {
    type V = MessageValue;

    open spec fn view(&self) -> MessageValue {
        MessageValue::Response { jsonrpc: self.jsonrpc@, id: self.id@, result: self.result@ }
    }
}

impl View for JsonRpcErrorResponse {
    type V = MessageValue;

    open spec fn view(&self) -> MessageValue {
        MessageValue::Error {
            jsonrpc: self.jsonrpc@,
            id: optional_id(self.id),
            error: self.error@,
        }
    }
}

impl View for JsonRpcMessage {
    type V = MessageValue;

    open spec fn view(&self) -> MessageValue {
        match self {
            JsonRpcMessage::Request(m) => m@,
            JsonRpcMessage::Response(m) => m@,
            JsonRpcMessage::Notification(m) => m@,
            JsonRpcMessage::Error(m) => m@,
        }
    }
}

fn copy_optional(o: &Option<Json>) -> (r: Option<Json>)
    ensures
        optional_view(r) == optional_view(*o),
{
    match o {
        Some(j) => Some(j.clone()),
        None => None,
    }
}

impl Clone for JsonRpcRequest {
    fn clone(&self) -> (r: JsonRpcRequest)
        ensures
            r@ == self@,
    {
        JsonRpcRequest {
            jsonrpc: self.jsonrpc.clone(),
            id: self.id.clone(),
            method: self.method.clone(),
            params: copy_optional(&self.params),
        }
    }
}

impl Clone for JsonRpcNotification {
    fn clone(&self) -> (r: JsonRpcNotification)
        ensures
            r@ == self@,
    {
        JsonRpcNotification {
            jsonrpc: self.jsonrpc.clone(),
            method: self.method.clone(),
            params: copy_optional(&self.params),
        }
    }
}

impl Clone for JsonRpcResponse {
    fn clone(&self) -> (r: JsonRpcResponse)
        ensures
            r@ == self@,
    {
        JsonRpcResponse {
            jsonrpc: self.jsonrpc.clone(),
            id: self.id.clone(),
            result: self.result.clone(),
        }
    }
}

impl Clone for JsonRpcErrorResponse {
    fn clone(&self) -> (r: JsonRpcErrorResponse)
        ensures
            r@ == self@,
    {
        let id = match &self.id {
            Some(i) => Some(i.clone()),
            None => None,
        };
        JsonRpcErrorResponse { jsonrpc: self.jsonrpc.clone(), id, error: self.error.clone() }
    }
}

impl Clone for JsonRpcMessage {
    fn clone(&self) -> (r: JsonRpcMessage)
        ensures
            r@ == self@,
    {
        match self {
            JsonRpcMessage::Request(m) => JsonRpcMessage::Request(m.clone()),
            JsonRpcMessage::Response(m) => JsonRpcMessage::Response(m.clone()),
            JsonRpcMessage::Notification(m) => JsonRpcMessage::Notification(m.clone()),
            JsonRpcMessage::Error(m) => JsonRpcMessage::Error(m.clone()),
        }
    }
}

/// The identifier of an error response as a JSON value, where it has one.
pub open spec fn optional_id_json(id: Option<IdValue>) -> Option<JsonValue> {
    match id {
        Some(i) => Some(i.json()),
        None => None,
    }
}

impl MessageValue {
    /// The message as a JSON object. What is optional is left out when there
    /// is none: the `params` of a request and of a notification, and the
    /// identifier of an error response.
    pub open spec fn json(self) -> JsonValue {
        match self {
            MessageValue::Request { jsonrpc, id, method, params } => JsonValue::Object(
                seq![
                    ("jsonrpc"@, JsonValue::String(jsonrpc)),
                    ("id"@, id.json()),
                    ("method"@, JsonValue::String(method)),
                ] + written_if_some("params"@, params),
            ),
            MessageValue::Response { jsonrpc, id, result } => JsonValue::Object(
                seq![
                    ("jsonrpc"@, JsonValue::String(jsonrpc)),
                    ("id"@, id.json()),
                    ("result"@, result),
                ],
            ),
            MessageValue::Notification { jsonrpc, method, params } => JsonValue::Object(
                seq![("jsonrpc"@, JsonValue::String(jsonrpc)), ("method"@, JsonValue::String(method))]
                    + written_if_some("params"@, params),
            ),
            MessageValue::Error { jsonrpc, id, error } => JsonValue::Object(
                seq![("jsonrpc"@, JsonValue::String(jsonrpc))] + written_if_some(
                    "id"@,
                    optional_id_json(id),
                ) + seq![("error"@, error.json())],
            ),
        }
    }

    /// The message that a JSON value is, told by its shape. Every message is an
    /// object with a string `jsonrpc`. With a string `method` and an
    /// identifier it is a request; else with an identifier and a `result` a
    /// response; else with a string `method` a notification; else with an
    /// `error`, and an `id` that is missing, null or an identifier, an error
    /// response. Anything else is no message.
    pub open spec fn of(j: JsonValue) -> Option<MessageValue> {
        match text_field(j, "jsonrpc"@) {
            None => None,
            Some(jsonrpc) => {
                let method = text_field(j, "method"@);
                let id = match j.field("id"@) {
                    Some(v) => IdValue::of(v),
                    None => None,
                };
                if method is Some && id is Some {
                    Some(
                        MessageValue::Request {
                            jsonrpc,
                            id: id->0,
                            method: method->0,
                            params: optional_field(j, "params"@),
                        },
                    )
                } else if id is Some && j.field("result"@) is Some {
                    Some(MessageValue::Response { jsonrpc, id: id->0, result: j.field("result"@)->0 })
                } else if method is Some {
                    Some(
                        MessageValue::Notification {
                            jsonrpc,
                            method: method->0,
                            params: optional_field(j, "params"@),
                        },
                    )
                } else if j.field("error"@) is Some && ErrorValue::of(j.field("error"@)->0) is Some
                    && (id is Some || optional_field(j, "id"@) is None) {
                    Some(
                        MessageValue::Error {
                            jsonrpc,
                            id,
                            error: ErrorValue::of(j.field("error"@)->0)->0,
                        },
                    )
                } else {
                    None
                }
            },
        }
    }

    /// The message that a text holds: the text is well-formed JSON and the
    /// value has the shape of a message.
    pub open spec fn of_text(text: Seq<char>) -> Option<MessageValue> {
        match parsed(text) {
            Some(j) => MessageValue::of(j),
            None => None,
        }
    }

    /// The message as one line of text, without the line's end.
    pub open spec fn text(self) -> Option<Seq<char>> {
        compact(self.json())
    }
}

impl JsonRpcRequest {
    /// The request as a JSON value.
    pub fn to_json(&self) -> (r: Json)
        ensures
            r@ == self@.json(),
    {
        let mut entries = new_entries();
        push_entry(&mut entries, "jsonrpc", Json::String(self.jsonrpc.clone()));
        push_entry(&mut entries, "id", self.id.to_json());
        push_entry(&mut entries, "method", Json::String(self.method.clone()));
        push_if_some(&mut entries, "params", &self.params);
        proof {
            assert(entries_view(entries@) =~= self@.json()->Object_0);
        }
        Json::object(entries)
    }
}

impl JsonRpcNotification {
    /// The notification as a JSON value.
    pub fn to_json(&self) -> (r: Json)
        ensures
            r@ == self@.json(),
    {
        let mut entries = new_entries();
        push_entry(&mut entries, "jsonrpc", Json::String(self.jsonrpc.clone()));
        push_entry(&mut entries, "method", Json::String(self.method.clone()));
        push_if_some(&mut entries, "params", &self.params);
        proof {
            assert(entries_view(entries@) =~= self@.json()->Object_0);
        }
        Json::object(entries)
    }
}

impl JsonRpcResponse {
    /// The response as a JSON value.
    pub fn to_json(&self) -> (r: Json)
        ensures
            r@ == self@.json(),
    {
        let mut entries = new_entries();
        push_entry(&mut entries, "jsonrpc", Json::String(self.jsonrpc.clone()));
        push_entry(&mut entries, "id", self.id.to_json());
        push_entry(&mut entries, "result", self.result.clone());
        proof {
            assert(entries_view(entries@) =~= self@.json()->Object_0);
        }
        Json::object(entries)
    }
}

impl JsonRpcErrorResponse {
    /// The error response as a JSON value.
    pub fn to_json(&self) -> (r: Json)
        ensures
            r@ == self@.json(),
    {
        let mut entries = new_entries();
        push_entry(&mut entries, "jsonrpc", Json::String(self.jsonrpc.clone()));
        let id = match &self.id {
            Some(i) => Some(i.to_json()),
            None => None,
        };
        proof {
            assert(optional_view(id) == optional_id_json(self@->Error_id));
        }
        push_if_some(&mut entries, "id", &id);
        push_entry(&mut entries, "error", self.error.to_json());
        proof {
            assert(entries_view(entries@) =~= self@.json()->Object_0);
        }
        Json::object(entries)
    }
}

impl JsonRpcMessage {
    /// The message as a JSON value.
    pub fn to_json(&self) -> (r: Json)
        ensures
            r@ == self@.json(),
    {
        match self {
            JsonRpcMessage::Request(m) => m.to_json(),
            JsonRpcMessage::Response(m) => m.to_json(),
            JsonRpcMessage::Notification(m) => m.to_json(),
            JsonRpcMessage::Error(m) => m.to_json(),
        }
    }

    /// The message that `j` is, told by its shape.
    pub fn from_json(j: &Json) -> (r: Option<JsonRpcMessage>)
        ensures
            match r {
                Some(m) => MessageValue::of(j@) == Some(m@),
                None => MessageValue::of(j@) is None,
            },
    {
        let jsonrpc = match get_text(j, "jsonrpc") {
            Some(v) => v.to_owned(),
            None => {
                return None;
            },
        };
        let method = get_text(j, "method");
        let id = match j.get("id") {
            Some(v) => RequestId::from_json(v),
            None => None,
        };
        match (method, id) {
            (Some(m), Some(i)) => Some(
                JsonRpcMessage::Request(
                    JsonRpcRequest {
                        jsonrpc,
                        id: i,
                        method: m.to_owned(),
                        params: get_optional(j, "params"),
                    },
                ),
            ),
            (m, Some(i)) => match j.get("result") {
                Some(result) => Some(
                    JsonRpcMessage::Response(JsonRpcResponse { jsonrpc, id: i, result: result.clone() }),
                ),
                None => Self::error_from_json(j, jsonrpc, Some(i)),
            },
            (Some(m), None) => Some(
                JsonRpcMessage::Notification(
                    JsonRpcNotification {
                        jsonrpc,
                        method: m.to_owned(),
                        params: get_optional(j, "params"),
                    },
                ),
            ),
            (None, None) => {
                if get_optional(j, "id").is_some() {
                    return None;
                }
                Self::error_from_json(j, jsonrpc, None)
            },
        }
    }

    /// The error response that `j` is, once its `jsonrpc` and `id` are read
    /// and it is known to be nothing else.
    fn error_from_json(j: &Json, jsonrpc: String, id: Option<RequestId>) -> (r: Option<
        JsonRpcMessage,
    >)
        ensures
            match r {
                Some(m) => {
                    &&& j@.field("error"@) is Some
                    &&& ErrorValue::of(j@.field("error"@)->0) is Some
                    &&& m@ == (MessageValue::Error {
                        jsonrpc: jsonrpc@,
                        id: optional_id(id),
                        error: ErrorValue::of(j@.field("error"@)->0)->0,
                    })
                },
                None => j@.field("error"@) is None || ErrorValue::of(j@.field("error"@)->0) is None,
            },
    {
        match j.get("error") {
            Some(e) => match JsonRpcError::from_json(e) {
                Some(error) => Some(JsonRpcMessage::Error(JsonRpcErrorResponse { jsonrpc, id, error })),
                None => None,
            },
            None => None,
        }
    }

    /// The message that a text holds.
    pub fn from_text(text: &str) -> (r: Option<JsonRpcMessage>)
        ensures
            match r {
                Some(m) => MessageValue::of_text(text@) == Some(m@),
                None => MessageValue::of_text(text@) is None,
            },
    {
        match parse(text) {
            Some(j) => Self::from_json(&j),
            None => None,
        }
    }

    /// The message as one line of text, without the line's end; `None` where
    /// the writer fails.
    pub fn to_text(&self) -> (r: Option<String>)
        ensures
            match r {
                Some(s) => self@.text() == Some(s@) && !s@.contains('\n'),
                None => self@.text() is None,
            },
    {
        let j = self.to_json();
        to_text(&j)
    }
}

/// The member names of messages and errors differ in length or in their
/// first character.
proof fn lemma_member_names()
    ensures
        "jsonrpc"@.len() == 7,
        "message"@.len() == 7,
        "jsonrpc"@[0] == 'j',
        "message"@[0] == 'm',
        "method"@.len() == 6,
        "params"@.len() == 6,
        "result"@.len() == 6,
        "method"@[0] == 'm',
        "params"@[0] == 'p',
        "result"@[0] == 'r',
        "error"@.len() == 5,
        "code"@.len() == 4,
        "data"@.len() == 4,
        "code"@[0] == 'c',
        "data"@[0] == 'd',
        "id"@.len() == 2,
{
    reveal_strlit("jsonrpc");
    reveal_strlit("id");
    reveal_strlit("method");
    reveal_strlit("params");
    reveal_strlit("result");
    reveal_strlit("error");
    reveal_strlit("code");
    reveal_strlit("message");
    reveal_strlit("data");
}

/// An error that is written as a JSON value and read again is the same
/// error, unless its `data` is the value null, which reads as no data.
pub proof fn lemma_error_round_trip(e: ErrorValue)
    requires
        e.data != Some(JsonValue::Null),
    ensures
        ErrorValue::of(e.json()) == Some(e),
{
    lemma_member_names();
    reveal_with_fuel(lookup, 4);
    let entries = e.json()->Object_0;
    match e.data {
        Some(d) => {
            assert(entries.len() == 3);
            assert(entries.drop_last().len() == 2);
            assert(entries.drop_last().drop_last().len() == 1);
        },
        None => {
            assert(entries.len() == 2);
            assert(entries.drop_last().len() == 1);
        },
    }
}

/// Round trip: a response or an error response that is written as a JSON
/// value and read again is the same message, identifier and variant of the
/// identifier included. The one exception is an error whose `data` is the
/// value null, which reads as an error without data.
pub proof fn lemma_round_trip(m: MessageValue)
    requires
        m is Response || m is Error,
        m matches MessageValue::Error { error, .. } ==> error.data != Some(JsonValue::Null),
    ensures
        MessageValue::of(m.json()) == Some(m),
{
    lemma_member_names();
    reveal_with_fuel(lookup, 4);
    let entries = m.json()->Object_0;
    match m {
        MessageValue::Error { jsonrpc, id, error } => {
            lemma_error_round_trip(error);
            if id is Some {
                assert(entries.len() == 3);
                assert(entries.drop_last().len() == 2);
                assert(entries.drop_last().drop_last().len() == 1);
            } else {
                assert(entries.len() == 2);
                assert(entries.drop_last().len() == 1);
            }
        },
        _ => {
            assert(entries.len() == 3);
            assert(entries.drop_last().len() == 2);
            assert(entries.drop_last().drop_last().len() == 1);
        },
    }
}

/// An error response is written with the member `id` exactly when it has
/// an identifier: without one the object holds no `id` at all, with one
/// the identifier itself.
pub proof fn lemma_error_identifier_written(jsonrpc: Seq<char>, id: Option<IdValue>, error: ErrorValue)
    ensures
        (MessageValue::Error { jsonrpc, id, error }).json().field("id"@) == optional_id_json(id),
{
    lemma_member_names();
    reveal_with_fuel(lookup, 4);
    let entries = (MessageValue::Error { jsonrpc, id, error }).json()->Object_0;
    if id is Some {
        assert(entries.len() == 3);
        assert(entries.drop_last().len() == 2);
        assert(entries.drop_last().drop_last().len() == 1);
    } else {
        assert(entries.len() == 2);
        assert(entries.drop_last().len() == 1);
    }
}

/// A request or a notification that is written as a JSON value and read
/// again is the same message, unless its `params` is the value null, which
/// reads as no parameters.
pub proof fn lemma_call_round_trip(m: MessageValue)
    requires
        m is Request || m is Notification,
        m matches MessageValue::Request { params, .. } ==> params != Some(JsonValue::Null),
        m matches MessageValue::Notification { params, .. } ==> params != Some(JsonValue::Null),
    ensures
        MessageValue::of(m.json()) == Some(m),
{
    lemma_member_names();
    reveal_with_fuel(lookup, 5);
    let entries = m.json()->Object_0;
    match m {
        MessageValue::Request { jsonrpc, id, method, params } => {
            if params is Some {
                assert(entries.len() == 4);
                assert(entries.drop_last().len() == 3);
                assert(entries.drop_last().drop_last().len() == 2);
                assert(entries.drop_last().drop_last().drop_last().len() == 1);
            } else {
                assert(entries.len() == 3);
                assert(entries.drop_last().len() == 2);
                assert(entries.drop_last().drop_last().len() == 1);
            }
        },
        MessageValue::Notification { jsonrpc, method, params } => {
            if params is Some {
                assert(entries.len() == 3);
                assert(entries.drop_last().len() == 2);
                assert(entries.drop_last().drop_last().len() == 1);
            } else {
                assert(entries.len() == 2);
                assert(entries.drop_last().len() == 1);
            }
        },
        _ => {},
    }
}

} // verus!
