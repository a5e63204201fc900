//! The capability schema: what is exchanged when tools, prompts and resources
//! are listed, called and read, and how each piece is written as, or read
//! from, a JSON value.

use vstd::prelude::*;
use crate::json::entries_view;
use crate::json::items_view;
use crate::json::new_entries;
use crate::json::new_items;
use crate::json::push_entry;
use crate::json::push_item;
use crate::json::Json;
use crate::json::JsonValue;
use crate::protocol::optional_field;
use crate::protocol::optional_view;
use crate::protocol::written_if_some;
use crate::text::chain3;
use crate::text::same;
use crate::text::text_outcome;

verus! {

/// A piece of the schema that is written as a JSON value.
pub trait Encode {
    /// The JSON value that stands for this piece.
    spec fn json(&self) -> JsonValue;

    /// Writes this piece as a JSON value.
    fn to_json(&self) -> (r: Json)
        ensures
            r@ == self.json(),
    ;
}

/// The array of what the pieces of a list are written as.
pub open spec fn list_json<T: Encode>(items: Seq<T>) -> JsonValue {
    JsonValue::Array(Seq::new(items.len(), |i: int| items[i].json()))
}

/// Writes a list of pieces as an array, in order.
pub fn list_to_json<T: Encode>(items: &Vec<T>) -> (r: Json)
    ensures
        r@ == list_json(items@),
{
    let mut out = new_items();
    let mut i: usize = 0;
    while i < items.len()
        invariant
            i <= items.len(),
            items_view(out@).len() == i,
            forall|k: int| 0 <= k < i ==> items_view(out@)[k] == #[trigger] items@[k].json(),
        decreases items.len() - i,
    {
        push_item(&mut out, items[i].to_json());
        i += 1;
    }
    proof {
        assert(items_view(out@) =~= list_json(items@)->Array_0);
    }
    Json::array(out)
}

/// A string where there is one.
pub open spec fn optional_text(o: Option<String>) -> Option<JsonValue> {
    match o {
        Some(s) => Some(JsonValue::String(s@)),
        None => None,
    }
}

/// A truth value where there is one.
pub open spec fn optional_bool(o: Option<bool>) -> Option<JsonValue> {
    match o {
        Some(b) => Some(JsonValue::Bool(b)),
        None => None,
    }
}

fn push_text(entries: &mut Vec<(String, Json)>, key: &str, value: &str)
    ensures
        entries_view(final(entries)@) == entries_view(old(entries)@).push(
            (key@, JsonValue::String(value@)),
        ),
{
    push_entry(entries, key, Json::string(value));
}

fn push_optional(entries: &mut Vec<(String, Json)>, key: &str, value: Option<Json>)
    ensures
        entries_view(final(entries)@) == entries_view(old(entries)@) + written_if_some(
            key@,
            optional_view(value),
        ),
{
    match value {
        Some(v) => {
            push_entry(entries, key, v);
            assert(entries_view(entries@) =~= entries_view(old(entries)@) + written_if_some(
                key@,
                optional_view(value),
            ));
        },
        None => {
            assert(entries_view(entries@) =~= entries_view(old(entries)@) + written_if_some(
                key@,
                optional_view(value),
            ));
        },
    }
}

fn json_of_text(o: &Option<String>) -> (r: Option<Json>)
    ensures
        optional_view(r) == optional_text(*o),
{
    match o {
        Some(s) => Some(Json::string(s.as_str())),
        None => None,
    }
}

fn json_of_bool(o: &Option<bool>) -> (r: Option<Json>)
    ensures
        optional_view(r) == optional_bool(*o),
{
    match o {
        Some(b) => Some(Json::Bool(*b)),
        None => None,
    }
}

fn json_of_json(o: &Option<Json>) -> (r: Option<Json>)
    ensures
        optional_view(r) == optional_view(*o),
{
    match o {
        Some(j) => Some(j.clone()),
        None => None,
    }
}

/// Who the server says it is.
#[derive(Debug, PartialEq)]
pub struct ServerInfo {
    pub name: String,
    pub version: String,
}

impl Encode for ServerInfo {
    open spec fn json(&self) -> JsonValue {
        JsonValue::Object(
            seq![
                ("name"@, JsonValue::String(self.name@)),
                ("version"@, JsonValue::String(self.version@)),
            ],
        )
    }

    fn to_json(&self) -> (r: Json) {
        let mut entries = new_entries();
        push_text(&mut entries, "name", self.name.as_str());
        push_text(&mut entries, "version", self.version.as_str());
        proof {
            assert(entries_view(entries@) =~= self.json()->Object_0);
        }
        Json::object(entries)
    }
}

/// What the server offers; a capability that is `None` is not written.
#[derive(Debug, PartialEq)]
pub struct ServerCapabilities {
    pub logging: Option<Json>,
    pub tools: Option<Json>,
}

impl Encode for ServerCapabilities {
    open spec fn json(&self) -> JsonValue {
        JsonValue::Object(
            written_if_some("logging"@, optional_view(self.logging)) + written_if_some(
                "tools"@,
                optional_view(self.tools),
            ),
        )
    }

    fn to_json(&self) -> (r: Json) {
        let mut entries = new_entries();
        push_optional(&mut entries, "logging", json_of_json(&self.logging));
        push_optional(&mut entries, "tools", json_of_json(&self.tools));
        proof {
            assert(entries_view(entries@) =~= self.json()->Object_0);
        }
        Json::object(entries)
    }
}

/// The answer to `initialize`.
#[allow(non_snake_case)]
#[derive(Debug, PartialEq)]
pub struct InitializeResult {
    pub protocolVersion: String,
    pub capabilities: ServerCapabilities,
    pub serverInfo: ServerInfo,
}

impl Encode for InitializeResult {
    open spec fn json(&self) -> JsonValue {
        JsonValue::Object(
            seq![
                ("protocolVersion"@, JsonValue::String(self.protocolVersion@)),
                ("capabilities"@, self.capabilities.json()),
                ("serverInfo"@, self.serverInfo.json()),
            ],
        )
    }

    fn to_json(&self) -> (r: Json) {
        let mut entries = new_entries();
        push_text(&mut entries, "protocolVersion", self.protocolVersion.as_str());
        push_entry(&mut entries, "capabilities", self.capabilities.to_json());
        push_entry(&mut entries, "serverInfo", self.serverInfo.to_json());
        proof {
            assert(entries_view(entries@) =~= self.json()->Object_0);
        }
        Json::object(entries)
    }
}

/// A tool: its name, what it does, and the shape of its arguments as a JSON
/// Schema; `description` is not written when it is `None`.
#[allow(non_snake_case)]
#[derive(Debug, PartialEq)]
pub struct Tool {
    pub name: String,
    pub description: Option<String>,
    pub inputSchema: Json,
}

impl Encode for Tool {
    open spec fn json(&self) -> JsonValue {
        JsonValue::Object(
            seq![("name"@, JsonValue::String(self.name@))] + written_if_some(
                "description"@,
                optional_text(self.description),
            ) + seq![("inputSchema"@, self.inputSchema@)],
        )
    }

    fn to_json(&self) -> (r: Json) {
        let mut entries = new_entries();
        push_text(&mut entries, "name", self.name.as_str());
        push_optional(&mut entries, "description", json_of_text(&self.description));
        push_entry(&mut entries, "inputSchema", self.inputSchema.clone());
        proof {
            assert(entries_view(entries@) =~= self.json()->Object_0);
        }
        Json::object(entries)
    }
}

/// The answer to `tools/list`.
#[derive(Debug, PartialEq)]
pub struct ListToolsResult {
    pub tools: Vec<Tool>,
}

impl Encode for ListToolsResult {
    open spec fn json(&self) -> JsonValue {
        JsonValue::Object(seq![("tools"@, list_json(self.tools@))])
    }

    fn to_json(&self) -> (r: Json) {
        let mut entries = new_entries();
        push_entry(&mut entries, "tools", list_to_json(&self.tools));
        proof {
            assert(entries_view(entries@) =~= self.json()->Object_0);
        }
        Json::object(entries)
    }
}

/// One piece of what a tool or a prompt hands back. Text is the only kind.
#[derive(Debug, PartialEq)]
pub enum Content {
    Text { text: String },
}

impl Encode for Content {
    open spec fn json(&self) -> JsonValue {
        match self {
            Content::Text { text } => JsonValue::Object(
                seq![("type"@, JsonValue::String("text"@)), ("text"@, JsonValue::String(text@))],
            ),
        }
    }

    fn to_json(&self) -> (r: Json) {
        match self {
            Content::Text { text } => {
                let mut entries = new_entries();
                push_text(&mut entries, "type", "text");
                push_text(&mut entries, "text", text.as_str());
                proof {
                    assert(entries_view(entries@) =~= self.json()->Object_0);
                }
                Json::object(entries)
            },
        }
    }
}

/// The answer to `tools/call`; `isError` is not written when it is `None`.
#[allow(non_snake_case)]
#[derive(Debug, PartialEq)]
pub struct CallToolResult {
    pub content: Vec<Content>,
    pub isError: Option<bool>,
}

impl Encode for CallToolResult {
    open spec fn json(&self) -> JsonValue {
        JsonValue::Object(
            seq![("content"@, list_json(self.content@))] + written_if_some(
                "isError"@,
                optional_bool(self.isError),
            ),
        )
    }

    fn to_json(&self) -> (r: Json) {
        let mut entries = new_entries();
        push_entry(&mut entries, "content", list_to_json(&self.content));
        push_optional(&mut entries, "isError", json_of_bool(&self.isError));
        proof {
            assert(entries_view(entries@) =~= self.json()->Object_0);
        }
        Json::object(entries)
    }
}

/// The JSON value of a tool result that holds one piece of text and no error flag.
pub open spec fn text_result(text: Seq<char>) -> JsonValue {
    JsonValue::Object(
        seq![
            (
                "content"@,
                JsonValue::Array(
                    seq![
                        JsonValue::Object(
                            seq![
                                ("type"@, JsonValue::String("text"@)),
                                ("text"@, JsonValue::String(text)),
                            ],
                        ),
                    ],
                ),
            ),
        ],
    )
}

impl CallToolResult {
    /// A result that holds `text` as its one piece of content.
    pub fn text(text: String) -> (r: CallToolResult)
        ensures
            r.content@.len() == 1,
            r.content@[0] == (Content::Text { text }),
            r.isError is None,
            r.json() == text_result(text@),
    {
        let mut content: Vec<Content> = Vec::new();
        content.push(Content::Text { text });
        let r = CallToolResult { content, isError: None };
        proof {
            assert(list_json(r.content@)->Array_0 =~= seq![r.content@[0].json()]);
            assert(r.json()->Object_0 =~= text_result(text@)->Object_0);
        }
        r
    }
}

/// One argument of a prompt; `description` and `required` are not written
/// when they are `None`.
#[derive(Debug, PartialEq)]
pub struct PromptArgument {
    pub name: String,
    pub description: Option<String>,
    pub required: Option<bool>,
}

impl Encode for PromptArgument {
    open spec fn json(&self) -> JsonValue {
        JsonValue::Object(
            seq![("name"@, JsonValue::String(self.name@))] + written_if_some(
                "description"@,
                optional_text(self.description),
            ) + written_if_some("required"@, optional_bool(self.required)),
        )
    }

    fn to_json(&self) -> (r: Json) {
        let mut entries = new_entries();
        push_text(&mut entries, "name", self.name.as_str());
        push_optional(&mut entries, "description", json_of_text(&self.description));
        push_optional(&mut entries, "required", json_of_bool(&self.required));
        proof {
            assert(entries_view(entries@) =~= self.json()->Object_0);
        }
        Json::object(entries)
    }
}

/// The arguments of a prompt as a JSON array, where it has a list of them.
pub open spec fn optional_arguments(o: Option<Vec<PromptArgument>>) -> Option<JsonValue> {
    match o {
        Some(a) => Some(list_json(a@)),
        None => None,
    }
}

/// A prompt: its name, what it is for, and its arguments in order;
/// `description` and `arguments` are not written when they are `None`.
#[derive(Debug, PartialEq)]
pub struct Prompt {
    pub name: String,
    pub description: Option<String>,
    pub arguments: Option<Vec<PromptArgument>>,
}

impl Encode for Prompt {
    open spec fn json(&self) -> JsonValue {
        JsonValue::Object(
            seq![("name"@, JsonValue::String(self.name@))] + written_if_some(
                "description"@,
                optional_text(self.description),
            ) + written_if_some("arguments"@, optional_arguments(self.arguments)),
        )
    }

    fn to_json(&self) -> (r: Json) {
        let mut entries = new_entries();
        push_text(&mut entries, "name", self.name.as_str());
        push_optional(&mut entries, "description", json_of_text(&self.description));
        let arguments = match &self.arguments {
            Some(a) => Some(list_to_json(a)),
            None => None,
        };
        push_optional(&mut entries, "arguments", arguments);
        proof {
            assert(entries_view(entries@) =~= self.json()->Object_0);
        }
        Json::object(entries)
    }
}

/// The answer to `prompts/list`.
#[derive(Debug, PartialEq)]
pub struct ListPromptsResult {
    pub prompts: Vec<Prompt>,
}

impl Encode for ListPromptsResult {
    open spec fn json(&self) -> JsonValue {
        JsonValue::Object(seq![("prompts"@, list_json(self.prompts@))])
    }

    fn to_json(&self) -> (r: Json) {
        let mut entries = new_entries();
        push_entry(&mut entries, "prompts", list_to_json(&self.prompts));
        proof {
            assert(entries_view(entries@) =~= self.json()->Object_0);
        }
        Json::object(entries)
    }
}

/// One message of a rendered prompt.
#[derive(Debug, PartialEq)]
pub struct PromptMessage {
    pub role: String,
    pub content: Content,
}

impl Encode for PromptMessage {
    open spec fn json(&self) -> JsonValue {
        JsonValue::Object(
            seq![("role"@, JsonValue::String(self.role@)), ("content"@, self.content.json())],
        )
    }

    fn to_json(&self) -> (r: Json) {
        let mut entries = new_entries();
        push_text(&mut entries, "role", self.role.as_str());
        push_entry(&mut entries, "content", self.content.to_json());
        proof {
            assert(entries_view(entries@) =~= self.json()->Object_0);
        }
        Json::object(entries)
    }
}

/// The answer to `prompts/get`; `description` is not written when it is `None`.
#[derive(Debug, PartialEq)]
pub struct GetPromptResult {
    pub description: Option<String>,
    pub messages: Vec<PromptMessage>,
}

impl Encode for GetPromptResult {
    open spec fn json(&self) -> JsonValue {
        JsonValue::Object(
            written_if_some("description"@, optional_text(self.description)) + seq![
                ("messages"@, list_json(self.messages@)),
            ],
        )
    }

    fn to_json(&self) -> (r: Json) {
        let mut entries = new_entries();
        push_optional(&mut entries, "description", json_of_text(&self.description));
        push_entry(&mut entries, "messages", list_to_json(&self.messages));
        proof {
            assert(entries_view(entries@) =~= self.json()->Object_0);
        }
        Json::object(entries)
    }
}

/// A resource: where it is, its name, what it is, and its MIME type;
/// `description` and `mimeType` are not written when they are `None`.
#[allow(non_snake_case)]
#[derive(Debug, PartialEq)]
pub struct Resource {
    pub uri: String,
    pub name: String,
    pub description: Option<String>,
    pub mimeType: Option<String>,
}

impl Encode for Resource {
    open spec fn json(&self) -> JsonValue {
        JsonValue::Object(
            seq![("uri"@, JsonValue::String(self.uri@)), ("name"@, JsonValue::String(self.name@))]
                + written_if_some("description"@, optional_text(self.description))
                + written_if_some("mimeType"@, optional_text(self.mimeType)),
        )
    }

    fn to_json(&self) -> (r: Json) {
        let mut entries = new_entries();
        push_text(&mut entries, "uri", self.uri.as_str());
        push_text(&mut entries, "name", self.name.as_str());
        push_optional(&mut entries, "description", json_of_text(&self.description));
        push_optional(&mut entries, "mimeType", json_of_text(&self.mimeType));
        proof {
            assert(entries_view(entries@) =~= self.json()->Object_0);
        }
        Json::object(entries)
    }
}

/// The answer to `resources/list`.
#[derive(Debug, PartialEq)]
pub struct ListResourcesResult {
    pub resources: Vec<Resource>,
}

impl Encode for ListResourcesResult {
    open spec fn json(&self) -> JsonValue {
        JsonValue::Object(seq![("resources"@, list_json(self.resources@))])
    }

    fn to_json(&self) -> (r: Json) {
        let mut entries = new_entries();
        push_entry(&mut entries, "resources", list_to_json(&self.resources));
        proof {
            assert(entries_view(entries@) =~= self.json()->Object_0);
        }
        Json::object(entries)
    }
}

/// What a resource holds; `mimeType` is not written when it is `None`.
#[allow(non_snake_case)]
#[derive(Debug, PartialEq)]
pub struct ResourceContent {
    pub uri: String,
    pub mimeType: Option<String>,
    pub text: String,
}

impl Encode for ResourceContent {
    open spec fn json(&self) -> JsonValue {
        JsonValue::Object(
            seq![("uri"@, JsonValue::String(self.uri@))] + written_if_some(
                "mimeType"@,
                optional_text(self.mimeType),
            ) + seq![("text"@, JsonValue::String(self.text@))],
        )
    }

    fn to_json(&self) -> (r: Json) {
        let mut entries = new_entries();
        push_text(&mut entries, "uri", self.uri.as_str());
        push_optional(&mut entries, "mimeType", json_of_text(&self.mimeType));
        push_text(&mut entries, "text", self.text.as_str());
        proof {
            assert(entries_view(entries@) =~= self.json()->Object_0);
        }
        Json::object(entries)
    }
}

/// The answer to `resources/read`.
#[derive(Debug, PartialEq)]
pub struct ReadResourceResult {
    pub contents: Vec<ResourceContent>,
}

impl Encode for ReadResourceResult {
    open spec fn json(&self) -> JsonValue {
        JsonValue::Object(seq![("contents"@, list_json(self.contents@))])
    }

    fn to_json(&self) -> (r: Json) {
        let mut entries = new_entries();
        push_entry(&mut entries, "contents", list_to_json(&self.contents));
        proof {
            assert(entries_view(entries@) =~= self.json()->Object_0);
        }
        Json::object(entries)
    }
}

/// What is said of a member that has to be there and is not.
pub open spec fn missing(key: Seq<char>) -> Seq<char> {
    "missing field `"@ + key + "`"@
}

/// What is said of a member that is of another type than the one asked for.
pub open spec fn mistyped(key: Seq<char>) -> Seq<char> {
    "invalid type for field `"@ + key + "`"@
}

fn say_missing(key: &str) -> (r: String)
    ensures
        r@ == missing(key@),
{
    chain3("missing field `", key, "`")
}

fn say_mistyped(key: &str) -> (r: String)
    ensures
        r@ == mistyped(key@),
{
    chain3("invalid type for field `", key, "`")
}

/// The string member `key` of `j`, which has to be there; else what is said of it.
pub open spec fn required_text(j: JsonValue, key: Seq<char>) -> Result<Seq<char>, Seq<char>> {
    match j.field(key) {
        None => Err(missing(key)),
        Some(JsonValue::String(s)) => Ok(s),
        Some(_) => Err(mistyped(key)),
    }
}

/// Reads the string member `key` of `j`, which has to be there.
pub fn get_required_text(j: &Json, key: &str) -> (r: Result<String, String>)
    ensures
        text_outcome(r) == required_text(j@, key@),
{
    match j.get(key) {
        None => Err(say_missing(key)),
        Some(Json::String(s)) => Ok(s.clone()),
        Some(_) => Err(say_mistyped(key)),
    }
}

/// What a client sends with `tools/call`: the tool's name and its arguments.
#[derive(Debug, PartialEq)]
pub struct CallToolParams {
    pub name: String,
    pub arguments: Option<Json>,
}

/// What `CallToolParams` stands for.
pub struct CallValue {
    pub name: Seq<char>,
    pub arguments: Option<JsonValue>,
}

impl View for CallToolParams {
    type V = CallValue;

    open spec fn view(&self) -> CallValue {
        CallValue { name: self.name@, arguments: optional_view(self.arguments) }
    }
}

impl CallValue {
    /// The parameters that `j` holds: its string `name`, which has to be
    /// there, and its `arguments` where they are there and not null.
    pub open spec fn of(j: JsonValue) -> Result<CallValue, Seq<char>> {
        match required_text(j, "name"@) {
            Err(e) => Err(e),
            Ok(name) => Ok(CallValue { name, arguments: optional_field(j, "arguments"@) }),
        }
    }
}

impl CallToolParams {
    /// Reads the parameters from `j`.
    pub fn from_json(j: &Json) -> (r: Result<CallToolParams, String>)
        ensures
            match r {
                Ok(p) => CallValue::of(j@) == Ok::<CallValue, Seq<char>>(p@),
                Err(e) => CallValue::of(j@) == Err::<CallValue, Seq<char>>(e@),
            },
    {
        let name = match get_required_text(j, "name") {
            Ok(n) => n,
            Err(e) => {
                return Err(e);
            },
        };
        let arguments = match j.get("arguments") {
            Some(v) => if v.is_null() {
                None
            } else {
                Some(v.clone())
            },
            None => None,
        };
        Ok(CallToolParams { name, arguments })
    }
}

/// The pairs of strings that a list of entries holds, where every value is a string.
pub open spec fn text_pairs(entries: Seq<(Seq<char>, JsonValue)>) -> Option<Seq<(Seq<char>, Seq<char>)>> {
    if forall|i: int| 0 <= i < entries.len() ==> (#[trigger] entries[i]).1 is String {
        Some(Seq::new(entries.len(), |i: int| (entries[i].0, entries[i].1->String_0)))
    } else {
        None
    }
}

/// The views of a list of pairs of strings.
pub open spec fn pairs_view(pairs: Seq<(String, String)>) -> Seq<(Seq<char>, Seq<char>)> {
    Seq::new(pairs.len(), |i: int| (pairs[i].0@, pairs[i].1@))
}

/// The views of an optional list of pairs of strings.
pub open spec fn optional_pairs(o: Option<Vec<(String, String)>>) -> Option<Seq<(Seq<char>, Seq<char>)>> {
    match o {
        Some(p) => Some(pairs_view(p@)),
        None => None,
    }
}

/// The value under `key` in a list of pairs: that of the last pair with this key.
pub open spec fn pair_lookup(pairs: Seq<(Seq<char>, Seq<char>)>, key: Seq<char>) -> Option<Seq<char>>
    decreases pairs.len(),
{
    if pairs.len() == 0 {
        None
    } else if pairs.last().0 == key {
        Some(pairs.last().1)
    } else {
        pair_lookup(pairs.drop_last(), key)
    }
}

/// What a client sends with `prompts/get`: the prompt's name and the values
/// of its arguments, as pairs of name and value.
#[derive(Debug, PartialEq)]
pub struct GetPromptParams {
    pub name: String,
    pub arguments: Option<Vec<(String, String)>>,
}

/// What `GetPromptParams` stands for.
pub struct PromptCallValue {
    pub name: Seq<char>,
    pub arguments: Option<Seq<(Seq<char>, Seq<char>)>>,
}

impl View for GetPromptParams {
    type V = PromptCallValue;

    open spec fn view(&self) -> PromptCallValue {
        PromptCallValue { name: self.name@, arguments: optional_pairs(self.arguments) }
    }
}

impl PromptCallValue {
    /// The parameters that `j` holds: its string `name`, which has to be
    /// there, and its `arguments`: none where they are missing or null, the
    /// pairs of an object whose values are all strings, and nothing else.
    pub open spec fn of(j: JsonValue) -> Result<PromptCallValue, Seq<char>> {
        match required_text(j, "name"@) {
            Err(e) => Err(e),
            Ok(name) => match optional_field(j, "arguments"@) {
                None => Ok(PromptCallValue { name, arguments: None }),
                Some(JsonValue::Object(entries)) => match text_pairs(entries) {
                    Some(pairs) => Ok(PromptCallValue { name, arguments: Some(pairs) }),
                    None => Err(mistyped("arguments"@)),
                },
                Some(_) => Err(mistyped("arguments"@)),
            },
        }
    }

    /// The value given for the argument `key`; the empty string where none is given.
    pub open spec fn argument(self, key: Seq<char>) -> Seq<char> {
        match self.arguments {
            Some(pairs) => match pair_lookup(pairs, key) {
                Some(v) => v,
                None => Seq::empty(),
            },
            None => Seq::empty(),
        }
    }
}

impl GetPromptParams {
    /// Reads the parameters from `j`.
    pub fn from_json(j: &Json) -> (r: Result<GetPromptParams, String>)
        ensures
            match r {
                Ok(p) => PromptCallValue::of(j@) == Ok::<PromptCallValue, Seq<char>>(p@),
                Err(e) => PromptCallValue::of(j@) == Err::<PromptCallValue, Seq<char>>(e@),
            },
    {
        let name = match get_required_text(j, "name") {
            Ok(n) => n,
            Err(e) => {
                return Err(e);
            },
        };
        let given = match j.get("arguments") {
            Some(v) => v,
            None => {
                return Ok(GetPromptParams { name, arguments: None });
            },
        };
        match given {
            Json::Null => Ok(GetPromptParams { name, arguments: None }),
            Json::Object(entries) => {
                proof {
                    crate::json::lemma_object_view(*entries);
                }
                let ghost all = entries_view(entries@);
                let mut pairs: Vec<(String, String)> = Vec::new();
                let mut i: usize = 0;
                while i < entries.len()
                    invariant
                        i <= entries.len(),
                        all == entries_view(entries@),
                        optional_field(j@, "arguments"@) == Some(JsonValue::Object(all)),
                        required_text(j@, "name"@) == Ok::<Seq<char>, Seq<char>>(name@),
                        pairs@.len() == i,
                        forall|k: int|
                            0 <= k < i ==> all[k].1 == JsonValue::String(#[trigger] pairs@[k].1@)
                                && all[k].0 == pairs@[k].0@,
                    decreases entries.len() - i,
                {
                    match &entries[i].1 {
                        Json::String(s) => {
                            pairs.push((entries[i].0.clone(), s.clone()));
                        },
                        _ => {
                            assert(!(all[i as int].1 is String));
                            return Err(say_mistyped("arguments"));
                        },
                    }
                    i += 1;
                }
                proof {
                    assert forall|k: int| 0 <= k < all.len() implies (#[trigger] all[k]).1 is String by {
                        assert(all[k].1 == JsonValue::String(pairs@[k].1@));
                    }
                    assert(text_pairs(all)->0 =~= pairs_view(pairs@));
                }
                Ok(GetPromptParams { name, arguments: Some(pairs) })
            },
            _ => Err(say_mistyped("arguments")),
        }
    }

    /// The value given for the argument `key`, or the empty string where none is given.
    pub fn argument(&self, key: &str) -> (r: String)
        ensures
            r@ == self@.argument(key@),
    {
        match &self.arguments {
            Some(pairs) => {
                let ghost all = pairs_view(pairs@);
                let mut i: usize = pairs.len();
                proof {
                    assert(all.take(all.len() as int) =~= all);
                }
                while i > 0
                    invariant
                        i <= pairs.len(),
                        all == pairs_view(pairs@),
                        optional_pairs(self.arguments) == Some(all),
                        pair_lookup(all, key@) == pair_lookup(all.take(i as int), key@),
                    decreases i,
                {
                    proof {
                        let t = all.take(i as int);
                        assert(t.last() == all[i - 1]);
                        assert(t.drop_last() =~= all.take(i - 1));
                    }
                    if same(pairs[i - 1].0.as_str(), key) {
                        return pairs[i - 1].1.clone();
                    }
                    i -= 1;
                }
                String::new()
            },
            None => String::new(),
        }
    }
}

/// What a client sends with `resources/read`: where the resource is.
#[derive(Debug, PartialEq)]
pub struct ReadResourceParams {
    pub uri: String,
}

impl ReadResourceParams {
    /// Reads the parameters from `j`: its string `uri`, which has to be there.
    pub fn from_json(j: &Json) -> (r: Result<ReadResourceParams, String>)
        ensures
            match r {
                Ok(p) => required_text(j@, "uri"@) == Ok::<Seq<char>, Seq<char>>(p.uri@),
                Err(e) => required_text(j@, "uri"@) == Err::<Seq<char>, Seq<char>>(e@),
            },
    {
        match get_required_text(j, "uri") {
            Ok(uri) => Ok(ReadResourceParams { uri }),
            Err(e) => Err(e),
        }
    }
}

/// Who the client says it is.
#[derive(Debug, PartialEq)]
pub struct ClientInfo {
    pub name: String,
    pub version: String,
}

/// What `ClientInfo` stands for.
pub struct ClientValue {
    pub name: Seq<char>,
    pub version: Seq<char>,
}

impl View for ClientInfo {
    type V = ClientValue;

    open spec fn view(&self) -> ClientValue {
        ClientValue { name: self.name@, version: self.version@ }
    }
}

impl ClientValue {
    /// The client that `j` names: its strings `name` and `version`, which
    /// both have to be there.
    pub open spec fn of(j: JsonValue) -> Result<ClientValue, Seq<char>> {
        match required_text(j, "name"@) {
            Err(e) => Err(e),
            Ok(name) => match required_text(j, "version"@) {
                Err(e) => Err(e),
                Ok(version) => Ok(ClientValue { name, version }),
            },
        }
    }
}

impl ClientInfo {
    /// Reads the client from `j`.
    pub fn from_json(j: &Json) -> (r: Result<ClientInfo, String>)
        ensures
            match r {
                Ok(c) => ClientValue::of(j@) == Ok::<ClientValue, Seq<char>>(c@),
                Err(e) => ClientValue::of(j@) == Err::<ClientValue, Seq<char>>(e@),
            },
    {
        let name = match get_required_text(j, "name") {
            Ok(name) => name,
            Err(e) => {
                return Err(e);
            },
        };
        match get_required_text(j, "version") {
            Ok(version) => Ok(ClientInfo { name, version }),
            Err(e) => Err(e),
        }
    }
}

/// What a client sends with `initialize`.
#[allow(non_snake_case)]
#[derive(Debug, PartialEq)]
pub struct InitializeParams {
    pub protocolVersion: String,
    pub capabilities: Json,
    pub clientInfo: ClientInfo,
}

/// What `InitializeParams` stands for.
pub struct InitializeValue {
    pub version: Seq<char>,
    pub capabilities: JsonValue,
    pub client: ClientValue,
}

impl View for InitializeParams {
    type V = InitializeValue;

    open spec fn view(&self) -> InitializeValue {
        InitializeValue {
            version: self.protocolVersion@,
            capabilities: self.capabilities@,
            client: self.clientInfo@,
        }
    }
}

impl InitializeValue {
    /// The parameters that `j` holds: its string `protocolVersion`, its
    /// `capabilities`, whatever they are, and its `clientInfo`, which all
    /// have to be there.
    pub open spec fn of(j: JsonValue) -> Result<InitializeValue, Seq<char>> {
        match required_text(j, "protocolVersion"@) {
            Err(e) => Err(e),
            Ok(version) => match j.field("capabilities"@) {
                None => Err(missing("capabilities"@)),
                Some(capabilities) => match j.field("clientInfo"@) {
                    None => Err(missing("clientInfo"@)),
                    Some(info) => match ClientValue::of(info) {
                        Err(e) => Err(e),
                        Ok(client) => Ok(InitializeValue { version, capabilities, client }),
                    },
                },
            },
        }
    }
}

impl InitializeParams {
    /// Reads the parameters from `j`.
    pub fn from_json(j: &Json) -> (r: Result<InitializeParams, String>)
        ensures
            match r {
                Ok(p) => InitializeValue::of(j@) == Ok::<InitializeValue, Seq<char>>(p@),
                Err(e) => InitializeValue::of(j@) == Err::<InitializeValue, Seq<char>>(e@),
            },
    {
        let version = match get_required_text(j, "protocolVersion") {
            Ok(version) => version,
            Err(e) => {
                return Err(e);
            },
        };
        let capabilities = match j.get("capabilities") {
            Some(capabilities) => capabilities.clone(),
            None => {
                return Err(say_missing("capabilities"));
            },
        };
        let info = match j.get("clientInfo") {
            Some(info) => info,
            None => {
                return Err(say_missing("clientInfo"));
            },
        };
        match ClientInfo::from_json(info) {
            Ok(client) => Ok(
                InitializeParams { protocolVersion: version, capabilities, clientInfo: client },
            ),
            Err(e) => Err(e),
        }
    }
}

} // verus!
