//! The dispatch engine: from a request to its answer.
//!
//! Some methods need work that only the caller can do: run the analysis
//! engine, look up the access token, send a request to the findings service.
//! For those the handler answers with a step that names the work; the caller
//! does it and hands the outcome back, until the step is `Done`.

use vstd::prelude::*;
use crate::api_client::deployments_call;
use crate::api_client::fetch_call;
use crate::api_client::findings_call;
use crate::api_client::findings_reading;
use crate::api_client::body_of;
use crate::api_client::slug_reading;
use crate::api_client::text_reading;
use crate::api_client::AnswerValue;
use crate::api_client::ApiClient;
use crate::api_client::HttpOutcome;
use crate::api_client::HttpRequest;
use crate::api_client::RequestValue;
use crate::codec::pretty;
use crate::codec::to_pretty;
use crate::json::entries_view;
use crate::json::items_view;
use crate::json::json_outcome;
use crate::json::new_entries;
use crate::json::push_entry;
use crate::json::Json;
use crate::json::JsonValue;
use crate::protocol::optional_view;
use crate::protocol::text_field;
use crate::protocol::ErrorValue;
use crate::protocol::JsonRpcError;
use crate::protocol::JsonRpcRequest;
use crate::protocol::INTERNAL_ERROR;
use crate::protocol::INVALID_PARAMS;
use crate::protocol::NOT_FOUND;
use crate::registry::prompts;
use crate::registry::prompts_listing;
use crate::registry::resources;
use crate::registry::resources_listing;
use crate::registry::tools;
use crate::registry::tools_listing;
use crate::schema::list_json;
use crate::schema::required_text;
use crate::schema::text_result;
use crate::schema::CallToolParams;
use crate::schema::CallToolResult;
use crate::schema::CallValue;
use crate::schema::Content;
use crate::schema::Encode;
use crate::schema::GetPromptParams;
use crate::schema::GetPromptResult;
use crate::schema::InitializeResult;
use crate::schema::ListPromptsResult;
use crate::schema::ListResourcesResult;
use crate::schema::ListToolsResult;
use crate::schema::PromptCallValue;
use crate::schema::PromptMessage;
use crate::schema::ReadResourceParams;
use crate::schema::ReadResourceResult;
use crate::schema::ResourceContent;
use crate::schema::ServerCapabilities;
use crate::schema::ServerInfo;
use crate::semgrep_wrapper::ast_arguments;
use crate::semgrep_wrapper::ast_reading;
use crate::semgrep_wrapper::custom_rule_arguments;
use crate::semgrep_wrapper::languages_arguments;
use crate::semgrep_wrapper::languages_reading;
use crate::semgrep_wrapper::output_of;
use crate::semgrep_wrapper::program;
use crate::semgrep_wrapper::scan_arguments;
use crate::semgrep_wrapper::scan_reading;
use crate::semgrep_wrapper::version_arguments;
use crate::semgrep_wrapper::version_reading;
use crate::semgrep_wrapper::Invocation;
use crate::semgrep_wrapper::InvocationValue;
use crate::semgrep_wrapper::RunOutcome;
use crate::semgrep_wrapper::RunValue;
use crate::semgrep_wrapper::SemgrepWrapper;
use crate::text::chain;
use crate::text::contains_char;
use crate::text::ends_with;
use crate::text::join;
use crate::text::joined;
use crate::text::same;
use crate::text::starts_with;
use crate::text::text_outcome;
use crate::text::views;

verus! {

/// What the outcome of a run is for.
#[derive(Debug, PartialEq, Eq, Clone, Copy)]
pub enum AfterRun {
    /// The version that `initialize` names as the server's.
    Initialize,
    /// The answer of the tool `get_version`.
    Version,
    /// The answer of the tool `supported_languages`.
    Languages,
    /// The answer of the tools `semgrep_scan` and `semgrep_scan_with_custom_rule`.
    Scan,
    /// The answer of the tool `get_abstract_syntax_tree`.
    Ast,
}

/// What the answer to a request is for.
#[derive(Debug, PartialEq)]
pub enum AfterFetch {
    /// The deployment whose findings are asked for next, with this token and
    /// these query parameters.
    Slug { token: String, query: Vec<(String, Json)> },
    /// The answer of the tool `semgrep_findings`.
    Findings,
    /// The content of the resource `uri`, which was fetched from `url`.
    Resource { uri: String, url: String },
}

/// What an `AfterFetch` stands for.
pub enum AfterFetchValue {
    Slug { token: Seq<char>, query: Seq<(Seq<char>, JsonValue)> },
    Findings,
    Resource { uri: Seq<char>, url: Seq<char> },
}

impl View for AfterFetch {
    type V = AfterFetchValue;

    open spec fn view(&self) -> AfterFetchValue {
        match self {
            AfterFetch::Slug { token, query } => AfterFetchValue::Slug {
                token: token@,
                query: entries_view(query@),
            },
            AfterFetch::Findings => AfterFetchValue::Findings,
            AfterFetch::Resource { uri, url } => AfterFetchValue::Resource { uri: uri@, url: url@ },
        }
    }
}

/// Where the handling of a request stands.
#[derive(Debug, PartialEq)]
pub enum Step {
    /// The request is answered, with a result or with an error.
    Done(Result<Json, JsonRpcError>),
    /// The invocation is to be run; its outcome goes to `Handler::after_run`.
    Run(Invocation, AfterRun),
    /// The request is to be sent; its outcome goes to `Handler::after_fetch`.
    Fetch(HttpRequest, AfterFetch),
    /// The variable is to be looked up in the environment; its value goes to
    /// `Handler::after_lookup`, with the query parameters.
    Lookup { variable: String, query: Vec<(String, Json)> },
}

/// What a `Step` stands for.
pub enum StepValue {
    Done(Result<JsonValue, ErrorValue>),
    Run(InvocationValue, AfterRun),
    Fetch(RequestValue, AfterFetchValue),
    Lookup { variable: Seq<char>, query: Seq<(Seq<char>, JsonValue)> },
}

/// The view of an answer.
pub open spec fn reply_view(r: Result<Json, JsonRpcError>) -> Result<JsonValue, ErrorValue> {
    match r {
        Ok(j) => Ok(j@),
        Err(e) => Err(e@),
    }
}

impl View for Step {
    type V = StepValue;

    open spec fn view(&self) -> StepValue {
        match self {
            Step::Done(r) => StepValue::Done(reply_view(*r)),
            Step::Run(invocation, then) => StepValue::Run(invocation@, *then),
            Step::Fetch(request, then) => StepValue::Fetch(request@, then@),
            Step::Lookup { variable, query } => StepValue::Lookup {
                variable: variable@,
                query: entries_view(query@),
            },
        }
    }
}

/// An error with a code and a message, and no data.
pub open spec fn failure(code: i32, message: Seq<char>) -> ErrorValue {
    ErrorValue { code, message, data: None }
}

/// A step that ends with an error.
pub open spec fn refused(code: i32, message: Seq<char>) -> StepValue {
    StepValue::Done(Err(failure(code, message)))
}

/// The parameters of a request, or an object without members where it has none.
pub open spec fn given(params: Option<JsonValue>) -> JsonValue {
    match params {
        Some(p) => p,
        None => JsonValue::Object(Seq::empty()),
    }
}

/// The step that runs the engine with `arguments`.
pub open spec fn engine_step(arguments: Seq<crate::semgrep_wrapper::ArgumentValue>, then: AfterRun) -> StepValue {
    StepValue::Run(InvocationValue { program: program(), arguments }, then)
}

/// The name of the variable that holds the access token of the findings service.
pub open spec fn token_variable() -> Seq<char> {
    "SEMGREP_APP_TOKEN"@
}

/// Where the schema of rules is fetched from.
pub open spec fn schema_url() -> Seq<char> {
    "https://raw.githubusercontent.com/semgrep/semgrep-interfaces/refs/heads/main/rule_schema_v1.yaml"@
}

/// Where the rule `id` is fetched from.
pub open spec fn rule_url(id: Seq<char>) -> Seq<char> {
    "https://semgrep.dev/c/r/"@ + id
}

/// What the URI of a resource names.
pub enum Located {
    /// The schema of rules: the URI is `semgrep://rule/schema`.
    Schema,
    /// The rule with this identifier: the URI is `semgrep://rule/`, the
    /// identifier, which is not empty and holds no slash, and `/yaml`.
    Rule(Seq<char>),
    /// Nothing: the URI begins with `semgrep://rule/` and is neither of the two.
    Malformed,
    /// Nothing: the URI does not begin with `semgrep://rule/`.
    Unknown,
}

/// What the URI `uri` names.
pub open spec fn locate(uri: Seq<char>) -> Located {
    if uri == "semgrep://rule/schema"@ {
        Located::Schema
    } else if "semgrep://rule/"@.is_prefix_of(uri) {
        let rest = uri.skip("semgrep://rule/"@.len() as int);
        let id = rest.take(rest.len() - "/yaml"@.len());
        if "/yaml"@.is_suffix_of(rest) && id.len() > 0 && !id.contains('/') {
            Located::Rule(id)
        } else {
            Located::Malformed
        }
    } else {
        Located::Unknown
    }
}

/// What the URI of a resource names, as the handler holds it.
#[derive(Debug, PartialEq)]
pub enum Location {
    Schema,
    Rule(String),
    Malformed,
    Unknown,
}

impl View for Location {
    type V = Located;

    open spec fn view(&self) -> Located {
        match self {
            Location::Schema => Located::Schema,
            Location::Rule(id) => Located::Rule(id@),
            Location::Malformed => Located::Malformed,
            Location::Unknown => Located::Unknown,
        }
    }
}

/// The strings among the items, in order.
pub open spec fn strings_in(items: Seq<JsonValue>) -> Seq<Seq<char>> {
    items.filter_map(|item: JsonValue| item.text())
}

/// The query parameter that an argument gives. `repos`, where it is an
/// array, becomes the string of its strings joined by commas; any other
/// argument is passed on as it is, unless it is null: then it gives none.
pub open spec fn query_entry(entry: (Seq<char>, JsonValue)) -> Option<(Seq<char>, JsonValue)> {
    let (key, value) = entry;
    if key == "repos"@ && value is Array {
        Some((key, JsonValue::String(joined(strings_in(value->Array_0), ","@))))
    } else if value is Null {
        None
    } else {
        Some(entry)
    }
}

/// The query parameters that a list of arguments gives, in order.
pub open spec fn query_of(entries: Seq<(Seq<char>, JsonValue)>) -> Seq<(Seq<char>, JsonValue)> {
    entries.filter_map(|entry: (Seq<char>, JsonValue)| query_entry(entry))
}

/// The query parameters that the arguments of `semgrep_findings` give.
pub open spec fn findings_query(arguments: JsonValue) -> Seq<(Seq<char>, JsonValue)> {
    match arguments {
        JsonValue::Object(entries) => query_of(entries),
        _ => Seq::empty(),
    }
}

/// The step that the tool `name` begins with, given its arguments.
pub open spec fn tool_step(name: Seq<char>, arguments: JsonValue) -> StepValue {
    if name == "get_version"@ {
        engine_step(version_arguments(), AfterRun::Version)
    } else if name == "supported_languages"@ {
        engine_step(languages_arguments(), AfterRun::Languages)
    } else if name == "semgrep_scan"@ {
        match arguments.field("paths"@) {
            None => refused(INVALID_PARAMS, "Missing paths"@),
            Some(p) => match p.texts() {
                None => refused(INVALID_PARAMS, "Invalid paths"@),
                Some(paths) => engine_step(
                    scan_arguments(text_field(arguments, "config"@), paths),
                    AfterRun::Scan,
                ),
            },
        }
    } else if name == "semgrep_scan_with_custom_rule"@ {
        match text_field(arguments, "rule"@) {
            None => refused(INVALID_PARAMS, "Missing rule"@),
            Some(rule) => match arguments.field("code_files"@) {
                None => refused(INVALID_PARAMS, "Missing code_files"@),
                Some(f) => match f.texts() {
                    None => refused(INVALID_PARAMS, "Invalid code_files"@),
                    Some(files) => engine_step(custom_rule_arguments(rule, files), AfterRun::Scan),
                },
            },
        }
    } else if name == "get_abstract_syntax_tree"@ {
        match text_field(arguments, "code"@) {
            None => refused(INVALID_PARAMS, "Missing code"@),
            Some(code) => match text_field(arguments, "language"@) {
                None => refused(INVALID_PARAMS, "Missing language"@),
                Some(language) => engine_step(ast_arguments(code, language), AfterRun::Ast),
            },
        }
    } else if name == "semgrep_findings"@ {
        StepValue::Lookup { variable: token_variable(), query: findings_query(arguments) }
    } else {
        refused(NOT_FOUND, "Tool not found: "@ + name)
    }
}

/// The step that `tools/call` begins with.
pub open spec fn call_tool(params: Option<JsonValue>) -> StepValue {
    match CallValue::of(given(params)) {
        Err(reason) => refused(INVALID_PARAMS, "Invalid params: "@ + reason),
        Ok(call) => tool_step(call.name, given(call.arguments)),
    }
}

/// The text that the prompt `write_custom_semgrep_rule` renders to.
pub open spec fn prompt_text(code: Seq<char>, language: Seq<char>) -> Seq<char> {
    "You are an expert at writing Semgrep rules.\n\nCode to analyze:\n```"@ + language + "\n"@ + code
        + "\n```\n\nLanguage: "@ + language
        + "\n\nCreate a Semgrep rule to detect issues in this code."@
}

/// The answer to `prompts/get` for a prompt that renders to `text`.
pub open spec fn prompt_result(text: Seq<char>) -> JsonValue {
    JsonValue::Object(
        seq![
            ("description"@, JsonValue::String("Write custom rule"@)),
            (
                "messages"@,
                JsonValue::Array(
                    seq![
                        JsonValue::Object(
                            seq![
                                ("role"@, JsonValue::String("user"@)),
                                (
                                    "content"@,
                                    JsonValue::Object(
                                        seq![
                                            ("type"@, JsonValue::String("text"@)),
                                            ("text"@, JsonValue::String(text)),
                                        ],
                                    ),
                                ),
                            ],
                        ),
                    ],
                ),
            ),
        ],
    )
}

/// The answer to `prompts/get`. An argument that is not given counts as the
/// empty string.
pub open spec fn get_prompt(params: Option<JsonValue>) -> Result<JsonValue, ErrorValue> {
    match PromptCallValue::of(given(params)) {
        Err(reason) => Err(failure(INVALID_PARAMS, "Invalid params: "@ + reason)),
        Ok(call) => if call.name == "write_custom_semgrep_rule"@ {
            Ok(prompt_result(prompt_text(call.argument("code"@), call.argument("language"@))))
        } else {
            Err(failure(NOT_FOUND, "Prompt not found"@))
        },
    }
}

/// The step that fetches the resource `uri` from `url`.
pub open spec fn fetch_step(uri: Seq<char>, url: Seq<char>) -> StepValue {
    StepValue::Fetch(fetch_call(url), AfterFetchValue::Resource { uri, url })
}

/// The step that `resources/read` begins with.
pub open spec fn read_resource(params: Option<JsonValue>) -> StepValue {
    match required_text(given(params), "uri"@) {
        Err(reason) => refused(INVALID_PARAMS, "Invalid params: "@ + reason),
        Ok(uri) => match locate(uri) {
            Located::Schema => fetch_step(uri, schema_url()),
            Located::Rule(id) => fetch_step(uri, rule_url(id)),
            Located::Malformed => refused(INVALID_PARAMS, "Invalid resource URI"@),
            Located::Unknown => refused(NOT_FOUND, "Resource not found"@),
        },
    }
}

/// The method table: the step that a request for `method` begins with.
pub open spec fn dispatch(method: Seq<char>, params: Option<JsonValue>) -> StepValue {
    if method == "initialize"@ {
        engine_step(version_arguments(), AfterRun::Initialize)
    } else if method == "tools/list"@ {
        StepValue::Done(Ok(tools_listing()))
    } else if method == "tools/call"@ {
        call_tool(params)
    } else if method == "prompts/list"@ {
        StepValue::Done(Ok(prompts_listing()))
    } else if method == "prompts/get"@ {
        StepValue::Done(get_prompt(params))
    } else if method == "resources/list"@ {
        StepValue::Done(Ok(resources_listing()))
    } else if method == "resources/read"@ {
        read_resource(params)
    } else if method == "notifications/initialized"@ {
        StepValue::Done(Ok(JsonValue::Null))
    } else {
        refused(NOT_FOUND, "Method not found: "@ + method)
    }
}

/// The answer to `initialize` of a server whose engine has this version.
pub open spec fn initialize_result(version: Seq<char>) -> JsonValue {
    JsonValue::Object(
        seq![
            ("protocolVersion"@, JsonValue::String("2024-11-05"@)),
            (
                "capabilities"@,
                JsonValue::Object(
                    seq![
                        ("logging"@, JsonValue::Object(Seq::empty())),
                        (
                            "tools"@,
                            JsonValue::Object(seq![("listChanged"@, JsonValue::Bool(false))]),
                        ),
                    ],
                ),
            ),
            (
                "serverInfo"@,
                JsonValue::Object(
                    seq![
                        ("name"@, JsonValue::String("sidero"@)),
                        ("version"@, JsonValue::String(version)),
                    ],
                ),
            ),
        ],
    )
}

/// The answer of a tool that has this text to tell, or failed with this message.
pub open spec fn tool_reply(told: Result<Seq<char>, Seq<char>>) -> Result<JsonValue, ErrorValue> {
    match told {
        Ok(text) => Ok(text_result(text)),
        Err(message) => Err(failure(INTERNAL_ERROR, message)),
    }
}

/// What a tool tells of a JSON value that it found: the value as indented text.
pub open spec fn written(found: Result<JsonValue, Seq<char>>) -> Result<Seq<char>, Seq<char>> {
    match found {
        Ok(j) => match pretty(j) {
            Some(text) => Ok(text),
            None => Err("Failed to write the result as text"@),
        },
        Err(message) => Err(message),
    }
}

/// What a tool tells of the languages that it found: their names, joined by
/// a comma and a space.
pub open spec fn listed(found: Result<Seq<Seq<char>>, Seq<char>>) -> Result<Seq<char>, Seq<char>> {
    match found {
        Ok(names) => Ok(joined(names, ", "@)),
        Err(message) => Err(message),
    }
}

/// The version that `initialize` names: that of the engine, or `unknown`
/// where the engine did not tell.
pub open spec fn version_or_unknown(found: Result<Seq<char>, Seq<char>>) -> Seq<char> {
    match found {
        Ok(version) => version,
        Err(_) => "unknown"@,
    }
}

/// The answer that the outcome of a run gives.
pub open spec fn run_reply(then: AfterRun, outcome: RunValue) -> Result<JsonValue, ErrorValue> {
    match then {
        AfterRun::Initialize => Ok(initialize_result(version_or_unknown(version_reading(outcome)))),
        AfterRun::Version => tool_reply(version_reading(outcome)),
        AfterRun::Languages => tool_reply(listed(languages_reading(outcome))),
        AfterRun::Scan => tool_reply(written(scan_reading(outcome, output_of(outcome)))),
        AfterRun::Ast => tool_reply(written(ast_reading(outcome, output_of(outcome)))),
    }
}

/// The step that follows the lookup of the access token. Without a token
/// there is nothing to ask the findings service with.
pub open spec fn lookup_step(query: Seq<(Seq<char>, JsonValue)>, token: Option<Seq<char>>) -> StepValue {
    match token {
        None => refused(INTERNAL_ERROR, "SEMGREP_APP_TOKEN not set"@),
        Some(t) => StepValue::Fetch(deployments_call(t), AfterFetchValue::Slug { token: t, query }),
    }
}

/// The answer to `resources/read` for the resource `uri` that holds `text`.
pub open spec fn resource_result(uri: Seq<char>, text: Seq<char>) -> JsonValue {
    JsonValue::Object(
        seq![
            (
                "contents"@,
                JsonValue::Array(
                    seq![
                        JsonValue::Object(
                            seq![
                                ("uri"@, JsonValue::String(uri)),
                                ("mimeType"@, JsonValue::String("text/plain"@)),
                                ("text"@, JsonValue::String(text)),
                            ],
                        ),
                    ],
                ),
            ),
        ],
    )
}

/// The step that the answer to a request gives.
pub open spec fn fetch_reply(then: AfterFetchValue, outcome: AnswerValue) -> StepValue {
    match then {
        AfterFetchValue::Slug { token, query } => match slug_reading(outcome, body_of(outcome)) {
            Err(message) => refused(INTERNAL_ERROR, message),
            Ok(slug) => StepValue::Fetch(findings_call(token, slug, query), AfterFetchValue::Findings),
        },
        AfterFetchValue::Findings => StepValue::Done(
            tool_reply(written(findings_reading(outcome, body_of(outcome)))),
        ),
        AfterFetchValue::Resource { uri, url } => match text_reading(url, outcome) {
            Err(message) => refused(INTERNAL_ERROR, message),
            Ok(text) => StepValue::Done(Ok(resource_result(uri, text))),
        },
    }
}

/// An internal error with this message.
pub fn internal_error(message: String) -> (r: JsonRpcError)
    ensures
        r@ == failure(INTERNAL_ERROR, message@),
{
    JsonRpcError::new(INTERNAL_ERROR, message)
}

fn refuse(code: i32, message: String) -> (r: Step)
    ensures
        r@ == refused(code, message@),
{
    Step::Done(Err(JsonRpcError::new(code, message)))
}

fn or_empty(params: Option<Json>) -> (r: Json)
    ensures
        r@ == given(optional_view(params)),
{
    match params {
        Some(p) => p,
        None => Json::object(new_entries()),
    }
}

/// The dispatch engine.
pub struct Handler;

impl Handler {
    /// The step that a request begins with, chosen by its method.
    pub fn handle_request(req: JsonRpcRequest) -> (r: Step)
        ensures
            r@ == dispatch(req.method@, optional_view(req.params)),
    {
        let method = req.method.as_str();
        if same(method, "initialize") {
            Self::handle_initialize(req.params)
        } else if same(method, "tools/list") {
            Step::Done(Ok(Self::handle_list_tools()))
        } else if same(method, "tools/call") {
            Self::handle_call_tool(req.params)
        } else if same(method, "prompts/list") {
            Step::Done(Ok(Self::handle_list_prompts()))
        } else if same(method, "prompts/get") {
            Step::Done(Self::handle_get_prompt(req.params))
        } else if same(method, "resources/list") {
            Step::Done(Ok(Self::handle_list_resources()))
        } else if same(method, "resources/read") {
            Self::handle_read_resource(req.params)
        } else if same(method, "notifications/initialized") {
            Step::Done(Ok(Json::Null))
        } else {
            refuse(NOT_FOUND, chain("Method not found: ", method))
        }
    }

    /// `initialize`: asks the engine for its version, whatever the parameters.
    pub fn handle_initialize(params: Option<Json>) -> (r: Step)
        ensures
            r@ == engine_step(version_arguments(), AfterRun::Initialize),
    {
        Step::Run(SemgrepWrapper::get_version(), AfterRun::Initialize)
    }

    /// The answer to `initialize` of a server whose engine has this version.
    pub fn initialized(version: String) -> (r: Json)
        ensures
            r@ == initialize_result(version@),
    {
        let mut tools = new_entries();
        push_entry(&mut tools, "listChanged", Json::Bool(false));
        let result = InitializeResult {
            protocolVersion: "2024-11-05".to_owned(),
            capabilities: ServerCapabilities {
                logging: Some(Json::object(new_entries())),
                tools: Some(Json::object(tools)),
            },
            serverInfo: ServerInfo { name: "sidero".to_owned(), version },
        };
        proof {
            assert(entries_view(tools@) =~= seq![("listChanged"@, JsonValue::Bool(false))]);
            assert(result.capabilities.json()->Object_0 =~= seq![
                ("logging"@, JsonValue::Object(Seq::empty())),
                ("tools"@, JsonValue::Object(seq![("listChanged"@, JsonValue::Bool(false))])),
            ]);
            assert(result.json()->Object_0 =~= initialize_result(version@)->Object_0);
        }
        result.to_json()
    }

    /// `tools/list`: the tools, in their fixed order.
    pub fn handle_list_tools() -> (r: Json)
        ensures
            r@ == tools_listing(),
    {
        let result = ListToolsResult { tools: tools() };
        result.to_json()
    }

    /// `tools/call`: reads the tool's name and arguments and begins the tool's work.
    pub fn handle_call_tool(params: Option<Json>) -> (r: Step)
        ensures
            r@ == call_tool(optional_view(params)),
    {
        let given = or_empty(params);
        match CallToolParams::from_json(&given) {
            Err(reason) => refuse(INVALID_PARAMS, chain("Invalid params: ", reason.as_str())),
            Ok(call) => {
                let arguments = or_empty(call.arguments);
                Self::begin_tool(call.name.as_str(), &arguments)
            },
        }
    }

    /// The step that the tool `name` begins with, given its arguments.
    pub fn begin_tool(name: &str, arguments: &Json) -> (r: Step)
        ensures
            r@ == tool_step(name@, arguments@),
    {
        if same(name, "get_version") {
            Step::Run(SemgrepWrapper::get_version(), AfterRun::Version)
        } else if same(name, "supported_languages") {
            Step::Run(SemgrepWrapper::get_supported_languages(), AfterRun::Languages)
        } else if same(name, "semgrep_scan") {
            let paths = match arguments.get("paths") {
                None => {
                    return refuse(INVALID_PARAMS, "Missing paths".to_owned());
                },
                Some(p) => match p.as_strings() {
                    None => {
                        return refuse(INVALID_PARAMS, "Invalid paths".to_owned());
                    },
                    Some(paths) => paths,
                },
            };
            let config = match arguments.get("config") {
                Some(Json::String(c)) => Some(c.clone()),
                _ => None,
            };
            Step::Run(SemgrepWrapper::scan(config, paths), AfterRun::Scan)
        } else if same(name, "semgrep_scan_with_custom_rule") {
            let rule = match arguments.get("rule") {
                Some(Json::String(rule)) => rule.clone(),
                _ => {
                    return refuse(INVALID_PARAMS, "Missing rule".to_owned());
                },
            };
            let files = match arguments.get("code_files") {
                None => {
                    return refuse(INVALID_PARAMS, "Missing code_files".to_owned());
                },
                Some(f) => match f.as_strings() {
                    None => {
                        return refuse(INVALID_PARAMS, "Invalid code_files".to_owned());
                    },
                    Some(files) => files,
                },
            };
            Step::Run(SemgrepWrapper::scan_with_custom_rule(rule, files), AfterRun::Scan)
        } else if same(name, "get_abstract_syntax_tree") {
            let code = match arguments.get("code") {
                Some(Json::String(code)) => code.clone(),
                _ => {
                    return refuse(INVALID_PARAMS, "Missing code".to_owned());
                },
            };
            let language = match arguments.get("language") {
                Some(Json::String(language)) => language.clone(),
                _ => {
                    return refuse(INVALID_PARAMS, "Missing language".to_owned());
                },
            };
            Step::Run(SemgrepWrapper::dump_ast(code, language), AfterRun::Ast)
        } else if same(name, "semgrep_findings") {
            Step::Lookup {
                variable: "SEMGREP_APP_TOKEN".to_owned(),
                query: Self::findings_query(arguments),
            }
        } else {
            refuse(NOT_FOUND, chain("Tool not found: ", name))
        }
    }

    /// The query parameters that the arguments of `semgrep_findings` give.
    pub fn findings_query(arguments: &Json) -> (r: Vec<(String, Json)>)
        ensures
            entries_view(r@) == findings_query(arguments@),
    {
        let mut query = new_entries();
        let entries = match arguments.as_object() {
            Some(entries) => entries,
            None => {
                return query;
            },
        };
        let ghost all = entries_view(entries@);
        let ghost pick = |entry: (Seq<char>, JsonValue)| query_entry(entry);
        let mut i: usize = 0;
        proof {
            assert(all.take(0) =~= Seq::empty());
        }
        while i < entries.len()
            invariant
                i <= entries.len(),
                all == entries_view(entries@),
                pick == |entry: (Seq<char>, JsonValue)| query_entry(entry),
                entries_view(query@) == all.take(i as int).filter_map(pick),
            decreases entries.len() - i,
        {
            proof {
                all.lemma_filter_map_take_succ(pick, i as int);
            }
            let ghost before = entries_view(query@);
            let key = entries[i].0.as_str();
            let value = &entries[i].1;
            let repos = match value {
                Json::Array(items) => if same(key, "repos") {
                    Some(items)
                } else {
                    None
                },
                _ => None,
            };
            match repos {
                Some(items) => {
                    proof {
                        crate::json::lemma_array_view(*items);
                    }
                    let names = Self::strings_in(items);
                    push_entry(&mut query, key, Json::String(join(&names, ",")));
                    proof {
                        assert(entries_view(query@) =~= before + seq![pick(all[i as int])->0]);
                    }
                },
                None => {
                    if !value.is_null() {
                        push_entry(&mut query, key, value.clone());
                        proof {
                            assert(entries_view(query@) =~= before + seq![pick(all[i as int])->0]);
                        }
                    } else {
                        proof {
                            assert(before + Seq::<(Seq<char>, JsonValue)>::empty() =~= before);
                        }
                    }
                },
            }
            i += 1;
        }
        proof {
            assert(all.take(all.len() as int) =~= all);
        }
        query
    }

    /// The strings among the items, in order.
    fn strings_in(items: &Vec<Json>) -> (r: Vec<String>)
        ensures
            views(r@) == strings_in(items_view(items@)),
    {
        let mut out: Vec<String> = Vec::new();
        let ghost all = items_view(items@);
        let ghost pick = |item: JsonValue| item.text();
        let mut i: usize = 0;
        proof {
            assert(all.take(0) =~= Seq::empty());
            assert(views(out@) =~= Seq::empty());
        }
        while i < items.len()
            invariant
                i <= items.len(),
                all == items_view(items@),
                pick == |item: JsonValue| item.text(),
                views(out@) == all.take(i as int).filter_map(pick),
            decreases items.len() - i,
        {
            proof {
                all.lemma_filter_map_take_succ(pick, i as int);
            }
            let ghost before = views(out@);
            match &items[i] {
                Json::String(s) => {
                    out.push(s.clone());
                    proof {
                        assert(views(out@) =~= before + seq![s@]);
                    }
                },
                _ => {
                    proof {
                        assert(before + Seq::<Seq<char>>::empty() =~= before);
                    }
                },
            }
            i += 1;
        }
        proof {
            assert(all.take(all.len() as int) =~= all);
        }
        out
    }

    /// `prompts/list`: the prompts.
    pub fn handle_list_prompts() -> (r: Json)
        ensures
            r@ == prompts_listing(),
    {
        let result = ListPromptsResult { prompts: prompts() };
        result.to_json()
    }

    /// `prompts/get`: renders the prompt that the parameters name.
    pub fn handle_get_prompt(params: Option<Json>) -> (r: Result<Json, JsonRpcError>)
        ensures
            reply_view(r) == get_prompt(optional_view(params)),
    {
        let given = or_empty(params);
        let call = match GetPromptParams::from_json(&given) {
            Err(reason) => {
                return Err(
                    JsonRpcError::new(INVALID_PARAMS, chain("Invalid params: ", reason.as_str())),
                );
            },
            Ok(call) => call,
        };
        if !same(call.name.as_str(), "write_custom_semgrep_rule") {
            return Err(JsonRpcError::new(NOT_FOUND, "Prompt not found".to_owned()));
        }
        let code = call.argument("code");
        let language = call.argument("language");
        let mut text =
            "You are an expert at writing Semgrep rules.\n\nCode to analyze:\n```".to_owned();
        text.append(language.as_str());
        text.append("\n");
        text.append(code.as_str());
        text.append("\n```\n\nLanguage: ");
        text.append(language.as_str());
        text.append("\n\nCreate a Semgrep rule to detect issues in this code.");
        let mut messages: Vec<PromptMessage> = Vec::new();
        messages.push(PromptMessage { role: "user".to_owned(), content: Content::Text { text } });
        let result = GetPromptResult { description: Some("Write custom rule".to_owned()), messages };
        proof {
            let rendered = prompt_text(code@, language@);
            assert(text@ == rendered);
            assert(result.messages@[0].content.json()->Object_0 =~= seq![
                ("type"@, JsonValue::String("text"@)),
                ("text"@, JsonValue::String(rendered)),
            ]);
            assert(result.messages@[0].json()->Object_0 =~= seq![
                ("role"@, JsonValue::String("user"@)),
                ("content"@, result.messages@[0].content.json()),
            ]);
            assert(list_json(result.messages@)->Array_0 =~= seq![result.messages@[0].json()]);
            assert(result.json()->Object_0 =~= prompt_result(rendered)->Object_0);
        }
        Ok(result.to_json())
    }

    /// `resources/list`: the resources.
    pub fn handle_list_resources() -> (r: Json)
        ensures
            r@ == resources_listing(),
    {
        let result = ListResourcesResult { resources: resources() };
        result.to_json()
    }

    /// What the URI of a resource names.
    pub fn locate(uri: &str) -> (r: Location)
        ensures
            r@ == locate(uri@),
    {
        if same(uri, "semgrep://rule/schema") {
            return Location::Schema;
        }
        if !starts_with(uri, "semgrep://rule/") {
            return Location::Unknown;
        }
        let skipped: usize = "semgrep://rule/".unicode_len();
        let rest = uri.substring_char(skipped, uri.unicode_len());
        proof {
            assert(rest@ =~= uri@.skip("semgrep://rule/"@.len() as int));
        }
        if !ends_with(rest, "/yaml") {
            return Location::Malformed;
        }
        let kept: usize = rest.unicode_len() - "/yaml".unicode_len();
        let id = rest.substring_char(0, kept);
        proof {
            assert(id@ =~= rest@.take(rest@.len() - "/yaml"@.len()));
        }
        if id.is_empty() || contains_char(id, '/') {
            return Location::Malformed;
        }
        Location::Rule(id.to_owned())
    }

    /// `resources/read`: finds what the URI names and begins to fetch it.
    pub fn handle_read_resource(params: Option<Json>) -> (r: Step)
        ensures
            r@ == read_resource(optional_view(params)),
    {
        let given = or_empty(params);
        let uri = match ReadResourceParams::from_json(&given) {
            Err(reason) => {
                return refuse(INVALID_PARAMS, chain("Invalid params: ", reason.as_str()));
            },
            Ok(p) => p.uri,
        };
        match Self::locate(uri.as_str()) {
            Location::Schema => {
                let url =
                    "https://raw.githubusercontent.com/semgrep/semgrep-interfaces/refs/heads/main/rule_schema_v1.yaml";
                Step::Fetch(
                    ApiClient::fetch_url(url),
                    AfterFetch::Resource { uri, url: url.to_owned() },
                )
            },
            Location::Rule(id) => {
                let url = chain("https://semgrep.dev/c/r/", id.as_str());
                Step::Fetch(ApiClient::fetch_url(url.as_str()), AfterFetch::Resource { uri, url })
            },
            Location::Malformed => refuse(INVALID_PARAMS, "Invalid resource URI".to_owned()),
            Location::Unknown => refuse(NOT_FOUND, "Resource not found".to_owned()),
        }
    }

    /// The answer of a tool that has this text to tell, or failed with this message.
    pub fn tool_result(told: Result<String, String>) -> (r: Result<Json, JsonRpcError>)
        ensures
            reply_view(r) == tool_reply(text_outcome(told)),
    {
        match told {
            Ok(text) => {
                let result = CallToolResult::text(text);
                Ok(result.to_json())
            },
            Err(message) => Err(internal_error(message)),
        }
    }

    /// What a tool tells of a JSON value that it found.
    fn write(found: Result<Json, String>) -> (r: Result<String, String>)
        ensures
            text_outcome(r) == written(json_outcome(found)),
    {
        match found {
            Ok(j) => match to_pretty(&j) {
                Some(text) => Ok(text),
                None => Err("Failed to write the result as text".to_owned()),
            },
            Err(message) => Err(message),
        }
    }

    /// The answer that the outcome of a run gives.
    pub fn after_run(then: AfterRun, outcome: &RunOutcome) -> (r: Result<Json, JsonRpcError>)
        ensures
            reply_view(r) == run_reply(then, outcome@),
    {
        match then {
            AfterRun::Initialize => {
                let version = match SemgrepWrapper::read_version(outcome) {
                    Ok(version) => version,
                    Err(_) => "unknown".to_owned(),
                };
                Ok(Self::initialized(version))
            },
            AfterRun::Version => Self::tool_result(SemgrepWrapper::read_version(outcome)),
            AfterRun::Languages => {
                let told = match SemgrepWrapper::read_supported_languages(outcome) {
                    Ok(names) => Ok(join(&names, ", ")),
                    Err(message) => Err(message),
                };
                Self::tool_result(told)
            },
            AfterRun::Scan => Self::tool_result(Self::write(SemgrepWrapper::read_scan(outcome))),
            AfterRun::Ast => Self::tool_result(Self::write(SemgrepWrapper::read_ast(outcome))),
        }
    }

    /// The step that follows the lookup of the access token.
    pub fn after_lookup(query: Vec<(String, Json)>, token: Option<String>) -> (r: Step)
        ensures
            r@ == lookup_step(entries_view(query@), crate::api_client::optional_string(token)),
    {
        match token {
            None => refuse(INTERNAL_ERROR, "SEMGREP_APP_TOKEN not set".to_owned()),
            Some(t) => {
                let request = ApiClient::list_deployments(t.as_str());
                Step::Fetch(request, AfterFetch::Slug { token: t, query })
            },
        }
    }

    /// The step that the answer to a request gives.
    pub fn after_fetch(then: AfterFetch, outcome: &HttpOutcome) -> (r: Step)
        ensures
            r@ == fetch_reply(then@, outcome@),
    {
        match then {
            AfterFetch::Slug { token, query } => match ApiClient::get_deployment_slug(outcome) {
                Err(message) => refuse(INTERNAL_ERROR, message),
                Ok(slug) => Step::Fetch(
                    ApiClient::get_findings(token.as_str(), slug.as_str(), query),
                    AfterFetch::Findings,
                ),
            },
            AfterFetch::Findings => Step::Done(
                Self::tool_result(Self::write(ApiClient::read_findings(outcome))),
            ),
            AfterFetch::Resource { uri, url } => match ApiClient::read_text(url.as_str(), outcome) {
                Err(message) => refuse(INTERNAL_ERROR, message),
                Ok(text) => {
                    let mut contents: Vec<ResourceContent> = Vec::new();
                    contents.push(
                        ResourceContent { uri, mimeType: Some("text/plain".to_owned()), text },
                    );
                    let result = ReadResourceResult { contents };
                    proof {
                        assert(result.contents@[0].json()->Object_0 =~= seq![
                            ("uri"@, JsonValue::String(uri@)),
                            ("mimeType"@, JsonValue::String("text/plain"@)),
                            ("text"@, JsonValue::String(text@)),
                        ]);
                        assert(list_json(result.contents@)->Array_0 =~= seq![
                            result.contents@[0].json(),
                        ]);
                        assert(result.json()->Object_0 =~= resource_result(uri@, text@)->Object_0);
                    }
                    Step::Done(Ok(result.to_json()))
                },
            },
        }
    }
}

/// Whether the method table holds `method`.
pub open spec fn registered(method: Seq<char>) -> bool {
    ||| method == "initialize"@
    ||| method == "tools/list"@
    ||| method == "tools/call"@
    ||| method == "prompts/list"@
    ||| method == "prompts/get"@
    ||| method == "resources/list"@
    ||| method == "resources/read"@
    ||| method == "notifications/initialized"@
}

/// A request for a method that the table does not hold is refused with the
/// code -32601, and the message ends with the method's name.
pub proof fn lemma_unregistered_method(method: Seq<char>, params: Option<JsonValue>)
    requires
        !registered(method),
    ensures
        dispatch(method, params) matches StepValue::Done(Err(error)) && error.code == -32601
            && error.message == "Method not found: "@ + method && method.is_suffix_of(error.message),
{
    let message = "Method not found: "@ + method;
    assert(message.subrange(message.len() - method.len(), message.len() as int) =~= method);
}

/// The tool `get_version` takes no arguments: whatever is given, it asks the
/// engine for its version, and where the engine ran, the answer holds what
/// it wrote as one piece of text.
pub proof fn lemma_version_tool(params: Option<JsonValue>, outcome: RunValue)
    requires
        CallValue::of(given(params)) matches Ok(call) && call.name == "get_version"@,
    ensures
        call_tool(params) == engine_step(version_arguments(), AfterRun::Version),
        outcome matches RunValue::Exited { stdout, .. } ==> run_reply(AfterRun::Version, outcome)
            == Ok::<JsonValue, ErrorValue>(text_result(crate::text::trimmed(stdout))),
{
}

/// The tool `semgrep_scan` without the argument `paths` is refused with the
/// code -32602.
pub proof fn lemma_scan_wants_paths(params: Option<JsonValue>)
    requires
        CallValue::of(given(params)) matches Ok(call) && call.name == "semgrep_scan"@ && given(
            call.arguments,
        ).field("paths"@) is None,
    ensures
        call_tool(params) == refused(INVALID_PARAMS, "Missing paths"@),
        INVALID_PARAMS == -32602,
{
    reveal_strlit("semgrep_scan");
    reveal_strlit("get_version");
    reveal_strlit("supported_languages");
    assert("semgrep_scan"@.len() == 12);
    assert("get_version"@.len() == 11);
    assert("supported_languages"@.len() == 19);
}

/// The prompt `write_custom_semgrep_rule` is rendered whatever arguments are
/// given: one that is missing counts as the empty string.
pub proof fn lemma_prompt_renders(params: Option<JsonValue>)
    requires
        PromptCallValue::of(given(params)) matches Ok(call) && call.name
            == "write_custom_semgrep_rule"@,
    ensures
        get_prompt(params) is Ok,
        ({
            let call = PromptCallValue::of(given(params))->Ok_0;
            &&& call.arguments is None ==> get_prompt(params) == Ok::<JsonValue, ErrorValue>(
                prompt_result(prompt_text(Seq::empty(), Seq::empty())),
            )
            &&& (call.arguments is Some && crate::schema::pair_lookup(call.arguments->0, "code"@)
                is None) ==> get_prompt(params) == Ok::<JsonValue, ErrorValue>(
                prompt_result(prompt_text(Seq::empty(), call.argument("language"@))),
            )
        }),
{
}

/// A tool that is not listed cannot be called: the call is refused with
/// the code -32601, and the message ends with the name.
pub proof fn lemma_unlisted_tool(name: Seq<char>, arguments: JsonValue)
    requires
        !crate::registry::tool_names().contains(name),
    ensures
        tool_step(name, arguments) == refused(NOT_FOUND, "Tool not found: "@ + name),
        NOT_FOUND == -32601,
{
    let names = crate::registry::tool_names();
    assert(names[0] == "semgrep_scan"@);
    assert(names[1] == "semgrep_scan_with_custom_rule"@);
    assert(names[2] == "get_abstract_syntax_tree"@);
    assert(names[3] == "semgrep_findings"@);
    assert(names[4] == "get_version"@);
    assert(names[5] == "supported_languages"@);
}

/// A tool that is listed can be called: the call begins outside work, or is
/// refused for its arguments with the code -32602, and for nothing else.
pub proof fn lemma_listed_tool(name: Seq<char>, arguments: JsonValue)
    requires
        crate::registry::tool_names().contains(name),
    ensures
        tool_step(name, arguments) matches StepValue::Done(outcome) ==> outcome matches Err(error)
            && error.code == -32602,
{
    let names = crate::registry::tool_names();
    let i = choose|i: int| 0 <= i < names.len() && names[i] == name;
    if i == 0 {
    } else if i == 1 {
    } else if i == 2 {
    } else if i == 3 {
    } else if i == 4 {
    } else {
        assert(i == 5);
    }
}

/// The layers of errors keep to their codes. What dispatch itself refuses
/// is not found, -32601, or has invalid parameters, -32602; what a
/// collaborator fails at is an internal error, -32603, whichever step of the
/// work it is.
pub proof fn lemma_error_codes(
    method: Seq<char>,
    params: Option<JsonValue>,
    then: AfterRun,
    ran: RunValue,
    query: Seq<(Seq<char>, JsonValue)>,
    after: AfterFetchValue,
    answered: AnswerValue,
)
    ensures
        dispatch(method, params) matches StepValue::Done(Err(error)) ==> error.code == -32601
            || error.code == -32602,
        run_reply(then, ran) matches Err(error) ==> error.code == -32603,
        lookup_step(query, None) matches StepValue::Done(Err(error)) && error.code == -32603,
        fetch_reply(after, answered) matches StepValue::Done(Err(error)) ==> error.code == -32603,
{
}

} // verus!
