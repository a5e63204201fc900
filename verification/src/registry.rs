//! The registry: the tools, prompts and resources that the server offers.
//! It is fixed; each listing is stated as the JSON value that a client sees.

use vstd::prelude::*;
use crate::json::entries_view;
use crate::json::items_view;
use crate::json::lookup;
use crate::json::new_entries;
use crate::json::new_items;
use crate::json::push_entry;
use crate::json::push_item;
use crate::json::Json;
use crate::json::JsonValue;
use crate::protocol::text_field;
use crate::schema::list_json;
use crate::schema::Encode;
use crate::schema::Prompt;
use crate::schema::PromptArgument;
use crate::schema::Resource;
use crate::schema::Tool;
use crate::text::views;

verus! {

/// The member `description` of a schema, where one is given.
pub open spec fn described(description: Option<Seq<char>>) -> Seq<(Seq<char>, JsonValue)> {
    match description {
        Some(d) => seq![("description"@, JsonValue::String(d))],
        None => Seq::empty(),
    }
}

/// The schema of a string.
pub open spec fn text_property(description: Option<Seq<char>>) -> JsonValue {
    JsonValue::Object(seq![("type"@, JsonValue::String("string"@))] + described(description))
}

/// The schema of an array of strings.
pub open spec fn list_property(description: Option<Seq<char>>) -> JsonValue {
    JsonValue::Object(
        seq![("type"@, JsonValue::String("array"@)), ("items"@, text_property(None))] + described(
            description,
        ),
    )
}

/// An array of strings.
pub open spec fn texts_json(texts: Seq<Seq<char>>) -> JsonValue {
    JsonValue::Array(Seq::new(texts.len(), |i: int| JsonValue::String(texts[i])))
}

/// The schema of an object with the given properties; `required` names those
/// that have to be there, and is left out where it is `None`.
pub open spec fn input_schema(
    properties: Seq<(Seq<char>, JsonValue)>,
    required: Option<Seq<Seq<char>>>,
) -> JsonValue {
    JsonValue::Object(
        seq![("type"@, JsonValue::String("object"@)), ("properties"@, JsonValue::Object(properties))]
            + match required {
            Some(names) => seq![("required"@, texts_json(names))],
            None => Seq::empty(),
        },
    )
}

/// The view of an optional string slice.
pub open spec fn optional_str(o: Option<&str>) -> Option<Seq<char>> {
    match o {
        Some(s) => Some(s@),
        None => None,
    }
}

/// The views of an optional list of strings.
pub open spec fn optional_views(o: Option<Vec<String>>) -> Option<Seq<Seq<char>>> {
    match o {
        Some(v) => Some(views(v@)),
        None => None,
    }
}

fn push_described(entries: &mut Vec<(String, Json)>, description: Option<&str>)
    ensures
        entries_view(final(entries)@) == entries_view(old(entries)@) + described(
            optional_str(description),
        ),
{
    match description {
        Some(d) => {
            push_entry(entries, "description", Json::string(d));
            assert(entries_view(entries@) =~= entries_view(old(entries)@) + described(
                optional_str(description),
            ));
        },
        None => {
            assert(entries_view(entries@) =~= entries_view(old(entries)@) + described(
                optional_str(description),
            ));
        },
    }
}

/// The schema of a string.
pub fn make_text_property(description: Option<&str>) -> (r: Json)
    ensures
        r@ == text_property(optional_str(description)),
{
    let mut entries = new_entries();
    push_entry(&mut entries, "type", Json::string("string"));
    push_described(&mut entries, description);
    proof {
        assert(entries_view(entries@) =~= text_property(optional_str(description))->Object_0);
    }
    Json::object(entries)
}

/// The schema of an array of strings.
pub fn make_list_property(description: Option<&str>) -> (r: Json)
    ensures
        r@ == list_property(optional_str(description)),
{
    let mut entries = new_entries();
    push_entry(&mut entries, "type", Json::string("array"));
    push_entry(&mut entries, "items", make_text_property(None));
    push_described(&mut entries, description);
    proof {
        assert(entries_view(entries@) =~= list_property(optional_str(description))->Object_0);
    }
    Json::object(entries)
}

/// An array of strings.
pub fn make_texts(texts: &Vec<String>) -> (r: Json)
    ensures
        r@ == texts_json(views(texts@)),
{
    let mut items = new_items();
    let mut i: usize = 0;
    while i < texts.len()
        invariant
            i <= texts.len(),
            items_view(items@).len() == i,
            forall|k: int| 0 <= k < i ==> items_view(items@)[k] == JsonValue::String(texts@[k]@),
        decreases texts.len() - i,
    {
        push_item(&mut items, Json::string(texts[i].as_str()));
        i += 1;
    }
    proof {
        assert(items_view(items@) =~= texts_json(views(texts@))->Array_0);
    }
    Json::array(items)
}

/// The schema of an object with the given properties.
pub fn make_input_schema(properties: Vec<(String, Json)>, required: Option<Vec<String>>) -> (r: Json)
    ensures
        r@ == input_schema(entries_view(properties@), optional_views(required)),
{
    let mut entries = new_entries();
    push_entry(&mut entries, "type", Json::string("object"));
    push_entry(&mut entries, "properties", Json::object(properties));
    match &required {
        Some(names) => {
            push_entry(&mut entries, "required", make_texts(names));
        },
        None => {},
    }
    proof {
        assert(entries_view(entries@) =~= input_schema(
            entries_view(properties@),
            optional_views(required),
        )->Object_0);
    }
    Json::object(entries)
}

/// A tool as a client sees it.
pub open spec fn tool_entry(name: Seq<char>, description: Seq<char>, schema: JsonValue) -> JsonValue {
    JsonValue::Object(
        seq![
            ("name"@, JsonValue::String(name)),
            ("description"@, JsonValue::String(description)),
            ("inputSchema"@, schema),
        ],
    )
}

/// The arguments of a scan: `paths`, which has to be there, and `config`.
pub open spec fn scan_schema() -> JsonValue {
    input_schema(
        seq![
            ("paths"@, list_property(Some("List of file paths to scan"@))),
            ("config"@, text_property(Some("Rule configuration"@))),
        ],
        Some(seq!["paths"@]),
    )
}

/// The arguments of a scan with a rule of the caller's: `rule` and
/// `code_files`, which both have to be there.
pub open spec fn custom_rule_schema() -> JsonValue {
    input_schema(
        seq![
            ("rule"@, text_property(Some("YAML rule content"@))),
            ("code_files"@, list_property(Some("Files to scan"@))),
        ],
        Some(seq!["rule"@, "code_files"@]),
    )
}

/// The arguments of a syntax tree dump: `code` and `language`, which both
/// have to be there.
pub open spec fn ast_schema() -> JsonValue {
    input_schema(
        seq![
            ("code"@, text_property(Some("Code content"@))),
            ("language"@, text_property(Some("Language of the code"@))),
        ],
        Some(seq!["code"@, "language"@]),
    )
}

/// The arguments of a findings query: four filters, none of which has to be there.
pub open spec fn findings_schema() -> JsonValue {
    input_schema(
        seq![
            ("issue_type"@, text_property(None)),
            ("status"@, text_property(None)),
            ("repos"@, list_property(None)),
            ("severities"@, list_property(None)),
        ],
        Some(Seq::empty()),
    )
}

/// The arguments of a tool that takes none.
pub open spec fn empty_schema() -> JsonValue {
    input_schema(Seq::empty(), None)
}

/// The names of the tools, in the order in which they are listed.
pub open spec fn tool_names() -> Seq<Seq<char>> {
    seq![
        "semgrep_scan"@,
        "semgrep_scan_with_custom_rule"@,
        "get_abstract_syntax_tree"@,
        "semgrep_findings"@,
        "get_version"@,
        "supported_languages"@,
    ]
}

/// The tools as a client sees them, in the order in which they are listed.
pub open spec fn tool_entries() -> Seq<JsonValue> {
    seq![
        tool_entry("semgrep_scan"@, "Run a Semgrep scan on specific paths"@, scan_schema()),
        tool_entry(
            "semgrep_scan_with_custom_rule"@,
            "Run a scan with a custom ad-hoc rule"@,
            custom_rule_schema(),
        ),
        tool_entry("get_abstract_syntax_tree"@, "Get the AST of a code snippet"@, ast_schema()),
        tool_entry("semgrep_findings"@, "Fetch Semgrep findings"@, findings_schema()),
        tool_entry("get_version"@, "Get Semgrep version"@, empty_schema()),
        tool_entry("supported_languages"@, "List supported languages"@, empty_schema()),
    ]
}

/// The answer to `tools/list`.
pub open spec fn tools_listing() -> JsonValue {
    JsonValue::Object(seq![("tools"@, JsonValue::Array(tool_entries()))])
}

/// An argument of a prompt as a client sees it.
pub open spec fn argument_entry(name: Seq<char>, description: Seq<char>, required: bool) -> JsonValue {
    JsonValue::Object(
        seq![
            ("name"@, JsonValue::String(name)),
            ("description"@, JsonValue::String(description)),
            ("required"@, JsonValue::Bool(required)),
        ],
    )
}

/// The prompts as a client sees them.
pub open spec fn prompt_entries() -> Seq<JsonValue> {
    seq![
        JsonValue::Object(
            seq![
                ("name"@, JsonValue::String("write_custom_semgrep_rule"@)),
                ("description"@, JsonValue::String("Helper to write a custom Semgrep rule"@)),
                (
                    "arguments"@,
                    JsonValue::Array(
                        seq![
                            argument_entry("code"@, "Code snippet"@, true),
                            argument_entry("language"@, "Language"@, true),
                        ],
                    ),
                ),
            ],
        ),
    ]
}

/// The answer to `prompts/list`.
pub open spec fn prompts_listing() -> JsonValue {
    JsonValue::Object(seq![("prompts"@, JsonValue::Array(prompt_entries()))])
}

/// The resources as a client sees them.
pub open spec fn resource_entries() -> Seq<JsonValue> {
    seq![
        JsonValue::Object(
            seq![
                ("uri"@, JsonValue::String("semgrep://rule/schema"@)),
                ("name"@, JsonValue::String("Semgrep Rule Schema"@)),
                ("description"@, JsonValue::String("JSON Schema for Semgrep Rules"@)),
                ("mimeType"@, JsonValue::String("application/json"@)),
            ],
        ),
    ]
}

/// The answer to `resources/list`.
pub open spec fn resources_listing() -> JsonValue {
    JsonValue::Object(seq![("resources"@, JsonValue::Array(resource_entries()))])
}

fn make_tool(name: &str, description: &str, schema: Json) -> (r: Tool)
    ensures
        r.name@ == name@,
        r.json() == tool_entry(name@, description@, schema@),
{
    let r = Tool {
        name: name.to_owned(),
        description: Some(description.to_owned()),
        inputSchema: schema,
    };
    proof {
        assert(r.json()->Object_0 =~= tool_entry(name@, description@, schema@)->Object_0);
    }
    r
}

fn make_scan_schema() -> (r: Json)
    ensures
        r@ == scan_schema(),
{
    let mut properties = new_entries();
    push_entry(&mut properties, "paths", make_list_property(Some("List of file paths to scan")));
    push_entry(&mut properties, "config", make_text_property(Some("Rule configuration")));
    let mut required: Vec<String> = Vec::new();
    required.push("paths".to_owned());
    proof {
        assert(views(required@) =~= seq!["paths"@]);
        assert(entries_view(properties@) =~= seq![
            ("paths"@, list_property(Some("List of file paths to scan"@))),
            ("config"@, text_property(Some("Rule configuration"@))),
        ]);
    }
    make_input_schema(properties, Some(required))
}

fn make_custom_rule_schema() -> (r: Json)
    ensures
        r@ == custom_rule_schema(),
{
    let mut properties = new_entries();
    push_entry(&mut properties, "rule", make_text_property(Some("YAML rule content")));
    push_entry(&mut properties, "code_files", make_list_property(Some("Files to scan")));
    let mut required: Vec<String> = Vec::new();
    required.push("rule".to_owned());
    required.push("code_files".to_owned());
    proof {
        assert(views(required@) =~= seq!["rule"@, "code_files"@]);
        assert(entries_view(properties@) =~= seq![
            ("rule"@, text_property(Some("YAML rule content"@))),
            ("code_files"@, list_property(Some("Files to scan"@))),
        ]);
    }
    make_input_schema(properties, Some(required))
}

fn make_ast_schema() -> (r: Json)
    ensures
        r@ == ast_schema(),
{
    let mut properties = new_entries();
    push_entry(&mut properties, "code", make_text_property(Some("Code content")));
    push_entry(&mut properties, "language", make_text_property(Some("Language of the code")));
    let mut required: Vec<String> = Vec::new();
    required.push("code".to_owned());
    required.push("language".to_owned());
    proof {
        assert(views(required@) =~= seq!["code"@, "language"@]);
        assert(entries_view(properties@) =~= seq![
            ("code"@, text_property(Some("Code content"@))),
            ("language"@, text_property(Some("Language of the code"@))),
        ]);
    }
    make_input_schema(properties, Some(required))
}

fn make_findings_schema() -> (r: Json)
    ensures
        r@ == findings_schema(),
{
    let mut properties = new_entries();
    push_entry(&mut properties, "issue_type", make_text_property(None));
    push_entry(&mut properties, "status", make_text_property(None));
    push_entry(&mut properties, "repos", make_list_property(None));
    push_entry(&mut properties, "severities", make_list_property(None));
    let required: Vec<String> = Vec::new();
    proof {
        assert(views(required@) =~= Seq::<Seq<char>>::empty());
        assert(entries_view(properties@) =~= seq![
            ("issue_type"@, text_property(None)),
            ("status"@, text_property(None)),
            ("repos"@, list_property(None)),
            ("severities"@, list_property(None)),
        ]);
    }
    make_input_schema(properties, Some(required))
}

fn make_empty_schema() -> (r: Json)
    ensures
        r@ == empty_schema(),
{
    make_input_schema(new_entries(), None)
}

/// The tools, in the order in which they are listed.
pub fn tools() -> (r: Vec<Tool>)
    ensures
        list_json(r@) == JsonValue::Array(tool_entries()),
        r@.len() == tool_names().len(),
        forall|i: int| 0 <= i < r@.len() ==> (#[trigger] r@[i]).name@ == tool_names()[i],
{
    let mut r: Vec<Tool> = Vec::new();
    r.push(make_tool("semgrep_scan", "Run a Semgrep scan on specific paths", make_scan_schema()));
    r.push(
        make_tool(
            "semgrep_scan_with_custom_rule",
            "Run a scan with a custom ad-hoc rule",
            make_custom_rule_schema(),
        ),
    );
    r.push(make_tool("get_abstract_syntax_tree", "Get the AST of a code snippet", make_ast_schema()));
    r.push(make_tool("semgrep_findings", "Fetch Semgrep findings", make_findings_schema()));
    r.push(make_tool("get_version", "Get Semgrep version", make_empty_schema()));
    r.push(make_tool("supported_languages", "List supported languages", make_empty_schema()));
    proof {
        assert(list_json(r@)->Array_0 =~= tool_entries());
    }
    r
}

fn make_argument(name: &str, description: &str, required: bool) -> (r: PromptArgument)
    ensures
        r.json() == argument_entry(name@, description@, required),
{
    let r = PromptArgument {
        name: name.to_owned(),
        description: Some(description.to_owned()),
        required: Some(required),
    };
    proof {
        assert(r.json()->Object_0 =~= argument_entry(name@, description@, required)->Object_0);
    }
    r
}

/// The prompts, in the order in which they are listed.
pub fn prompts() -> (r: Vec<Prompt>)
    ensures
        list_json(r@) == JsonValue::Array(prompt_entries()),
{
    let mut arguments: Vec<PromptArgument> = Vec::new();
    arguments.push(make_argument("code", "Code snippet", true));
    arguments.push(make_argument("language", "Language", true));
    proof {
        assert(list_json(arguments@)->Array_0 =~= seq![
            argument_entry("code"@, "Code snippet"@, true),
            argument_entry("language"@, "Language"@, true),
        ]);
    }
    let prompt = Prompt {
        name: "write_custom_semgrep_rule".to_owned(),
        description: Some("Helper to write a custom Semgrep rule".to_owned()),
        arguments: Some(arguments),
    };
    proof {
        assert(prompt.json()->Object_0 =~= prompt_entries()[0]->Object_0);
    }
    let mut r: Vec<Prompt> = Vec::new();
    r.push(prompt);
    proof {
        assert(list_json(r@)->Array_0 =~= prompt_entries());
    }
    r
}

/// The resources, in the order in which they are listed.
pub fn resources() -> (r: Vec<Resource>)
    ensures
        list_json(r@) == JsonValue::Array(resource_entries()),
{
    let resource = Resource {
        uri: "semgrep://rule/schema".to_owned(),
        name: "Semgrep Rule Schema".to_owned(),
        description: Some("JSON Schema for Semgrep Rules".to_owned()),
        mimeType: Some("application/json".to_owned()),
    };
    proof {
        assert(resource.json()->Object_0 =~= resource_entries()[0]->Object_0);
    }
    let mut r: Vec<Resource> = Vec::new();
    r.push(resource);
    proof {
        assert(list_json(r@)->Array_0 =~= resource_entries());
    }
    r
}

/// The name of a tool is read back from its entry.
proof fn lemma_tool_entry_name(name: Seq<char>, description: Seq<char>, schema: JsonValue)
    ensures
        text_field(tool_entry(name, description, schema), "name"@) == Some(name),
{
    reveal_strlit("name");
    reveal_strlit("description");
    reveal_strlit("inputSchema");
    reveal_with_fuel(lookup, 4);
    assert("name"@.len() == 4);
    assert("description"@.len() == 11);
    assert("inputSchema"@.len() == 11);
    let entries = tool_entry(name, description, schema)->Object_0;
    assert(entries.len() == 3);
    assert(entries.drop_last().len() == 2);
    assert(entries.drop_last().drop_last().len() == 1);
    assert(entries.drop_last().drop_last().last() == entries[0]);
}

/// The listing of tools holds six tools, and their names in order are
/// `semgrep_scan`, `semgrep_scan_with_custom_rule`, `get_abstract_syntax_tree`,
/// `semgrep_findings`, `get_version` and `supported_languages`.
pub proof fn lemma_tool_names()
    ensures
        tools_listing().field("tools"@) == Some(JsonValue::Array(tool_entries())),
        tool_entries().len() == 6,
        tool_names().len() == 6,
        forall|i: int|
            0 <= i < 6 ==> text_field(#[trigger] tool_entries()[i], "name"@) == Some(tool_names()[i]),
{
    reveal_with_fuel(lookup, 2);
    lemma_tool_entry_name(
        "semgrep_scan"@,
        "Run a Semgrep scan on specific paths"@,
        scan_schema(),
    );
    lemma_tool_entry_name(
        "semgrep_scan_with_custom_rule"@,
        "Run a scan with a custom ad-hoc rule"@,
        custom_rule_schema(),
    );
    lemma_tool_entry_name("get_abstract_syntax_tree"@, "Get the AST of a code snippet"@, ast_schema());
    lemma_tool_entry_name("semgrep_findings"@, "Fetch Semgrep findings"@, findings_schema());
    lemma_tool_entry_name("get_version"@, "Get Semgrep version"@, empty_schema());
    lemma_tool_entry_name("supported_languages"@, "List supported languages"@, empty_schema());
    assert forall|i: int| 0 <= i < 6 implies text_field(#[trigger] tool_entries()[i], "name"@)
        == Some(tool_names()[i]) by {
        if i == 0 {
        } else if i == 1 {
        } else if i == 2 {
        } else if i == 3 {
        } else if i == 4 {
        } else {
            assert(i == 5);
        }
    }
}

} // verus!
