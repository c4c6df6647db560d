//! The MCP manifest that describes the server to MCP clients.

use vstd::prelude::*;
use crate::json::{
    JsonValue, JsonSpec, json_view, members_view, items_view, lemma_members_view_empty,
    lemma_items_view_empty, json_str, push_member, push_item,
};

verus! {

/// A string value.
pub open spec fn str_spec(s: Seq<char>) -> JsonSpec {
    JsonSpec::Str(s)
}

/// A parameter property: its type and description.
pub open spec fn prop_spec(t: Seq<char>, d: Seq<char>) -> JsonSpec {
    JsonSpec::Obj(seq![("type"@, str_spec(t)), ("description"@, str_spec(d))])
}

/// A tool's parameter object: its properties and its one required name.
pub open spec fn params_spec(props: Seq<(Seq<char>, JsonSpec)>, required: Seq<char>) -> JsonSpec {
    JsonSpec::Obj(seq![
        ("type"@, str_spec("object"@)),
        ("properties"@, JsonSpec::Obj(props)),
        ("required"@, JsonSpec::Arr(seq![str_spec(required)])),
    ])
}

/// A tool entry of the manifest.
pub open spec fn tool_spec(name: Seq<char>, description: Seq<char>, params: JsonSpec) -> JsonSpec {
    JsonSpec::Obj(seq![("name"@, str_spec(name)), ("description"@, str_spec(description)), ("parameters"@, params)])
}

/// The tools the manifest lists.
pub open spec fn manifest_tools_spec() -> Seq<JsonSpec> {
    seq![
        tool_spec("analyze_code"@, "Analyze code for complexity, technical debt, and refactoring opportunities"@,
            params_spec(seq![
                ("path"@, prop_spec("string"@, "Path to code directory or file"@)),
                ("format"@, JsonSpec::Obj(seq![
                    ("type"@, str_spec("string"@)),
                    ("enum"@, JsonSpec::Arr(seq![str_spec("json"@), str_spec("markdown"@), str_spec("html"@)])),
                    ("description"@, str_spec("Output format"@)),
                ])),
            ], "path"@)),
        tool_spec("get_refactoring_suggestions"@, "Get specific refactoring suggestions for code entities"@,
            params_spec(seq![
                ("entity_id"@, prop_spec("string"@, "Code entity identifier"@)),
                ("max_suggestions"@, prop_spec("integer"@, "Maximum number of suggestions"@)),
            ], "entity_id"@)),
        tool_spec("validate_quality_gates"@, "Validate code against quality gate thresholds for CI/CD integration"@,
            params_spec(seq![
                ("path"@, prop_spec("string"@, "Path to code directory or file"@)),
                ("max_complexity"@, prop_spec("number"@, "Maximum allowed complexity score"@)),
                ("min_health"@, prop_spec("number"@, "Minimum required health score"@)),
                ("max_debt"@, prop_spec("number"@, "Maximum allowed technical debt ratio"@)),
                ("max_issues"@, prop_spec("integer"@, "Maximum allowed number of issues"@)),
            ], "path"@)),
        tool_spec("analyze_file_quality"@, "Analyze quality metrics and issues for a specific file"@,
            params_spec(seq![
                ("file_path"@, prop_spec("string"@, "Path to the specific file to analyze"@)),
                ("include_suggestions"@, prop_spec("boolean"@, "Whether to include refactoring suggestions"@)),
            ], "file_path"@)),
    ]
}

/// The manifest document for a server version.
pub open spec fn manifest_spec(version: Seq<char>) -> JsonSpec {
    JsonSpec::Obj(seq![
        ("name"@, str_spec("valknut"@)),
        ("version"@, str_spec(version)),
        ("description"@, str_spec("AI-Powered Code Analysis & Refactoring Assistant"@)),
        ("author"@, str_spec("Nathan Rice"@)),
        ("license"@, str_spec("MIT"@)),
        ("homepage"@, str_spec("https://github.com/nathanricedev/valknut"@)),
        ("capabilities"@, JsonSpec::Obj(seq![("tools"@, JsonSpec::Arr(manifest_tools_spec()))])),
        ("server"@, JsonSpec::Obj(seq![
            ("command"@, str_spec("valknut"@)),
            ("args"@, JsonSpec::Arr(seq![str_spec("mcp-stdio"@)])),
        ])),
    ])
}

fn prop(t: &str, d: &str) -> (res: JsonValue)
    ensures
        json_view(res) == prop_spec(t@, d@),
{
    proof { lemma_members_view_empty(); }
    let mut m: Vec<(String, JsonValue)> = Vec::new();
    push_member(&mut m, "type", json_str(t));
    push_member(&mut m, "description", json_str(d));
    assert(members_view(m@) =~= seq![("type"@, str_spec(t@)), ("description"@, str_spec(d@))]);
    JsonValue::Obj(m)
}

fn params(props: Vec<(String, JsonValue)>, required: &str) -> (res: JsonValue)
    ensures
        json_view(res) == params_spec(members_view(props@), required@),
{
    proof {
        lemma_members_view_empty();
        lemma_items_view_empty();
    }
    let mut req: Vec<JsonValue> = Vec::new();
    push_item(&mut req, json_str(required));
    let ghost req_view = items_view(req@);
    let ghost props_view = members_view(props@);
    let mut m: Vec<(String, JsonValue)> = Vec::new();
    push_member(&mut m, "type", json_str("object"));
    push_member(&mut m, "properties", JsonValue::Obj(props));
    push_member(&mut m, "required", JsonValue::Arr(req));
    assert(req_view =~= seq![str_spec(required@)]);
    assert(members_view(m@) =~= seq![
        ("type"@, str_spec("object"@)),
        ("properties"@, JsonSpec::Obj(props_view)),
        ("required"@, JsonSpec::Arr(req_view)),
    ]);
    JsonValue::Obj(m)
}

fn tool(name: &str, description: &str, parameters: JsonValue) -> (res: JsonValue)
    ensures
        json_view(res) == tool_spec(name@, description@, json_view(parameters)),
{
    proof { lemma_members_view_empty(); }
    let ghost pv = json_view(parameters);
    let mut m: Vec<(String, JsonValue)> = Vec::new();
    push_member(&mut m, "name", json_str(name));
    push_member(&mut m, "description", json_str(description));
    push_member(&mut m, "parameters", parameters);
    assert(members_view(m@) =~= seq![("name"@, str_spec(name@)), ("description"@, str_spec(description@)), ("parameters"@, pv)]);
    JsonValue::Obj(m)
}

fn analyze_code_tool() -> (res: JsonValue)
    ensures
        json_view(res) == manifest_tools_spec()[0],
{
    proof {
        lemma_members_view_empty();
        lemma_items_view_empty();
    }
    let mut formats: Vec<JsonValue> = Vec::new();
    push_item(&mut formats, json_str("json"));
    push_item(&mut formats, json_str("markdown"));
    push_item(&mut formats, json_str("html"));
    let ghost fv = items_view(formats@);
    let mut format: Vec<(String, JsonValue)> = Vec::new();
    push_member(&mut format, "type", json_str("string"));
    push_member(&mut format, "enum", JsonValue::Arr(formats));
    push_member(&mut format, "description", json_str("Output format"));
    let ghost format_view = members_view(format@);
    let mut props: Vec<(String, JsonValue)> = Vec::new();
    push_member(&mut props, "path", prop("string", "Path to code directory or file"));
    push_member(&mut props, "format", JsonValue::Obj(format));
    assert(fv =~= seq![str_spec("json"@), str_spec("markdown"@), str_spec("html"@)]);
    assert(format_view =~= seq![
        ("type"@, str_spec("string"@)),
        ("enum"@, JsonSpec::Arr(fv)),
        ("description"@, str_spec("Output format"@)),
    ]);
    assert(members_view(props@) =~= seq![
        ("path"@, prop_spec("string"@, "Path to code directory or file"@)),
        ("format"@, JsonSpec::Obj(format_view)),
    ]);
    tool("analyze_code", "Analyze code for complexity, technical debt, and refactoring opportunities",
        params(props, "path"))
}

fn refactoring_suggestions_tool() -> (res: JsonValue)
    ensures
        json_view(res) == manifest_tools_spec()[1],
{
    proof { lemma_members_view_empty(); }
    let mut props: Vec<(String, JsonValue)> = Vec::new();
    push_member(&mut props, "entity_id", prop("string", "Code entity identifier"));
    push_member(&mut props, "max_suggestions", prop("integer", "Maximum number of suggestions"));
    assert(members_view(props@) =~= seq![
        ("entity_id"@, prop_spec("string"@, "Code entity identifier"@)),
        ("max_suggestions"@, prop_spec("integer"@, "Maximum number of suggestions"@)),
    ]);
    tool("get_refactoring_suggestions", "Get specific refactoring suggestions for code entities",
        params(props, "entity_id"))
}

fn validate_quality_gates_tool() -> (res: JsonValue)
    ensures
        json_view(res) == manifest_tools_spec()[2],
{
    proof { lemma_members_view_empty(); }
    let mut props: Vec<(String, JsonValue)> = Vec::new();
    push_member(&mut props, "path", prop("string", "Path to code directory or file"));
    push_member(&mut props, "max_complexity", prop("number", "Maximum allowed complexity score"));
    push_member(&mut props, "min_health", prop("number", "Minimum required health score"));
    push_member(&mut props, "max_debt", prop("number", "Maximum allowed technical debt ratio"));
    push_member(&mut props, "max_issues", prop("integer", "Maximum allowed number of issues"));
    assert(members_view(props@) =~= seq![
        ("path"@, prop_spec("string"@, "Path to code directory or file"@)),
        ("max_complexity"@, prop_spec("number"@, "Maximum allowed complexity score"@)),
        ("min_health"@, prop_spec("number"@, "Minimum required health score"@)),
        ("max_debt"@, prop_spec("number"@, "Maximum allowed technical debt ratio"@)),
        ("max_issues"@, prop_spec("integer"@, "Maximum allowed number of issues"@)),
    ]);
    tool("validate_quality_gates", "Validate code against quality gate thresholds for CI/CD integration",
        params(props, "path"))
}

fn analyze_file_quality_tool() -> (res: JsonValue)
    ensures
        json_view(res) == manifest_tools_spec()[3],
{
    proof { lemma_members_view_empty(); }
    let mut props: Vec<(String, JsonValue)> = Vec::new();
    push_member(&mut props, "file_path", prop("string", "Path to the specific file to analyze"));
    push_member(&mut props, "include_suggestions", prop("boolean", "Whether to include refactoring suggestions"));
    assert(members_view(props@) =~= seq![
        ("file_path"@, prop_spec("string"@, "Path to the specific file to analyze"@)),
        ("include_suggestions"@, prop_spec("boolean"@, "Whether to include refactoring suggestions"@)),
    ]);
    tool("analyze_file_quality", "Analyze quality metrics and issues for a specific file",
        params(props, "file_path"))
}

/// The MCP manifest JSON for a server version.
pub fn mcp_manifest(version: &str) -> (manifest: JsonValue)
    ensures
        json_view(manifest) == manifest_spec(version@),
{
    proof {
        lemma_members_view_empty();
        lemma_items_view_empty();
    }
    let mut tools: Vec<JsonValue> = Vec::new();
    push_item(&mut tools, analyze_code_tool());
    push_item(&mut tools, refactoring_suggestions_tool());
    push_item(&mut tools, validate_quality_gates_tool());
    push_item(&mut tools, analyze_file_quality_tool());
    let ghost tools_view = items_view(tools@);
    let mut caps: Vec<(String, JsonValue)> = Vec::new();
    push_member(&mut caps, "tools", JsonValue::Arr(tools));
    let ghost caps_view = members_view(caps@);
    let mut server_args: Vec<JsonValue> = Vec::new();
    push_item(&mut server_args, json_str("mcp-stdio"));
    let ghost args_view = items_view(server_args@);
    let mut server: Vec<(String, JsonValue)> = Vec::new();
    push_member(&mut server, "command", json_str("valknut"));
    push_member(&mut server, "args", JsonValue::Arr(server_args));
    let ghost server_view = members_view(server@);
    let mut m: Vec<(String, JsonValue)> = Vec::new();
    push_member(&mut m, "name", json_str("valknut"));
    push_member(&mut m, "version", json_str(version));
    push_member(&mut m, "description", json_str("AI-Powered Code Analysis & Refactoring Assistant"));
    push_member(&mut m, "author", json_str("Nathan Rice"));
    push_member(&mut m, "license", json_str("MIT"));
    push_member(&mut m, "homepage", json_str("https://github.com/nathanricedev/valknut"));
    push_member(&mut m, "capabilities", JsonValue::Obj(caps));
    push_member(&mut m, "server", JsonValue::Obj(server));
    proof {
        assert(tools_view =~= manifest_tools_spec());
        assert(caps_view =~= seq![("tools"@, JsonSpec::Arr(tools_view))]);
        assert(args_view =~= seq![str_spec("mcp-stdio"@)]);
        assert(server_view =~= seq![("command"@, str_spec("valknut"@)), ("args"@, JsonSpec::Arr(args_view))]);
        assert(members_view(m@) =~= seq![
            ("name"@, str_spec("valknut"@)),
            ("version"@, str_spec(version@)),
            ("description"@, str_spec("AI-Powered Code Analysis & Refactoring Assistant"@)),
            ("author"@, str_spec("Nathan Rice"@)),
            ("license"@, str_spec("MIT"@)),
            ("homepage"@, str_spec("https://github.com/nathanricedev/valknut"@)),
            ("capabilities"@, JsonSpec::Obj(caps_view)),
            ("server"@, JsonSpec::Obj(server_view)),
        ]);
    }
    JsonValue::Obj(m)
}

} // verus!
