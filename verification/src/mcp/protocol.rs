//! MCP protocol types for JSON-RPC 2.0 communication, and their JSON form.

use vstd::prelude::*;
use crate::json::{
    json_str, json_u64, json_view, push_item, push_member, items_view, members_view, JsonNumber,
    JsonSpec, JsonValue, NumberSpec,
};
use crate::text::to_owned_string;

verus! {

/// Invalid JSON was received.
pub const PARSE_ERROR: i32 = -32700;
/// The JSON sent is not a valid request object.
pub const INVALID_REQUEST: i32 = -32600;
/// The method does not exist.
pub const METHOD_NOT_FOUND: i32 = -32601;
/// Invalid method parameters.
pub const INVALID_PARAMS: i32 = -32602;
/// Internal JSON-RPC error.
pub const INTERNAL_ERROR: i32 = -32603;
/// The requested tool does not exist.
pub const TOOL_NOT_FOUND: i32 = -32001;
/// A tool failed while running.
pub const TOOL_EXECUTION_ERROR: i32 = -32002;
/// The analysis failed.
pub const ANALYSIS_ERROR: i32 = -32003;

/// JSON-RPC 2.0 request structure.
#[derive(Debug, PartialEq)]
pub struct JsonRpcRequest {
    pub jsonrpc: String,
    pub method: String,
    pub params: Option<JsonValue>,
    pub id: Option<JsonValue>,
}

/// JSON-RPC 2.0 error structure.
#[derive(Debug, PartialEq)]
pub struct JsonRpcError {
    pub code: i32,
    pub message: String,
    pub data: Option<JsonValue>,
}

/// JSON-RPC 2.0 response structure.
#[derive(Debug, PartialEq)]
pub struct JsonRpcResponse {
    pub jsonrpc: String,
    pub result: Option<JsonValue>,
    pub error: Option<JsonRpcError>,
    pub id: Option<JsonValue>,
}

impl JsonRpcResponse {
    /// Create a successful response.
    pub fn success(id: Option<JsonValue>, result: JsonValue) -> (res: Self)
        ensures
            res.jsonrpc@ == "2.0"@,
            res.result == Some(result),
            res.error is None,
            res.id == id,
    {
        JsonRpcResponse { jsonrpc: to_owned_string("2.0"), result: Some(result), error: None, id }
    }

    /// Create an error response.
    pub fn error(id: Option<JsonValue>, code: i32, message: String) -> (res: Self)
        ensures
            res.jsonrpc@ == "2.0"@,
            res.result is None,
            res.error matches Some(e) && e.code == code && e.message == message && e.data is None,
            res.id == id,
    {
        JsonRpcResponse {
            jsonrpc: to_owned_string("2.0"),
            result: None,
            error: Some(JsonRpcError { code, message, data: None }),
            id,
        }
    }

    /// Replaces the response ID and returns the modified response.
    pub fn with_id(self, id: Option<JsonValue>) -> (res: Self)
        ensures
            res == (JsonRpcResponse { id, ..self }),
    {
        let mut r = self;
        r.id = id;
        r
    }
}

/// MCP server information.
#[derive(Clone, Debug, PartialEq)]
pub struct McpServerInfo {
    pub name: String,
    pub version: String,
}

/// MCP tool definition for tool discovery.
#[derive(Debug, PartialEq)]
pub struct McpTool {
    pub name: String,
    pub description: String,
    pub input_schema: JsonValue,
}

/// Tool execution request parameters.
#[derive(Debug, PartialEq)]
pub struct ToolCallParams {
    pub name: String,
    pub arguments: JsonValue,
}

/// Content item in tool result.
#[derive(Clone, Debug, PartialEq)]
pub struct ContentItem {
    pub content_type: String,
    pub text: String,
}

/// Tool execution result.
#[derive(Clone, Debug, PartialEq)]
pub struct ToolResult {
    pub content: Vec<ContentItem>,
}

/// A tool result holding one text item.
pub fn text_tool_result(text: String) -> (res: ToolResult)
    ensures
        res.content@.len() == 1,
        res.content@[0].content_type@ == "text"@,
        res.content@[0].text == text,
{
    let mut content: Vec<ContentItem> = Vec::new();
    content.push(ContentItem { content_type: to_owned_string("text"), text });
    ToolResult { content }
}

/// A string as a JSON value.
pub open spec fn sstr(s: Seq<char>) -> JsonSpec {
    JsonSpec::Str(s)
}

/// An object with a description and a type.
pub open spec fn described(description: Seq<char>, ty: Seq<char>) -> JsonSpec {
    JsonSpec::Obj(seq![("description"@, sstr(description)), ("type"@, sstr(ty))])
}

fn described_exec(description: &str, ty: &str) -> (res: JsonValue)
    ensures
        json_view(res) == described(description@, ty@),
{
    let mut m: Vec<(String, JsonValue)> = Vec::new();
    push_member(&mut m, "description", json_str(description));
    push_member(&mut m, "type", json_str(ty));
    assert(members_view(m@) =~= seq![("description"@, sstr(description@)), ("type"@, sstr(ty@))]);
    JsonValue::Obj(m)
}

/// `{"properties": .., "required": [required], "type": "object"}`.
pub open spec fn object_schema(properties: Seq<(Seq<char>, JsonSpec)>, required: Seq<char>) -> JsonSpec {
    JsonSpec::Obj(seq![
        ("properties"@, JsonSpec::Obj(properties)),
        ("required"@, JsonSpec::Arr(seq![sstr(required)])),
        ("type"@, sstr("object"@)),
    ])
}

fn object_schema_exec(properties: Vec<(String, JsonValue)>, required: &str) -> (res: JsonValue)
    ensures
        json_view(res) == object_schema(members_view(properties@), required@),
{
    let ghost pv = members_view(properties@);
    let mut req: Vec<JsonValue> = Vec::new();
    push_item(&mut req, json_str(required));
    assert(items_view(req@) =~= seq![sstr(required@)]);
    let mut m: Vec<(String, JsonValue)> = Vec::new();
    push_member(&mut m, "properties", JsonValue::Obj(properties));
    push_member(&mut m, "required", JsonValue::Arr(req));
    push_member(&mut m, "type", json_str("object"));
    assert(members_view(m@) =~= seq![
        ("properties"@, JsonSpec::Obj(pv)),
        ("required"@, JsonSpec::Arr(seq![sstr(required@)])),
        ("type"@, sstr("object"@)),
    ]);
    JsonValue::Obj(m)
}

/// Input schema of the `analyze_code` tool.
pub open spec fn analyze_code_schema() -> JsonSpec {
    object_schema(seq![
        ("format"@, JsonSpec::Obj(seq![
            ("default"@, sstr("json"@)),
            ("description"@, sstr("Output format for analysis results"@)),
            ("enum"@, JsonSpec::Arr(seq![sstr("json"@), sstr("markdown"@), sstr("html"@)])),
            ("type"@, sstr("string"@)),
        ])),
        ("path"@, described("Path to the code file or directory to analyze"@, "string"@)),
    ], "path"@)
}

/// Create tool schema for analyze_code.
pub fn create_analyze_code_schema() -> (res: JsonValue)
    ensures
        json_view(res) == analyze_code_schema(),
{
    let mut allowed: Vec<JsonValue> = Vec::new();
    push_item(&mut allowed, json_str("json"));
    push_item(&mut allowed, json_str("markdown"));
    push_item(&mut allowed, json_str("html"));
    let ghost av = items_view(allowed@);
    assert(av =~= seq![sstr("json"@), sstr("markdown"@), sstr("html"@)]);
    let mut format: Vec<(String, JsonValue)> = Vec::new();
    push_member(&mut format, "default", json_str("json"));
    push_member(&mut format, "description", json_str("Output format for analysis results"));
    push_member(&mut format, "enum", JsonValue::Arr(allowed));
    push_member(&mut format, "type", json_str("string"));
    let ghost fv = members_view(format@);
    let mut props: Vec<(String, JsonValue)> = Vec::new();
    push_member(&mut props, "format", JsonValue::Obj(format));
    push_member(&mut props, "path", described_exec("Path to the code file or directory to analyze", "string"));
    assert(members_view(props@) =~= seq![
        ("format"@, JsonSpec::Obj(fv)),
        ("path"@, described("Path to the code file or directory to analyze"@, "string"@)),
    ]);
    assert(fv =~= seq![
        ("default"@, sstr("json"@)),
        ("description"@, sstr("Output format for analysis results"@)),
        ("enum"@, JsonSpec::Arr(seq![sstr("json"@), sstr("markdown"@), sstr("html"@)])),
        ("type"@, sstr("string"@)),
    ]);
    object_schema_exec(props, "path")
}

/// An integer as a JSON value.
pub open spec fn sint(n: u64) -> JsonSpec {
    JsonSpec::Number(NumberSpec::PosInt(n))
}

/// A floating-point literal as a JSON value.
pub open spec fn sfloat(text: Seq<char>) -> JsonSpec {
    JsonSpec::Number(NumberSpec::Float(text))
}

/// Input schema of the `get_refactoring_suggestions` tool.
pub open spec fn refactoring_suggestions_schema() -> JsonSpec {
    object_schema(seq![
        ("entity_id"@, described("Identifier of the code entity to get refactoring suggestions for"@, "string"@)),
        ("max_suggestions"@, JsonSpec::Obj(seq![
            ("default"@, sint(10)),
            ("description"@, sstr("Maximum number of suggestions to return"@)),
            ("maximum"@, sint(50)),
            ("minimum"@, sint(1)),
            ("type"@, sstr("number"@)),
        ])),
    ], "entity_id"@)
}

/// Create tool schema for get_refactoring_suggestions.
pub fn create_refactoring_suggestions_schema() -> (res: JsonValue)
    ensures
        json_view(res) == refactoring_suggestions_schema(),
{
    let mut max: Vec<(String, JsonValue)> = Vec::new();
    push_member(&mut max, "default", json_u64(10));
    push_member(&mut max, "description", json_str("Maximum number of suggestions to return"));
    push_member(&mut max, "maximum", json_u64(50));
    push_member(&mut max, "minimum", json_u64(1));
    push_member(&mut max, "type", json_str("number"));
    let ghost mv = members_view(max@);
    assert(mv =~= seq![
        ("default"@, sint(10)),
        ("description"@, sstr("Maximum number of suggestions to return"@)),
        ("maximum"@, sint(50)),
        ("minimum"@, sint(1)),
        ("type"@, sstr("number"@)),
    ]);
    let mut props: Vec<(String, JsonValue)> = Vec::new();
    push_member(&mut props, "entity_id", described_exec("Identifier of the code entity to get refactoring suggestions for", "string"));
    push_member(&mut props, "max_suggestions", JsonValue::Obj(max));
    assert(members_view(props@) =~= seq![
        ("entity_id"@, described("Identifier of the code entity to get refactoring suggestions for"@, "string"@)),
        ("max_suggestions"@, JsonSpec::Obj(mv)),
    ]);
    object_schema_exec(props, "entity_id")
}

/// A bounded number property.
pub open spec fn bounded_number(description: Seq<char>, maximum: Seq<char>, minimum: Seq<char>) -> JsonSpec {
    JsonSpec::Obj(seq![
        ("description"@, sstr(description)),
        ("maximum"@, sfloat(maximum)),
        ("minimum"@, sfloat(minimum)),
        ("type"@, sstr("number"@)),
    ])
}

fn bounded_number_exec(description: &str, maximum: &str, minimum: &str) -> (res: JsonValue)
    ensures
        json_view(res) == bounded_number(description@, maximum@, minimum@),
{
    let mut m: Vec<(String, JsonValue)> = Vec::new();
    push_member(&mut m, "description", json_str(description));
    push_member(&mut m, "maximum", JsonValue::Number(JsonNumber::Float(to_owned_string(maximum))));
    push_member(&mut m, "minimum", JsonValue::Number(JsonNumber::Float(to_owned_string(minimum))));
    push_member(&mut m, "type", json_str("number"));
    assert(members_view(m@) =~= seq![
        ("description"@, sstr(description@)),
        ("maximum"@, sfloat(maximum@)),
        ("minimum"@, sfloat(minimum@)),
        ("type"@, sstr("number"@)),
    ]);
    JsonValue::Obj(m)
}

/// Input schema of the `validate_quality_gates` tool.
pub open spec fn validate_quality_gates_schema() -> JsonSpec {
    object_schema(seq![
        ("max_complexity"@, bounded_number("Maximum allowed complexity score (optional)"@, "100.0"@, "1.0"@)),
        ("max_debt"@, bounded_number("Maximum allowed technical debt ratio (optional)"@, "100.0"@, "0.0"@)),
        ("max_issues"@, JsonSpec::Obj(seq![
            ("description"@, sstr("Maximum allowed number of issues (optional)"@)),
            ("minimum"@, sint(0)),
            ("type"@, sstr("integer"@)),
        ])),
        ("min_health"@, bounded_number("Minimum required health score (optional)"@, "100.0"@, "0.0"@)),
        ("path"@, described("Path to the code directory or file to validate"@, "string"@)),
    ], "path"@)
}

/// Create tool schema for validate_quality_gates.
pub fn create_validate_quality_gates_schema() -> (res: JsonValue)
    ensures
        json_view(res) == validate_quality_gates_schema(),
{
    let mut issues: Vec<(String, JsonValue)> = Vec::new();
    push_member(&mut issues, "description", json_str("Maximum allowed number of issues (optional)"));
    push_member(&mut issues, "minimum", json_u64(0));
    push_member(&mut issues, "type", json_str("integer"));
    let ghost iv = members_view(issues@);
    assert(iv =~= seq![
        ("description"@, sstr("Maximum allowed number of issues (optional)"@)),
        ("minimum"@, sint(0)),
        ("type"@, sstr("integer"@)),
    ]);
    let mut props: Vec<(String, JsonValue)> = Vec::new();
    push_member(&mut props, "max_complexity", bounded_number_exec("Maximum allowed complexity score (optional)", "100.0", "1.0"));
    push_member(&mut props, "max_debt", bounded_number_exec("Maximum allowed technical debt ratio (optional)", "100.0", "0.0"));
    push_member(&mut props, "max_issues", JsonValue::Obj(issues));
    push_member(&mut props, "min_health", bounded_number_exec("Minimum required health score (optional)", "100.0", "0.0"));
    push_member(&mut props, "path", described_exec("Path to the code directory or file to validate", "string"));
    assert(members_view(props@) =~= seq![
        ("max_complexity"@, bounded_number("Maximum allowed complexity score (optional)"@, "100.0"@, "1.0"@)),
        ("max_debt"@, bounded_number("Maximum allowed technical debt ratio (optional)"@, "100.0"@, "0.0"@)),
        ("max_issues"@, JsonSpec::Obj(iv)),
        ("min_health"@, bounded_number("Minimum required health score (optional)"@, "100.0"@, "0.0"@)),
        ("path"@, described("Path to the code directory or file to validate"@, "string"@)),
    ]);
    object_schema_exec(props, "path")
}

/// Input schema of the `analyze_file_quality` tool.
pub open spec fn analyze_file_quality_schema() -> JsonSpec {
    object_schema(seq![
        ("file_path"@, described("Path to the specific file to analyze"@, "string"@)),
        ("include_suggestions"@, JsonSpec::Obj(seq![
            ("default"@, JsonSpec::Bool(true)),
            ("description"@, sstr("Whether to include refactoring suggestions in the report"@)),
            ("type"@, sstr("boolean"@)),
        ])),
    ], "file_path"@)
}

/// Create tool schema for analyze_file_quality.
pub fn create_analyze_file_quality_schema() -> (res: JsonValue)
    ensures
        json_view(res) == analyze_file_quality_schema(),
{
    let mut inc: Vec<(String, JsonValue)> = Vec::new();
    push_member(&mut inc, "default", JsonValue::Bool(true));
    push_member(&mut inc, "description", json_str("Whether to include refactoring suggestions in the report"));
    push_member(&mut inc, "type", json_str("boolean"));
    let ghost iv = members_view(inc@);
    assert(iv =~= seq![
        ("default"@, JsonSpec::Bool(true)),
        ("description"@, sstr("Whether to include refactoring suggestions in the report"@)),
        ("type"@, sstr("boolean"@)),
    ]);
    let mut props: Vec<(String, JsonValue)> = Vec::new();
    push_member(&mut props, "file_path", described_exec("Path to the specific file to analyze", "string"));
    push_member(&mut props, "include_suggestions", JsonValue::Obj(inc));
    assert(members_view(props@) =~= seq![
        ("file_path"@, described("Path to the specific file to analyze"@, "string"@)),
        ("include_suggestions"@, JsonSpec::Obj(iv)),
    ]);
    object_schema_exec(props, "file_path")
}

} // verus!
