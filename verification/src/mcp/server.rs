//! Request handling of the MCP JSON-RPC 2.0 server.
//!
//! Reading lines, decoding JSON into the request types and running the
//! analysis engine happen in the front end; this module decides every
//! response: request checks, method routing, tool routing, the
//! initialization and tool-list results, and the error replies.

use vstd::prelude::*;
use crate::cache::AnalysisCache;
use crate::json::{
    clone_json, items_view, json_str, json_view, members_view, push_item, push_member, JsonSpec,
    JsonValue,
};
use crate::mcp::protocol::{
    analyze_code_schema, analyze_file_quality_schema, create_analyze_code_schema,
    create_analyze_file_quality_schema, create_refactoring_suggestions_schema,
    create_validate_quality_gates_schema, refactoring_suggestions_schema, sstr,
    validate_quality_gates_schema, ContentItem, JsonRpcRequest, JsonRpcResponse, McpServerInfo,
    McpTool, ToolResult, text_tool_result, INTERNAL_ERROR, INVALID_PARAMS, INVALID_REQUEST, METHOD_NOT_FOUND, PARSE_ERROR,
    TOOL_NOT_FOUND,
};
use crate::mcp::tools::{tool_failure, ToolFailure};
use crate::text::{is_blank, push_str, str_eq, to_owned_string, trim, trim_spec};

verus! {

/// The MCP protocol revision the server speaks.
pub const PROTOCOL_VERSION: &'static str = "2024-11-05";

/// MCP server state: its name and version, and the session cache.
pub struct McpServer<R> {
    pub server_info: McpServerInfo,
    pub analysis_cache: AnalysisCache<R>,
}

/// The tools the server offers, as (name, description, input schema).
pub open spec fn tools_spec() -> Seq<(Seq<char>, Seq<char>, JsonSpec)> {
    seq![
        ("analyze_code"@, "Analyze code for refactoring opportunities and quality metrics"@, analyze_code_schema()),
        ("get_refactoring_suggestions"@, "Get specific refactoring suggestions for a code entity"@, refactoring_suggestions_schema()),
        ("validate_quality_gates"@, "Validate code against quality gate thresholds for CI/CD integration"@, validate_quality_gates_schema()),
        ("analyze_file_quality"@, "Analyze quality metrics and issues for a specific file"@, analyze_file_quality_schema()),
    ]
}

/// The JSON form of a tool definition.
pub open spec fn tool_json(t: (Seq<char>, Seq<char>, JsonSpec)) -> JsonSpec {
    JsonSpec::Obj(seq![("name"@, sstr(t.0)), ("description"@, sstr(t.1)), ("input_schema"@, t.2)])
}

/// The JSON form of the tool list.
pub open spec fn tools_json() -> JsonSpec {
    JsonSpec::Arr(tools_spec().map_values(|t: (Seq<char>, Seq<char>, JsonSpec)| tool_json(t)))
}

fn make_tool(name: &str, description: &str, input_schema: JsonValue) -> (t: McpTool)
    ensures
        t.name@ == name@,
        t.description@ == description@,
        t.input_schema == input_schema,
{
    McpTool { name: to_owned_string(name), description: to_owned_string(description), input_schema }
}

/// The JSON form of one tool.
pub fn tool_to_json(t: &McpTool) -> (res: JsonValue)
    ensures
        json_view(res) == tool_json((t.name@, t.description@, json_view(t.input_schema))),
{
    let mut m: Vec<(String, JsonValue)> = Vec::new();
    push_member(&mut m, "name", json_str(t.name.as_str()));
    push_member(&mut m, "description", json_str(t.description.as_str()));
    push_member(&mut m, "input_schema", clone_json(&t.input_schema));
    assert(members_view(m@) =~= seq![
        ("name"@, sstr(t.name@)),
        ("description"@, sstr(t.description@)),
        ("input_schema"@, json_view(t.input_schema)),
    ]);
    JsonValue::Obj(m)
}


impl<R> McpServer<R> {
    /// Create a new MCP server instance.
    pub fn new(version: &str) -> (s: Self)
        ensures
            s.server_info.name@ == "valknut"@,
            s.server_info.version@ == version@,
            s.analysis_cache@ == Map::<Seq<char>, (R, u64)>::empty(),
    {
        McpServer {
            server_info: McpServerInfo { name: to_owned_string("valknut"), version: to_owned_string(version) },
            analysis_cache: AnalysisCache::new(),
        }
    }

    /// Get cached analysis results if available and still valid (within 5
    /// minutes) at `now`.
    pub fn get_cached_analysis(&self, path: &str, now: u64) -> (res: Option<&R>)
        ensures
            res is Some <==> (self.analysis_cache@.contains_key(path@)
                && crate::cache::is_fresh(self.analysis_cache@[path@].1, now)),
            res matches Some(r) ==> *r == self.analysis_cache@[path@].0,
    {
        self.analysis_cache.get_cached_analysis(path, now)
    }

    /// Cache analysis results for a path at time `now`.
    pub fn cache_analysis(&mut self, path: String, results: R, now: u64)
        ensures
            final(self).analysis_cache.size() <= crate::cache::MAX_CACHE_ENTRIES,
            final(self).server_info == old(self).server_info,
            old(self).analysis_cache.size() < crate::cache::MAX_CACHE_ENTRIES
                ==> final(self).analysis_cache@ == old(self).analysis_cache@.insert(path@, (results, now)),
            old(self).analysis_cache.size() >= crate::cache::MAX_CACHE_ENTRIES ==> exists|k: Seq<char>|
                crate::cache::is_oldest(old(self).analysis_cache@, k)
                && final(self).analysis_cache@ == old(self).analysis_cache@.remove(k).insert(path@, (results, now)),
    {
        self.analysis_cache.insert_analysis_into_cache(path, results, now);
    }

    /// Returns the list of available MCP tools.
    pub fn available_tools(&self) -> (tools: Vec<McpTool>)
        ensures
            tools@.len() == 4,
            forall|i: int| 0 <= i < 4 ==> (#[trigger] tools@[i]).name@ == tools_spec()[i].0
                && tools@[i].description@ == tools_spec()[i].1
                && json_view(tools@[i].input_schema) == tools_spec()[i].2,
    {
        let mut tools: Vec<McpTool> = Vec::new();
        tools.push(make_tool("analyze_code", "Analyze code for refactoring opportunities and quality metrics",
            create_analyze_code_schema()));
        tools.push(make_tool("get_refactoring_suggestions", "Get specific refactoring suggestions for a code entity",
            create_refactoring_suggestions_schema()));
        tools.push(make_tool("validate_quality_gates", "Validate code against quality gate thresholds for CI/CD integration",
            create_validate_quality_gates_schema()));
        tools.push(make_tool("analyze_file_quality", "Analyze quality metrics and issues for a specific file",
            create_analyze_file_quality_schema()));
        tools
    }

    /// The tool list as JSON.
    pub fn tools_to_json(&self) -> (res: JsonValue)
        ensures
            json_view(res) == tools_json(),
    {
        let tools = self.available_tools();
        let mut items: Vec<JsonValue> = Vec::new();
        let mut i: usize = 0;
        while i < tools.len()
            invariant
                0 <= i <= tools.len(),
                tools@.len() == 4,
                forall|k: int| 0 <= k < 4 ==> (#[trigger] tools@[k]).name@ == tools_spec()[k].0
                    && tools@[k].description@ == tools_spec()[k].1
                    && json_view(tools@[k].input_schema) == tools_spec()[k].2,
                items_view(items@) == tools_spec().take(i as int).map_values(|t: (Seq<char>, Seq<char>, JsonSpec)| tool_json(t)),
            decreases tools.len() - i,
        {
            let j = tool_to_json(&tools[i]);
            push_item(&mut items, j);
            assert(tools_spec().take(i + 1).map_values(|t: (Seq<char>, Seq<char>, JsonSpec)| tool_json(t))
                =~= tools_spec().take(i as int).map_values(|t: (Seq<char>, Seq<char>, JsonSpec)| tool_json(t))
                    .push(tool_json(tools_spec()[i as int])));
            i += 1;
        }
        assert(tools_spec().take(4) =~= tools_spec());
        JsonValue::Arr(items)
    }
}

/// The JSON form of the initialization result.
pub open spec fn init_result_json(name: Seq<char>, version: Seq<char>) -> JsonSpec {
    JsonSpec::Obj(seq![
        ("protocol_version"@, sstr(PROTOCOL_VERSION@)),
        ("capabilities"@, JsonSpec::Obj(seq![("tools"@, tools_json())])),
        ("server_info"@, JsonSpec::Obj(seq![("name"@, sstr(name)), ("version"@, sstr(version))])),
    ])
}

/// The result of `tools/list`.
pub open spec fn tools_list_json() -> JsonSpec {
    JsonSpec::Obj(seq![("tools"@, tools_json())])
}

/// What the server does with a request: answer it, or run a tool call with
/// these parameters and answer with its outcome.
#[derive(Debug, PartialEq)]
pub enum RequestOutcome {
    Respond(JsonRpcResponse),
    CallTool { id: Option<JsonValue>, params: Option<JsonValue> },
}

/// Whether a response is an error reply with this code, message and id.
pub open spec fn is_error_reply(r: JsonRpcResponse, id: Option<JsonValue>, code: i32, message: Seq<char>) -> bool {
    &&& r.jsonrpc@ == "2.0"@
    &&& r.result is None
    &&& r.error matches Some(e) && e.code == code && e.message@ == message && e.data is None
    &&& r.id == id
}

/// Whether a response is a success reply with this result and id.
pub open spec fn is_success_reply(r: JsonRpcResponse, id: Option<JsonValue>, result: JsonSpec) -> bool {
    &&& r.jsonrpc@ == "2.0"@
    &&& r.result matches Some(v) && json_view(v) == result
    &&& r.error is None
    &&& r.id == id
}

fn error_reply(id: Option<JsonValue>, code: i32, prefix: &str, detail: &str) -> (r: JsonRpcResponse)
    ensures
        is_error_reply(r, id, code, prefix@ + detail@),
        detail@.len() == 0 ==> is_error_reply(r, id, code, prefix@),
{
    assert(detail@.len() == 0 ==> prefix@ + detail@ =~= prefix@);
    let mut m = to_owned_string(prefix);
    push_str(&mut m, detail);
    JsonRpcResponse::error(id, code, m)
}

/// Check a request line before decoding it: the trimmed line, or the error
/// reply for an empty request.
pub fn check_request_line(request_line: &str) -> (res: Result<String, JsonRpcResponse>)
    ensures
        res matches Ok(t) ==> t@ == trim_spec(request_line@) && t@.len() > 0,
        res matches Err(r) ==> trim_spec(request_line@).len() == 0
            && is_error_reply(r, None, INVALID_REQUEST, "Empty request"@),
        trim_spec(request_line@).len() == 0 <==> res is Err,
{
    proof { reveal_strlit(""); }
    let t = trim(request_line);
    if t.as_str().unicode_len() == 0 {
        Err(error_reply(None, INVALID_REQUEST, "Empty request", ""))
    } else {
        Ok(t)
    }
}

/// The outcome owed to a decoded request (or to a decoding failure `Err(e)`).
pub open spec fn request_outcome_ok(
    parsed: Result<JsonRpcRequest, String>,
    info: McpServerInfo,
    out: RequestOutcome,
) -> bool {
    match parsed {
        Err(e) => out matches RequestOutcome::Respond(r)
            && is_error_reply(r, None, PARSE_ERROR, "Invalid JSON: "@ + e@),
        Ok(req) => if req.jsonrpc@ != "2.0"@ {
            out matches RequestOutcome::Respond(r)
                && is_error_reply(r, req.id, INVALID_REQUEST, "Only JSON-RPC 2.0 is supported"@)
        } else if req.method@ == "initialize"@ {
            out matches RequestOutcome::Respond(r)
                && is_success_reply(r, req.id, init_result_json(info.name@, info.version@))
        } else if req.method@ == "tools/list"@ {
            out matches RequestOutcome::Respond(r) && is_success_reply(r, req.id, tools_list_json())
        } else if req.method@ == "tools/call"@ {
            out == (RequestOutcome::CallTool { id: req.id, params: req.params })
        } else {
            out matches RequestOutcome::Respond(r)
                && is_error_reply(r, req.id, METHOD_NOT_FOUND, "Method not found: "@ + req.method@)
        },
    }
}

impl<R> McpServer<R> {
    /// The initialization result as JSON.
    pub fn init_result(&self) -> (res: JsonValue)
        ensures
            json_view(res) == init_result_json(self.server_info.name@, self.server_info.version@),
    {
        let mut caps: Vec<(String, JsonValue)> = Vec::new();
        push_member(&mut caps, "tools", self.tools_to_json());
        let ghost cv = members_view(caps@);
        let mut info: Vec<(String, JsonValue)> = Vec::new();
        push_member(&mut info, "name", json_str(self.server_info.name.as_str()));
        push_member(&mut info, "version", json_str(self.server_info.version.as_str()));
        let ghost iv = members_view(info@);
        let mut m: Vec<(String, JsonValue)> = Vec::new();
        push_member(&mut m, "protocol_version", json_str(PROTOCOL_VERSION));
        push_member(&mut m, "capabilities", JsonValue::Obj(caps));
        push_member(&mut m, "server_info", JsonValue::Obj(info));
        assert(cv =~= seq![("tools"@, tools_json())]);
        assert(iv =~= seq![("name"@, sstr(self.server_info.name@)), ("version"@, sstr(self.server_info.version@))]);
        assert(members_view(m@) =~= seq![
            ("protocol_version"@, sstr(PROTOCOL_VERSION@)),
            ("capabilities"@, JsonSpec::Obj(cv)),
            ("server_info"@, JsonSpec::Obj(iv)),
        ]);
        JsonValue::Obj(m)
    }

    /// Handle MCP initialization.
    pub fn handle_initialize(&self, id: Option<JsonValue>) -> (r: JsonRpcResponse)
        ensures
            is_success_reply(r, id, init_result_json(self.server_info.name@, self.server_info.version@)),
    {
        JsonRpcResponse::success(id, self.init_result())
    }

    /// Handle tools list request.
    pub fn handle_tools_list(&self, id: Option<JsonValue>) -> (r: JsonRpcResponse)
        ensures
            is_success_reply(r, id, tools_list_json()),
    {
        let mut m: Vec<(String, JsonValue)> = Vec::new();
        push_member(&mut m, "tools", self.tools_to_json());
        assert(members_view(m@) =~= seq![("tools"@, tools_json())]);
        JsonRpcResponse::success(id, JsonValue::Obj(m))
    }

    /// Handle a decoded JSON-RPC request: check the protocol version and
    /// route the method.
    pub fn handle_parsed_request(&self, parsed: Result<JsonRpcRequest, String>) -> (out: RequestOutcome)
        ensures
            request_outcome_ok(parsed, self.server_info, out),
    {
        match parsed {
            Err(e) => RequestOutcome::Respond(error_reply(None, PARSE_ERROR, "Invalid JSON: ", e.as_str())),
            Ok(request) => {
                proof { reveal_strlit(""); }
                if !str_eq(request.jsonrpc.as_str(), "2.0") {
                    return RequestOutcome::Respond(error_reply(request.id, INVALID_REQUEST,
                        "Only JSON-RPC 2.0 is supported", ""));
                }
                if str_eq(request.method.as_str(), "initialize") {
                    RequestOutcome::Respond(self.handle_initialize(request.id))
                } else if str_eq(request.method.as_str(), "tools/list") {
                    RequestOutcome::Respond(self.handle_tools_list(request.id))
                } else if str_eq(request.method.as_str(), "tools/call") {
                    RequestOutcome::CallTool { id: request.id, params: request.params }
                } else {
                    RequestOutcome::Respond(error_reply(request.id, METHOD_NOT_FOUND, "Method not found: ",
                        request.method.as_str()))
                }
            },
        }
    }
}

/// The tools the server can run.
#[derive(Clone, Copy, Debug, PartialEq, Eq, Structural)]
pub enum ToolKind {
    AnalyzeCode,
    RefactoringSuggestions,
    ValidateQualityGates,
    AnalyzeFileQuality,
}

/// The wire name of each tool.
pub open spec fn tool_name(k: ToolKind) -> Seq<char> {
    match k {
        ToolKind::AnalyzeCode => "analyze_code"@,
        ToolKind::RefactoringSuggestions => "get_refactoring_suggestions"@,
        ToolKind::ValidateQualityGates => "validate_quality_gates"@,
        ToolKind::AnalyzeFileQuality => "analyze_file_quality"@,
    }
}

/// Route a tool name to its tool, or the unknown-tool error.
pub fn route_tool(name: &str) -> (res: Result<ToolKind, (i32, String)>)
    ensures
        res matches Ok(k) ==> tool_name(k) == name@,
        res is Err ==> (forall|k: ToolKind| tool_name(k) != name@),
        res matches Err(e) ==> e.0 == TOOL_NOT_FOUND && e.1@ == "Unknown tool: "@ + name@,
{
    if str_eq(name, "analyze_code") {
        Ok(ToolKind::AnalyzeCode)
    } else if str_eq(name, "get_refactoring_suggestions") {
        Ok(ToolKind::RefactoringSuggestions)
    } else if str_eq(name, "validate_quality_gates") {
        Ok(ToolKind::ValidateQualityGates)
    } else if str_eq(name, "analyze_file_quality") {
        Ok(ToolKind::AnalyzeFileQuality)
    } else {
        assert forall|k: ToolKind| tool_name(k) != name@ by {
            match k {
                ToolKind::AnalyzeCode => {},
                ToolKind::RefactoringSuggestions => {},
                ToolKind::ValidateQualityGates => {},
                ToolKind::AnalyzeFileQuality => {},
            }
        }
        let mut m = to_owned_string("Unknown tool: ");
        push_str(&mut m, name);
        Err((TOOL_NOT_FOUND, m))
    }
}

/// The error for arguments that do not decode into a tool's parameters.
pub fn invalid_arguments(kind: ToolKind, reason: &str) -> (res: (i32, String))
    ensures
        res.0 == INVALID_PARAMS,
        res.1@ == "Invalid "@ + tool_name(kind) + " parameters: "@ + reason@,
{
    let mut m = to_owned_string("Invalid ");
    match kind {
        ToolKind::AnalyzeCode => push_str(&mut m, "analyze_code"),
        ToolKind::RefactoringSuggestions => push_str(&mut m, "get_refactoring_suggestions"),
        ToolKind::ValidateQualityGates => push_str(&mut m, "validate_quality_gates"),
        ToolKind::AnalyzeFileQuality => push_str(&mut m, "analyze_file_quality"),
    }
    push_str(&mut m, " parameters: ");
    push_str(&mut m, reason);
    (INVALID_PARAMS, m)
}

/// The reply to a tool call without parameters.
pub fn missing_parameters(id: Option<JsonValue>) -> (r: JsonRpcResponse)
    ensures
        is_error_reply(r, id, INVALID_PARAMS, "Missing parameters"@),
{
    proof { reveal_strlit(""); }
    error_reply(id, INVALID_PARAMS, "Missing parameters", "")
}

/// The reply to tool call parameters that do not decode.
pub fn invalid_tool_call_parameters(id: Option<JsonValue>, reason: &str) -> (r: JsonRpcResponse)
    ensures
        is_error_reply(r, id, INVALID_PARAMS, "Invalid tool call parameters: "@ + reason@),
{
    error_reply(id, INVALID_PARAMS, "Invalid tool call parameters: ", reason)
}

/// The JSON form of a tool result.
pub open spec fn tool_result_json(r: ToolResult) -> JsonSpec {
    JsonSpec::Obj(seq![("content"@, JsonSpec::Arr(r.content@.map_values(|c: ContentItem|
        JsonSpec::Obj(seq![("type"@, sstr(c.content_type@)), ("text"@, sstr(c.text@))]))))])
}

/// Serialize a tool result.
pub fn tool_result_to_json(r: &ToolResult) -> (res: JsonValue)
    ensures
        json_view(res) == tool_result_json(*r),
{
    let ghost f = |c: ContentItem| JsonSpec::Obj(seq![("type"@, sstr(c.content_type@)), ("text"@, sstr(c.text@))]);
    let mut items: Vec<JsonValue> = Vec::new();
    let mut i: usize = 0;
    while i < r.content.len()
        invariant
            0 <= i <= r.content.len(),
            f == (|c: ContentItem| JsonSpec::Obj(seq![("type"@, sstr(c.content_type@)), ("text"@, sstr(c.text@))])),
            items_view(items@) == r.content@.take(i as int).map_values(f),
        decreases r.content.len() - i,
    {
        let c = &r.content[i];
        let mut m: Vec<(String, JsonValue)> = Vec::new();
        push_member(&mut m, "type", json_str(c.content_type.as_str()));
        push_member(&mut m, "text", json_str(c.text.as_str()));
        assert(members_view(m@) =~= seq![("type"@, sstr(c.content_type@)), ("text"@, sstr(c.text@))]);
        push_item(&mut items, JsonValue::Obj(m));
        assert(r.content@.take(i + 1).map_values(f) =~= r.content@.take(i as int).map_values(f).push(f(r.content@[i as int])));
        i += 1;
    }
    assert(r.content@.take(r.content.len() as int) =~= r.content@);
    let mut m: Vec<(String, JsonValue)> = Vec::new();
    let ghost iv = items_view(items@);
    push_member(&mut m, "content", JsonValue::Arr(items));
    assert(members_view(m@) =~= seq![("content"@, JsonSpec::Arr(iv))]);
    JsonValue::Obj(m)
}

/// The outcome of analyze_code once the results were formatted: the text as
/// the tool's result, or the formatting failure (reported as one on cached
/// results when `cached`).
pub fn formatted_outcome(formatted: Result<String, String>, cached: bool) -> (res: Result<ToolResult, (i32, String)>)
    ensures
        match formatted {
            Ok(text) => res matches Ok(t) && t.content@.len() == 1 && t.content@[0].content_type@ == "text"@
                && t.content@[0].text == text,
            Err(e) => res matches Err(f) && f.0 == INTERNAL_ERROR && f.1@ == (if cached {
                "Failed to format cached results: "@
            } else {
                "Failed to format results: "@
            }) + e@,
        },
{
    match formatted {
        Ok(text) => Ok(text_tool_result(text)),
        Err(e) => {
            let kind = if cached { ToolFailure::FormatCachedFailed } else { ToolFailure::FormatFailed };
            Err(tool_failure(kind, e.as_str()))
        },
    }
}

/// The reply to a tool call: its result, or its error code and message.
pub fn tool_call_response(id: Option<JsonValue>, outcome: Result<ToolResult, (i32, String)>) -> (r: JsonRpcResponse)
    ensures
        match outcome {
            Ok(t) => is_success_reply(r, id, tool_result_json(t)),
            Err(e) => is_error_reply(r, id, e.0, e.1@),
        },
{
    match outcome {
        Ok(t) => JsonRpcResponse::success(id, tool_result_to_json(&t)),
        Err((code, message)) => JsonRpcResponse::error(id, code, message),
    }
}

/// How analysis results are rendered for a requested format name.
#[derive(Clone, Copy, Debug, PartialEq, Eq, Structural)]
pub enum ResultsFormat {
    Json,
    Html,
    Markdown,
}

/// The server's rendering for a format name: "html" is HTML, anything else JSON.
pub fn server_results_format(format: &str) -> (res: ResultsFormat)
    ensures
        res == if format@ == "html"@ { ResultsFormat::Html } else { ResultsFormat::Json },
{
    if str_eq(format, "html") { ResultsFormat::Html } else { ResultsFormat::Json }
}

/// The tools' rendering for a format name: "html", "markdown", else JSON.
pub fn results_format(format: &str) -> (res: ResultsFormat)
    ensures
        res == if format@ == "html"@ {
            ResultsFormat::Html
        } else if format@ == "markdown"@ {
            ResultsFormat::Markdown
        } else {
            ResultsFormat::Json
        },
{
    if str_eq(format, "html") {
        ResultsFormat::Html
    } else if str_eq(format, "markdown") {
        ResultsFormat::Markdown
    } else {
        ResultsFormat::Json
    }
}

} // verus!
