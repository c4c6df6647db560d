use valknut::cache::AnalysisCache;
use valknut::json::{JsonNumber, JsonValue};
use valknut::labels::Priority;
use valknut::mcp::protocol::{
    create_analyze_code_schema, create_analyze_file_quality_schema,
    create_refactoring_suggestions_schema, create_validate_quality_gates_schema, JsonRpcRequest,
    JsonRpcResponse, INTERNAL_ERROR, INVALID_PARAMS, INVALID_REQUEST, METHOD_NOT_FOUND, PARSE_ERROR,
    TOOL_NOT_FOUND,
};
use valknut::mcp::server::{
    check_request_line, formatted_outcome, invalid_arguments, missing_parameters, results_format,
    route_tool, server_results_format, tool_call_response, McpServer, RequestOutcome, ResultsFormat,
    ToolKind,
};
use valknut::mcp::tools::{
    default_format, default_include_suggestions, default_max_suggestions,
    extract_suggested_actions, filter_refactoring_suggestions, max_issues_check, parse_entity_id,
    tool_failure, ToolFailure,
};

fn s(x: &str) -> JsonValue {
    JsonValue::Str(x.to_string())
}

fn n(x: u64) -> JsonValue {
    JsonValue::Number(JsonNumber::PosInt(x))
}

fn obj(members: Vec<(&str, JsonValue)>) -> JsonValue {
    JsonValue::Obj(members.into_iter().map(|(k, v)| (k.to_string(), v)).collect())
}

fn member<'a>(v: &'a JsonValue, key: &str) -> &'a JsonValue {
    v.get(key).unwrap_or_else(|| panic!("missing member {key}"))
}

fn request(jsonrpc: &str, method: &str, id: u64) -> JsonRpcRequest {
    JsonRpcRequest { jsonrpc: jsonrpc.to_string(), method: method.to_string(), params: None, id: Some(n(id)) }
}

fn error_code(outcome: RequestOutcome) -> i32 {
    match outcome {
        RequestOutcome::Respond(r) => r.error.expect("error reply").code,
        other => panic!("expected a reply, got {other:?}"),
    }
}

#[test]
fn default_parameter_helpers_match_expected_values() {
    assert!(default_include_suggestions());
    assert_eq!(default_format(), "json");
    assert_eq!(default_max_suggestions(), 10);
}

#[test]
fn parse_entity_id_handles_delimiters_and_errors() {
    assert_eq!(
        parse_entity_id("src/lib.rs:sample_fn").unwrap(),
        ("src/lib.rs".to_string(), Some("sample_fn".to_string()))
    );
    assert_eq!(
        parse_entity_id("src/lib.rs#sample_fn").unwrap(),
        ("src/lib.rs".to_string(), Some("sample_fn".to_string()))
    );
    assert_eq!(parse_entity_id("src/lib.rs").unwrap(), ("src/lib.rs".to_string(), None));
    let error = parse_entity_id("");
    assert!(error.is_err());
}

#[test]
fn json_rpc_success_has_result_and_no_error() {
    let payload = obj(vec![("status", s("ok"))]);
    let response = JsonRpcResponse::success(Some(n(1)), obj(vec![("status", s("ok"))]));
    assert_eq!(response.jsonrpc, "2.0");
    assert_eq!(response.id, Some(n(1)));
    assert!(response.error.is_none());
    assert_eq!(response.result, Some(payload));
}

#[test]
fn json_rpc_error_sets_error_payload() {
    let response = JsonRpcResponse::error(None, METHOD_NOT_FOUND, "missing method".into());
    assert_eq!(response.jsonrpc, "2.0");
    assert!(response.result.is_none());
    assert!(response.id.is_none());
    let error = response.error.expect("error payload");
    assert_eq!(error.code, METHOD_NOT_FOUND);
    assert_eq!(error.message, "missing method");
    assert!(error.data.is_none());
}

#[test]
fn analyze_code_schema_declares_required_fields_and_enum() {
    let schema = create_analyze_code_schema();
    assert_eq!(member(&schema, "type"), &s("object"));
    let properties = member(&schema, "properties");
    let path = member(properties, "path");
    assert_eq!(member(path, "type"), &s("string"));
    let format = member(properties, "format");
    assert_eq!(member(format, "enum"), &JsonValue::Arr(vec![s("json"), s("markdown"), s("html")]));
    assert_eq!(member(format, "default"), &s("json"));
    match member(&schema, "required") {
        JsonValue::Arr(items) => assert!(items.iter().any(|v| v == &s("path"))),
        other => panic!("required should be an array, got {other:?}"),
    }
}

#[test]
fn refactoring_suggestions_schema_limits_max_suggestions() {
    let schema = create_refactoring_suggestions_schema();
    assert_eq!(member(&schema, "required"), &JsonValue::Arr(vec![s("entity_id")]));
    let max_suggestions = member(member(&schema, "properties"), "max_suggestions");
    assert_eq!(member(max_suggestions, "type"), &s("number"));
    assert_eq!(member(max_suggestions, "minimum"), &n(1));
    assert_eq!(member(max_suggestions, "maximum"), &n(50));
    assert_eq!(member(max_suggestions, "default"), &n(10));
}

#[test]
fn validate_quality_gates_schema_has_optional_thresholds() {
    let schema = create_validate_quality_gates_schema();
    assert_eq!(member(&schema, "type"), &s("object"));
    assert_eq!(member(&schema, "required"), &JsonValue::Arr(vec![s("path")]));
    let properties = member(&schema, "properties");
    assert_eq!(member(member(properties, "path"), "type"), &s("string"));
    for key in ["max_complexity", "min_health", "max_debt"] {
        assert!(matches!(member(properties, key), JsonValue::Obj(_)), "{key} property should be an object");
    }
    let max_issues = member(properties, "max_issues");
    assert_eq!(member(max_issues, "type"), &s("integer"));
    assert_eq!(member(max_issues, "minimum"), &n(0));
}

#[test]
fn analyze_file_quality_schema_requires_file_path() {
    let schema = create_analyze_file_quality_schema();
    assert_eq!(member(&schema, "required"), &JsonValue::Arr(vec![s("file_path")]));
    let properties = member(&schema, "properties");
    assert_eq!(member(member(properties, "file_path"), "type"), &s("string"));
    let suggestions_flag = member(properties, "include_suggestions");
    assert_eq!(member(suggestions_flag, "type"), &s("boolean"));
    assert_eq!(member(suggestions_flag, "default"), &JsonValue::Bool(true));
}

#[test]
fn available_tools_expose_expected_entries() {
    let server: McpServer<()> = McpServer::new("1.0.0");
    let tools = server.available_tools();
    let names: Vec<_> = tools.iter().map(|tool| tool.name.as_str()).collect();
    assert!(names.contains(&"analyze_code"));
    assert!(names.contains(&"get_refactoring_suggestions"));
    assert!(names.contains(&"validate_quality_gates"));
    assert!(names.contains(&"analyze_file_quality"));
}

#[test]
fn handle_initialize_returns_capabilities() {
    let server: McpServer<()> = McpServer::new("1.0.0");
    let response = server.handle_initialize(Some(n(1)));
    assert!(response.error.is_none());
    assert_eq!(response.id, Some(n(1)));
    let result = response.result.unwrap();
    assert_eq!(member(member(&result, "server_info"), "version"), &s("1.0.0"));
    assert!(matches!(member(member(&result, "capabilities"), "tools"), JsonValue::Arr(_)));
}

#[test]
fn handle_tools_list_wraps_available_tools() {
    let server: McpServer<()> = McpServer::new("1.0.0");
    let response = server.handle_tools_list(None);
    assert!(response.error.is_none());
    let result = response.result.unwrap();
    match member(&result, "tools") {
        JsonValue::Arr(items) => assert!(!items.is_empty()),
        other => panic!("tools should be an array, got {other:?}"),
    }
}

#[test]
fn handle_request_validates_jsonrpc_version() {
    let server: McpServer<()> = McpServer::new("1.0.0");
    let outcome = server.handle_parsed_request(Ok(request("1.0", "initialize", 1)));
    assert_eq!(error_code(outcome), INVALID_REQUEST);
}

#[test]
fn handle_request_unknown_method_returns_error() {
    let server: McpServer<()> = McpServer::new("1.0.0");
    let outcome = server.handle_parsed_request(Ok(request("2.0", "does_not_exist", 1)));
    assert_eq!(error_code(outcome), METHOD_NOT_FOUND);
}

#[test]
fn handle_request_rejects_empty_payload() {
    let error = check_request_line("   ").unwrap_err().error.expect("expected error");
    assert_eq!(error.code, INVALID_REQUEST);
    assert!(error.message.contains("Empty request"), "unexpected error message: {}", error.message);
    assert_eq!(check_request_line("  {\"a\":1} \n").unwrap(), "{\"a\":1}");
}

#[test]
fn handle_request_reports_parse_errors() {
    let server: McpServer<()> = McpServer::new("1.0.0");
    match server.handle_parsed_request(Err("EOF while parsing a value".to_string())) {
        RequestOutcome::Respond(r) => {
            let error = r.error.expect("expected parse error");
            assert_eq!(error.code, PARSE_ERROR);
            assert_eq!(error.message, "Invalid JSON: EOF while parsing a value");
        },
        other => panic!("expected a reply, got {other:?}"),
    }
}

#[test]
fn tools_call_is_handed_to_the_tool_runner() {
    let server: McpServer<()> = McpServer::new("1.0.0");
    let mut req = request("2.0", "tools/call", 7);
    req.params = Some(obj(vec![("name", s("analyze_code"))]));
    assert_eq!(
        server.handle_parsed_request(Ok(req)),
        RequestOutcome::CallTool { id: Some(n(7)), params: Some(obj(vec![("name", s("analyze_code"))])) }
    );
}

#[test]
fn handle_tool_call_validates_parameters() {
    let missing = missing_parameters(Some(n(1)));
    assert_eq!(missing.error.unwrap().code, INVALID_PARAMS);

    let invalid = invalid_arguments(ToolKind::AnalyzeCode, "invalid type: string");
    assert_eq!(invalid.0, INVALID_PARAMS);
    assert_eq!(invalid.1, "Invalid analyze_code parameters: invalid type: string");

    let unknown = route_tool("unknown_tool").unwrap_err();
    assert_eq!(unknown.0, TOOL_NOT_FOUND);
    assert_eq!(unknown.1, "Unknown tool: unknown_tool");
    assert_eq!(route_tool("validate_quality_gates").unwrap(), ToolKind::ValidateQualityGates);
}

#[test]
fn tool_failures_carry_codes_and_messages() {
    let (code, message) = tool_failure(ToolFailure::FileMissing, "/path/that/does/not/exist.rs");
    assert_eq!(code, INVALID_PARAMS);
    assert_eq!(message, "File does not exist: /path/that/does/not/exist.rs");
    let (code, message) = tool_failure(ToolFailure::PathMissing, "/definitely/does/not/exist");
    assert_eq!(code, INVALID_PARAMS);
    assert!(message.contains("Path does not exist"));
}

#[test]
fn formatted_outcome_wraps_text_or_reports_format_errors() {
    let ok = formatted_outcome(Ok("{\"files_processed\": 1}".to_string()), true).unwrap();
    assert_eq!(ok.content.len(), 1);
    assert_eq!(ok.content[0].content_type, "text");
    assert!(ok.content[0].text.contains("\"files_processed\": 1"));
    let cached = formatted_outcome(Err("boom".to_string()), true).unwrap_err();
    assert_eq!(cached, (INTERNAL_ERROR, "Failed to format cached results: boom".to_string()));
    let fresh = formatted_outcome(Err("boom".to_string()), false).unwrap_err();
    assert_eq!(fresh, (INTERNAL_ERROR, "Failed to format results: boom".to_string()));
}

#[test]
fn tool_call_response_serializes_results() {
    let ok = formatted_outcome(Ok("hello".to_string()), false);
    let response = tool_call_response(Some(n(3)), ok);
    let result = response.result.expect("result");
    assert_eq!(
        result,
        obj(vec![("content", JsonValue::Arr(vec![obj(vec![("type", s("text")), ("text", s("hello"))])]))])
    );
    let failed = tool_call_response(None, Err((TOOL_NOT_FOUND, "Unknown tool: x".to_string())));
    assert_eq!(failed.error.unwrap().code, TOOL_NOT_FOUND);
}

#[test]
fn results_formats_for_format_names() {
    assert_eq!(server_results_format("html"), ResultsFormat::Html);
    assert_eq!(server_results_format("markdown"), ResultsFormat::Json);
    assert_eq!(results_format("markdown"), ResultsFormat::Markdown);
    assert_eq!(results_format("yaml"), ResultsFormat::Json);
}

#[test]
fn filter_refactoring_suggestions_limits_results() {
    let ids = vec!["src/lib.rs::sample_fn".to_string()];
    assert_eq!(filter_refactoring_suggestions(&ids, "src/lib.rs", 5), vec![0]);
}

#[test]
fn filter_refactoring_suggestions_handles_non_matches() {
    let ids = vec!["src/lib.rs::sample_fn".to_string()];
    assert!(filter_refactoring_suggestions(&ids, "other/file.rs", 3).is_empty());
}

#[test]
fn filter_refactoring_suggestions_stops_at_the_maximum() {
    let ids = vec!["a::f".to_string(), "b::g".to_string(), "a::h".to_string(), "a::i".to_string()];
    assert_eq!(filter_refactoring_suggestions(&ids, "a", 2), vec![0, 2]);
}

#[test]
fn extract_suggested_actions_reflects_priority_and_issues() {
    let actions = extract_suggested_actions(Priority::Critical, &vec!["complexity".to_string(), "coupling".to_string()]);
    assert!(actions.iter().any(|a| a.contains("Immediate")));
    assert!(actions.iter().any(|a| a.contains("Break down")));
    assert!(actions.iter().any(|a| a.contains("Reduce dependencies")));
}

#[test]
fn extract_suggested_actions_reflects_priority_and_issue_categories() {
    let categories = vec!["complexity".to_string(), "coupling".to_string(), "duplication".to_string()];
    let actions = extract_suggested_actions(Priority::Medium, &categories);
    assert!(actions.iter().any(|action| action.contains("Consider refactoring")), "{actions:?}");
    assert!(actions.iter().any(|action| action.contains("Extract common code")), "{actions:?}");
}

#[test]
fn extract_suggested_actions_handles_low_priority_duplication() {
    let categories = vec!["complexity".to_string(), "coupling".to_string(), "duplication".to_string()];
    let actions = extract_suggested_actions(Priority::Low, &categories);
    assert!(actions.iter().any(|a| a.contains("optional")));
    assert!(actions.iter().any(|a| a.contains("Extract common code")));
    assert_eq!(actions.len(), 4);
}

#[test]
fn max_issues_check_counts_critical_and_high() {
    assert_eq!(max_issues_check(1, 2, Some(5)), (3, None));
    assert_eq!(
        max_issues_check(1, 2, Some(1)),
        (3, Some("Total issues (3) exceeds maximum allowed (1)".to_string()))
    );
    assert_eq!(max_issues_check(9, 9, None), (18, None));
}

#[test]
fn insert_analysis_into_cache_enforces_capacity() {
    let mut cache: AnalysisCache<u32> = AnalysisCache::new();
    let base: u64 = 1_000_000;
    for idx in 0..10u64 {
        cache.insert_analysis_into_cache(format!("cache_entry_{idx}.json"), idx as u32, base - (idx + 1) * 1_000);
    }
    assert!(cache.contains("cache_entry_9.json"));
    cache.insert_analysis_into_cache("cache_entry_new.json".to_string(), 99, base);
    assert_eq!(cache.len(), 10, "capacity should remain capped");
    assert!(cache.contains("cache_entry_new.json"));
    assert!(!cache.contains("cache_entry_9.json"), "oldest entry should be evicted");
    assert_eq!(cache.get_cached_analysis("cache_entry_new.json", base), Some(&99));
}

#[test]
fn evict_oldest_cache_entry_handles_empty_cache() {
    let mut cache: AnalysisCache<u32> = AnalysisCache::new();
    assert!(cache.evict_oldest_cache_entry().is_none());
}

#[test]
fn cache_entry_is_fresh_detects_recent_entries() {
    assert!(AnalysisCache::<u32>::cache_entry_is_fresh(1_000_000 - 10_000, 1_000_000));
}

#[test]
fn cache_entry_is_fresh_detects_expired_entries() {
    assert!(!AnalysisCache::<u32>::cache_entry_is_fresh(1_000_000 - 600_000, 1_000_000));
    assert!(!AnalysisCache::<u32>::cache_entry_is_fresh(1_000_000 - 300_000, 1_000_000));
    assert!(AnalysisCache::<u32>::cache_entry_is_fresh(1_000_000 - 299_999, 1_000_000));
}

#[test]
fn cache_entry_is_fresh_counts_whole_seconds() {
    // Stored at 0.9 s, read at 300.5 s: 299 whole seconds have passed.
    assert!(AnalysisCache::<u32>::cache_entry_is_fresh(900, 300_500));
    assert!(!AnalysisCache::<u32>::cache_entry_is_fresh(900, 300_900));
    // A reading before the stamp counts as no time passed.
    assert!(AnalysisCache::<u32>::cache_entry_is_fresh(5_000, 1_000));
}

#[test]
fn cache_analysis_provides_hits_and_expires() {
    let mut server: McpServer<u32> = McpServer::new("1.0.0");
    server.cache_analysis("src/lib.rs".to_string(), 7, 100_000);
    assert_eq!(server.get_cached_analysis("src/lib.rs", 100_000), Some(&7));
    assert!(server.get_cached_analysis("src/lib.rs", 500_000).is_none());
}

#[test]
fn cache_analysis_evicts_when_limit_exceeded() {
    let mut server: McpServer<u32> = McpServer::new("1.0.0");
    for i in 0..11u64 {
        server.cache_analysis(format!("src/file{i}.rs"), i as u32, i * 1_000);
    }
    assert_eq!(server.analysis_cache.len(), 10);
    assert!(!server.analysis_cache.contains("src/file0.rs"));
    assert!(server.analysis_cache.contains("src/file10.rs"));
}

#[test]
fn cache_read_after_write_returns_written_results() {
    let mut cache: AnalysisCache<&str> = AnalysisCache::new();
    cache.insert_analysis_into_cache("a".to_string(), "first", 10);
    cache.insert_analysis_into_cache("a".to_string(), "second", 20);
    assert_eq!(cache.len(), 1);
    assert_eq!(cache.get_cached_analysis("a", 20), Some(&"second"));
}

#[test]
fn mcp_manifest_lists_tools_and_server_command() {
    let manifest = valknut::mcp::manifest::mcp_manifest("1.2.3");
    assert_eq!(member(&manifest, "name"), &s("valknut"));
    assert_eq!(member(&manifest, "version"), &s("1.2.3"));
    assert_eq!(member(&manifest, "license"), &s("MIT"));
    let tools = match member(member(&manifest, "capabilities"), "tools") {
        JsonValue::Arr(items) => items,
        other => panic!("tools should be an array, got {other:?}"),
    };
    let names: Vec<&JsonValue> = tools.iter().map(|t| member(t, "name")).collect();
    assert_eq!(
        names,
        vec![&s("analyze_code"), &s("get_refactoring_suggestions"), &s("validate_quality_gates"), &s("analyze_file_quality")]
    );
    let params = member(&tools[0], "parameters");
    assert_eq!(member(params, "required"), &JsonValue::Arr(vec![s("path")]));
    assert_eq!(
        member(member(member(params, "properties"), "format"), "enum"),
        &JsonValue::Arr(vec![s("json"), s("markdown"), s("html")])
    );
    let server = member(&manifest, "server");
    assert_eq!(member(server, "args"), &JsonValue::Arr(vec![s("mcp-stdio")]));
}
