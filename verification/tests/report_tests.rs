use valknut::json::{JsonNumber, JsonValue};
use valknut::labels::{escape_csv, map_severity_to_sonar, render_md_recommendations_footer};
use valknut::report::ci::{ci_summary_status, generate_ci_summary_report};
use valknut::report::csv::{extract_complexity_csv_rows, extract_structure_csv_rows, generate_csv_report};
use valknut::report::html::{
    build_high_priority_files_section, generate_html_report, html_report_at, render_issues_html,
    render_recommendations_html,
};
use valknut::report::markdown::{
    generate_markdown_report, markdown_report_at, render_issues_markdown,
    render_recommendations_markdown,
};
use valknut::report::sonar::{
    build_sonar_issue, count_rules_used, extract_complexity_sonar_issues, generate_sonar_report,
    sonar_report_at,
};

fn s(x: &str) -> JsonValue {
    JsonValue::Str(x.to_string())
}

fn n(x: u64) -> JsonValue {
    JsonValue::Number(JsonNumber::PosInt(x))
}

fn fl(x: &str) -> JsonValue {
    JsonValue::Number(JsonNumber::Float(x.to_string()))
}

fn obj(members: Vec<(&str, JsonValue)>) -> JsonValue {
    JsonValue::Obj(members.into_iter().map(|(k, v)| (k.to_string(), v)).collect())
}

fn arr(items: Vec<JsonValue>) -> JsonValue {
    JsonValue::Arr(items)
}

fn member<'a>(v: &'a JsonValue, key: &str) -> &'a JsonValue {
    v.get(key).unwrap_or_else(|| panic!("missing member {key}"))
}

fn rich_analysis_value() -> JsonValue {
    obj(vec![
        ("summary", obj(vec![
            ("total_files", n(4)),
            ("total_issues", n(3)),
            ("processing_time", fl("2.5")),
            ("critical_issues", n(1)),
            ("high_priority_issues", n(2)),
            ("languages", arr(vec![s("rust"), s("python")])),
            ("health_score", fl("45.0")),
        ])),
        ("health_metrics", obj(vec![
            ("overall_health_score", fl("58.2")),
            ("complexity_score", fl("70.0")),
            ("maintainability_score", fl("40.0")),
            ("technical_debt_ratio", fl("35.0")),
        ])),
        ("complexity", obj(vec![
            ("average_cyclomatic_complexity", fl("18.0")),
            ("average_cognitive_complexity", fl("22.0")),
            ("detailed_results", arr(vec![obj(vec![
                ("file_path", s("src/lib.rs")),
                ("issues", arr(vec![
                    obj(vec![
                        ("severity", s("Critical")),
                        ("description", s("Function `analyze` has excessive branching")),
                        ("category", s("cyclomatic")),
                        ("line", n(42)),
                    ]),
                    obj(vec![
                        ("severity", s("High")),
                        ("description", s("Function `process` exceeds recommended length")),
                        ("category", s("size")),
                        ("line", n(58)),
                    ]),
                ])),
                ("recommendations", arr(vec![
                    obj(vec![("description", s("Split `analyze` into focused helpers")), ("effort", n(6))]),
                    obj(vec![("description", s("Simplify nested conditionals in `process`")), ("effort", n(4))]),
                ])),
            ])])),
        ])),
        ("refactoring", obj(vec![
            ("opportunities_count", n(2)),
            ("detailed_results", arr(vec![obj(vec![
                ("file_path", s("src/lib.rs")),
                ("recommendations", arr(vec![
                    obj(vec![
                        ("refactoring_type", s("ExtractMethod")),
                        ("description", s("Extract helper for parsing block")),
                        ("estimated_impact", fl("8.5")),
                        ("estimated_effort", fl("3.0")),
                        ("priority_score", fl("0.92")),
                        ("location", arr(vec![n(42)])),
                    ]),
                ])),
            ])])),
        ])),
        ("structure", obj(vec![(
            "packs",
            arr(vec![
                obj(vec![("kind", s("branch")), ("file", s("src/lib.rs")), ("reasons", arr(vec![s("Too many sibling modules")]))]),
                obj(vec![("kind", s("file_split")), ("directory", s("src")), ("reasons", arr(vec![s("File exceeds recommended size")]))]),
            ]),
        )])),
        ("analysis_id", s("rich-analysis")),
        ("timestamp", s("2024-01-02T03:04:05Z")),
    ])
}

#[test]
fn test_escape_csv() {
    assert_eq!(escape_csv("hello"), "hello");
    assert_eq!(escape_csv("hello\"world"), "hello\"\"world");
}

#[test]
fn test_map_severity_to_sonar() {
    assert_eq!(map_severity_to_sonar(Some("Critical")), "BLOCKER");
    assert_eq!(map_severity_to_sonar(Some("VeryHigh")), "CRITICAL");
    assert_eq!(map_severity_to_sonar(Some("High")), "MAJOR");
    assert_eq!(map_severity_to_sonar(Some("Medium")), "MINOR");
    assert_eq!(map_severity_to_sonar(None), "INFO");
}

#[test]
fn output_tests_test_generate_markdown_report() {
    let result = obj(vec![
        ("summary", obj(vec![("total_files", n(10)), ("total_lines", n(1000)), ("health_score", fl("75.5"))])),
        ("issues", arr(vec![])),
        ("refactoring_opportunities", arr(vec![])),
    ]);
    let markdown = generate_markdown_report(&result, "", "");
    assert!(markdown.contains("# Valknut Analysis Report"));
    assert!(markdown.contains("Files Analyzed**: 10"));
    assert!(markdown.contains("Issues Found**: 0"));
}

#[test]
fn test_generate_markdown_report_with_detailed_sections() {
    let result = rich_analysis_value();
    let stats = "- **Average Cyclomatic Complexity**: 18.0\n- **Average Cognitive Complexity**: 22.0\n";
    let markdown = generate_markdown_report(&result, "", stats);
    assert!(markdown.contains("## Issues Requiring Attention"));
    assert!(markdown.contains("### High Priority Files"));
    assert!(markdown.contains("Split `analyze` into focused helpers"));
    assert!(markdown.contains("Average Cyclomatic Complexity"));
}

#[test]
fn markdown_report_has_exact_layout() {
    let result = rich_analysis_value();
    let md = markdown_report_at(&result, "2024-01-02 03:04:05 UTC", "- health\n", "- stats\n");
    let expected: String = [
        "# Valknut Analysis Report\n\n",
        "## Summary\n\n",
        "- **Files Analyzed**: 4\n",
        "- **Issues Found**: 3\n",
        "- **Analysis Date**: 2024-01-02 03:04:05 UTC\n\n",
        "## Issues Requiring Attention\n\n",
        "### Health Metrics\n\n- health\n\n",
        "### High Priority Files\n\n",
        "#### 1. `src/lib.rs`\n\n",
        "- \u{1f534} **Critical**: Function `analyze` has excessive branching\n",
        "- \u{1f7e1} **High**: Function `process` exceeds recommended length\n",
        "\n**Recommended Actions:**\n",
        "1. Split `analyze` into focused helpers (Effort: 6)\n",
        "2. Simplify nested conditionals in `process` (Effort: 4)\n",
        "\n\n",
        "### Complexity Statistics\n\n- stats\n\n",
        "### Refactoring Opportunities\n\n",
        "Found **2** refactoring opportunities:\n\n",
        "1. `src/lib.rs`\n\n",
    ]
    .concat();
    let mut footer = String::new();
    render_md_recommendations_footer(&mut footer);
    assert_eq!(md, format!("{expected}{footer}"));
}

#[test]
fn markdown_report_without_issues_congratulates() {
    let result = obj(vec![("summary", obj(vec![("total_files", n(2)), ("total_issues", n(0))]))]);
    let md = markdown_report_at(&result, "D", "", "");
    assert_eq!(
        md,
        "# Valknut Analysis Report\n\n## Summary\n\n- **Files Analyzed**: 2\n- **Issues Found**: 0\n- **Analysis Date**: D\n\n\u{2705} **Excellent!** No significant issues found in your codebase.\n"
    );
}

#[test]
fn markdown_issue_lines_skip_missing_descriptions_and_default_severity() {
    let issues = vec![
        obj(vec![("description", s("first"))]),
        obj(vec![("severity", s("High"))]),
        obj(vec![("severity", s("VeryHigh")), ("description", s("third"))]),
        obj(vec![("description", s("fourth"))]),
    ];
    assert_eq!(
        render_issues_markdown(&issues, 3),
        "- \u{26a0}\u{fe0f} **Medium**: first\n- \u{1f7e0} **VeryHigh**: third\n"
    );
}

#[test]
fn markdown_recommendations_keep_numbering_and_default_effort() {
    let recs = vec![obj(vec![("effort", n(3))]), obj(vec![("description", s("do it"))])];
    assert_eq!(render_recommendations_markdown(&recs, 3), "\n**Recommended Actions:**\n2. do it (Effort: 1)\n");
    assert_eq!(render_recommendations_markdown(&vec![], 3), "");
}

#[test]
fn output_tests_test_generate_html_report() {
    let result = obj(vec![
        ("summary", obj(vec![("total_files", n(5)), ("total_lines", n(500)), ("health_score", fl("85.0"))])),
        ("issues", arr(vec![])),
    ]);
    let html = generate_html_report(&result, "", "", "");
    assert!(html.contains("<!DOCTYPE html>"));
    assert!(html.contains("<title>Valknut Analysis Report</title>"));
    assert!(html.contains("5"));
    assert!(html.contains("body"));
}

#[test]
fn html_report_places_sections_in_order() {
    let result = rich_analysis_value();
    let page = html_report_at(&result, "DATE", "[health]", "[refactoring]", "[stats]");
    let health = page.find("[health]").unwrap();
    let files = page.find("\u{1f525} High Priority Files").unwrap();
    let refactoring = page.find("[refactoring]").unwrap();
    let stats = page.find("[stats]").unwrap();
    let recs = page.find("\u{1f4a1} Recommendations").unwrap();
    assert!(health < files && files < refactoring && refactoring < stats && stats < recs);
    assert!(page.contains("<span class=\"summary-value\">4</span>"));
    assert!(page.contains("<span class=\"summary-value\">3</span>"));
    assert!(page.contains("font-weight: 500;\">DATE</span>"));
    assert!(page.contains("Split `analyze` into focused helpers"));
    assert!(page.ends_with("</html>\n"));
}

#[test]
fn html_issue_and_recommendation_items() {
    let issues = vec![obj(vec![("severity", s("Critical")), ("description", s("bad"))])];
    assert_eq!(
        render_issues_html(&issues, 5),
        "<div class='issues-list'><div class='issue-item severity-critical'><span class='severity-indicator'>\u{1f534} Critical</span><span class='issue-description'>bad</span></div></div>"
    );
    let recs = vec![obj(vec![("description", s("fix")), ("effort", n(7))])];
    assert_eq!(
        render_recommendations_html(&recs, 3),
        "<div class='recommendations'><h4>\u{1f4a1} Recommended Actions:</h4><ol><li><span class='recommendation-text'>fix</span> <span class='effort-indicator effort-high'>(Effort: 7)</span></li></ol></div>"
    );
}

#[test]
fn html_high_priority_section_is_empty_without_issues() {
    let complexity = obj(vec![(
        "detailed_results",
        arr(vec![obj(vec![("file_path", s("a.rs")), ("issues", arr(vec![]))])]),
    )]);
    assert_eq!(build_high_priority_files_section(&complexity), "");
}

#[test]
fn csv_export_test_generate_csv_report_empty() {
    let result = obj(vec![]);
    let report = generate_csv_report(&result, vec![]);
    assert!(report.contains("No issues found"));
}

#[test]
fn output_tests_test_generate_csv_report_empty() {
    let result = obj(vec![("issues", arr(vec![]))]);
    let csv = generate_csv_report(&result, vec![]);
    assert!(csv.contains("File,Issue Type,Severity,Description"));
    assert_eq!(csv.lines().count(), 2);
}

#[test]
fn csv_rows_for_complexity_and_structure() {
    let result = rich_analysis_value();
    let complexity_rows = extract_complexity_csv_rows(member(&result, "complexity"));
    assert_eq!(
        complexity_rows,
        vec![
            "\"src/lib.rs\",\"cyclomatic\",\"Critical\",\"Function `analyze` has excessive branching\",42,\"\",\"\"\n".to_string(),
            "\"src/lib.rs\",\"size\",\"High\",\"Function `process` exceeds recommended length\",58,\"\",\"\"\n".to_string(),
        ]
    );
    let structure_rows = extract_structure_csv_rows(member(&result, "structure"));
    assert_eq!(
        structure_rows,
        vec![
            "\"src/lib.rs\",\"branch\",\"Medium\",\"Too many sibling modules\",0,\"\",\"\"\n".to_string(),
            "\"src\",\"file_split\",\"Medium\",\"File exceeds recommended size\",0,\"\",\"\"\n".to_string(),
        ]
    );
    let refactoring_row = "\"src/lib.rs\",\"ExtractMethod\",\"High\",\"Extract helper for parsing block\",42,\"8.5\",\"3.0\"\n".to_string();
    let csv = generate_csv_report(&result, vec![refactoring_row.clone()]);
    let expected = format!(
        "File,Issue Type,Severity,Description,Line,Impact,Effort\n{}{}{}{}{}",
        complexity_rows[0], complexity_rows[1], refactoring_row, structure_rows[0], structure_rows[1]
    );
    assert_eq!(csv, expected);
}

#[test]
fn csv_structure_rows_join_reasons_and_escape() {
    let structure = obj(vec![(
        "packs",
        arr(vec![
            obj(vec![("reasons", arr(vec![s("a \"quoted\" reason"), n(3), s("b")]))]),
            obj(vec![]),
        ]),
    )]);
    assert_eq!(
        extract_structure_csv_rows(&structure),
        vec![
            "\"Unknown\",\"Structure\",\"Medium\",\"a \"\"quoted\"\" reason; b\",0,\"\",\"\"\n".to_string(),
            "\"Unknown\",\"Structure\",\"Medium\",\"Structure issue\",0,\"\",\"\"\n".to_string(),
        ]
    );
}

#[test]
fn test_generate_sonar_report_empty() {
    let result = obj(vec![]);
    let report = generate_sonar_report(&result, vec![]);
    match member(&report, "issues") {
        JsonValue::Arr(items) => assert!(items.is_empty()),
        other => panic!("issues should be an array, got {other:?}"),
    }
}

#[test]
fn sonar_report_lists_complexity_issues_and_counts_rules() {
    let result = rich_analysis_value();
    let extra = build_sonar_issue("extractmethod", "MAJOR", "Extract helper for parsing block", "src/lib.rs", 42);
    let doc = sonar_report_at(&result, vec![extra], "2024-01-01T00:00:00+00:00");
    let issues = match member(&doc, "issues") {
        JsonValue::Arr(items) => items,
        other => panic!("issues should be an array, got {other:?}"),
    };
    assert_eq!(issues.len(), 3);
    assert_eq!(member(&issues[0], "ruleId"), &s("valknut:cyclomatic"));
    assert_eq!(member(&issues[0], "severity"), &s("BLOCKER"));
    assert_eq!(member(&issues[1], "severity"), &s("MAJOR"));
    assert_eq!(member(&issues[2], "ruleId"), &s("valknut:extractmethod"));
    let location = member(&issues[0], "primaryLocation");
    assert_eq!(member(member(location, "textRange"), "startLine"), &n(42));
    let summary = member(&doc, "summary");
    assert_eq!(member(summary, "total_issues"), &n(3));
    assert_eq!(member(summary, "rules_used"), &n(3));
    assert_eq!(member(summary, "analysis_date"), &s("2024-01-01T00:00:00+00:00"));
    assert_eq!(member(&doc, "version"), &s("1.0"));
}

#[test]
fn sonar_complexity_issue_defaults() {
    let complexity = obj(vec![(
        "detailed_results",
        arr(vec![obj(vec![("file_path", s("x.rs")), ("issues", arr(vec![obj(vec![])]))])]),
    )]);
    let issues = extract_complexity_sonar_issues(&complexity);
    assert_eq!(issues.len(), 1);
    assert_eq!(issues[0], build_sonar_issue("complexity", "INFO", "Complexity issue", "x.rs", 1));
}

#[test]
fn rules_used_counts_distinct_rule_ids() {
    let issues = vec![
        build_sonar_issue("a", "INFO", "m", "f", 1),
        build_sonar_issue("b", "INFO", "m", "f", 1),
        build_sonar_issue("a", "INFO", "m", "f", 2),
        obj(vec![]),
    ];
    assert_eq!(count_rules_used(&issues), 2);
}

#[test]
fn ci_summary_reflects_issue_status() {
    let result = rich_analysis_value();
    let doc = generate_ci_summary_report(&result, obj(vec![("overall_health_score", fl("58.2"))]));
    assert_eq!(member(&doc, "status"), &s("issues_found"));
    let summary = member(&doc, "summary");
    assert_eq!(member(summary, "total_files"), &n(4));
    assert_eq!(member(summary, "critical_issues"), &n(1));
    assert_eq!(member(summary, "languages"), &arr(vec![s("rust"), s("python")]));
    let gates = member(&doc, "quality_gates");
    assert_eq!(member(gates, "max_issues_threshold"), &n(10));
    assert_eq!(member(gates, "health_score_threshold"), &fl("60.0"));
    match member(gates, "recommendations") {
        JsonValue::Arr(items) => assert_eq!(items.len(), 3),
        other => panic!("recommendations should be an array, got {other:?}"),
    }
    assert_eq!(member(&doc, "analysis_id"), &s("rich-analysis"));

    let clean = generate_ci_summary_report(&obj(vec![]), obj(vec![]));
    assert_eq!(member(&clean, "status"), &s("success"));
    assert_eq!(member(member(&clean, "summary"), "total_files"), &JsonValue::Null);
    assert_eq!(member(&clean, "timestamp"), &JsonValue::Null);
    assert_eq!(
        member(member(&clean, "quality_gates"), "recommendations"),
        &arr(vec![s("Code quality is excellent - maintain current standards")])
    );
}

#[test]
fn ci_summary_status_ranks_critical_over_warnings() {
    assert_eq!(ci_summary_status(2, 5), "critical");
    assert_eq!(ci_summary_status(0, 5), "warning");
    assert_eq!(ci_summary_status(0, 0), "ok");
}

fn is_report_date_text(d: &str) -> bool {
    let c: Vec<char> = d.chars().collect();
    c.len() == 23
        && c[4] == '-'
        && c[7] == '-'
        && c[10] == ' '
        && c[13] == ':'
        && c[16] == ':'
        && d.ends_with(" UTC")
        && [0, 1, 2, 3, 5, 6, 8, 9, 11, 12, 14, 15, 17, 18].iter().all(|&i| c[i].is_ascii_digit())
}

#[test]
fn markdown_report_date_has_report_form_and_no_issue_section_when_clean() {
    let result = obj(vec![("summary", obj(vec![("total_files", n(4)), ("total_issues", n(0))]))]);
    let md = generate_markdown_report(&result, "ignored health", "ignored stats");
    assert!(md.starts_with("# Valknut Analysis Report\n\n## Summary\n\n- **Files Analyzed**: 4\n- **Issues Found**: 0\n"));
    assert!(!md.contains("## Issues Requiring Attention"));
    assert!(md.ends_with("No significant issues found in your codebase.\n"));
    let line = md.lines().find(|l| l.starts_with("- **Analysis Date**: ")).unwrap();
    assert!(is_report_date_text(&line["- **Analysis Date**: ".len()..]), "{line}");
}

#[test]
fn markdown_report_has_issue_section_when_issues_are_counted() {
    let result = obj(vec![("summary", obj(vec![("total_files", n(4)), ("total_issues", n(3))]))]);
    let md = generate_markdown_report(&result, "", "");
    assert!(md.contains("## Issues Requiring Attention"));
}

#[test]
fn html_report_without_issues_shows_only_the_success_message() {
    let result = obj(vec![
        ("summary", obj(vec![("total_files", n(2)), ("total_issues", n(0))])),
        ("health_metrics", obj(vec![("overall_health_score", fl("90.0"))])),
    ]);
    let html = generate_html_report(&result, "<h2>health</h2>", "<h2>refactoring</h2>", "<h2>stats</h2>");
    assert!(html.contains("<div class='success-message'>✅ <strong>Excellent!</strong> No significant issues found in your codebase.</div>"));
    assert!(!html.contains("<h2>"));
}

#[test]
fn sonar_report_date_is_rfc3339_utc() {
    let doc = generate_sonar_report(&obj(vec![]), vec![]);
    let date = match member(member(&doc, "summary"), "analysis_date") {
        JsonValue::Str(d) => d.clone(),
        other => panic!("unexpected date {other:?}"),
    };
    let c: Vec<char> = date.chars().collect();
    assert!(date.ends_with("+00:00"), "{date}");
    assert_eq!(c[4], '-');
    assert_eq!(c[10], 'T');
    assert_eq!(c[13], ':');
}
