use valknut::display::{
    complexity_display, effort_label, file_complexity_recommendations, format_location,
    health_emoji, next_steps, pack_kind_label, priority_emoji, quick_health_score,
    refactoring_display, structure_issue_label, top_structure_issue_lines,
};
use valknut::format::OutputFormat;
use valknut::json::{JsonNumber, JsonValue};
use valknut::labels::{
    effort_class, format_refactoring_type, log_denoise_status, refactoring_type_emoji,
    severity_indicator,
};

fn s(x: &str) -> JsonValue {
    JsonValue::Str(x.to_string())
}

fn n(x: u64) -> JsonValue {
    JsonValue::Number(JsonNumber::PosInt(x))
}

fn obj(members: Vec<(&str, JsonValue)>) -> JsonValue {
    JsonValue::Obj(members.into_iter().map(|(k, v)| (k.to_string(), v)).collect())
}

fn arr(items: Vec<JsonValue>) -> JsonValue {
    JsonValue::Arr(items)
}

fn file_with_recs(path: Option<&str>, recs: usize) -> JsonValue {
    let mut members = Vec::new();
    if let Some(p) = path {
        members.push(("file_path", s(p)));
    }
    members.push(("recommendations", arr((0..recs).map(|i| obj(vec![("description", s(&format!("r{i}")))])).collect())));
    obj(members)
}

#[test]
fn format_location_renders_single_lines_and_ranges() {
    assert_eq!(format_location(&obj(vec![("location", arr(vec![n(10), n(10)]))])), " (line 10)");
    assert_eq!(format_location(&obj(vec![("location", arr(vec![n(10), n(42)]))])), " (lines 10-42)");
    assert_eq!(format_location(&obj(vec![("location", arr(vec![n(42)]))])), "");
    assert_eq!(format_location(&obj(vec![("location", arr(vec![s("x"), n(4)]))])), "");
    assert_eq!(format_location(&obj(vec![])), "");
}

#[test]
fn quick_health_score_drops_five_per_issue_down_to_sixty() {
    assert_eq!(quick_health_score(0), 100);
    assert_eq!(quick_health_score(1), 95);
    assert_eq!(quick_health_score(7), 65);
    assert_eq!(quick_health_score(8), 60);
    assert_eq!(quick_health_score(1_000), 60);
    assert_eq!(health_emoji(quick_health_score(2)), "\u{1f7e2}");
    assert_eq!(health_emoji(quick_health_score(5)), "\u{1f7e1}");
    assert_eq!(health_emoji(59), "\u{1f534}");
    assert_eq!(priority_emoji(0), "\u{2705}");
    assert_eq!(priority_emoji(4), "\u{26a0}\u{fe0f}");
    assert_eq!(priority_emoji(5), "\u{274c}");
}

#[test]
fn effort_labels_and_classes_share_bands() {
    assert_eq!(effort_label(1), "\u{1f7e2} Low");
    assert_eq!(effort_label(6), "\u{1f7e1} Medium");
    assert_eq!(effort_label(10), "\u{1f534} High");
    assert_eq!(effort_label(0), "\u{26aa} Unknown");
    assert_eq!(effort_label(11), "\u{26aa} Unknown");
    assert_eq!(effort_class(3), "effort-low");
    assert_eq!(effort_class(4), "effort-medium");
    assert_eq!(effort_class(7), "effort-high");
    assert_eq!(effort_class(0), "effort-unknown");
}

#[test]
fn structure_and_pack_labels() {
    assert_eq!(structure_issue_label("branch"), "\u{1f33f} Directory reorganization");
    assert_eq!(structure_issue_label("file_split"), "\u{1f4c4} File splitting");
    assert_eq!(structure_issue_label("other"), "\u{1f50d} Structure optimization");
    assert_eq!(pack_kind_label("branch"), "\u{1f33f} Directory Branch");
    assert_eq!(pack_kind_label("file_split"), "\u{1f4c4} File Split");
    assert_eq!(pack_kind_label("unknown"), "\u{1f50d} General");
}

#[test]
fn refactoring_labels() {
    assert_eq!(refactoring_type_emoji("ExtractMethod"), "\u{26a1}");
    assert_eq!(refactoring_type_emoji("Other"), "\u{1f527}");
    assert_eq!(format_refactoring_type("ExtractMethod"), "Extract Method");
    assert_eq!(format_refactoring_type("EliminateDuplication"), "Eliminate Duplication");
    assert_eq!(severity_indicator("VeryHigh"), ("\u{1f7e0}", "severity-very-high"));
    assert_eq!(severity_indicator("Low"), ("\u{26a0}\u{fe0f}", "severity-medium"));
    assert_eq!(log_denoise_status(false), "Clone denoising disabled via --no-denoise flag");
}

#[test]
fn next_steps_depend_on_format() {
    assert_eq!(next_steps(&OutputFormat::Csv).len(), 2);
    assert_eq!(next_steps(&OutputFormat::CiSummary).len(), 3);
    assert_eq!(
        next_steps(&OutputFormat::Markdown)[0],
        "   1. Review the generated markdown report for detailed findings"
    );
    assert_eq!(next_steps(&OutputFormat::Html)[0], "   1. Open the HTML report in your browser for interactive exploration");
}

#[test]
fn top_structure_issues_number_by_position() {
    let result = obj(vec![(
        "comprehensive_analysis",
        obj(vec![(
            "structure",
            obj(vec![(
                "packs",
                arr(vec![obj(vec![("kind", s("branch"))]), obj(vec![]), obj(vec![("kind", s("file_split"))]), obj(vec![("kind", s("x"))])]),
            )]),
        )]),
    )]);
    assert_eq!(
        top_structure_issue_lines(&result),
        Some(vec!["  1. \u{1f33f} Directory reorganization".to_string(), "  3. \u{1f4c4} File splitting".to_string()])
    );
    let empty = obj(vec![("comprehensive_analysis", obj(vec![("structure", obj(vec![("packs", arr(vec![]))]))]))]);
    assert_eq!(top_structure_issue_lines(&empty), None);
    assert_eq!(top_structure_issue_lines(&obj(vec![])), None);
}

#[test]
fn refactoring_display_selects_first_ten_showable_files() {
    let mut files: Vec<JsonValue> = (0..12).map(|i| file_with_recs(Some(&format!("f{i}.rs")), 1)).collect();
    files[1] = file_with_recs(None, 2);
    files[2] = file_with_recs(Some("empty.rs"), 0);
    let results = obj(vec![(
        "refactoring",
        obj(vec![("opportunities_count", n(9)), ("detailed_results", arr(files))]),
    )]);
    let view = refactoring_display(&results).expect("view");
    assert_eq!(view.opportunities_count, 9);
    assert_eq!(view.file_indices, vec![0, 3, 4, 5, 6, 7, 8, 9]);
    assert_eq!(view.hidden_files, 2);

    let disabled = obj(vec![("refactoring", obj(vec![("enabled", JsonValue::Bool(false)), ("detailed_results", arr(vec![file_with_recs(Some("a"), 1)]))]))]);
    assert!(refactoring_display(&disabled).is_none());
    let empty = obj(vec![("refactoring", obj(vec![("detailed_results", arr(vec![]))]))]);
    assert!(refactoring_display(&empty).is_none());
}

#[test]
fn complexity_display_lists_eight_files_and_counts_the_rest() {
    let files: Vec<JsonValue> = (0..11).map(|i| file_with_recs(Some(&format!("c{i}.rs")), if i == 0 { 0 } else { 1 })).collect();
    let results = obj(vec![("complexity", obj(vec![("detailed_results", arr(files))]))]);
    let view = complexity_display(&results).expect("view");
    assert_eq!(view.file_indices, vec![1, 2, 3, 4, 5, 6, 7, 8]);
    assert_eq!(view.hidden_files, 2);
    let none = obj(vec![("complexity", obj(vec![("detailed_results", arr(vec![file_with_recs(Some("a"), 0)]))]))]);
    assert!(complexity_display(&none).is_none());
}

#[test]
fn file_complexity_recommendations_show_two_with_effort() {
    let file = obj(vec![
        ("file_path", s("src/lib.rs")),
        ("recommendations", arr(vec![
            obj(vec![("effort", n(2))]),
            obj(vec![("description", s("Split"))]),
            obj(vec![("description", s("Third")), ("effort", n(9))]),
        ])),
    ]);
    let (path, lines) = file_complexity_recommendations(&file).expect("view");
    assert_eq!(path, "src/lib.rs");
    assert_eq!(lines.len(), 1);
    assert_eq!(lines[0].number, 2);
    assert_eq!(lines[0].description, "Split");
    assert_eq!(lines[0].effort, "\u{1f7e2} Low");
    assert!(file_complexity_recommendations(&file_with_recs(Some("a"), 0)).is_none());
    assert!(file_complexity_recommendations(&file_with_recs(None, 2)).is_none());
}

#[test]
fn format_refactoring_type_only_inserts_spaces() {
    assert_eq!(format_refactoring_type("RemoveDeadCode"), "Remove DeadCode");
    assert_eq!(format_refactoring_type("InlineVariable"), "InlineVariable");
    let shown = format_refactoring_type("ExtractAndSimplifyThenRemove");
    assert_eq!(shown, "Extract AndSimplify ThenRemove ");
    assert_eq!(shown.replace(' ', ""), "ExtractAndSimplifyThenRemove");
}
