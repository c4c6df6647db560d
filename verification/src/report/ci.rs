//! The concise JSON summary for CI systems.

use vstd::prelude::*;
use crate::json::{
    JsonValue, JsonSpec, JsonNumber, NumberSpec, clone_json, json_view, members_view,
    lemma_members_view_empty, spec_get, spec_index, json_str, json_u64, json_str_array, push_member,
};
use crate::report::markdown::count_or_zero;
use crate::report::sonar::num;
use crate::text::to_owned_string;

verus! {

/// `value[key]`, copied; `null` where the member is missing.
pub fn index_or_null(v: &JsonValue, key: &str) -> (res: JsonValue)
    ensures
        json_view(res) == spec_index(json_view(*v), key@),
{
    match v.get(key) {
        Some(m) => clone_json(m),
        None => JsonValue::Null,
    }
}

fn count_of(v: &JsonValue, key: &str) -> (n: u64)
    ensures
        n == count_or_zero(json_view(*v), key@),
{
    match v.get_u64(key) {
        Some(n) => n,
        None => 0,
    }
}

/// The recommendations a CI summary lists: three when there are issues,
/// else one.
pub open spec fn ci_recommendations(total_issues: u64) -> Seq<JsonSpec> {
    if total_issues > 0 {
        seq![
            JsonSpec::Str("Address high-priority issues first"@),
            JsonSpec::Str("Focus on reducing complexity in critical files"@),
            JsonSpec::Str("Improve maintainability through refactoring"@),
        ]
    } else {
        seq![JsonSpec::Str("Code quality is excellent - maintain current standards"@)]
    }
}

/// The CI summary document. `metrics` is the block of floating-point
/// scores, which the caller builds.
pub open spec fn ci_summary_spec(result: JsonSpec, metrics: JsonSpec) -> JsonSpec {
    let summary = spec_index(result, "summary"@);
    let total_issues = count_or_zero(summary, "total_issues"@);
    JsonSpec::Obj(seq![
        ("status"@, JsonSpec::Str(if total_issues == 0 { "success"@ } else { "issues_found"@ })),
        ("summary"@, JsonSpec::Obj(seq![
            ("total_files"@, spec_index(summary, "total_files"@)),
            ("total_issues"@, spec_index(summary, "total_issues"@)),
            ("critical_issues"@, num(count_or_zero(summary, "critical_issues"@))),
            ("high_priority_issues"@, num(count_or_zero(summary, "high_priority_issues"@))),
            ("languages"@, spec_index(summary, "languages"@)),
        ])),
        ("metrics"@, metrics),
        ("quality_gates"@, JsonSpec::Obj(seq![
            ("health_score_threshold"@, JsonSpec::Number(NumberSpec::Float("60.0"@))),
            ("complexity_threshold"@, JsonSpec::Number(NumberSpec::Float("75.0"@))),
            ("max_issues_threshold"@, num(10)),
            ("recommendations"@, JsonSpec::Arr(ci_recommendations(total_issues))),
        ])),
        ("timestamp"@, spec_index(result, "timestamp"@)),
        ("analysis_id"@, spec_index(result, "analysis_id"@)),
    ])
}

/// The count that the input result's summary holds under `key`, 0 when the
/// summary or the count is missing.
pub open spec fn input_summary_count(result: JsonSpec, key: Seq<char>) -> u64 {
    match spec_get(result, "summary"@) {
        Some(summary) => match spec_get(summary, key) {
            Some(JsonSpec::Number(NumberSpec::PosInt(n))) => n,
            _ => 0,
        },
        None => 0,
    }
}

/// The member that the input result's summary holds under `key`, `null`
/// when the summary or the member is missing.
pub open spec fn input_summary_member(result: JsonSpec, key: Seq<char>) -> JsonSpec {
    match spec_get(result, "summary"@) {
        Some(summary) => match spec_get(summary, key) {
            Some(v) => v,
            None => JsonSpec::Null,
        },
        None => JsonSpec::Null,
    }
}

/// What the CI summary reports of the input: `status` is `success` exactly
/// when the input counts no issue (else `issues_found`), and its `summary`
/// member gives the input's `total_files` and `total_issues` as they are, the
/// critical-issue count under `critical_issues` and the high-priority count
/// under `high_priority_issues`, each read from the input summary under the
/// same name.
pub open spec fn ci_summary_counts(doc: JsonSpec, result: JsonSpec) -> bool {
    &&& spec_get(doc, "status"@) == Some(JsonSpec::Str(
        if input_summary_count(result, "total_issues"@) == 0 { "success"@ } else { "issues_found"@ }))
    &&& match spec_get(doc, "summary"@) {
        Some(s) => {
            &&& spec_get(s, "total_files"@) == Some(input_summary_member(result, "total_files"@))
            &&& spec_get(s, "total_issues"@) == Some(input_summary_member(result, "total_issues"@))
            &&& spec_get(s, "critical_issues"@)
                == Some(JsonSpec::Number(NumberSpec::PosInt(input_summary_count(result, "critical_issues"@))))
            &&& spec_get(s, "high_priority_issues"@)
                == Some(JsonSpec::Number(NumberSpec::PosInt(input_summary_count(result, "high_priority_issues"@))))
        },
        None => false,
    }
}

/// The CI summary reports the input's status and counts, each under its own
/// name: the critical count is never given as the high-priority count.
pub proof fn lemma_ci_summary_counts(result: JsonSpec, metrics: JsonSpec)
    ensures
        ci_summary_counts(ci_summary_spec(result, metrics), result),
{
    reveal_strlit("status");
    reveal_strlit("summary");
    reveal_strlit("metrics");
    reveal_strlit("quality_gates");
    reveal_strlit("timestamp");
    reveal_strlit("analysis_id");
    reveal_strlit("total_files");
    reveal_strlit("total_issues");
    reveal_strlit("critical_issues");
    reveal_strlit("high_priority_issues");
    reveal_strlit("languages");
    let doc = ci_summary_spec(result, metrics);
    let m = match doc { JsonSpec::Obj(m) => m, _ => Seq::empty() };
    assert(m.len() == 6);
    assert("summary"@[0] != "metrics"@[0]);
    assert(m[5].0 == "analysis_id"@ && m[4].0 == "timestamp"@ && m[3].0 == "quality_gates"@ && m[2].0 == "metrics"@);
    assert(m[1].0 == "summary"@);
    let m5 = m.drop_last();
    let m4 = m5.drop_last();
    let m3 = m4.drop_last();
    let m2 = m3.drop_last();
    assert(m2.last() == m[1]);
    assert(crate::json::spec_member(m2, "summary"@) == Some(m[1].1));
    assert(crate::json::spec_member(m3, "summary"@) == Some(m[1].1));
    assert(crate::json::spec_member(m4, "summary"@) == Some(m[1].1));
    assert(crate::json::spec_member(m5, "summary"@) == Some(m[1].1));
    assert(crate::json::spec_member(m, "summary"@) == Some(m[1].1));
    let s = match m[1].1 { JsonSpec::Obj(s) => s, _ => Seq::empty() };
    assert(s.len() == 5);
    assert(s[4].0 == "languages"@ && s[3].0 == "high_priority_issues"@ && s[2].0 == "critical_issues"@);
    let s4 = s.drop_last();
    let s3 = s4.drop_last();
    assert(s4.last() == s[3]);
    assert(s3.last() == s[2]);
    assert(crate::json::spec_member(s4, "high_priority_issues"@) == Some(s[3].1));
    assert(crate::json::spec_member(s, "high_priority_issues"@) == Some(s[3].1));
    assert(crate::json::spec_member(s3, "critical_issues"@) == Some(s[2].1));
    assert(crate::json::spec_member(s4, "critical_issues"@) == Some(s[2].1));
    assert(crate::json::spec_member(s, "critical_issues"@) == Some(s[2].1));
    let s2 = s3.drop_last();
    let s1 = s2.drop_last();
    assert(s[1].0 == "total_issues"@ && s[0].0 == "total_files"@);
    assert(s2.last() == s[1]);
    assert(s1.last() == s[0]);
    assert(crate::json::spec_member(s2, "total_issues"@) == Some(s[1].1));
    assert(crate::json::spec_member(s3, "total_issues"@) == Some(s[1].1));
    assert(crate::json::spec_member(s4, "total_issues"@) == Some(s[1].1));
    assert(crate::json::spec_member(s, "total_issues"@) == Some(s[1].1));
    assert(crate::json::spec_member(s1, "total_files"@) == Some(s[0].1));
    assert(crate::json::spec_member(s2, "total_files"@) == Some(s[0].1));
    assert(crate::json::spec_member(s3, "total_files"@) == Some(s[0].1));
    assert(crate::json::spec_member(s4, "total_files"@) == Some(s[0].1));
    assert(crate::json::spec_member(s, "total_files"@) == Some(s[0].1));
    let m1 = m2.drop_last();
    assert(m[0].0 == "status"@);
    assert(m1.last() == m[0]);
    assert(crate::json::spec_member(m1, "status"@) == Some(m[0].1));
    assert(crate::json::spec_member(m2, "status"@) == Some(m[0].1));
    assert(crate::json::spec_member(m3, "status"@) == Some(m[0].1));
    assert(crate::json::spec_member(m4, "status"@) == Some(m[0].1));
    assert(crate::json::spec_member(m5, "status"@) == Some(m[0].1));
    assert(crate::json::spec_member(m, "status"@) == Some(m[0].1));
}

/// Render a concise JSON summary suitable for CI systems.
pub fn generate_ci_summary_report(result: &JsonValue, metrics: JsonValue) -> (doc: JsonValue)
    ensures
        json_view(doc) == ci_summary_spec(json_view(*result), json_view(metrics)),
        ci_summary_counts(json_view(doc), json_view(*result)),
{
    proof { lemma_members_view_empty(); }
    let summary = index_or_null(result, "summary");
    let total_issues = count_of(&summary, "total_issues");

    let mut s: Vec<(String, JsonValue)> = Vec::new();
    push_member(&mut s, "total_files", index_or_null(&summary, "total_files"));
    push_member(&mut s, "total_issues", index_or_null(&summary, "total_issues"));
    push_member(&mut s, "critical_issues", json_u64(count_of(&summary, "critical_issues")));
    push_member(&mut s, "high_priority_issues", json_u64(count_of(&summary, "high_priority_issues")));
    push_member(&mut s, "languages", index_or_null(&summary, "languages"));
    let ghost s_view = members_view(s@);

    let recommendations = if total_issues > 0 {
        let mut v: Vec<&str> = Vec::new();
        v.push("Address high-priority issues first");
        v.push("Focus on reducing complexity in critical files");
        v.push("Improve maintainability through refactoring");
        let r = json_str_array(&v);
        assert(v@.map_values(|s: &str| JsonSpec::Str(s@)) =~= ci_recommendations(total_issues));
        r
    } else {
        let mut v: Vec<&str> = Vec::new();
        v.push("Code quality is excellent - maintain current standards");
        let r = json_str_array(&v);
        assert(v@.map_values(|s: &str| JsonSpec::Str(s@)) =~= ci_recommendations(total_issues));
        r
    };
    let mut gates: Vec<(String, JsonValue)> = Vec::new();
    push_member(&mut gates, "health_score_threshold", JsonValue::Number(JsonNumber::Float(to_owned_string("60.0"))));
    push_member(&mut gates, "complexity_threshold", JsonValue::Number(JsonNumber::Float(to_owned_string("75.0"))));
    push_member(&mut gates, "max_issues_threshold", json_u64(10));
    let ghost rec_view = json_view(recommendations);
    push_member(&mut gates, "recommendations", recommendations);
    let ghost g_view = members_view(gates@);

    let mut members: Vec<(String, JsonValue)> = Vec::new();
    push_member(&mut members, "status", json_str(if total_issues == 0 { "success" } else { "issues_found" }));
    push_member(&mut members, "summary", JsonValue::Obj(s));
    push_member(&mut members, "metrics", metrics);
    push_member(&mut members, "quality_gates", JsonValue::Obj(gates));
    push_member(&mut members, "timestamp", index_or_null(result, "timestamp"));
    push_member(&mut members, "analysis_id", index_or_null(result, "analysis_id"));
    proof {
        assert(s_view =~= seq![
            ("total_files"@, spec_index(json_view(summary), "total_files"@)),
            ("total_issues"@, spec_index(json_view(summary), "total_issues"@)),
            ("critical_issues"@, num(count_or_zero(json_view(summary), "critical_issues"@))),
            ("high_priority_issues"@, num(count_or_zero(json_view(summary), "high_priority_issues"@))),
            ("languages"@, spec_index(json_view(summary), "languages"@)),
        ]);
        assert(g_view =~= seq![
            ("health_score_threshold"@, JsonSpec::Number(NumberSpec::Float("60.0"@))),
            ("complexity_threshold"@, JsonSpec::Number(NumberSpec::Float("75.0"@))),
            ("max_issues_threshold"@, num(10)),
            ("recommendations"@, JsonSpec::Arr(ci_recommendations(total_issues))),
        ]);
        assert(members_view(members@) =~= seq![
            ("status"@, JsonSpec::Str(if total_issues == 0 { "success"@ } else { "issues_found"@ })),
            ("summary"@, JsonSpec::Obj(s_view)),
            ("metrics"@, json_view(metrics)),
            ("quality_gates"@, JsonSpec::Obj(g_view)),
            ("timestamp"@, spec_index(json_view(*result), "timestamp"@)),
            ("analysis_id"@, spec_index(json_view(*result), "analysis_id"@)),
        ]);
        lemma_ci_summary_counts(json_view(*result), json_view(metrics));
    }
    JsonValue::Obj(members)
}

/// The status line of the CI summary of an engine result: `critical` where
/// it has critical issues, else `warning` where it has high-priority issues,
/// else `ok`.
pub fn ci_summary_status(critical: u64, high_priority: u64) -> (status: &'static str)
    ensures
        status@ == if critical > 0 {
            "critical"@
        } else if high_priority > 0 {
            "warning"@
        } else {
            "ok"@
        },
{
    if critical > 0 {
        "critical"
    } else if high_priority > 0 {
        "warning"
    } else {
        "ok"
    }
}

} // verus!
