//! The SonarQube generic-issue report.

use vstd::prelude::*;
use crate::json::{
    JsonValue, JsonSpec, NumberSpec, json_view, items_view, members_view, lemma_items_view,
    lemma_members_view_empty, spec_get, str_of, u64_of, arr_of, json_str, json_u64, push_member,
};
use crate::labels::{map_severity_to_sonar, sonar_severity_spec};
use crate::report::str_or;
use crate::report::csv::string_views;
use crate::text::{opt_str_view, push_str, str_eq, to_owned_string};

verus! {

/// A non-negative integer value.
pub open spec fn num(n: u64) -> JsonSpec {
    JsonSpec::Number(NumberSpec::PosInt(n))
}

/// A SonarQube issue object.
pub open spec fn sonar_issue_spec(
    rule_key: Seq<char>,
    severity: Seq<char>,
    message: Seq<char>,
    file_path: Seq<char>,
    line: u64,
) -> JsonSpec {
    JsonSpec::Obj(seq![
        ("engineId"@, JsonSpec::Str("valknut"@)),
        ("ruleId"@, JsonSpec::Str("valknut:"@ + rule_key)),
        ("severity"@, JsonSpec::Str(severity)),
        ("type"@, JsonSpec::Str("CODE_SMELL"@)),
        ("primaryLocation"@, JsonSpec::Obj(seq![
            ("message"@, JsonSpec::Str(message)),
            ("filePath"@, JsonSpec::Str(file_path)),
            ("textRange"@, JsonSpec::Obj(seq![("startLine"@, num(line)), ("endLine"@, num(line))])),
        ])),
    ])
}

/// What a SonarQube issue built from these arguments reads, member by member:
/// `ruleId` is `valknut:` and the rule key, `severity` the severity, `type`
/// `CODE_SMELL`, and `primaryLocation` holds the message under `message`, the
/// file path under `filePath`, and the line as both `startLine` and
/// `endLine` of its `textRange`.
pub open spec fn sonar_issue_fields(
    issue: JsonSpec,
    rule_key: Seq<char>,
    severity: Seq<char>,
    message: Seq<char>,
    file_path: Seq<char>,
    line: u64,
) -> bool {
    &&& spec_get(issue, "engineId"@) == Some(JsonSpec::Str("valknut"@))
    &&& spec_get(issue, "ruleId"@) == Some(JsonSpec::Str("valknut:"@ + rule_key))
    &&& spec_get(issue, "severity"@) == Some(JsonSpec::Str(severity))
    &&& spec_get(issue, "type"@) == Some(JsonSpec::Str("CODE_SMELL"@))
    &&& match spec_get(issue, "primaryLocation"@) {
        Some(loc) => {
            &&& spec_get(loc, "message"@) == Some(JsonSpec::Str(message))
            &&& spec_get(loc, "filePath"@) == Some(JsonSpec::Str(file_path))
            &&& match spec_get(loc, "textRange"@) {
                Some(range) => {
                    &&& spec_get(range, "startLine"@) == Some(JsonSpec::Number(NumberSpec::PosInt(line)))
                    &&& spec_get(range, "endLine"@) == Some(JsonSpec::Number(NumberSpec::PosInt(line)))
                },
                None => false,
            }
        },
        None => false,
    }
}

/// A SonarQube issue carries its arguments under the member names the
/// SonarQube generic-issue format gives them: the message as the location's
/// message and the file path as its file path, never the other way round.
pub proof fn lemma_sonar_issue_fields(
    rule_key: Seq<char>,
    severity: Seq<char>,
    message: Seq<char>,
    file_path: Seq<char>,
    line: u64,
)
    ensures
        sonar_issue_fields(sonar_issue_spec(rule_key, severity, message, file_path, line),
            rule_key, severity, message, file_path, line),
{
    reveal_strlit("engineId");
    reveal_strlit("ruleId");
    reveal_strlit("severity");
    reveal_strlit("type");
    reveal_strlit("primaryLocation");
    reveal_strlit("message");
    reveal_strlit("filePath");
    reveal_strlit("textRange");
    reveal_strlit("startLine");
    reveal_strlit("endLine");
    reveal_with_fuel(crate::json::spec_member, 6);
    let issue = sonar_issue_spec(rule_key, severity, message, file_path, line);
    let top = seq![
        ("engineId"@, JsonSpec::Str("valknut"@)),
        ("ruleId"@, JsonSpec::Str("valknut:"@ + rule_key)),
        ("severity"@, JsonSpec::Str(severity)),
        ("type"@, JsonSpec::Str("CODE_SMELL"@)),
        ("primaryLocation"@, spec_get(issue, "primaryLocation"@)->0),
    ];
    let range = seq![("startLine"@, num(line)), ("endLine"@, num(line))];
    let loc = seq![
        ("message"@, JsonSpec::Str(message)),
        ("filePath"@, JsonSpec::Str(file_path)),
        ("textRange"@, JsonSpec::Obj(range)),
    ];
    assert("engineId"@[0] != "severity"@[0]);
    assert("startLine"@[0] != "endLine"@[0]);
    assert(range.drop_last() =~= seq![("startLine"@, num(line))]);
    assert(loc.drop_last() =~= seq![("message"@, JsonSpec::Str(message)), ("filePath"@, JsonSpec::Str(file_path))]);
    assert(loc.drop_last().drop_last() =~= seq![("message"@, JsonSpec::Str(message))]);
    assert("textRange"@.len() != "message"@.len() && "textRange"@.len() != "filePath"@.len());
    assert("filePath"@.len() != "message"@.len());
    assert(loc.last().0 == "textRange"@);
    assert(loc.drop_last().last().0 == "filePath"@);
    assert(crate::json::spec_member(loc.drop_last().drop_last(), "message"@) == Some(JsonSpec::Str(message)));
    assert(crate::json::spec_member(loc.drop_last(), "message"@) == Some(JsonSpec::Str(message)));
    assert(crate::json::spec_member(loc, "message"@) == Some(JsonSpec::Str(message)));
    assert(crate::json::spec_member(loc, "filePath"@) == Some(JsonSpec::Str(file_path)));
    let m = match issue { JsonSpec::Obj(m) => m, _ => Seq::empty() };
    assert(m == top.drop_last().push(("primaryLocation"@, JsonSpec::Obj(loc))));
    let lens = seq!["engineId"@.len(), "ruleId"@.len(), "severity"@.len(), "type"@.len(), "primaryLocation"@.len()];
    assert(lens =~= seq![8nat, 6nat, 8nat, 4nat, 15nat]);
    let m4 = m.drop_last();
    let m3 = m4.drop_last();
    let m2 = m3.drop_last();
    let m1 = m2.drop_last();
    assert(m1 =~= seq![("engineId"@, JsonSpec::Str("valknut"@))]);
    assert(m2 =~= m1.push(("ruleId"@, JsonSpec::Str("valknut:"@ + rule_key))));
    assert(m3 =~= m2.push(("severity"@, JsonSpec::Str(severity))));
    assert(m4 =~= m3.push(("type"@, JsonSpec::Str("CODE_SMELL"@))));
    assert(crate::json::spec_member(m, "primaryLocation"@) == Some(JsonSpec::Obj(loc)));
    assert(crate::json::spec_member(m4, "type"@) == Some(JsonSpec::Str("CODE_SMELL"@)));
    assert(crate::json::spec_member(m, "type"@) == Some(JsonSpec::Str("CODE_SMELL"@)));
    assert(crate::json::spec_member(m3, "severity"@) == Some(JsonSpec::Str(severity)));
    assert(crate::json::spec_member(m4, "severity"@) == Some(JsonSpec::Str(severity)));
    assert(crate::json::spec_member(m, "severity"@) == Some(JsonSpec::Str(severity)));
    assert(crate::json::spec_member(m2, "ruleId"@) == Some(JsonSpec::Str("valknut:"@ + rule_key)));
    assert(crate::json::spec_member(m3, "ruleId"@) == Some(JsonSpec::Str("valknut:"@ + rule_key)));
    assert(crate::json::spec_member(m4, "ruleId"@) == Some(JsonSpec::Str("valknut:"@ + rule_key)));
    assert(crate::json::spec_member(m, "ruleId"@) == Some(JsonSpec::Str("valknut:"@ + rule_key)));
    assert(crate::json::spec_member(m1, "engineId"@) == Some(JsonSpec::Str("valknut"@)));
    assert(crate::json::spec_member(m2, "engineId"@) == Some(JsonSpec::Str("valknut"@)));
    assert(crate::json::spec_member(m3, "engineId"@) == Some(JsonSpec::Str("valknut"@)));
    assert(crate::json::spec_member(m4, "engineId"@) == Some(JsonSpec::Str("valknut"@)));
    assert(crate::json::spec_member(m, "engineId"@) == Some(JsonSpec::Str("valknut"@)));
    assert(crate::json::spec_member(range, "startLine"@) == Some(num(line)));
    assert(crate::json::spec_member(range, "endLine"@) == Some(num(line)));
}

/// Builds a SonarQube-formatted issue JSON object.
pub fn build_sonar_issue(
    rule_key: &str,
    severity: &str,
    message: &str,
    file_path: &str,
    line: u64,
) -> (issue: JsonValue)
    ensures
        json_view(issue) == sonar_issue_spec(rule_key@, severity@, message@, file_path@, line),
        sonar_issue_fields(json_view(issue), rule_key@, severity@, message@, file_path@, line),
{
    proof { lemma_members_view_empty(); }
    let mut range: Vec<(String, JsonValue)> = Vec::new();
    push_member(&mut range, "startLine", json_u64(line));
    push_member(&mut range, "endLine", json_u64(line));
    let mut location: Vec<(String, JsonValue)> = Vec::new();
    push_member(&mut location, "message", json_str(message));
    push_member(&mut location, "filePath", json_str(file_path));
    let ghost range_view = members_view(range@);
    push_member(&mut location, "textRange", JsonValue::Obj(range));
    let mut rule_id = to_owned_string("valknut:");
    push_str(&mut rule_id, rule_key);
    let mut members: Vec<(String, JsonValue)> = Vec::new();
    push_member(&mut members, "engineId", json_str("valknut"));
    push_member(&mut members, "ruleId", JsonValue::Str(rule_id));
    push_member(&mut members, "severity", json_str(severity));
    push_member(&mut members, "type", json_str("CODE_SMELL"));
    let ghost location_view = members_view(location@);
    push_member(&mut members, "primaryLocation", JsonValue::Obj(location));
    proof {
        assert(range_view =~= seq![("startLine"@, num(line)), ("endLine"@, num(line))]);
        assert(location_view =~= seq![
            ("message"@, JsonSpec::Str(message@)),
            ("filePath"@, JsonSpec::Str(file_path@)),
            ("textRange"@, JsonSpec::Obj(range_view)),
        ]);
        assert(members_view(members@) =~= seq![
            ("engineId"@, JsonSpec::Str("valknut"@)),
            ("ruleId"@, JsonSpec::Str("valknut:"@ + rule_key@)),
            ("severity"@, JsonSpec::Str(severity@)),
            ("type"@, JsonSpec::Str("CODE_SMELL"@)),
            ("primaryLocation"@, JsonSpec::Obj(location_view)),
        ]);
        lemma_sonar_issue_fields(rule_key@, severity@, message@, file_path@, line);
    }
    JsonValue::Obj(members)
}

/// The SonarQube issue of one complexity issue of the file at `path`.
pub open spec fn complexity_sonar_issue(issue: JsonSpec, path: Seq<char>) -> JsonSpec {
    let line = match u64_of(spec_get(issue, "line"@)) {
        Some(n) => n,
        None => 1,
    };
    sonar_issue_spec(
        str_or(issue, "category"@, "complexity"@),
        sonar_severity_spec(str_of(spec_get(issue, "severity"@))),
        str_or(issue, "description"@, "Complexity issue"@),
        path,
        line,
    )
}

/// Builds a SonarQube issue from a complexity issue.
pub fn build_sonar_issue_from_complexity(issue: &JsonValue, file_path: &str) -> (res: JsonValue)
    ensures
        json_view(res) == complexity_sonar_issue(json_view(*issue), file_path@),
        sonar_issue_fields(
            json_view(res),
            str_or(json_view(*issue), "category"@, "complexity"@),
            sonar_severity_spec(str_of(spec_get(json_view(*issue), "severity"@))),
            str_or(json_view(*issue), "description"@, "Complexity issue"@),
            file_path@,
            match u64_of(spec_get(json_view(*issue), "line"@)) { Some(n) => n, None => 1 },
        ),
{
    let severity_name = issue.get_str("severity");
    let severity = map_severity_to_sonar(severity_name);
    let rule_key = match issue.get_str("category") {
        Some(c) => c,
        None => "complexity",
    };
    let description = match issue.get_str("description") {
        Some(d) => d,
        None => "Complexity issue",
    };
    let line: u64 = match issue.get_u64("line") {
        Some(n) => n,
        None => 1,
    };
    build_sonar_issue(rule_key, severity, description, file_path, line)
}

/// The SonarQube issues of a file's complexity issues, in order.
pub open spec fn issue_sonar_list(issues: Seq<JsonSpec>, path: Seq<char>) -> Seq<JsonSpec>
    decreases issues.len(),
{
    if issues.len() == 0 {
        Seq::empty()
    } else {
        issue_sonar_list(issues.drop_last(), path).push(complexity_sonar_issue(issues.last(), path))
    }
}

/// The SonarQube issues of one file result: none unless it has a path and
/// an issue list.
pub open spec fn file_sonar_issues(f: JsonSpec) -> Seq<JsonSpec> {
    match (str_of(spec_get(f, "file_path"@)), arr_of(spec_get(f, "issues"@))) {
        (Some(p), Some(issues)) => issue_sonar_list(issues, p),
        _ => Seq::empty(),
    }
}

/// The SonarQube issues of a list of file results, in order.
pub open spec fn files_sonar_issues(files: Seq<JsonSpec>) -> Seq<JsonSpec>
    decreases files.len(),
{
    if files.len() == 0 {
        Seq::empty()
    } else {
        files_sonar_issues(files.drop_last()) + file_sonar_issues(files.last())
    }
}

/// The SonarQube issues of the complexity results.
pub open spec fn complexity_sonar_issues(complexity: JsonSpec) -> Seq<JsonSpec> {
    match arr_of(spec_get(complexity, "detailed_results"@)) {
        Some(d) => files_sonar_issues(d),
        None => Seq::empty(),
    }
}

proof fn lemma_items_view_push(s: Seq<JsonValue>, x: JsonValue)
    ensures
        items_view(s.push(x)) == items_view(s).push(json_view(x)),
{
    lemma_items_view(s);
    lemma_items_view(s.push(x));
    assert(items_view(s.push(x)) =~= items_view(s).push(json_view(x)));
}

proof fn lemma_items_view_add(a: Seq<JsonValue>, b: Seq<JsonValue>)
    ensures
        items_view(a + b) == items_view(a) + items_view(b),
{
    lemma_items_view(a);
    lemma_items_view(b);
    lemma_items_view(a + b);
    assert(items_view(a + b) =~= items_view(a) + items_view(b));
}

/// Extracts complexity issues and formats them as SonarQube issues.
pub fn extract_complexity_sonar_issues(complexity: &JsonValue) -> (issues: Vec<JsonValue>)
    ensures
        items_view(issues@) == complexity_sonar_issues(json_view(*complexity)),
{
    let mut issues: Vec<JsonValue> = Vec::new();
    let detailed_results = match complexity.get_array("detailed_results") {
        Some(d) => d,
        None => {
            assert(items_view(issues@) =~= Seq::<JsonSpec>::empty());
            return issues;
        },
    };
    proof { lemma_items_view(detailed_results@); }
    let ghost dv = items_view(detailed_results@);
    let mut i: usize = 0;
    while i < detailed_results.len()
        invariant
            0 <= i <= detailed_results.len(),
            dv == items_view(detailed_results@),
            dv.len() == detailed_results.len(),
            forall|k: int| 0 <= k < detailed_results.len() ==> #[trigger] dv[k] == json_view(detailed_results@[k]),
            items_view(issues@) == files_sonar_issues(dv.take(i as int)),
        decreases detailed_results.len() - i,
    {
        let f = &detailed_results[i];
        proof {
            assert(dv.take(i + 1).drop_last() =~= dv.take(i as int));
            assert(dv.take(i + 1).last() == dv[i as int]);
        }
        let ghost start = items_view(issues@);
        match (f.get_str("file_path"), f.get_array("issues")) {
            (Some(file_path), Some(file_issues)) => {
                proof { lemma_items_view(file_issues@); }
                let ghost iv = items_view(file_issues@);
                let mut j: usize = 0;
                while j < file_issues.len()
                    invariant
                        0 <= j <= file_issues.len(),
                        iv == items_view(file_issues@),
                        iv.len() == file_issues.len(),
                        forall|k: int| 0 <= k < file_issues.len() ==> #[trigger] iv[k] == json_view(file_issues@[k]),
                        items_view(issues@) == start + issue_sonar_list(iv.take(j as int), file_path@),
                    decreases file_issues.len() - j,
                {
                    proof {
                        assert(iv.take(j + 1).drop_last() =~= iv.take(j as int));
                        assert(iv.take(j + 1).last() == iv[j as int]);
                    }
                    let issue = build_sonar_issue_from_complexity(&file_issues[j], file_path);
                    proof { lemma_items_view_push(issues@, issue); }
                    issues.push(issue);
                    proof {
                        assert(items_view(issues@) =~= start + issue_sonar_list(iv.take(j + 1), file_path@));
                    }
                    j += 1;
                }
                proof {
                    assert(iv.take(file_issues.len() as int) =~= iv);
                }
            },
            _ => {
                assert(file_sonar_issues(dv[i as int]) =~= Seq::<JsonSpec>::empty());
            },
        }
        proof {
            assert(items_view(issues@) =~= files_sonar_issues(dv.take(i + 1)));
        }
        i += 1;
    }
    proof {
        assert(dv.take(detailed_results.len() as int) =~= dv);
    }
    issues
}

/// The rule ids the issues name, in order (issues without one skipped).
pub open spec fn rule_ids(issues: Seq<JsonSpec>) -> Seq<Seq<char>>
    decreases issues.len(),
{
    if issues.len() == 0 {
        Seq::empty()
    } else {
        match str_of(spec_get(issues.last(), "ruleId"@)) {
            Some(r) => rule_ids(issues.drop_last()).push(r),
            None => rule_ids(issues.drop_last()),
        }
    }
}

fn contains_string(seen: &Vec<String>, s: &str) -> (res: bool)
    ensures
        res == string_views(seen@).contains(s@),
{
    let mut i: usize = 0;
    while i < seen.len()
        invariant
            0 <= i <= seen.len(),
            forall|k: int| 0 <= k < i ==> #[trigger] seen@[k]@ != s@,
        decreases seen.len() - i,
    {
        if str_eq(seen[i].as_str(), s) {
            assert(string_views(seen@)[i as int] == s@);
            return true;
        }
        i += 1;
    }
    proof {
        if string_views(seen@).contains(s@) {
            let k = choose|k: int| 0 <= k < string_views(seen@).len() && string_views(seen@)[k] == s@;
            assert(seen@[k]@ == s@);
        }
    }
    false
}

/// The number of distinct rule ids among the issues.
pub fn count_rules_used(issues: &Vec<JsonValue>) -> (n: usize)
    ensures
        n == rule_ids(items_view(issues@)).to_set().len(),
{
    proof { lemma_items_view(issues@); }
    let ghost iv = items_view(issues@);
    let mut seen: Vec<String> = Vec::new();
    let mut i: usize = 0;
    assert(string_views(seen@).to_set() =~= rule_ids(iv.take(0)).to_set());
    while i < issues.len()
        invariant
            0 <= i <= issues.len(),
            iv == items_view(issues@),
            iv.len() == issues.len(),
            forall|k: int| 0 <= k < issues.len() ==> #[trigger] iv[k] == json_view(issues@[k]),
            seen.len() <= i,
            string_views(seen@).no_duplicates(),
            string_views(seen@).to_set() == rule_ids(iv.take(i as int)).to_set(),
        decreases issues.len() - i,
    {
        proof {
            assert(iv.take(i + 1).drop_last() =~= iv.take(i as int));
            assert(iv.take(i + 1).last() == iv[i as int]);
        }
        let ghost prev = rule_ids(iv.take(i as int));
        match issues[i].get_str("ruleId") {
            Some(r) => {
                assert(rule_ids(iv.take(i + 1)) == prev.push(r@));
                proof {
                    Seq::<Seq<char>>::lemma_to_set_insert_commutes(prev, r@);
                    assert(prev.push(r@) =~= prev + seq![r@]);
                }
                if !contains_string(&seen, r) {
                    let ghost before = string_views(seen@);
                    seen.push(to_owned_string(r));
                    proof {
                        assert(string_views(seen@) =~= before.push(r@));
                        Seq::<Seq<char>>::lemma_to_set_insert_commutes(before, r@);
                        assert(before.push(r@) =~= before + seq![r@]);
                        assert forall|a: int, b: int|
                            0 <= a < string_views(seen@).len() && 0 <= b < string_views(seen@).len() && a != b
                            implies string_views(seen@)[a] != string_views(seen@)[b] by {
                            if a < before.len() && b < before.len() {
                            } else if a == before.len() {
                                assert(before.contains(before[b]));
                            } else {
                                assert(before.contains(before[a]));
                            }
                        }
                    }
                } else {
                    proof {
                        let sv = string_views(seen@);
                        assert(sv.to_set().contains(r@));
                        assert(prev.to_set().insert(r@) =~= prev.to_set());
                    }
                }
            },
            None => {
                assert(rule_ids(iv.take(i + 1)) == prev);
            },
        }
        i += 1;
    }
    proof {
        assert(iv.take(issues.len() as int) =~= iv);
        string_views(seen@).unique_seq_to_set();
    }
    seen.len()
}

/// All SonarQube issues of a result: those of the complexity results, then
/// the given refactoring issues.
pub open spec fn sonar_issues(result: JsonSpec, refactoring_issues: Seq<JsonSpec>) -> Seq<JsonSpec> {
    (match spec_get(result, "complexity"@) {
        Some(c) => complexity_sonar_issues(c),
        None => Seq::empty(),
    }) + (match spec_get(result, "refactoring"@) {
        Some(_) => refactoring_issues,
        None => Seq::empty(),
    })
}

/// The SonarQube document: the issues, the format version and a summary
/// with the issue count, the date and the number of distinct rules.
pub open spec fn sonar_document_spec(
    result: JsonSpec,
    refactoring_issues: Seq<JsonSpec>,
    date: Seq<char>,
) -> JsonSpec {
    let issues = sonar_issues(result, refactoring_issues);
    JsonSpec::Obj(seq![
        ("issues"@, JsonSpec::Arr(issues)),
        ("version"@, JsonSpec::Str("1.0"@)),
        ("summary"@, JsonSpec::Obj(seq![
            ("total_issues"@, num(issues.len() as u64)),
            ("analysis_date"@, JsonSpec::Str(date)),
            ("rules_used"@, num(rule_ids(issues).to_set().len() as u64)),
        ])),
    ])
}

/// The SonarQube document of an analysis result, dated `date`. The issues
/// of refactoring recommendations are graded by floating-point priority
/// scores: the caller builds them and they follow the complexity issues.
pub fn sonar_report_at(result: &JsonValue, refactoring_issues: Vec<JsonValue>, date: &str) -> (doc: JsonValue)
    ensures
        json_view(doc) == sonar_document_spec(json_view(*result), items_view(refactoring_issues@), date@),
{
    let ghost given = items_view(refactoring_issues@);
    let mut issues: Vec<JsonValue> = Vec::new();
    match result.get("complexity") {
        Some(complexity) => {
            let mut found = extract_complexity_sonar_issues(complexity);
            proof { lemma_items_view_add(issues@, found@); }
            issues.append(&mut found);
        },
        None => {},
    }
    if result.get("refactoring").is_some() {
        let mut extra = refactoring_issues;
        proof { lemma_items_view_add(issues@, extra@); }
        issues.append(&mut extra);
    }
    proof {
        assert(items_view(issues@) =~= sonar_issues(json_view(*result), given));
    }
    let total = issues.len() as u64;
    let rules_used = count_rules_used(&issues) as u64;
    proof {
        lemma_items_view(issues@);
        lemma_members_view_empty();
    }
    let mut summary: Vec<(String, JsonValue)> = Vec::new();
    push_member(&mut summary, "total_issues", json_u64(total));
    push_member(&mut summary, "analysis_date", json_str(date));
    push_member(&mut summary, "rules_used", json_u64(rules_used));
    let ghost summary_view = members_view(summary@);
    let ghost issues_view = items_view(issues@);
    let mut members: Vec<(String, JsonValue)> = Vec::new();
    push_member(&mut members, "issues", JsonValue::Arr(issues));
    push_member(&mut members, "version", json_str("1.0"));
    push_member(&mut members, "summary", JsonValue::Obj(summary));
    proof {
        assert(summary_view =~= seq![
            ("total_issues"@, num(total)),
            ("analysis_date"@, JsonSpec::Str(date@)),
            ("rules_used"@, num(rules_used)),
        ]);
        assert(members_view(members@) =~= seq![
            ("issues"@, JsonSpec::Arr(issues_view)),
            ("version"@, JsonSpec::Str("1.0"@)),
            ("summary"@, JsonSpec::Obj(summary_view)),
        ]);
    }
    JsonValue::Obj(members)
}

/// Render the analysis result as a SonarQube document, dated now.
pub fn generate_sonar_report(result: &JsonValue, refactoring_issues: Vec<JsonValue>) -> (doc: JsonValue)
    ensures
        exists|date: Seq<char>|
            crate::report::is_rfc3339_utc(date)
                && json_view(doc) == sonar_document_spec(json_view(*result), items_view(refactoring_issues@), date),
{
    let date = crate::report::utc_now_rfc3339();
    sonar_report_at(result, refactoring_issues, date.as_str())
}

} // verus!
