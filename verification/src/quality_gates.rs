//! Quality gate thresholds on issue counts, and the violations they raise.
//!
//! Score thresholds (complexity, debt ratio, maintainability) are
//! floating-point comparisons and stay with the front end; the counts of
//! critical and high-priority issues, the quality gate switches and the ranking of
//! affected files are decided here.

use vstd::prelude::*;
use crate::args::AnalyzeArgs;
use crate::labels::{priority_rank, Priority};
use crate::json::{JsonSpec, JsonValue, json_view, spec_get};
use crate::report::markdown::count_or_zero;
use crate::text::{chars_eq, decimal, push_decimal, push_str, str_chars, to_owned_string};

verus! {

/// The count thresholds and the switch of a quality gate configuration.
#[derive(Clone, Debug, PartialEq)]
pub struct QualityGateConfig {
    pub enabled: bool,
    pub max_critical_issues: usize,
    pub max_high_priority_issues: usize,
}

/// The count part of the quality gate configuration that the CLI options build
/// over the engine defaults `defaults`.
pub open spec fn gate_config_spec(args: AnalyzeArgs, defaults: QualityGateConfig) -> QualityGateConfig {
    let q = args.quality_gate;
    let critical = match q.max_critical {
        Some(c) => c,
        None => match q.max_issues {
            Some(i) => i,
            None => defaults.max_critical_issues,
        },
    };
    let high = match q.max_high_priority {
        Some(h) => h,
        None => defaults.max_high_priority_issues,
    };
    QualityGateConfig {
        enabled: q.quality_gate || q.fail_on_issues,
        max_critical_issues: if q.fail_on_issues { 0 } else { critical },
        max_high_priority_issues: if q.fail_on_issues { 0 } else { high },
    }
}

/// Build quality gate configuration from CLI arguments.
pub fn build_quality_gate_config(args: &AnalyzeArgs, defaults: QualityGateConfig) -> (config: QualityGateConfig)
    ensures
        config == gate_config_spec(*args, defaults),
        config.enabled <==> (args.quality_gate.quality_gate || args.quality_gate.fail_on_issues),
        args.quality_gate.fail_on_issues ==> config.max_critical_issues == 0 && config.max_high_priority_issues == 0,
        !args.quality_gate.fail_on_issues ==> config.max_critical_issues == match args.quality_gate.max_critical {
            Some(c) => c,
            None => match args.quality_gate.max_issues {
                Some(i) => i,
                None => defaults.max_critical_issues,
            },
        },
        !args.quality_gate.fail_on_issues ==> config.max_high_priority_issues == match args.quality_gate.max_high_priority {
            Some(h) => h,
            None => defaults.max_high_priority_issues,
        },
{
    let mut config = QualityGateConfig {
        enabled: args.quality_gate.quality_gate || args.quality_gate.fail_on_issues,
        ..defaults
    };
    if let Some(max_issues) = args.quality_gate.max_issues {
        config.max_critical_issues = max_issues;
    }
    if let Some(max_critical) = args.quality_gate.max_critical {
        config.max_critical_issues = max_critical;
    }
    if let Some(max_high_priority) = args.quality_gate.max_high_priority {
        config.max_high_priority_issues = max_high_priority;
    }
    if args.quality_gate.fail_on_issues {
        config.max_critical_issues = 0;
        config.max_high_priority_issues = 0;
    }
    config
}

/// `--fail-on-issues` turns the quality gate on and allows no critical or
/// high-priority issue, whatever else the options say.
pub proof fn lemma_fail_on_issues_is_strict(args: AnalyzeArgs, defaults: QualityGateConfig)
    requires
        args.quality_gate.fail_on_issues,
    ensures
        gate_config_spec(args, defaults).enabled,
        gate_config_spec(args, defaults).max_critical_issues == 0,
        gate_config_spec(args, defaults).max_high_priority_issues == 0,
{
}

/// Severity of a count that exceeds its limit (the relative rule of the
/// score thresholds, computed exactly on counts).
pub open spec fn count_excess_severity(current: int, threshold: int) -> Seq<char> {
    let delta = current - threshold;
    if threshold == 0 {
        if delta >= 5 { "Critical"@ } else if delta >= 1 { "High"@ } else { "Medium"@ }
    } else if 2 * delta >= threshold || delta >= 20 {
        "Critical"@
    } else if 4 * delta >= threshold || delta >= 10 {
        "High"@
    } else {
        "Medium"@
    }
}

/// Assigns a severity string when a count exceeds its limit.
pub fn severity_for_excess(current: u64, threshold: u64) -> (res: &'static str)
    ensures
        res@ == count_excess_severity(current as int, threshold as int),
{
    let delta = current as i128 - threshold as i128;
    let d = delta;
    let t = threshold as i128;
    if threshold == 0 {
        if delta >= 5 { "Critical" } else if delta >= 1 { "High" } else { "Medium" }
    } else if 2 * d >= t || delta >= 20 {
        "Critical"
    } else if 4 * d >= t || delta >= 10 {
        "High"
    } else {
        "Medium"
    }
}

/// A refactoring candidate's file and priority, in the order of the
/// analysis ranking (priority first, then score, highest first).
#[derive(Clone, Debug, PartialEq)]
pub struct RankedCandidate {
    pub file_path: String,
    pub priority: Priority,
}

/// Files of the candidates whose priority rank is at least `min_rank`, in order.
pub open spec fn eligible_paths(s: Seq<RankedCandidate>, min_rank: nat) -> Seq<Seq<char>>
    decreases s.len(),
{
    if s.len() == 0 {
        Seq::empty()
    } else {
        let rest = eligible_paths(s.drop_last(), min_rank);
        if priority_rank(s.last().priority) >= min_rank {
            rest.push(s.last().file_path@)
        } else {
            rest
        }
    }
}

/// Each distinct element of `s`, at the position of its first occurrence.
pub open spec fn first_occurrences(s: Seq<Seq<char>>) -> Seq<Seq<char>>
    decreases s.len(),
{
    if s.len() == 0 {
        Seq::empty()
    } else {
        let rest = first_occurrences(s.drop_last());
        if rest.contains(s.last()) { rest } else { rest.push(s.last()) }
    }
}

/// The first `limit` elements (at least one, when there is one).
pub open spec fn limited(f: Seq<Seq<char>>, limit: nat) -> Seq<Seq<char>> {
    if f.len() == 0 {
        f
    } else if limit == 0 {
        f.take(1)
    } else if f.len() <= limit {
        f
    } else {
        f.take(limit as int)
    }
}

/// The affected files that a quality gate violation lists.
pub open spec fn top_files_spec(s: Seq<RankedCandidate>, min_rank: nat, limit: nat) -> Seq<Seq<char>> {
    limited(first_occurrences(eligible_paths(s, min_rank)), limit)
}

proof fn lemma_eligible_take(s: Seq<RankedCandidate>, min_rank: nat, i: int)
    requires
        0 <= i < s.len(),
    ensures
        eligible_paths(s.take(i + 1), min_rank) == if priority_rank(s[i].priority) >= min_rank {
            eligible_paths(s.take(i), min_rank).push(s[i].file_path@)
        } else {
            eligible_paths(s.take(i), min_rank)
        },
{
    assert(s.take(i + 1).drop_last() =~= s.take(i));
}

proof fn lemma_first_occ_prefix(s: Seq<Seq<char>>, t: Seq<Seq<char>>)
    requires
        s.len() <= t.len(),
        s == t.take(s.len() as int),
    ensures
        first_occurrences(s) == first_occurrences(t).take(first_occurrences(s).len() as int),
        first_occurrences(s).len() <= first_occurrences(t).len(),
    decreases t.len(),
{
    if s.len() == t.len() {
        assert(s =~= t);
        assert(first_occurrences(t).take(first_occurrences(t).len() as int) =~= first_occurrences(t));
    } else {
        assert(t.drop_last().take(s.len() as int) =~= s);
        lemma_first_occ_prefix(s, t.drop_last());
        let r = first_occurrences(t.drop_last());
        let k = first_occurrences(s).len() as int;
        if !r.contains(t.last()) {
            assert(r.push(t.last()).take(k) =~= r.take(k));
        }
    }
}

/// Whether `v` holds a string with the characters of `p`.
pub fn contains_path(v: &Vec<String>, p: &Vec<char>) -> (res: bool)
    ensures
        res == crate::config::strings_view(v@).contains(p@),
{
    let mut i: usize = 0;
    while i < v.len()
        invariant
            0 <= i <= v.len(),
            forall|j: int| 0 <= j < i ==> v@[j]@ != p@,
        decreases v.len() - i,
    {
        let cs = str_chars(v[i].as_str());
        if chars_eq(&cs, p) {
            assert(crate::config::strings_view(v@)[i as int] == p@);
            return true;
        }
        i += 1;
    }
    assert forall|j: int| 0 <= j < crate::config::strings_view(v@).len()
        implies crate::config::strings_view(v@)[j] != p@ by {
        assert(crate::config::strings_view(v@)[j] == v@[j]@);
    }
    false
}

/// Returns the distinct files of the candidates whose priority is at least
/// `min_priority`, in ranking order, at most `limit` of them (one when the
/// limit is zero).
pub fn top_issue_files(ranked: &Vec<RankedCandidate>, min_priority: Priority, limit: usize) -> (files: Vec<String>)
    ensures
        crate::config::strings_view(files@) == top_files_spec(ranked@, priority_rank(min_priority), limit as nat),
{
    let ghost min_rank = priority_rank(min_priority);
    let ghost whole = eligible_paths(ranked@, min_rank);
    let mut files: Vec<String> = Vec::new();
    let mut i: usize = 0;
    proof {
        assert(ranked@.take(0) =~= Seq::<RankedCandidate>::empty());
        assert(crate::config::strings_view(files@) =~= Seq::<Seq<char>>::empty());
    }
    while i < ranked.len()
        invariant
            0 <= i <= ranked.len(),
            min_rank == priority_rank(min_priority),
            whole == eligible_paths(ranked@, min_rank),
            crate::config::strings_view(files@) == first_occurrences(eligible_paths(ranked@.take(i as int), min_rank)),
            eligible_paths(ranked@.take(i as int), min_rank).len() == 0 || files.len() < limit,
        decreases ranked.len() - i,
    {
        proof { lemma_eligible_take(ranked@, min_rank, i as int); }
        let c = &ranked[i];
        let rank_ok = match min_priority {
            Priority::Unprioritized => true,
            Priority::Low => !matches!(c.priority, Priority::Unprioritized),
            Priority::Medium => matches!(c.priority, Priority::Medium | Priority::High | Priority::Critical),
            Priority::High => matches!(c.priority, Priority::High | Priority::Critical),
            Priority::Critical => matches!(c.priority, Priority::Critical),
        };
        assert(rank_ok == (priority_rank(c.priority) >= min_rank));
        if rank_ok {
            let ghost before = crate::config::strings_view(files@);
            let ghost e = eligible_paths(ranked@.take(i + 1), min_rank);
            assert(e.drop_last() =~= eligible_paths(ranked@.take(i as int), min_rank));
            assert(e.last() == c.file_path@);
            let p = str_chars(c.file_path.as_str());
            if !contains_path(&files, &p) {
                files.push(c.file_path.clone());
                assert(crate::config::strings_view(files@) =~= before.push(p@));
            }
            if files.len() >= limit {
                proof {
                    let prefix = eligible_paths(ranked@.take(i + 1), min_rank);
                    lemma_eligible_prefix(ranked@, min_rank, i + 1);
                    lemma_first_occ_prefix(prefix, whole);
                    let f = first_occurrences(whole);
                    let g = first_occurrences(prefix);
                    assert(g.len() >= 1);
                    if limit == 0 {
                        assert(g.len() == 1);
                    } else {
                        assert(g.len() == limit);
                    }
                }
                return files;
            }
        }
        i += 1;
    }
    proof {
        assert(ranked@.take(ranked.len() as int) =~= ranked@);
    }
    files
}

proof fn lemma_eligible_prefix(s: Seq<RankedCandidate>, min_rank: nat, j: int)
    requires
        0 <= j <= s.len(),
    ensures
        eligible_paths(s.take(j), min_rank).len() <= eligible_paths(s, min_rank).len(),
        eligible_paths(s.take(j), min_rank)
            == eligible_paths(s, min_rank).take(eligible_paths(s.take(j), min_rank).len() as int),
    decreases s.len() - j,
{
    if j == s.len() {
        assert(s.take(j) =~= s);
        let e = eligible_paths(s, min_rank);
        assert(e.take(e.len() as int) =~= e);
    } else {
        lemma_eligible_prefix(s, min_rank, j + 1);
        lemma_eligible_take(s, min_rank, j);
        let a = eligible_paths(s.take(j), min_rank);
        let b = eligible_paths(s.take(j + 1), min_rank);
        let e = eligible_paths(s, min_rank);
        assert(b.take(a.len() as int) =~= a);
        assert(e.take(b.len() as int).take(a.len() as int) =~= e.take(a.len() as int));
    }
}

/// A quality gate violation on an issue count.
#[derive(Clone, Debug, PartialEq)]
pub struct CountViolation {
    pub rule_name: String,
    pub description: String,
    pub current_value: u64,
    pub threshold: u64,
    pub severity: String,
    pub affected_files: Vec<String>,
    pub recommended_actions: Vec<String>,
}

/// A count violation as plain values.
pub struct ViolationView {
    pub rule_name: Seq<char>,
    pub description: Seq<char>,
    pub current_value: u64,
    pub threshold: u64,
    pub severity: Seq<char>,
    pub affected_files: Seq<Seq<char>>,
    pub recommended_actions: Seq<Seq<char>>,
}

impl View for CountViolation {
    type V = ViolationView;

    open spec fn view(&self) -> ViolationView {
        ViolationView {
            rule_name: self.rule_name@,
            description: self.description@,
            current_value: self.current_value,
            threshold: self.threshold,
            severity: self.severity@,
            affected_files: crate::config::strings_view(self.affected_files@),
            recommended_actions: crate::config::strings_view(self.recommended_actions@),
        }
    }
}

/// The violation raised when more critical issues are found than allowed.
pub open spec fn critical_violation(critical: u64, limit: u64, affected: Seq<Seq<char>>) -> ViolationView {
    ViolationView {
        rule_name: "Critical Issues"@,
        description: decimal(critical as nat) + " critical issues detected (limit: "@ + decimal(limit as nat) + ")"@,
        current_value: critical,
        threshold: limit,
        severity: count_excess_severity(critical as int, limit as int),
        affected_files: affected,
        recommended_actions: seq![
            "Prioritise fixes for the critical hotspots above"@,
            "Add regression tests before merging related fixes"@,
        ],
    }
}

/// The violation raised when more high-priority issues are found than allowed.
pub open spec fn high_priority_violation(high: u64, limit: u64, affected: Seq<Seq<char>>) -> ViolationView {
    ViolationView {
        rule_name: "High Priority Issues"@,
        description: decimal(high as nat) + " high-priority issues detected (limit: "@ + decimal(limit as nat) + ")"@,
        current_value: high,
        threshold: limit,
        severity: count_excess_severity(high as int, limit as int),
        affected_files: affected,
        recommended_actions: seq![
            "Address the highlighted high-priority candidates before release"@,
            "Break work into smaller refactors to keep velocity high"@,
        ],
    }
}

fn count_description(count: u64, middle: &str, limit: u64) -> (res: String)
    ensures
        res@ == decimal(count as nat) + middle@ + decimal(limit as nat) + ")"@,
{
    let mut d = String::new();
    push_decimal(&mut d, count);
    push_str(&mut d, middle);
    push_decimal(&mut d, limit);
    push_str(&mut d, ")");
    d
}

fn two_actions(a: &str, b: &str) -> (res: Vec<String>)
    ensures
        crate::config::strings_view(res@) == seq![a@, b@],
{
    let mut v: Vec<String> = Vec::new();
    v.push(to_owned_string(a));
    v.push(to_owned_string(b));
    assert(crate::config::strings_view(v@) =~= seq![a@, b@]);
    v
}

/// The count violations of a result: critical issues above the limit, then
/// high-priority issues above theirs; the affected files are the top five
/// files of the matching candidates.
pub open spec fn count_violations_spec(
    critical: u64,
    high_priority: u64,
    ranked: Seq<RankedCandidate>,
    config: QualityGateConfig,
) -> Seq<ViolationView> {
    let c = if critical > config.max_critical_issues {
        seq![critical_violation(critical, config.max_critical_issues as u64,
            top_files_spec(ranked, priority_rank(Priority::Critical), 5))]
    } else {
        Seq::empty()
    };
    let h = if high_priority > config.max_high_priority_issues {
        seq![high_priority_violation(high_priority, config.max_high_priority_issues as u64,
            top_files_spec(ranked, priority_rank(Priority::High), 5))]
    } else {
        Seq::empty()
    };
    c + h
}

/// The views of a list of violations.
pub open spec fn violations_view(v: Seq<CountViolation>) -> Seq<ViolationView> {
    v.map_values(|x: CountViolation| x@)
}

/// Check issue count violations and append them to `violations`.
pub fn check_issue_count_violations(
    violations: &mut Vec<CountViolation>,
    critical: usize,
    high_priority: usize,
    ranked: &Vec<RankedCandidate>,
    config: &QualityGateConfig,
)
    ensures
        violations_view(final(violations)@)
            == violations_view(old(violations)@) + count_violations_spec(critical as u64, high_priority as u64, ranked@, *config),
{
    proof {
        reveal_strlit(")");
    }
    let ghost start = violations_view(violations@);
    let max_critical = config.max_critical_issues as u64;
    if (critical as u64) > max_critical {
        let affected = top_issue_files(ranked, Priority::Critical, 5);
        let v = CountViolation {
            rule_name: to_owned_string("Critical Issues"),
            description: count_description(critical as u64, " critical issues detected (limit: ", max_critical),
            current_value: critical as u64,
            threshold: max_critical,
            severity: to_owned_string(severity_for_excess(critical as u64, max_critical)),
            affected_files: affected,
            recommended_actions: two_actions(
                "Prioritise fixes for the critical hotspots above",
                "Add regression tests before merging related fixes",
            ),
        };
        assert(v@ == critical_violation(critical as u64, config.max_critical_issues as u64,
            top_files_spec(ranked@, priority_rank(Priority::Critical), 5)));
        violations.push(v);
    }
    assert(violations_view(violations@) =~= start + (if critical > config.max_critical_issues {
        seq![critical_violation(critical as u64, config.max_critical_issues as u64,
            top_files_spec(ranked@, priority_rank(Priority::Critical), 5))]
    } else {
        Seq::<ViolationView>::empty()
    }));
    let ghost mid = violations_view(violations@);
    let max_high = config.max_high_priority_issues as u64;
    if (high_priority as u64) > max_high {
        let affected = top_issue_files(ranked, Priority::High, 5);
        let v = CountViolation {
            rule_name: to_owned_string("High Priority Issues"),
            description: count_description(high_priority as u64, " high-priority issues detected (limit: ", max_high),
            current_value: high_priority as u64,
            threshold: max_high,
            severity: to_owned_string(severity_for_excess(high_priority as u64, max_high)),
            affected_files: affected,
            recommended_actions: two_actions(
                "Address the highlighted high-priority candidates before release",
                "Break work into smaller refactors to keep velocity high",
            ),
        };
        violations.push(v);
    }
    assert(violations_view(violations@) =~= mid + (if high_priority > config.max_high_priority_issues {
        seq![high_priority_violation(high_priority as u64, config.max_high_priority_issues as u64,
            top_files_spec(ranked@, priority_rank(Priority::High), 5))]
    } else {
        Seq::<ViolationView>::empty()
    }));
}

/// The violation raised when the result reports more issues in total than
/// the critical-issue limit allows.
pub open spec fn total_issues_violation(total: u64, limit: u64) -> ViolationView {
    ViolationView {
        rule_name: "Total Issues Count"@,
        description: "Total issues ("@ + decimal(total as nat) + ") exceeds maximum allowed ("@
            + decimal(limit as nat) + ")"@,
        current_value: total,
        threshold: limit,
        severity: if total > 2 * limit { "Critical"@ } else { "High"@ },
        affected_files: Seq::empty(),
        recommended_actions: seq!["Review and address high-priority issues"@],
    }
}

/// The count check of a JSON result: an error without a summary, else the
/// total-issues violation when a non-zero critical-issue limit is exceeded.
pub open spec fn total_issues_gate_spec(
    result: JsonSpec,
    config: QualityGateConfig,
) -> Result<Option<ViolationView>, Seq<char>> {
    match spec_get(result, "summary"@) {
        None => Err("Summary not found in analysis result"@),
        Some(summary) => {
            let total = count_or_zero(summary, "total_issues"@);
            if config.max_critical_issues > 0 && total > config.max_critical_issues {
                Ok(Some(total_issues_violation(total, config.max_critical_issues as u64)))
            } else {
                Ok(None)
            }
        },
    }
}

/// The count part of the quality gate check of a JSON analysis result (the
/// score thresholds are compared on floating-point values by the caller).
pub fn total_issues_gate(result: &JsonValue, config: &QualityGateConfig) -> (res: Result<
    Option<CountViolation>,
    String,
>)
    ensures
        match res {
            Ok(Some(v)) => total_issues_gate_spec(json_view(*result), *config) == Ok::<
                Option<ViolationView>,
                Seq<char>,
            >(Some(v@)),
            Ok(None) => total_issues_gate_spec(json_view(*result), *config) == Ok::<
                Option<ViolationView>,
                Seq<char>,
            >(None),
            Err(e) => total_issues_gate_spec(json_view(*result), *config) == Err::<
                Option<ViolationView>,
                Seq<char>,
            >(e@),
        },
{
    proof {
        reveal_strlit(")");
    }
    let summary = match result.get("summary") {
        Some(s) => s,
        None => return Err(to_owned_string("Summary not found in analysis result")),
    };
    let total: u64 = match summary.get_u64("total_issues") {
        Some(n) => n,
        None => 0,
    };
    let limit = config.max_critical_issues as u64;
    if limit > 0 && total > limit {
        let severity = if (total as u128) > 2 * (limit as u128) { "Critical" } else { "High" };
        let mut description = to_owned_string("Total issues (");
        push_decimal(&mut description, total);
        push_str(&mut description, ") exceeds maximum allowed (");
        push_decimal(&mut description, limit);
        push_str(&mut description, ")");
        let mut actions: Vec<String> = Vec::new();
        actions.push(to_owned_string("Review and address high-priority issues"));
        let v = CountViolation {
            rule_name: to_owned_string("Total Issues Count"),
            description,
            current_value: total,
            threshold: limit,
            severity: to_owned_string(severity),
            affected_files: Vec::new(),
            recommended_actions: actions,
        };
        proof {
            assert(crate::config::strings_view(v.recommended_actions@) =~= seq!["Review and address high-priority issues"@]);
            assert(crate::config::strings_view(v.affected_files@) =~= Seq::<Seq<char>>::empty());
            assert(v.description@ =~= "Total issues ("@ + decimal(total as nat) + ") exceeds maximum allowed ("@
                + decimal(limit as nat) + ")"@);
            assert(v@ == total_issues_violation(total, limit));
        }
        Ok(Some(v))
    } else {
        Ok(None)
    }
}

/// Outcome of the quality gate: no gate (`None`), passed, or failed.
pub fn handle_quality_gate_result(passed: Option<bool>) -> (res: Result<(), String>)
    ensures
        res is Err <==> passed == Some(false),
        res matches Err(m) ==> m@ == "Quality gates failed"@,
{
    match passed {
        None => Ok(()),
        Some(true) => Ok(()),
        Some(false) => Err(to_owned_string("Quality gates failed")),
    }
}

} // verus!
