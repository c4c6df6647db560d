//! What the terminal views show: the texts, labels and selections behind
//! the coloured output of the command-line front end.

use vstd::prelude::*;
use crate::format::{format_name, format_to_string, OutputFormat};
use crate::json::{
    JsonValue, JsonSpec, NumberSpec, json_view, items_view, lemma_items_view, spec_get, str_of,
    u64_of, arr_of, bool_of,
};
use crate::report::{rec_effort, take_limit};
use crate::text::{decimal, push_decimal, push_str, str_eq, to_owned_string};

verus! {

/// The line range a recommendation's `location` names: ` (line N)` for a
/// single line, ` (lines A-B)` for a range, else nothing.
pub open spec fn location_text(rec: JsonSpec) -> Seq<char> {
    match arr_of(spec_get(rec, "location"@)) {
        Some(loc) => if loc.len() < 2 {
            Seq::empty()
        } else {
            match (loc[0], loc[1]) {
                (JsonSpec::Number(NumberSpec::PosInt(start)), JsonSpec::Number(NumberSpec::PosInt(end))) =>
                    if start == end {
                        " (line "@ + decimal(start as nat) + ")"@
                    } else {
                        " (lines "@ + decimal(start as nat) + "-"@ + decimal(end as nat) + ")"@
                    },
                _ => Seq::empty(),
            }
        },
        None => Seq::empty(),
    }
}

/// Format location from a recommendation's location array.
pub fn format_location(rec: &JsonValue) -> (res: String)
    ensures
        res@ == location_text(json_view(*rec)),
{
    proof {
        reveal_strlit(")");
        reveal_strlit("-");
    }
    let location = match rec.get_array("location") {
        Some(l) => l,
        None => return String::new(),
    };
    proof { lemma_items_view(location@); }
    if location.len() < 2 {
        return String::new();
    }
    match (location[0].as_u64(), location[1].as_u64()) {
        (Some(start), Some(end)) => {
            let mut s = String::new();
            if start == end {
                push_str(&mut s, " (line ");
                push_decimal(&mut s, start);
                push_str(&mut s, ")");
            } else {
                push_str(&mut s, " (lines ");
                push_decimal(&mut s, start);
                push_str(&mut s, "-");
                push_decimal(&mut s, end);
                push_str(&mut s, ")");
            }
            s
        },
        _ => String::new(),
    }
}

/// The quick health score shown after an analysis: 100 without issues,
/// else 100 less five per issue, but never under 60.
pub open spec fn quick_health_score_spec(total_issues: u64) -> int {
    if total_issues == 0 {
        100
    } else if 100 - 5 * total_issues < 60 {
        60
    } else {
        100 - 5 * total_issues
    }
}

/// The quick health score of the analysis summary table.
pub fn quick_health_score(total_issues: u64) -> (score: u64)
    ensures
        score == quick_health_score_spec(total_issues),
{
    if total_issues == 0 {
        100
    } else if total_issues >= 8 {
        60
    } else {
        100 - 5 * total_issues
    }
}

/// The badge of a quick health score.
pub open spec fn health_emoji_spec(score: u64) -> Seq<char> {
    if score >= 80 { "\u{1f7e2}"@ } else if score >= 60 { "\u{1f7e1}"@ } else { "\u{1f534}"@ }
}

/// The badge of a quick health score.
pub fn health_emoji(score: u64) -> (res: &'static str)
    ensures
        res@ == health_emoji_spec(score),
{
    if score >= 80 { "\u{1f7e2}" } else if score >= 60 { "\u{1f7e1}" } else { "\u{1f534}" }
}

/// The badge of a number of priority issues.
pub open spec fn priority_emoji_spec(total_issues: u64) -> Seq<char> {
    if total_issues == 0 { "\u{2705}"@ } else if total_issues < 5 { "\u{26a0}\u{fe0f}"@ } else { "\u{274c}"@ }
}

/// The badge of a number of priority issues.
pub fn priority_emoji(total_issues: u64) -> (res: &'static str)
    ensures
        res@ == priority_emoji_spec(total_issues),
{
    if total_issues == 0 { "\u{2705}" } else if total_issues < 5 { "\u{26a0}\u{fe0f}" } else { "\u{274c}" }
}

/// The effort label of a recommendation on the 1..10 scale.
pub open spec fn effort_label_spec(effort: u64) -> Seq<char> {
    if 1 <= effort <= 3 {
        "\u{1f7e2} Low"@
    } else if 4 <= effort <= 6 {
        "\u{1f7e1} Medium"@
    } else if 7 <= effort <= 10 {
        "\u{1f534} High"@
    } else {
        "\u{26aa} Unknown"@
    }
}

/// The effort label of a recommendation on the 1..10 scale.
pub fn effort_label(effort: u64) -> (res: &'static str)
    ensures
        res@ == effort_label_spec(effort),
{
    if 1 <= effort && effort <= 3 {
        "\u{1f7e2} Low"
    } else if 4 <= effort && effort <= 6 {
        "\u{1f7e1} Medium"
    } else if 7 <= effort && effort <= 10 {
        "\u{1f534} High"
    } else {
        "\u{26aa} Unknown"
    }
}

/// The kind of work a structure pack suggests, as the summary names it.
pub open spec fn structure_issue_label_spec(kind: Seq<char>) -> Seq<char> {
    if kind == "branch"@ {
        "\u{1f33f} Directory reorganization"@
    } else if kind == "file_split"@ {
        "\u{1f4c4} File splitting"@
    } else {
        "\u{1f50d} Structure optimization"@
    }
}

/// The kind of work a structure pack suggests, as the summary names it.
pub fn structure_issue_label(kind: &str) -> (res: &'static str)
    ensures
        res@ == structure_issue_label_spec(kind@),
{
    if str_eq(kind, "branch") {
        "\u{1f33f} Directory reorganization"
    } else if str_eq(kind, "file_split") {
        "\u{1f4c4} File splitting"
    } else {
        "\u{1f50d} Structure optimization"
    }
}

/// The heading of a structure pack in the structure listing.
pub open spec fn pack_kind_label_spec(kind: Seq<char>) -> Seq<char> {
    if kind == "branch"@ {
        "\u{1f33f} Directory Branch"@
    } else if kind == "file_split"@ {
        "\u{1f4c4} File Split"@
    } else {
        "\u{1f50d} General"@
    }
}

/// The heading of a structure pack in the structure listing.
pub fn pack_kind_label(kind: &str) -> (res: &'static str)
    ensures
        res@ == pack_kind_label_spec(kind@),
{
    if str_eq(kind, "branch") {
        "\u{1f33f} Directory Branch"
    } else if str_eq(kind, "file_split") {
        "\u{1f4c4} File Split"
    } else {
        "\u{1f50d} General"
    }
}

/// The next-step lines printed after an analysis, by output format.
pub open spec fn next_steps_spec(format: OutputFormat) -> Seq<Seq<char>> {
    match format {
        OutputFormat::Html => seq![
            "   1. Open the HTML report in your browser for interactive exploration"@,
            "   2. Share the report with your team for collaborative code review"@,
        ],
        OutputFormat::Sonar => seq![
            "   1. Import the SonarQube JSON into your SonarQube instance"@,
            "   2. Set up quality gates based on the technical debt metrics"@,
        ],
        OutputFormat::Csv => seq![
            "   1. Import the CSV data into your project tracking system"@,
            "   2. Prioritize refactoring tasks based on effort estimates"@,
        ],
        OutputFormat::CiSummary => seq![
            "   1. Integrate the CI summary JSON with your build pipeline"@,
            "   2. Set up automated quality gate enforcement"@,
            "   3. Monitor metrics over time to track code quality trends"@,
        ],
        _ => seq![
            "   1. Review the generated "@ + format_name(format) + " report for detailed findings"@,
            "   2. Address high-priority issues identified in the analysis"@,
            "   3. Consider running analysis regularly to track improvements"@,
        ],
    }
}

/// The next-step lines printed after an analysis, by output format.
pub fn next_steps(format: &OutputFormat) -> (lines: Vec<String>)
    ensures
        lines@.map_values(|l: String| l@) == next_steps_spec(*format),
{
    let mut lines: Vec<String> = Vec::new();
    match format {
        OutputFormat::Html => {
            lines.push(to_owned_string("   1. Open the HTML report in your browser for interactive exploration"));
            lines.push(to_owned_string("   2. Share the report with your team for collaborative code review"));
        },
        OutputFormat::Sonar => {
            lines.push(to_owned_string("   1. Import the SonarQube JSON into your SonarQube instance"));
            lines.push(to_owned_string("   2. Set up quality gates based on the technical debt metrics"));
        },
        OutputFormat::Csv => {
            lines.push(to_owned_string("   1. Import the CSV data into your project tracking system"));
            lines.push(to_owned_string("   2. Prioritize refactoring tasks based on effort estimates"));
        },
        OutputFormat::CiSummary => {
            lines.push(to_owned_string("   1. Integrate the CI summary JSON with your build pipeline"));
            lines.push(to_owned_string("   2. Set up automated quality gate enforcement"));
            lines.push(to_owned_string("   3. Monitor metrics over time to track code quality trends"));
        },
        _ => {
            let mut first = to_owned_string("   1. Review the generated ");
            push_str(&mut first, format_to_string(format));
            push_str(&mut first, " report for detailed findings");
            lines.push(first);
            lines.push(to_owned_string("   2. Address high-priority issues identified in the analysis"));
            lines.push(to_owned_string("   3. Consider running analysis regularly to track improvements"));
        },
    }
    assert(lines@.map_values(|l: String| l@) =~= next_steps_spec(*format));
    lines
}

/// The numbered lines of the first packs that name a kind.
pub open spec fn structure_lines(packs: Seq<JsonSpec>) -> Seq<Seq<char>>
    decreases packs.len(),
{
    if packs.len() == 0 {
        Seq::empty()
    } else {
        structure_lines(packs.drop_last()) + match str_of(spec_get(packs.last(), "kind"@)) {
            Some(k) => seq!["  "@ + decimal(packs.len()) + ". "@ + structure_issue_label_spec(k)],
            None => Seq::empty(),
        }
    }
}

/// The top structure issues of a comprehensive result: nothing unless it has
/// a structure object with a non-empty pack list, else the lines of its first
/// three packs.
pub open spec fn top_structure_spec(result: JsonSpec) -> Option<Seq<Seq<char>>> {
    match spec_get(result, "comprehensive_analysis"@) {
        Some(c) => match spec_get(c, "structure"@) {
            Some(JsonSpec::Obj(m)) => match arr_of(spec_get(JsonSpec::Obj(m), "packs"@)) {
                Some(packs) => if packs.len() == 0 {
                    None
                } else {
                    Some(structure_lines(take_limit(packs, 3)))
                },
                None => None,
            },
            _ => None,
        },
        None => None,
    }
}

/// The lines of the top structure issues, under their heading; `None` when
/// there is nothing to show.
pub fn top_structure_issue_lines(result: &JsonValue) -> (res: Option<Vec<String>>)
    ensures
        match res {
            Some(lines) => top_structure_spec(json_view(*result)) == Some(lines@.map_values(|l: String| l@)),
            None => top_structure_spec(json_view(*result)) is None,
        },
{
    let analysis = match result.get("comprehensive_analysis") {
        Some(a) => a,
        None => return None,
    };
    let structure = match analysis.get("structure") {
        Some(s) => s,
        None => return None,
    };
    match structure {
        JsonValue::Obj(_) => {},
        _ => return None,
    }
    let packs = match structure.get_array("packs") {
        Some(p) => p,
        None => return None,
    };
    if packs.len() == 0 {
        return None;
    }
    proof { lemma_items_view(packs@); }
    let ghost pv = items_view(packs@);
    let n: usize = if 3 < packs.len() { 3 } else { packs.len() };
    let mut lines: Vec<String> = Vec::new();
    let mut i: usize = 0;
    while i < n
        invariant
            0 <= i <= n,
            n <= packs.len(),
            pv == items_view(packs@),
            pv.len() == packs.len(),
            forall|k: int| 0 <= k < packs.len() ==> #[trigger] pv[k] == json_view(packs@[k]),
            lines@.map_values(|l: String| l@) == structure_lines(pv.take(i as int)),
        decreases n - i,
    {
        proof {
            assert(pv.take(i + 1).drop_last() =~= pv.take(i as int));
            assert(pv.take(i + 1).last() == pv[i as int]);
        }
        let ghost before = lines@;
        match packs[i].get_str("kind") {
            Some(kind) => {
                let mut line = to_owned_string("  ");
                push_decimal(&mut line, (i + 1) as u64);
                push_str(&mut line, ". ");
                push_str(&mut line, structure_issue_label(kind));
                lines.push(line);
                assert(lines@.map_values(|l: String| l@) =~= before.map_values(|l: String| l@)
                    + seq!["  "@ + decimal((i + 1) as nat) + ". "@ + structure_issue_label_spec(kind@)]);
            },
            None => {
                assert(lines@.map_values(|l: String| l@) =~= before.map_values(|l: String| l@) + Seq::<Seq<char>>::empty());
            },
        }
        i += 1;
    }
    proof {
        assert(take_limit(pv, 3) =~= pv.take(n as int));
    }
    Some(lines)
}

/// Whether a refactoring file result can be shown: it names a path and
/// lists at least one recommendation.
pub open spec fn shows_refactoring(f: JsonSpec) -> bool {
    &&& str_of(spec_get(f, "file_path"@)) is Some
    &&& match arr_of(spec_get(f, "recommendations"@)) {
        Some(a) => a.len() > 0,
        None => false,
    }
}

/// The positions of the file results that can be shown.
pub open spec fn shown_refactoring_files(d: Seq<JsonSpec>) -> Seq<int>
    decreases d.len(),
{
    if d.len() == 0 {
        Seq::empty()
    } else if shows_refactoring(d.last()) {
        shown_refactoring_files(d.drop_last()).push(d.len() - 1)
    } else {
        shown_refactoring_files(d.drop_last())
    }
}

/// What the refactoring view shows: the number of opportunities, the
/// positions of the files it lists and how many results beyond the tenth
/// it leaves out.
#[derive(Clone, Debug, PartialEq)]
pub struct RefactoringDisplay {
    pub opportunities_count: u64,
    pub file_indices: Vec<usize>,
    pub hidden_files: usize,
}

/// The refactoring view of a result: nothing when refactoring is absent,
/// switched off or has no file results; else the opportunity count, the
/// shown files among the first ten results, and the results past the tenth.
pub open spec fn refactoring_display_spec(results: JsonSpec) -> Option<(u64, Seq<int>, int)> {
    match spec_get(results, "refactoring"@) {
        Some(r) => if bool_of(spec_get(r, "enabled"@)) == Some(false) {
            None
        } else {
            match arr_of(spec_get(r, "detailed_results"@)) {
                Some(d) => if d.len() == 0 {
                    None
                } else {
                    Some((
                        crate::report::markdown::count_or_zero(r, "opportunities_count"@),
                        shown_refactoring_files(take_limit(d, 10)),
                        if d.len() > 10 { d.len() - 10 } else { 0 },
                    ))
                },
                None => None,
            }
        },
        None => None,
    }
}

/// The indices as integers.
pub open spec fn indices_view(v: Seq<usize>) -> Seq<int> {
    v.map_values(|i: usize| i as int)
}

fn shows_refactoring_file(f: &JsonValue) -> (res: bool)
    ensures
        res == shows_refactoring(json_view(*f)),
{
    if f.get_str("file_path").is_none() {
        return false;
    }
    match f.get_array("recommendations") {
        Some(a) => a.len() > 0,
        None => false,
    }
}

/// Decide what the refactoring suggestions view shows.
pub fn refactoring_display(results: &JsonValue) -> (res: Option<RefactoringDisplay>)
    ensures
        match res {
            Some(p) => refactoring_display_spec(json_view(*results)) == Some((
                p.opportunities_count,
                indices_view(p.file_indices@),
                p.hidden_files as int,
            )),
            None => refactoring_display_spec(json_view(*results)) is None,
        },
{
    let refactoring = match results.get("refactoring") {
        Some(r) => r,
        None => return None,
    };
    if let Some(enabled) = refactoring.get_bool("enabled") {
        if !enabled {
            return None;
        }
    }
    let detailed_results = match refactoring.get_array("detailed_results") {
        Some(d) => d,
        None => return None,
    };
    if detailed_results.len() == 0 {
        return None;
    }
    let opportunities_count: u64 = match refactoring.get_u64("opportunities_count") {
        Some(n) => n,
        None => 0,
    };
    proof { lemma_items_view(detailed_results@); }
    let ghost dv = items_view(detailed_results@);
    let n: usize = if 10 < detailed_results.len() { 10 } else { detailed_results.len() };
    let mut files: Vec<usize> = Vec::new();
    let mut i: usize = 0;
    while i < n
        invariant
            0 <= i <= n,
            n <= detailed_results.len(),
            dv == items_view(detailed_results@),
            dv.len() == detailed_results.len(),
            forall|k: int| 0 <= k < detailed_results.len() ==> #[trigger] dv[k] == json_view(detailed_results@[k]),
            indices_view(files@) == shown_refactoring_files(dv.take(i as int)),
        decreases n - i,
    {
        proof {
            assert(dv.take(i + 1).drop_last() =~= dv.take(i as int));
            assert(dv.take(i + 1).last() == dv[i as int]);
        }
        let ghost before = files@;
        if shows_refactoring_file(&detailed_results[i]) {
            files.push(i);
            assert(indices_view(files@) =~= indices_view(before).push(i as int));
        }
        i += 1;
    }
    proof {
        assert(take_limit(dv, 10) =~= dv.take(n as int));
    }
    let hidden_files: usize = if detailed_results.len() > 10 { detailed_results.len() - 10 } else { 0 };
    Some(RefactoringDisplay { opportunities_count, file_indices: files, hidden_files })
}

/// Whether a file result lists at least one recommendation.
pub open spec fn has_recommendations(f: JsonSpec) -> bool {
    match arr_of(spec_get(f, "recommendations"@)) {
        Some(a) => a.len() > 0,
        None => false,
    }
}

/// The positions of the file results that list recommendations.
pub open spec fn recommendation_files(d: Seq<JsonSpec>) -> Seq<int>
    decreases d.len(),
{
    if d.len() == 0 {
        Seq::empty()
    } else if has_recommendations(d.last()) {
        recommendation_files(d.drop_last()).push(d.len() - 1)
    } else {
        recommendation_files(d.drop_last())
    }
}

/// What the complexity-recommendations view shows: the positions of the
/// files it lists and how many more files have recommendations.
#[derive(Clone, Debug, PartialEq)]
pub struct ComplexityDisplay {
    pub file_indices: Vec<usize>,
    pub hidden_files: usize,
}

/// The complexity-recommendations view of a result: nothing when complexity
/// is absent or switched off, or no file lists recommendations; else the
/// first eight such files and the count of the rest.
pub open spec fn complexity_display_spec(results: JsonSpec) -> Option<(Seq<int>, int)> {
    match spec_get(results, "complexity"@) {
        Some(c) => if bool_of(spec_get(c, "enabled"@)) == Some(false) {
            None
        } else {
            match arr_of(spec_get(c, "detailed_results"@)) {
                Some(d) => {
                    let f = recommendation_files(d);
                    if f.len() == 0 {
                        None
                    } else {
                        Some((take_limit(f, 8), if f.len() > 8 { f.len() - 8 } else { 0 }))
                    }
                },
                None => None,
            }
        },
        None => None,
    }
}

fn file_has_recommendations(f: &JsonValue) -> (res: bool)
    ensures
        res == has_recommendations(json_view(*f)),
{
    match f.get_array("recommendations") {
        Some(a) => a.len() > 0,
        None => false,
    }
}

/// Decide what the complexity recommendations view shows.
pub fn complexity_display(results: &JsonValue) -> (res: Option<ComplexityDisplay>)
    ensures
        match res {
            Some(p) => complexity_display_spec(json_view(*results)) == Some((
                indices_view(p.file_indices@),
                p.hidden_files as int,
            )),
            None => complexity_display_spec(json_view(*results)) is None,
        },
{
    let complexity = match results.get("complexity") {
        Some(c) => c,
        None => return None,
    };
    if let Some(enabled) = complexity.get_bool("enabled") {
        if !enabled {
            return None;
        }
    }
    let detailed_results = match complexity.get_array("detailed_results") {
        Some(d) => d,
        None => return None,
    };
    proof { lemma_items_view(detailed_results@); }
    let ghost dv = items_view(detailed_results@);
    let mut files: Vec<usize> = Vec::new();
    let mut i: usize = 0;
    while i < detailed_results.len()
        invariant
            0 <= i <= detailed_results.len(),
            dv == items_view(detailed_results@),
            dv.len() == detailed_results.len(),
            forall|k: int| 0 <= k < detailed_results.len() ==> #[trigger] dv[k] == json_view(detailed_results@[k]),
            indices_view(files@) == recommendation_files(dv.take(i as int)),
            files.len() <= i,
        decreases detailed_results.len() - i,
    {
        proof {
            assert(dv.take(i + 1).drop_last() =~= dv.take(i as int));
            assert(dv.take(i + 1).last() == dv[i as int]);
        }
        let ghost before = files@;
        if file_has_recommendations(&detailed_results[i]) {
            files.push(i);
            assert(indices_view(files@) =~= indices_view(before).push(i as int));
        }
        i += 1;
    }
    proof {
        assert(dv.take(detailed_results.len() as int) =~= dv);
    }
    if files.len() == 0 {
        return None;
    }
    let total = files.len();
    let hidden_files: usize = if total > 8 { total - 8 } else { 0 };
    let mut shown: Vec<usize> = Vec::new();
    let n: usize = if total > 8 { 8 } else { total };
    let mut j: usize = 0;
    while j < n
        invariant
            0 <= j <= n,
            n <= files.len(),
            indices_view(shown@) == indices_view(files@).take(j as int),
        decreases n - j,
    {
        let ghost before = shown@;
        shown.push(files[j]);
        assert(shown@ == before.push(files@[j as int]));
        assert(indices_view(shown@) =~= indices_view(before).push(files@[j as int] as int));
        assert(indices_view(files@).take(j + 1) =~= indices_view(files@).take(j as int).push(files@[j as int] as int));
        j += 1;
    }
    proof {
        assert(take_limit(indices_view(files@), 8) =~= indices_view(files@).take(n as int));
    }
    Some(ComplexityDisplay { file_indices: shown, hidden_files })
}

/// One numbered recommendation line of a file's complexity view.
#[derive(Clone, Debug, PartialEq)]
pub struct RecommendationLine {
    pub number: usize,
    pub description: String,
    pub effort: &'static str,
}

/// A recommendation line as plain values.
pub open spec fn line_view(l: RecommendationLine) -> (int, Seq<char>, Seq<char>) {
    (l.number as int, l.description@, l.effort@)
}

/// The lines of the first recommendations that have a description,
/// numbered by position from 1.
pub open spec fn recommendation_lines(recs: Seq<JsonSpec>) -> Seq<(int, Seq<char>, Seq<char>)>
    decreases recs.len(),
{
    if recs.len() == 0 {
        Seq::empty()
    } else {
        recommendation_lines(recs.drop_last()) + match str_of(spec_get(recs.last(), "description"@)) {
            Some(d) => seq![(recs.len() as int, d, effort_label_spec(rec_effort(recs.last())))],
            None => Seq::empty(),
        }
    }
}

/// A file's complexity recommendations view: nothing without a path or
/// without recommendations, else the path and the lines of its first two
/// recommendations.
pub open spec fn file_recommendations_spec(f: JsonSpec) -> Option<(Seq<char>, Seq<(int, Seq<char>, Seq<char>)>)> {
    match (str_of(spec_get(f, "file_path"@)), arr_of(spec_get(f, "recommendations"@))) {
        (Some(p), Some(recs)) => if recs.len() == 0 {
            None
        } else {
            Some((p, recommendation_lines(take_limit(recs, 2))))
        },
        _ => None,
    }
}

/// Decide what one file's complexity recommendations view shows.
pub fn file_complexity_recommendations(file_result: &JsonValue) -> (res: Option<(String, Vec<RecommendationLine>)>)
    ensures
        match res {
            Some((path, lines)) => file_recommendations_spec(json_view(*file_result))
                == Some((path@, lines@.map_values(|l: RecommendationLine| line_view(l)))),
            None => file_recommendations_spec(json_view(*file_result)) is None,
        },
{
    let file_path = match file_result.get_str("file_path") {
        Some(p) => p,
        None => return None,
    };
    let recommendations = match file_result.get_array("recommendations") {
        Some(r) => r,
        None => return None,
    };
    if recommendations.len() == 0 {
        return None;
    }
    proof { lemma_items_view(recommendations@); }
    let ghost rv = items_view(recommendations@);
    let n: usize = if 2 < recommendations.len() { 2 } else { recommendations.len() };
    let mut lines: Vec<RecommendationLine> = Vec::new();
    let mut i: usize = 0;
    while i < n
        invariant
            0 <= i <= n,
            n <= recommendations.len(),
            rv == items_view(recommendations@),
            rv.len() == recommendations.len(),
            forall|k: int| 0 <= k < recommendations.len() ==> #[trigger] rv[k] == json_view(recommendations@[k]),
            lines@.map_values(|l: RecommendationLine| line_view(l)) == recommendation_lines(rv.take(i as int)),
        decreases n - i,
    {
        proof {
            assert(rv.take(i + 1).drop_last() =~= rv.take(i as int));
            assert(rv.take(i + 1).last() == rv[i as int]);
        }
        let ghost before = lines@;
        let rec = &recommendations[i];
        match rec.get_str("description") {
            Some(description) => {
                let effort: u64 = match rec.get_u64("effort") {
                    Some(e) => e,
                    None => 1,
                };
                let line = RecommendationLine {
                    number: i + 1,
                    description: to_owned_string(description),
                    effort: effort_label(effort),
                };
                lines.push(line);
                assert(lines@.map_values(|l: RecommendationLine| line_view(l)) =~= before.map_values(
                    |l: RecommendationLine| line_view(l)) + seq![((i + 1) as int, description@,
                    effort_label_spec(rec_effort(rv[i as int])))]);
            },
            None => {
                assert(lines@.map_values(|l: RecommendationLine| line_view(l)) =~= before.map_values(
                    |l: RecommendationLine| line_view(l)) + Seq::<(int, Seq<char>, Seq<char>)>::empty());
            },
        }
        i += 1;
    }
    proof {
        assert(take_limit(rv, 2) =~= rv.take(n as int));
    }
    Some((to_owned_string(file_path), lines))
}

} // verus!
