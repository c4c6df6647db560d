//! MCP tool parameters, entity identifiers and the decisions of the tools
//! that do not need the analysis engine.

use vstd::prelude::*;
use crate::labels::Priority;
use crate::mcp::protocol::{ANALYSIS_ERROR, INTERNAL_ERROR, INVALID_PARAMS};
use crate::text::{
    contains_seq, contains_str, decimal, find_char, push_decimal, push_str, str_chars,
    string_from_range, to_owned_string,
};

verus! {

/// Parameters for the analyze_code tool.
#[derive(Clone, Debug, PartialEq)]
pub struct AnalyzeCodeParams {
    pub path: String,
    pub format: String,
}

/// Parameters for the get_refactoring_suggestions tool.
#[derive(Clone, Debug, PartialEq)]
pub struct RefactoringSuggestionsParams {
    pub entity_id: String,
    pub max_suggestions: usize,
}

/// Path and issue-count limit of the validate_quality_gates tool; its score
/// limits are floating-point values that the front end checks.
#[derive(Clone, Debug, PartialEq)]
pub struct ValidateQualityGatesParams {
    pub path: String,
    pub max_issues: Option<usize>,
}

/// Parameters for the analyze_file_quality tool.
#[derive(Clone, Debug, PartialEq)]
pub struct AnalyzeFileQualityParams {
    pub file_path: String,
    pub include_suggestions: bool,
}

/// Default value for including suggestions in file quality analysis.
pub fn default_include_suggestions() -> (res: bool)
    ensures
        res,
{
    true
}

/// Default output format for analysis results.
pub fn default_format() -> (res: String)
    ensures
        res@ == "json"@,
{
    to_owned_string("json")
}

/// Default maximum number of refactoring suggestions.
pub fn default_max_suggestions() -> (res: usize)
    ensures
        res == 10,
{
    10
}

/// The (file path, entity name) that an entity identifier names: split at the
/// first ':' if there is one, else at the first '#', else the whole identifier
/// is the path.
pub open spec fn entity_parts(id: Seq<char>) -> (Seq<char>, Option<Seq<char>>) {
    if exists|i: int| 0 <= i < id.len() && id[i] == ':' {
        let p = choose|i: int| 0 <= i < id.len() && id[i] == ':' && forall|j: int| 0 <= j < i ==> id[j] != ':';
        (id.take(p), Some(id.skip(p + 1)))
    } else if exists|i: int| 0 <= i < id.len() && id[i] == '#' {
        let p = choose|i: int| 0 <= i < id.len() && id[i] == '#' && forall|j: int| 0 <= j < i ==> id[j] != '#';
        (id.take(p), Some(id.skip(p + 1)))
    } else {
        (id, None)
    }
}

proof fn lemma_first_index_unique(id: Seq<char>, c: char, i: int)
    requires
        0 <= i < id.len(),
        id[i] == c,
        forall|j: int| 0 <= j < i ==> id[j] != c,
    ensures
        (choose|k: int| 0 <= k < id.len() && id[k] == c && forall|j: int| 0 <= j < k ==> id[j] != c) == i,
{
    let k = choose|k: int| 0 <= k < id.len() && id[k] == c && forall|j: int| 0 <= j < k ==> id[j] != c;
    assert(0 <= k < id.len() && id[k] == c && forall|j: int| 0 <= j < k ==> id[j] != c);
    if k < i {
        assert(id[k] != c);
    } else if k > i {
        assert(id[i] != c);
    }
}

/// Parse entity ID to extract file path and entity name.
pub fn parse_entity_id(entity_id: &str) -> (res: Result<(String, Option<String>), (i32, String)>)
    ensures
        entity_id@.len() == 0 <==> res is Err,
        res matches Err(e) ==> e.0 == INVALID_PARAMS && e.1@ == "Entity ID cannot be empty"@,
        res matches Ok(p) ==> p.0@ == entity_parts(entity_id@).0
            && match p.1 {
                Some(n) => entity_parts(entity_id@).1 == Some(n@),
                None => entity_parts(entity_id@).1 is None,
            },
{
    let v = str_chars(entity_id);
    if v.len() == 0 {
        return Err((INVALID_PARAMS, to_owned_string("Entity ID cannot be empty")));
    }
    match find_char(&v, ':') {
        Some(pos) => {
            proof { lemma_first_index_unique(v@, ':', pos as int); }
            let file_path = string_from_range(&v, 0, pos);
            let name = string_from_range(&v, pos + 1, v.len());
            assert(v@.subrange(0, pos as int) =~= v@.take(pos as int));
            assert(v@.subrange(pos + 1, v.len() as int) =~= v@.skip(pos + 1));
            Ok((file_path, Some(name)))
        },
        None => {
            match find_char(&v, '#') {
                Some(pos) => {
                    proof { lemma_first_index_unique(v@, '#', pos as int); }
                    let file_path = string_from_range(&v, 0, pos);
                    let name = string_from_range(&v, pos + 1, v.len());
                    assert(v@.subrange(0, pos as int) =~= v@.take(pos as int));
                    assert(v@.subrange(pos + 1, v.len() as int) =~= v@.skip(pos + 1));
                    Ok((file_path, Some(name)))
                },
                None => Ok((to_owned_string(entity_id), None)),
            }
        },
    }
}

/// The suggested actions for a candidate of the given priority whose issues
/// have the given categories: one for the priority, then for each issue one
/// per matching category word (complexity, coupling, duplication).
pub open spec fn suggested_actions_spec(priority: Priority, categories: Seq<Seq<char>>) -> Seq<Seq<char>>
    decreases categories.len(),
{
    if categories.len() == 0 {
        seq![match priority {
            Priority::Critical => "Immediate refactoring required"@,
            Priority::High => "Schedule refactoring in next sprint"@,
            Priority::Medium => "Consider refactoring when modifying this code"@,
            Priority::Low => "Refactoring optional, monitor for changes"@,
            Priority::Unprioritized => "No immediate action required"@,
        }]
    } else {
        let c = categories.last();
        suggested_actions_spec(priority, categories.drop_last())
            + (if contains_seq(c, "complexity"@) { seq!["Break down complex functions into smaller units"@] } else { Seq::empty() })
            + (if contains_seq(c, "coupling"@) { seq!["Reduce dependencies between modules"@] } else { Seq::empty() })
            + (if contains_seq(c, "duplication"@) { seq!["Extract common code into shared utilities"@] } else { Seq::empty() })
    }
}

fn push_string(v: &mut Vec<String>, s: &str)
    ensures
        crate::config::strings_view(final(v)@) == crate::config::strings_view(old(v)@).push(s@),
{
    v.push(to_owned_string(s));
    assert(crate::config::strings_view(v@) =~= crate::config::strings_view(old(v)@).push(s@));
}

/// Extract suggested actions from a refactoring candidate's priority and the
/// categories of its issues.
pub fn extract_suggested_actions(priority: Priority, issue_categories: &Vec<String>) -> (actions: Vec<String>)
    ensures
        crate::config::strings_view(actions@)
            == suggested_actions_spec(priority, crate::config::strings_view(issue_categories@)),
{
    let mut actions: Vec<String> = Vec::new();
    match priority {
        Priority::Critical => push_string(&mut actions, "Immediate refactoring required"),
        Priority::High => push_string(&mut actions, "Schedule refactoring in next sprint"),
        Priority::Medium => push_string(&mut actions, "Consider refactoring when modifying this code"),
        Priority::Low => push_string(&mut actions, "Refactoring optional, monitor for changes"),
        Priority::Unprioritized => push_string(&mut actions, "No immediate action required"),
    }
    let ghost cats = crate::config::strings_view(issue_categories@);
    proof {
        assert(cats.take(0) =~= Seq::<Seq<char>>::empty());
    }
    let mut i: usize = 0;
    while i < issue_categories.len()
        invariant
            0 <= i <= issue_categories.len(),
            cats == crate::config::strings_view(issue_categories@),
            crate::config::strings_view(actions@) == suggested_actions_spec(priority, cats.take(i as int)),
        decreases issue_categories.len() - i,
    {
        let ghost before = crate::config::strings_view(actions@);
        let category = issue_categories[i].as_str();
        if contains_str(category, "complexity") {
            push_string(&mut actions, "Break down complex functions into smaller units");
        }
        if contains_str(category, "coupling") {
            push_string(&mut actions, "Reduce dependencies between modules");
        }
        if contains_str(category, "duplication") {
            push_string(&mut actions, "Extract common code into shared utilities");
        }
        proof {
            let t = cats.take(i + 1);
            assert(t.drop_last() =~= cats.take(i as int));
            assert(t.last() == issue_categories@[i as int]@);
            let c = t.last();
            assert(crate::config::strings_view(actions@) =~= before
                + (if contains_seq(c, "complexity"@) { seq!["Break down complex functions into smaller units"@] } else { Seq::empty() })
                + (if contains_seq(c, "coupling"@) { seq!["Reduce dependencies between modules"@] } else { Seq::empty() })
                + (if contains_seq(c, "duplication"@) { seq!["Extract common code into shared utilities"@] } else { Seq::empty() }));
        }
        i += 1;
    }
    proof {
        assert(cats.take(issue_categories.len() as int) =~= cats);
    }
    actions
}

/// Whether a candidate identifier and the requested one contain each other.
pub open spec fn ids_related(candidate: Seq<char>, requested: Seq<char>) -> bool {
    contains_seq(candidate, requested) || contains_seq(requested, candidate)
}

/// Indices of the first `max` candidates (in order) whose identifier is
/// related to the requested one.
pub open spec fn matching_indices(ids: Seq<Seq<char>>, requested: Seq<char>, max: nat) -> Seq<int>
    decreases ids.len(),
{
    if ids.len() == 0 {
        Seq::empty()
    } else {
        let rest = matching_indices(ids.drop_last(), requested, max);
        if ids_related(ids.last(), requested) && rest.len() < max {
            rest.push(ids.len() - 1)
        } else {
            rest
        }
    }
}

/// Select the candidates for a refactoring-suggestions request: those whose
/// identifier contains the requested one or is contained in it, at most
/// `max_suggestions` of them, by index.
pub fn filter_refactoring_suggestions(candidate_ids: &Vec<String>, entity_id: &str, max_suggestions: usize) -> (res: Vec<usize>)
    ensures
        res@.map_values(|i: usize| i as int)
            == matching_indices(crate::config::strings_view(candidate_ids@), entity_id@, max_suggestions as nat),
{
    let ghost ids = crate::config::strings_view(candidate_ids@);
    let mut res: Vec<usize> = Vec::new();
    let mut i: usize = 0;
    proof {
        assert(ids.take(0) =~= Seq::<Seq<char>>::empty());
        assert(res@.map_values(|i: usize| i as int) =~= Seq::<int>::empty());
    }
    while i < candidate_ids.len()
        invariant
            0 <= i <= candidate_ids.len(),
            ids == crate::config::strings_view(candidate_ids@),
            res@.map_values(|i: usize| i as int) == matching_indices(ids.take(i as int), entity_id@, max_suggestions as nat),
            res.len() <= max_suggestions,
        decreases candidate_ids.len() - i,
    {
        let ghost before = res@.map_values(|i: usize| i as int);
        let id = candidate_ids[i].as_str();
        let related = contains_str(id, entity_id) || contains_str(entity_id, id);
        proof {
            let t = ids.take(i + 1);
            assert(t.drop_last() =~= ids.take(i as int));
            assert(t.last() == candidate_ids@[i as int]@);
            assert(before.len() == res.len());
        }
        if related && res.len() < max_suggestions {
            res.push(i);
            assert(res@.map_values(|i: usize| i as int) =~= before.push(i as int));
        }
        i += 1;
    }
    proof {
        assert(ids.take(candidate_ids.len() as int) =~= ids);
    }
    res
}

/// The kind of failure a tool reports.
#[derive(Clone, Debug, PartialEq)]
pub enum ToolFailure {
    /// The path given does not exist.
    PathMissing,
    /// The file given does not exist.
    FileMissing,
    /// The path given is not a file.
    NotAFile,
    /// The analysis engine could not be created.
    EngineInit,
    /// The analysis engine could not be created (cached path).
    EngineCreate,
    /// The analysis failed.
    AnalysisFailed,
    /// Formatting the results failed.
    FormatFailed,
    /// Formatting cached results failed.
    FormatCachedFailed,
    /// Serializing suggestions failed.
    SerializeSuggestions,
    /// Serializing quality gate results failed.
    SerializeQualityGates,
    /// Serializing the file quality report failed.
    SerializeFileReport,
}

/// Error code and message prefix of each tool failure.
pub open spec fn failure_parts(kind: ToolFailure) -> (i32, Seq<char>) {
    match kind {
        ToolFailure::PathMissing => (INVALID_PARAMS, "Path does not exist: "@),
        ToolFailure::FileMissing => (INVALID_PARAMS, "File does not exist: "@),
        ToolFailure::NotAFile => (INVALID_PARAMS, "Path is not a file: "@),
        ToolFailure::EngineInit => (ANALYSIS_ERROR, "Failed to initialize analysis engine: "@),
        ToolFailure::EngineCreate => (ANALYSIS_ERROR, "Failed to create analysis engine: "@),
        ToolFailure::AnalysisFailed => (ANALYSIS_ERROR, "Analysis failed: "@),
        ToolFailure::FormatFailed => (INTERNAL_ERROR, "Failed to format results: "@),
        ToolFailure::FormatCachedFailed => (INTERNAL_ERROR, "Failed to format cached results: "@),
        ToolFailure::SerializeSuggestions => (INTERNAL_ERROR, "Failed to serialize suggestions: "@),
        ToolFailure::SerializeQualityGates => (INTERNAL_ERROR, "Failed to serialize quality gate results: "@),
        ToolFailure::SerializeFileReport => (INTERNAL_ERROR, "Failed to serialize file quality report: "@),
    }
}

/// The (code, message) a tool returns for a failure with the given detail.
pub fn tool_failure(kind: ToolFailure, detail: &str) -> (res: (i32, String))
    ensures
        res.0 == failure_parts(kind).0,
        res.1@ == failure_parts(kind).1 + detail@,
{
    let (code, prefix) = match kind {
        ToolFailure::PathMissing => (INVALID_PARAMS, "Path does not exist: "),
        ToolFailure::FileMissing => (INVALID_PARAMS, "File does not exist: "),
        ToolFailure::NotAFile => (INVALID_PARAMS, "Path is not a file: "),
        ToolFailure::EngineInit => (ANALYSIS_ERROR, "Failed to initialize analysis engine: "),
        ToolFailure::EngineCreate => (ANALYSIS_ERROR, "Failed to create analysis engine: "),
        ToolFailure::AnalysisFailed => (ANALYSIS_ERROR, "Analysis failed: "),
        ToolFailure::FormatFailed => (INTERNAL_ERROR, "Failed to format results: "),
        ToolFailure::FormatCachedFailed => (INTERNAL_ERROR, "Failed to format cached results: "),
        ToolFailure::SerializeSuggestions => (INTERNAL_ERROR, "Failed to serialize suggestions: "),
        ToolFailure::SerializeQualityGates => (INTERNAL_ERROR, "Failed to serialize quality gate results: "),
        ToolFailure::SerializeFileReport => (INTERNAL_ERROR, "Failed to serialize file quality report: "),
    };
    let mut message = to_owned_string(prefix);
    push_str(&mut message, detail);
    (code, message)
}

/// The message of the issue-count violation of validate_quality_gates.
pub open spec fn max_issues_message(total: u64, max: u64) -> Seq<char> {
    "Total issues ("@ + decimal(total as nat) + ") exceeds maximum allowed ("@ + decimal(max as nat) + ")"@
}

/// The issue count that validate_quality_gates checks (critical plus high
/// priority) and, when it exceeds the requested maximum, the message of the
/// violation.
pub fn max_issues_check(critical: u64, high_priority: u64, max_issues: Option<usize>) -> (res: (u64, Option<String>))
    requires
        critical + high_priority <= u64::MAX,
    ensures
        res.0 == critical + high_priority,
        match max_issues {
            Some(m) => if res.0 > m {
                res.1 matches Some(msg) && msg@ == max_issues_message(res.0, m as u64)
            } else {
                res.1 is None
            },
            None => res.1 is None,
        },
{
    let total = critical + high_priority;
    match max_issues {
        Some(m) => {
            if total > m as u64 {
                let mut msg = to_owned_string("Total issues (");
                push_decimal(&mut msg, total);
                push_str(&mut msg, ") exceeds maximum allowed (");
                push_decimal(&mut msg, m as u64);
                push_str(&mut msg, ")");
                (total, Some(msg))
            } else {
                (total, None)
            }
        },
        None => (total, None),
    }
}

} // verus!
