//! Labels, badges and small text fragments used by the reports.

use vstd::prelude::*;
use crate::text::{
    contains_seq, opt_str_view, push_str, replace_all, replace_spec, str_eq, to_owned_string,
};

verus! {

/// The view of an optional owned string.
pub open spec fn opt_string_view(s: Option<String>) -> Option<Seq<char>> {
    match s {
        Some(t) => Some(t@),
        None => None,
    }
}

/// The crate version shown in headers and the MCP manifest.
pub const VERSION: &'static str = "0.1.0";

/// Refactoring priority of a candidate, lowest first.
#[derive(Clone, Copy, Debug, PartialEq, Eq, Structural)]
pub enum Priority {
    Unprioritized,
    Low,
    Medium,
    High,
    Critical,
}

/// Rank of a priority, `Unprioritized` = 0 up to `Critical` = 4.
pub open spec fn priority_rank(p: Priority) -> nat {
    match p {
        Priority::Unprioritized => 0,
        Priority::Low => 1,
        Priority::Medium => 2,
        Priority::High => 3,
        Priority::Critical => 4,
    }
}

/// Human-friendly label for a `Priority` value.
pub open spec fn priority_label_spec(p: Priority) -> Seq<char> {
    match p {
        Priority::Unprioritized => "none"@,
        Priority::Low => "low"@,
        Priority::Medium => "medium"@,
        Priority::High => "high"@,
        Priority::Critical => "critical"@,
    }
}

/// Human-friendly label for a `Priority` value.
pub fn priority_label(priority: Priority) -> (res: &'static str)
    ensures
        res@ == priority_label_spec(priority),
{
    match priority {
        Priority::Unprioritized => "none",
        Priority::Low => "low",
        Priority::Medium => "medium",
        Priority::High => "high",
        Priority::Critical => "critical",
    }
}

/// Emoji for a refactoring type.
pub open spec fn refactoring_emoji_spec(t: Seq<char>) -> Seq<char> {
    if t == "ExtractMethod"@ { "\u{26a1}"@ }
    else if t == "ExtractClass"@ { "\u{1f4e6}"@ }
    else if t == "ReduceComplexity"@ { "\u{1f3af}"@ }
    else if t == "EliminateDuplication"@ { "\u{1f504}"@ }
    else if t == "ImproveNaming"@ { "\u{1f4dd}"@ }
    else if t == "SimplifyConditionals"@ { "\u{1f500}"@ }
    else if t == "RemoveDeadCode"@ { "\u{1f9f9}"@ }
    else { "\u{1f527}"@ }
}

/// Get emoji for a refactoring type.
pub fn refactoring_type_emoji(refactoring_type: &str) -> (res: &'static str)
    ensures
        res@ == refactoring_emoji_spec(refactoring_type@),
{
    if str_eq(refactoring_type, "ExtractMethod") { "\u{26a1}" }
    else if str_eq(refactoring_type, "ExtractClass") { "\u{1f4e6}" }
    else if str_eq(refactoring_type, "ReduceComplexity") { "\u{1f3af}" }
    else if str_eq(refactoring_type, "EliminateDuplication") { "\u{1f504}" }
    else if str_eq(refactoring_type, "ImproveNaming") { "\u{1f4dd}" }
    else if str_eq(refactoring_type, "SimplifyConditionals") { "\u{1f500}" }
    else if str_eq(refactoring_type, "RemoveDeadCode") { "\u{1f9f9}" }
    else { "\u{1f527}" }
}

/// The display form of a refactoring type: a space after each known verb.
pub open spec fn format_refactoring_type_spec(t: Seq<char>) -> Seq<char> {
    let a = replace_spec(t, "Extract"@, "Extract "@);
    let b = replace_spec(a, "Reduce"@, "Reduce "@);
    let c = replace_spec(b, "Eliminate"@, "Eliminate "@);
    let d = replace_spec(c, "Improve"@, "Improve "@);
    let e = replace_spec(d, "Simplify"@, "Simplify "@);
    replace_spec(e, "Remove"@, "Remove "@)
}

/// Format a refactoring type for display (e.g., "ExtractMethod" -> "Extract Method").
pub fn format_refactoring_type(refactoring_type: &str) -> (res: String)
    ensures
        res@ == format_refactoring_type_spec(refactoring_type@),
{
    proof {
        reveal_strlit("Extract");
        reveal_strlit("Reduce");
        reveal_strlit("Eliminate");
        reveal_strlit("Improve");
        reveal_strlit("Simplify");
        reveal_strlit("Remove");
    }
    let a = replace_all(refactoring_type, "Extract", "Extract ");
    let b = replace_all(a.as_str(), "Reduce", "Reduce ");
    let c = replace_all(b.as_str(), "Eliminate", "Eliminate ");
    let d = replace_all(c.as_str(), "Improve", "Improve ");
    let e = replace_all(d.as_str(), "Simplify", "Simplify ");
    replace_all(e.as_str(), "Remove", "Remove ")
}

/// `s` with every space removed.
pub open spec fn without_spaces(s: Seq<char>) -> Seq<char>
    decreases s.len(),
{
    if s.len() == 0 {
        s
    } else if s[0] == ' ' {
        without_spaces(s.skip(1))
    } else {
        seq![s[0]] + without_spaces(s.skip(1))
    }
}

proof fn lemma_without_spaces_add(a: Seq<char>, b: Seq<char>)
    ensures
        without_spaces(a + b) == without_spaces(a) + without_spaces(b),
    decreases a.len(),
{
    if a.len() == 0 {
        assert(a + b =~= b);
        assert(without_spaces(a) + without_spaces(b) =~= without_spaces(b));
    } else {
        assert((a + b).skip(1) =~= a.skip(1) + b);
        assert((a + b)[0] == a[0]);
        lemma_without_spaces_add(a.skip(1), b);
        if a[0] != ' ' {
            assert(seq![a[0]] + without_spaces(a.skip(1) + b)
                =~= seq![a[0]] + without_spaces(a.skip(1)) + without_spaces(b));
        }
    }
}

proof fn lemma_without_spaces_of_spaceless(w: Seq<char>)
    requires
        forall|i: int| 0 <= i < w.len() ==> w[i] != ' ',
    ensures
        without_spaces(w) == w,
    decreases w.len(),
{
    if w.len() > 0 {
        lemma_without_spaces_of_spaceless(w.skip(1));
        assert(seq![w[0]] + w.skip(1) =~= w);
    }
}

/// Replacing each occurrence of `w` by `w` and a space removes or adds
/// nothing but spaces.
proof fn lemma_space_after_keeps_letters(s: Seq<char>, w: Seq<char>)
    requires
        w.len() > 0,
        without_spaces(w) == w,
    ensures
        without_spaces(replace_spec(s, w, w + " "@)) == without_spaces(s),
    decreases s.len(),
{
    reveal_strlit(" ");
    if s.len() < w.len() {
    } else if s.take(w.len() as int) == w {
        let r = s.skip(w.len() as int);
        lemma_space_after_keeps_letters(r, w);
        lemma_without_spaces_add(w + " "@, replace_spec(r, w, w + " "@));
        lemma_without_spaces_add(w, " "@);
        let sp = " "@;
        assert(sp =~= seq![' ']);
        assert(sp.skip(1) =~= Seq::<char>::empty());
        assert(without_spaces(sp.skip(1)) == sp.skip(1));
        assert(without_spaces(sp) =~= Seq::<char>::empty());
        assert(w + Seq::<char>::empty() =~= w);
        assert(s =~= w + r);
        lemma_without_spaces_add(w, r);
    } else {
        let r = s.skip(1);
        lemma_space_after_keeps_letters(r, w);
        lemma_without_spaces_add(seq![s[0]], replace_spec(r, w, w + " "@));
        assert(s =~= seq![s[0]] + r);
        lemma_without_spaces_add(seq![s[0]], r);
    }
}

/// Replacing a pattern that does not occur changes nothing.
proof fn lemma_replace_absent(s: Seq<char>, w: Seq<char>, to: Seq<char>)
    requires
        w.len() > 0,
        !contains_seq(s, w),
    ensures
        replace_spec(s, w, to) == s,
    decreases s.len(),
{
    if s.len() < w.len() {
    } else if s.take(w.len() as int) == w {
        assert(s.subrange(0, 0 + w.len() as int) =~= w);
        assert(contains_seq(s, w));
    } else {
        let r = s.skip(1);
        assert(!contains_seq(r, w)) by {
            if contains_seq(r, w) {
                let i = choose|i: int| 0 <= i && i + w.len() <= r.len() && #[trigger] r.subrange(i, i + w.len()) == w;
                assert(s.subrange(i + 1, i + 1 + w.len()) =~= r.subrange(i, i + w.len()));
            }
        }
        lemma_replace_absent(r, w, to);
        assert(seq![s[0]] + r =~= s);
    }
}

/// Formatting a refactoring type only inserts spaces: with the spaces
/// removed, the display form is the type with its spaces removed; and a type
/// that holds none of the verbs Extract, Reduce, Eliminate, Improve,
/// Simplify and Remove comes back unchanged.
pub proof fn lemma_format_refactoring_type_inserts_spaces(t: Seq<char>)
    ensures
        without_spaces(format_refactoring_type_spec(t)) == without_spaces(t),
        (!contains_seq(t, "Extract"@) && !contains_seq(t, "Reduce"@) && !contains_seq(t, "Eliminate"@)
            && !contains_seq(t, "Improve"@) && !contains_seq(t, "Simplify"@) && !contains_seq(t, "Remove"@))
            ==> format_refactoring_type_spec(t) == t,
{
    reveal_strlit("Extract");
    reveal_strlit("Reduce");
    reveal_strlit("Eliminate");
    reveal_strlit("Improve");
    reveal_strlit("Simplify");
    reveal_strlit("Remove");
    reveal_strlit("Extract ");
    reveal_strlit("Reduce ");
    reveal_strlit("Eliminate ");
    reveal_strlit("Improve ");
    reveal_strlit("Simplify ");
    reveal_strlit("Remove ");
    reveal_strlit(" ");
    let words = seq!["Extract"@, "Reduce"@, "Eliminate"@, "Improve"@, "Simplify"@, "Remove"@];
    assert forall|k: int| 0 <= k < 6 implies without_spaces(#[trigger] words[k]) == words[k] by {
        lemma_without_spaces_of_spaceless(words[k]);
    }
    assert("Extract "@ =~= "Extract"@ + " "@);
    assert("Reduce "@ =~= "Reduce"@ + " "@);
    assert("Eliminate "@ =~= "Eliminate"@ + " "@);
    assert("Improve "@ =~= "Improve"@ + " "@);
    assert("Simplify "@ =~= "Simplify"@ + " "@);
    assert("Remove "@ =~= "Remove"@ + " "@);
    let a = replace_spec(t, "Extract"@, "Extract "@);
    let b = replace_spec(a, "Reduce"@, "Reduce "@);
    let c = replace_spec(b, "Eliminate"@, "Eliminate "@);
    let d = replace_spec(c, "Improve"@, "Improve "@);
    let e = replace_spec(d, "Simplify"@, "Simplify "@);
    assert(words[0] == "Extract"@);
    lemma_space_after_keeps_letters(t, "Extract"@);
    assert(words[1] == "Reduce"@);
    lemma_space_after_keeps_letters(a, "Reduce"@);
    assert(words[2] == "Eliminate"@);
    lemma_space_after_keeps_letters(b, "Eliminate"@);
    assert(words[3] == "Improve"@);
    lemma_space_after_keeps_letters(c, "Improve"@);
    assert(words[4] == "Simplify"@);
    lemma_space_after_keeps_letters(d, "Simplify"@);
    assert(words[5] == "Remove"@);
    lemma_space_after_keeps_letters(e, "Remove"@);
    if !contains_seq(t, "Extract"@) && !contains_seq(t, "Reduce"@) && !contains_seq(t, "Eliminate"@)
        && !contains_seq(t, "Improve"@) && !contains_seq(t, "Simplify"@) && !contains_seq(t, "Remove"@) {
        lemma_replace_absent(t, "Extract"@, "Extract "@);
        lemma_replace_absent(t, "Reduce"@, "Reduce "@);
        lemma_replace_absent(t, "Eliminate"@, "Eliminate "@);
        lemma_replace_absent(t, "Improve"@, "Improve "@);
        lemma_replace_absent(t, "Simplify"@, "Simplify "@);
        lemma_replace_absent(t, "Remove"@, "Remove "@);
    }
}

/// Severity badge (emoji, CSS class) for a severity name.
pub open spec fn severity_indicator_spec(severity: Seq<char>) -> (Seq<char>, Seq<char>) {
    if severity == "Critical"@ { ("\u{1f534}"@, "severity-critical"@) }
    else if severity == "VeryHigh"@ { ("\u{1f7e0}"@, "severity-very-high"@) }
    else if severity == "High"@ { ("\u{1f7e1}"@, "severity-high"@) }
    else { ("\u{26a0}\u{fe0f}"@, "severity-medium"@) }
}

/// Get severity indicator emoji and CSS class.
pub fn severity_indicator(severity: &str) -> (res: (&'static str, &'static str))
    ensures
        (res.0@, res.1@) == severity_indicator_spec(severity@),
{
    if str_eq(severity, "Critical") { ("\u{1f534}", "severity-critical") }
    else if str_eq(severity, "VeryHigh") { ("\u{1f7e0}", "severity-very-high") }
    else if str_eq(severity, "High") { ("\u{1f7e1}", "severity-high") }
    else { ("\u{26a0}\u{fe0f}", "severity-medium") }
}

/// CSS class for an effort level on the 1..10 scale.
pub open spec fn effort_class_spec(effort: u64) -> Seq<char> {
    if 1 <= effort <= 3 { "effort-low"@ }
    else if 4 <= effort <= 6 { "effort-medium"@ }
    else if 7 <= effort <= 10 { "effort-high"@ }
    else { "effort-unknown"@ }
}

/// Determine effort class based on effort level.
pub fn effort_class(effort: u64) -> (res: &'static str)
    ensures
        res@ == effort_class_spec(effort),
{
    if 1 <= effort && effort <= 3 { "effort-low" }
    else if 4 <= effort && effort <= 6 { "effort-medium" }
    else if 7 <= effort && effort <= 10 { "effort-high" }
    else { "effort-unknown" }
}

/// SonarQube severity for a Valknut severity name.
pub open spec fn sonar_severity_spec(severity: Option<Seq<char>>) -> Seq<char> {
    match severity {
        Some(s) => if s == "Critical"@ { "BLOCKER"@ }
            else if s == "VeryHigh"@ { "CRITICAL"@ }
            else if s == "High"@ { "MAJOR"@ }
            else if s == "Medium"@ { "MINOR"@ }
            else { "INFO"@ },
        None => "INFO"@,
    }
}

/// Maps valknut severity levels to SonarQube severity strings.
pub fn map_severity_to_sonar(severity: Option<&str>) -> (res: &'static str)
    ensures
        res@ == sonar_severity_spec(opt_str_view(severity)),
{
    match severity {
        Some(s) => {
            if str_eq(s, "Critical") { "BLOCKER" }
            else if str_eq(s, "VeryHigh") { "CRITICAL" }
            else if str_eq(s, "High") { "MAJOR" }
            else if str_eq(s, "Medium") { "MINOR" }
            else { "INFO" }
        },
        None => "INFO",
    }
}

/// Escapes double quotes in a string for CSV format.
pub fn escape_csv(s: &str) -> (res: String)
    ensures
        res@ == replace_spec(s@, "\""@, "\"\""@),
{
    proof {
        reveal_strlit("\"");
    }
    replace_all(s, "\"", "\"\"")
}

/// The single header line: "Valknut v" and the version.
pub open spec fn header_line() -> Seq<char> {
    "Valknut v"@ + VERSION@
}

/// Build the stylized header lines to fit the given terminal width.
/// The same compact line is used at every width.
pub fn header_lines_for_width(width: u16) -> (lines: Vec<String>)
    ensures
        lines@.len() == 1,
        lines@[0]@ == header_line(),
{
    let mut line = to_owned_string("Valknut v");
    push_str(&mut line, VERSION);
    let mut lines: Vec<String> = Vec::new();
    lines.push(line);
    lines
}

/// Status text for the quality gate switches.
pub open spec fn quality_status_spec(fail_on_issues: bool, quality_gate: bool) -> Seq<char> {
    if fail_on_issues { "fail on issues"@ } else if quality_gate { "on"@ } else { "off"@ }
}

/// Generate status string for quality gate configuration.
pub fn quality_status(fail_on_issues: bool, quality_gate: bool) -> (res: String)
    ensures
        res@ == quality_status_spec(fail_on_issues, quality_gate),
{
    if fail_on_issues {
        to_owned_string("fail on issues")
    } else if quality_gate {
        to_owned_string("on")
    } else {
        to_owned_string("off")
    }
}

/// The message logged for the clone-denoising switch.
pub open spec fn denoise_status_spec(enabled: bool) -> Seq<char> {
    if enabled {
        "Clone denoising enabled (advanced analysis mode)"@
    } else {
        "Clone denoising disabled via --no-denoise flag"@
    }
}

/// The denoise status line that the CLI logs.
pub fn log_denoise_status(enabled: bool) -> (res: &'static str)
    ensures
        res@ == denoise_status_spec(enabled),
{
    if enabled {
        "Clone denoising enabled (advanced analysis mode)"
    } else {
        "Clone denoising disabled via --no-denoise flag"
    }
}

/// The closing recommendations section of the markdown report.
pub open spec fn md_recommendations_footer() -> Seq<char> {
    "---\n\n"@ + "## Recommendations\n\n"@
        + "1. **Start with Critical Issues**: Focus on files with the highest severity scores\n"@
        + "2. **Apply Incremental Changes**: Make small, focused refactoring improvements\n"@
        + "3. **Prioritize by Impact**: Address issues in frequently modified files first\n"@
        + "4. **Add Tests**: Ensure test coverage before major refactoring\n"@
}

/// Render recommendations footer.
pub fn render_md_recommendations_footer(content: &mut String)
    ensures
        final(content)@ == old(content)@ + md_recommendations_footer(),
{
    push_str(content, "---\n\n");
    push_str(content, "## Recommendations\n\n");
    push_str(content, "1. **Start with Critical Issues**: Focus on files with the highest severity scores\n");
    push_str(content, "2. **Apply Incremental Changes**: Make small, focused refactoring improvements\n");
    push_str(content, "3. **Prioritize by Impact**: Address issues in frequently modified files first\n");
    push_str(content, "4. **Add Tests**: Ensure test coverage before major refactoring\n");
    assert(content@ =~= old(content)@ + md_recommendations_footer());
}

} // verus!
