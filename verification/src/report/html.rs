//! The HTML analysis report.

use vstd::prelude::*;
use crate::json::{
    JsonValue, JsonSpec, json_view, items_view, lemma_items_view, spec_get, str_of, arr_of,
};
use crate::labels::{effort_class, effort_class_spec, severity_indicator, severity_indicator_spec};
use crate::report::{
    file_has_issues, files_with_issues, issue_severity, rec_effort, take_limit,
};
use crate::report::markdown::summary_count;
use crate::text::{decimal, push_decimal, push_str};

verus! {

/// The HTML item of one issue; an issue without a description gives none.
pub open spec fn issue_html(issue: JsonSpec) -> Seq<char> {
    match str_of(spec_get(issue, "description"@)) {
        Some(d) => "<div class='issue-item "@ + severity_indicator_spec(issue_severity(issue)).1
            + "'><span class='severity-indicator'>"@ + severity_indicator_spec(issue_severity(issue)).0
            + " "@ + issue_severity(issue) + "</span><span class='issue-description'>"@ + d
            + "</span></div>"@,
        None => Seq::empty(),
    }
}

/// The HTML items of a list of issues, in order.
pub open spec fn issue_items_html(issues: Seq<JsonSpec>) -> Seq<char>
    decreases issues.len(),
{
    if issues.len() == 0 {
        Seq::empty()
    } else {
        issue_items_html(issues.drop_last()) + issue_html(issues.last())
    }
}

/// The issues list: the first `limit` issues inside one block.
pub open spec fn issues_html(issues: Seq<JsonSpec>, limit: int) -> Seq<char> {
    "<div class='issues-list'>"@ + issue_items_html(take_limit(issues, limit)) + "</div>"@
}

/// Render issues list HTML from a JSON array of issues.
pub fn render_issues_html(issues: &Vec<JsonValue>, limit: usize) -> (html: String)
    ensures
        html@ == issues_html(items_view(issues@), limit as int),
{
    proof { lemma_items_view(issues@); }
    let ghost iv = items_view(issues@);
    let mut html = String::new();
    push_str(&mut html, "<div class='issues-list'>");
    let ghost head = html@;
    let n: usize = if limit < issues.len() { limit } else { issues.len() };
    let mut i: usize = 0;
    while i < n
        invariant
            0 <= i <= n,
            n <= issues.len(),
            iv == items_view(issues@),
            iv.len() == issues.len(),
            forall|k: int| 0 <= k < issues.len() ==> #[trigger] iv[k] == json_view(issues@[k]),
            html@ == head + issue_items_html(iv.take(i as int)),
        decreases n - i,
    {
        let issue = &issues[i];
        proof {
            assert(iv.take(i + 1).drop_last() =~= iv.take(i as int));
            assert(iv.take(i + 1).last() == iv[i as int]);
        }
        match issue.get_str("description") {
            Some(description) => {
                let severity = match issue.get_str("severity") {
                    Some(s) => s,
                    None => "Medium",
                };
                let (emoji, class) = severity_indicator(severity);
                push_str(&mut html, "<div class='issue-item ");
                push_str(&mut html, class);
                push_str(&mut html, "'><span class='severity-indicator'>");
                push_str(&mut html, emoji);
                push_str(&mut html, " ");
                push_str(&mut html, severity);
                push_str(&mut html, "</span><span class='issue-description'>");
                push_str(&mut html, description);
                push_str(&mut html, "</span></div>");
                proof {
                    assert(html@ =~= head + issue_items_html(iv.take(i as int)) + issue_html(iv[i as int]));
                }
            },
            None => {},
        }
        i += 1;
    }
    push_str(&mut html, "</div>");
    proof {
        assert(take_limit(iv, limit as int) =~= iv.take(n as int));
        assert(html@ =~= issues_html(iv, limit as int));
    }
    html
}

/// The HTML list item of one recommendation; one without a description
/// gives none.
pub open spec fn rec_html(rec: JsonSpec) -> Seq<char> {
    match str_of(spec_get(rec, "description"@)) {
        Some(d) => "<li><span class='recommendation-text'>"@ + d
            + "</span> <span class='effort-indicator "@ + effort_class_spec(rec_effort(rec))
            + "'>(Effort: "@ + decimal(rec_effort(rec) as nat) + ")</span></li>"@,
        None => Seq::empty(),
    }
}

/// The HTML list items of a list of recommendations, in order.
pub open spec fn rec_items_html(recs: Seq<JsonSpec>) -> Seq<char>
    decreases recs.len(),
{
    if recs.len() == 0 {
        Seq::empty()
    } else {
        rec_items_html(recs.drop_last()) + rec_html(recs.last())
    }
}

/// The recommended-actions block: nothing for an empty list, else an
/// ordered list of the first `limit` recommendations.
pub open spec fn recommendations_html(recs: Seq<JsonSpec>, limit: int) -> Seq<char> {
    if recs.len() == 0 {
        Seq::empty()
    } else {
        "<div class='recommendations'><h4>\u{1f4a1} Recommended Actions:</h4><ol>"@
            + rec_items_html(take_limit(recs, limit)) + "</ol></div>"@
    }
}

/// Render recommendations list HTML from a JSON array.
pub fn render_recommendations_html(recommendations: &Vec<JsonValue>, limit: usize) -> (html: String)
    ensures
        html@ == recommendations_html(items_view(recommendations@), limit as int),
{
    proof { lemma_items_view(recommendations@); }
    let ghost iv = items_view(recommendations@);
    let mut html = String::new();
    if recommendations.len() == 0 {
        return html;
    }
    push_str(&mut html, "<div class='recommendations'><h4>\u{1f4a1} Recommended Actions:</h4><ol>");
    let ghost head = html@;
    let n: usize = if limit < recommendations.len() { limit } else { recommendations.len() };
    let mut i: usize = 0;
    while i < n
        invariant
            0 <= i <= n,
            n <= recommendations.len(),
            iv == items_view(recommendations@),
            iv.len() == recommendations.len(),
            forall|k: int| 0 <= k < recommendations.len() ==> #[trigger] iv[k] == json_view(recommendations@[k]),
            html@ == head + rec_items_html(iv.take(i as int)),
        decreases n - i,
    {
        let rec = &recommendations[i];
        proof {
            assert(iv.take(i + 1).drop_last() =~= iv.take(i as int));
            assert(iv.take(i + 1).last() == iv[i as int]);
        }
        match rec.get_str("description") {
            Some(description) => {
                let effort: u64 = match rec.get_u64("effort") {
                    Some(e) => e,
                    None => 1,
                };
                let class = effort_class(effort);
                push_str(&mut html, "<li><span class='recommendation-text'>");
                push_str(&mut html, description);
                push_str(&mut html, "</span> <span class='effort-indicator ");
                push_str(&mut html, class);
                push_str(&mut html, "'>(Effort: ");
                push_decimal(&mut html, effort);
                push_str(&mut html, ")</span></li>");
                proof {
                    assert(html@ =~= head + rec_items_html(iv.take(i as int)) + rec_html(iv[i as int]));
                }
            },
            None => {},
        }
        i += 1;
    }
    push_str(&mut html, "</ol></div>");
    proof {
        assert(take_limit(iv, limit as int) =~= iv.take(n as int));
        assert(html@ =~= recommendations_html(iv, limit as int));
    }
    html
}

/// The HTML entry of one high-priority file, numbered `index`: its first
/// five issues and first three recommendations. A file result without a path
/// gives none.
pub open spec fn file_html(f: JsonSpec, index: nat) -> Seq<char> {
    match str_of(spec_get(f, "file_path"@)) {
        Some(p) => "<div class='file-section'><h3>"@ + decimal(index) + ".&nbsp;<code>"@ + p
            + "</code></h3>"@
            + (match arr_of(spec_get(f, "issues"@)) {
                Some(a) => issues_html(a, 5),
                None => Seq::empty(),
            })
            + (match arr_of(spec_get(f, "recommendations"@)) {
                Some(a) => recommendations_html(a, 3),
                None => Seq::empty(),
            })
            + "</div>"@,
        None => Seq::empty(),
    }
}

/// The HTML entries of a list of files, numbered by position from 1.
pub open spec fn files_html(files: Seq<JsonSpec>) -> Seq<char>
    decreases files.len(),
{
    if files.len() == 0 {
        Seq::empty()
    } else {
        files_html(files.drop_last()) + file_html(files.last(), files.len())
    }
}

/// The heading of a high-priority file section numbered `n` for the file at
/// `path`: `<h3>n.&nbsp;<code>path</code></h3>`.
pub open spec fn html_file_heading(path: Seq<char>, n: nat) -> Seq<char> {
    "<h3>"@ + decimal(n) + ".&nbsp;<code>"@ + path + "</code></h3>"@
}

/// The file sections of a list carry the numbers 1, 2, ... by position: the
/// `k`-th file (from 1), when it names a path, is headed with number `k` at
/// the returned offset, and the offsets of such files increase with `k`.
pub proof fn lemma_html_files_numbered(files: Seq<JsonSpec>) -> (offs: Seq<int>)
    ensures
        offs.len() == files.len(),
        forall|k: int| 0 <= k < files.len() ==> (#[trigger] str_of(spec_get(files[k], "file_path"@)) matches Some(p) ==> {
            &&& 0 <= offs[k]
            &&& offs[k] + html_file_heading(p, (k + 1) as nat).len() <= files_html(files).len()
            &&& files_html(files).subrange(offs[k], offs[k] + html_file_heading(p, (k + 1) as nat).len())
                == html_file_heading(p, (k + 1) as nat)
        }),
        forall|k: int, j: int| 0 <= k < j < files.len()
            && str_of(spec_get(files[k], "file_path"@)) is Some ==> #[trigger] offs[k] < #[trigger] offs[j],
        forall|k: int| 0 <= k < files.len() ==> #[trigger] offs[k] <= files_html(files).len(),
    decreases files.len(),
{
    if files.len() == 0 {
        Seq::empty()
    } else {
        let prev = files.drop_last();
        let po = lemma_html_files_numbered(prev);
        let a = files_html(prev);
        let n = files.len();
        let f = files.last();
        let entry = file_html(f, n);
        let whole = files_html(files);
        assert(whole == a + entry);
        reveal_strlit("<div class='file-section'><h3>");
        reveal_strlit("<div class='file-section'>");
        reveal_strlit("<h3>");
        let lead = "<div class='file-section'>"@;
        let here: int = if str_of(spec_get(f, "file_path"@)) is Some { (a.len() + lead.len()) as int } else { a.len() as int };
        let offs = po.push(here);
        match str_of(spec_get(f, "file_path"@)) {
            Some(p) => {
                let h = html_file_heading(p, n);
                assert(entry.subrange(lead.len() as int, (lead.len() + h.len()) as int) =~= h);
            },
            None => {
                assert(entry.len() == 0);
            },
        }
        assert forall|k: int| 0 <= k < files.len() implies (#[trigger] str_of(spec_get(files[k], "file_path"@)) matches Some(p) ==> {
            &&& 0 <= offs[k]
            &&& offs[k] + html_file_heading(p, (k + 1) as nat).len() <= whole.len()
            &&& whole.subrange(offs[k], offs[k] + html_file_heading(p, (k + 1) as nat).len())
                == html_file_heading(p, (k + 1) as nat)
        }) by {
            if k < n - 1 {
                assert(files[k] == prev[k]);
                assert(offs[k] == po[k]);
                if let Some(p) = str_of(spec_get(prev[k], "file_path"@)) {
                    let hk = html_file_heading(p, (k + 1) as nat);
                    assert(whole.subrange(po[k], po[k] + hk.len()) =~= a.subrange(po[k], po[k] + hk.len()));
                }
            } else {
                assert(files[k] == f);
                if let Some(p) = str_of(spec_get(f, "file_path"@)) {
                    let h = html_file_heading(p, n);
                    assert(whole.subrange(offs[k], offs[k] + h.len())
                        =~= entry.subrange(lead.len() as int, (lead.len() + h.len()) as int));
                }
            }
        }
        assert forall|k: int, j: int| 0 <= k < j < files.len()
            && str_of(spec_get(files[k], "file_path"@)) is Some implies #[trigger] offs[k] < #[trigger] offs[j] by {
            assert(files[k] == prev[k]);
            assert(offs[k] == po[k]);
            if j < n - 1 {
                assert(offs[j] == po[j]);
            } else {
                let p = str_of(spec_get(prev[k], "file_path"@))->0;
                assert(html_file_heading(p, (k + 1) as nat).len() > 0);
            }
        }
        assert forall|k: int| 0 <= k < files.len() implies #[trigger] offs[k] <= whole.len() by {
            if k < n - 1 {
                assert(offs[k] == po[k]);
            } else {
                assert(files[k] == f);
                assert(offs[k] == here);
                match str_of(spec_get(f, "file_path"@)) {
                    Some(p) => {
                        assert(entry.len() >= lead.len() + html_file_heading(p, n).len());
                    },
                    None => {
                        assert(entry.len() == 0);
                    },
                }
            }
        }
        offs
    }
}

/// The high-priority files section: the first ten files that list issues,
/// or nothing when no file does.
pub open spec fn high_priority_html(complexity: JsonSpec) -> Seq<char> {
    match arr_of(spec_get(complexity, "detailed_results"@)) {
        Some(d) => if files_with_issues(d).len() == 0 {
            Seq::empty()
        } else {
            "<h2>\u{1f525} High Priority Files</h2>"@
                + "<p>Files with complexity issues that should be addressed first:</p>"@
                + files_html(take_limit(files_with_issues(d), 10))
        },
        None => Seq::empty(),
    }
}

/// In the HTML high-priority files section the `k`-th listed file (from 1)
/// that names a path is headed `<h3>k.&nbsp;<code>path</code></h3>`: the
/// listed files are the first ten that list issues, numbered by position, so
/// two listed files never share a number; the returned offsets locate the
/// headings in the section and increase with `k`.
pub proof fn lemma_html_high_priority_numbered(complexity: JsonSpec) -> (offs: Seq<int>)
    ensures
        match arr_of(spec_get(complexity, "detailed_results"@)) {
            Some(d) => {
                let listed = take_limit(files_with_issues(d), 10);
                let section = high_priority_html(complexity);
                &&& offs.len() == listed.len()
                &&& forall|k: int| 0 <= k < listed.len() ==> (#[trigger] str_of(spec_get(listed[k], "file_path"@)) matches Some(p) ==> {
                    &&& 0 <= offs[k]
                    &&& offs[k] + html_file_heading(p, (k + 1) as nat).len() <= section.len()
                    &&& section.subrange(offs[k], offs[k] + html_file_heading(p, (k + 1) as nat).len())
                        == html_file_heading(p, (k + 1) as nat)
                })
                &&& forall|k: int, j: int| 0 <= k < j < listed.len()
                    && str_of(spec_get(listed[k], "file_path"@)) is Some ==> #[trigger] offs[k] < #[trigger] offs[j]
            },
            None => offs.len() == 0,
        },
{
    match arr_of(spec_get(complexity, "detailed_results"@)) {
        Some(d) => {
            let listed = take_limit(files_with_issues(d), 10);
            let po = lemma_html_files_numbered(listed);
            if listed.len() == 0 {
                Seq::empty()
            } else {
                assert(files_with_issues(d).len() != 0);
                let head = "<h2>\u{1f525} High Priority Files</h2>"@
                    + "<p>Files with complexity issues that should be addressed first:</p>"@;
                let body = files_html(listed);
                let section = high_priority_html(complexity);
                assert(section == head + body);
                let offs = Seq::new(po.len(), |k: int| po[k] + head.len());
                assert forall|k: int| 0 <= k < listed.len() implies (#[trigger] str_of(spec_get(listed[k], "file_path"@)) matches Some(p) ==> {
                    &&& 0 <= offs[k]
                    &&& offs[k] + html_file_heading(p, (k + 1) as nat).len() <= section.len()
                    &&& section.subrange(offs[k], offs[k] + html_file_heading(p, (k + 1) as nat).len())
                        == html_file_heading(p, (k + 1) as nat)
                }) by {
                    if let Some(p) = str_of(spec_get(listed[k], "file_path"@)) {
                        let hk = html_file_heading(p, (k + 1) as nat);
                        assert(section.subrange(offs[k], offs[k] + hk.len()) =~= body.subrange(po[k], po[k] + hk.len()));
                    }
                }
                assert forall|k: int, j: int| 0 <= k < j < listed.len()
                    && str_of(spec_get(listed[k], "file_path"@)) is Some implies #[trigger] offs[k] < #[trigger] offs[j] by {
                    assert(po[k] < po[j]);
                }
                offs
            }
        },
        None => Seq::empty(),
    }
}

fn render_file_html(html: &mut String, file_result: &JsonValue, index: usize)
    ensures
        final(html)@ == old(html)@ + file_html(json_view(*file_result), index as nat),
{
    let file_path = match file_result.get_str("file_path") {
        Some(p) => p,
        None => return,
    };
    push_str(html, "<div class='file-section'><h3>");
    push_decimal(html, index as u64);
    push_str(html, ".&nbsp;<code>");
    push_str(html, file_path);
    push_str(html, "</code></h3>");
    let ghost a = html@;
    match file_result.get_array("issues") {
        Some(issues) => {
            let part = render_issues_html(issues, 5);
            push_str(html, part.as_str());
        },
        None => {},
    }
    let ghost b = html@;
    match file_result.get_array("recommendations") {
        Some(recs) => {
            let part = render_recommendations_html(recs, 3);
            push_str(html, part.as_str());
        },
        None => {},
    }
    push_str(html, "</div>");
    proof {
        assert(html@ =~= old(html)@ + file_html(json_view(*file_result), index as nat));
    }
}

/// Build the high priority files section.
pub fn build_high_priority_files_section(complexity: &JsonValue) -> (html: String)
    ensures
        html@ == high_priority_html(json_view(*complexity)),
{
    let detailed_results = match complexity.get_array("detailed_results") {
        Some(d) => d,
        None => return String::new(),
    };
    proof { lemma_items_view(detailed_results@); }
    let ghost dv = items_view(detailed_results@);
    let mut body = String::new();
    let mut shown: usize = 0;
    let mut i: usize = 0;
    while i < detailed_results.len()
        invariant
            0 <= i <= detailed_results.len(),
            dv == items_view(detailed_results@),
            dv.len() == detailed_results.len(),
            forall|k: int| 0 <= k < detailed_results.len() ==> #[trigger] dv[k] == json_view(detailed_results@[k]),
            shown as int == if files_with_issues(dv.take(i as int)).len() < 10 {
                files_with_issues(dv.take(i as int)).len() as int
            } else {
                10
            },
            body@ == files_html(take_limit(files_with_issues(dv.take(i as int)), 10)),
        decreases detailed_results.len() - i,
    {
        let f = &detailed_results[i];
        let ghost before = files_with_issues(dv.take(i as int));
        proof {
            assert(dv.take(i + 1).drop_last() =~= dv.take(i as int));
            assert(dv.take(i + 1).last() == dv[i as int]);
        }
        if file_has_issues(f) {
            assert(files_with_issues(dv.take(i + 1)) == before.push(dv[i as int]));
            if shown < 10 {
                render_file_html(&mut body, f, shown + 1);
                proof {
                    let after = before.push(dv[i as int]);
                    assert(take_limit(after, 10) =~= take_limit(before, 10).push(dv[i as int]));
                    assert(take_limit(after, 10).drop_last() =~= take_limit(before, 10));
                }
                shown += 1;
            } else {
                proof {
                    let after = before.push(dv[i as int]);
                    assert(take_limit(after, 10) =~= take_limit(before, 10));
                }
            }
        } else {
            assert(files_with_issues(dv.take(i + 1)) == before);
        }
        i += 1;
    }
    proof {
        assert(dv.take(detailed_results.len() as int) =~= dv);
    }
    if shown == 0 {
        return String::new();
    }
    let mut html = String::new();
    push_str(&mut html, "<h2>\u{1f525} High Priority Files</h2>");
    push_str(&mut html, "<p>Files with complexity issues that should be addressed first:</p>");
    push_str(&mut html, body.as_str());
    proof {
        assert(html@ =~= high_priority_html(json_view(*complexity)));
    }
    html
}

/// The closing recommendations of the HTML report.
pub open spec fn html_recommendations() -> Seq<char> {
    "<h2>\u{1f4a1} Recommendations</h2>"@ + "<ol class='recommendations-list'>"@
        + "<li><strong>Start with Critical Issues</strong>: Focus on files with critical and high-severity issues first</li>"@
        + "<li><strong>Reduce Complexity</strong>: Break down large functions and simplify complex conditionals</li>"@
        + "<li><strong>Improve Maintainability</strong>: Address technical debt systematically</li>"@
        + "<li><strong>Regular Monitoring</strong>: Run analysis regularly to track improvements</li>"@
        + "</ol>"@
}

/// The report details: the health section, the high-priority files, the
/// refactoring section, the summary statistics and the closing
/// recommendations, each section present only when the result has the part
/// it describes.
pub open spec fn report_details_html(
    result: JsonSpec,
    health_html: Seq<char>,
    refactoring_html: Seq<char>,
    stats_html: Seq<char>,
) -> Seq<char> {
    (match spec_get(result, "health_metrics"@) {
        Some(_) => health_html,
        None => Seq::empty(),
    }) + (match spec_get(result, "complexity"@) {
        Some(c) => high_priority_html(c),
        None => Seq::empty(),
    }) + (match spec_get(result, "refactoring"@) {
        Some(_) => refactoring_html,
        None => Seq::empty(),
    }) + (match spec_get(result, "complexity"@) {
        Some(_) => stats_html,
        None => Seq::empty(),
    }) + html_recommendations()
}

/// Build the main report details HTML. The health cards, the refactoring
/// items and the statistics print floating-point scores: the caller renders
/// those sections and they are placed here verbatim.
pub fn build_report_details(
    result: &JsonValue,
    health_html: &str,
    refactoring_html: &str,
    stats_html: &str,
) -> (html: String)
    ensures
        html@ == report_details_html(json_view(*result), health_html@, refactoring_html@, stats_html@),
{
    let mut html = String::new();
    if result.get("health_metrics").is_some() {
        push_str(&mut html, health_html);
    }
    let ghost a = html@;
    match result.get("complexity") {
        Some(complexity) => {
            let section = build_high_priority_files_section(complexity);
            push_str(&mut html, section.as_str());
        },
        None => {},
    }
    let ghost b = html@;
    if result.get("refactoring").is_some() {
        push_str(&mut html, refactoring_html);
    }
    let ghost c = html@;
    if result.get("complexity").is_some() {
        push_str(&mut html, stats_html);
    }
    let ghost d = html@;
    push_str(&mut html, "<h2>\u{1f4a1} Recommendations</h2>");
    push_str(&mut html, "<ol class='recommendations-list'>");
    push_str(&mut html, "<li><strong>Start with Critical Issues</strong>: Focus on files with critical and high-severity issues first</li>");
    push_str(&mut html, "<li><strong>Reduce Complexity</strong>: Break down large functions and simplify complex conditionals</li>");
    push_str(&mut html, "<li><strong>Improve Maintainability</strong>: Address technical debt systematically</li>");
    push_str(&mut html, "<li><strong>Regular Monitoring</strong>: Run analysis regularly to track improvements</li>");
    push_str(&mut html, "</ol>");
    proof {
        assert(html@ =~= report_details_html(json_view(*result), health_html@, refactoring_html@, stats_html@));
    }
    html
}

/// The page up to the files-analyzed count: document head, styles and hero banner.
pub const HTML_PAGE_HEAD: &'static str = r#"
<!DOCTYPE html>
<html>
<head>
    <title>Valknut Analysis Report</title>
    <meta charset="UTF-8">
    <meta name="viewport" content="width=device-width, initial-scale=1.0">
    <style>
        * {
            box-sizing: border-box;
        }
        body {
            font-family: -apple-system, BlinkMacSystemFont, 'Segoe UI', system-ui, sans-serif;
            line-height: 1.6;
            margin: 0;
            padding: 20px;
            background-color: #f8fafc;
            color: #1a202c;
        }
        .container {
            max-width: 1200px;
            margin: 0 auto;
            background: white;
            border-radius: 12px;
            box-shadow: 0 4px 6px -1px rgba(0, 0, 0, 0.1);
            overflow: hidden;
        }
        .header {
            background: linear-gradient(135deg, #667eea 0%, #764ba2 100%);
            color: white;
            padding: 2rem;
            text-align: center;
        }
        .header h1 {
            margin: 0;
            font-size: 2.5rem;
            font-weight: 600;
        }
        .content {
            padding: 2rem;
        }
        .summary {
            background: #f7fafc;
            border: 1px solid #e2e8f0;
            border-radius: 8px;
            padding: 1.5rem;
            margin-bottom: 2rem;
            display: grid;
            grid-template-columns: repeat(auto-fit, minmax(200px, 1fr));
            gap: 1rem;
        }
        .summary-item {
            text-align: center;
        }
        .summary-label {
            display: block;
            font-size: 0.875rem;
            color: #64748b;
            margin-bottom: 0.5rem;
        }
        .summary-value {
            display: block;
            font-size: 2rem;
            font-weight: 700;
            color: #1e293b;
        }
        .metrics-grid {
            display: grid;
            grid-template-columns: repeat(auto-fit, minmax(200px, 1fr));
            gap: 1rem;
            margin-bottom: 2rem;
        }
        .metric-card {
            padding: 1.5rem;
            border-radius: 8px;
            text-align: center;
            border: 2px solid transparent;
        }
        .metric-good {
            background: #f0fdf4;
            border-color: #22c55e;
        }
        .metric-warning {
            background: #fffbeb;
            border-color: #f59e0b;
        }
        .metric-critical {
            background: #fef2f2;
            border-color: #ef4444;
        }
        .metric-card h3 {
            margin: 0 0 0.5rem;
            font-size: 1rem;
            color: #64748b;
        }
        .metric-value {
            font-size: 2rem;
            font-weight: 700;
            margin-bottom: 0.25rem;
        }
        .metric-good .metric-value { color: #16a34a; }
        .metric-warning .metric-value { color: #d97706; }
        .metric-critical .metric-value { color: #dc2626; }
        .file-section {
            background: white;
            border: 1px solid #e2e8f0;
            border-radius: 8px;
            margin-bottom: 1.5rem;
            overflow: hidden;
        }
        .file-section h3 {
            background: #f8fafc;
            padding: 1rem 1.5rem;
            margin: 0;
            border-bottom: 1px solid #e2e8f0;
            color: #1e293b;
        }
        .file-section h3 code {
            background: #1e293b;
            color: #f1f5f9;
            padding: 0.25rem 0.5rem;
            border-radius: 4px;
            font-weight: normal;
        }
        .issues-list {
            padding: 1rem 1.5rem;
        }
        .issue-item {
            padding: 0.75rem;
            margin-bottom: 0.5rem;
            border-radius: 6px;
            display: flex;
            align-items: center;
            gap: 1rem;
        }
        .severity-critical {
            background: #fef2f2;
            border-left: 4px solid #dc2626;
        }
        .severity-very-high {
            background: #fff7ed;
            border-left: 4px solid #ea580c;
        }
        .severity-high {
            background: #fffbeb;
            border-left: 4px solid #d97706;
        }
        .severity-medium {
            background: #f8fafc;
            border-left: 4px solid #64748b;
        }
        .severity-indicator {
            font-weight: 600;
            min-width: 100px;
        }
        .issue-description {
            flex: 1;
        }
        .recommendations {
            padding: 1rem 1.5rem;
            border-top: 1px solid #e2e8f0;
            background: #f8fafc;
        }
        .recommendations h4 {
            margin: 0 0 1rem;
            color: #1e293b;
        }
        .effort-low { color: #16a34a; }
        .effort-medium { color: #d97706; }
        .effort-high { color: #dc2626; }
        .refactoring-list {
            display: grid;
            gap: 1.5rem;
        }
        .refactoring-file {
            background: white;
            border: 1px solid #e2e8f0;
            border-radius: 8px;
            overflow: hidden;
        }
        .refactoring-file h4 {
            background: #f1f5f9;
            padding: 1rem 1.5rem;
            margin: 0;
            border-bottom: 1px solid #e2e8f0;
        }
        .refactoring-items {
            padding: 1rem 1.5rem;
        }
        .refactoring-item {
            padding: 1rem;
            background: #f8fafc;
            border-radius: 6px;
            margin-bottom: 1rem;
        }
        .refactoring-header {
            font-weight: 600;
            margin-bottom: 0.5rem;
            color: #1e293b;
        }
        .refactoring-description {
            color: #475569;
            margin-bottom: 0.5rem;
        }
        .refactoring-metrics {
            font-size: 0.875rem;
            color: #64748b;
        }
        .stats-grid {
            display: grid;
            grid-template-columns: repeat(auto-fit, minmax(250px, 1fr));
            gap: 1rem;
            margin-bottom: 2rem;
        }
        .stat-item {
            display: flex;
            justify-content: space-between;
            align-items: center;
            padding: 1rem;
            background: #f8fafc;
            border-radius: 6px;
            border-left: 4px solid #3b82f6;
        }
        .stat-label {
            font-weight: 500;
            color: #475569;
        }
        .stat-value {
            font-size: 1.5rem;
            font-weight: 700;
            color: #1e293b;
        }
        .recommendations-list {
            background: #f0f9ff;
            border: 1px solid #0ea5e9;
            border-radius: 8px;
            padding: 1.5rem 2rem;
            margin: 0;
        }
        .recommendations-list li {
            margin-bottom: 1rem;
            color: #1e293b;
        }
        .success-message {
            background: #f0fdf4;
            border: 2px solid #22c55e;
            color: #15803d;
            padding: 2rem;
            border-radius: 8px;
            text-align: center;
            font-size: 1.125rem;
        }
        h2 {
            color: #1e293b;
            border-bottom: 2px solid #e2e8f0;
            padding-bottom: 0.5rem;
            margin: 2rem 0 1rem;
        }
        @media (max-width: 768px) {
            body {
                padding: 10px;
            }
            .header h1 {
                font-size: 2rem;
            }
            .content {
                padding: 1rem;
            }
            .summary {
                grid-template-columns: 1fr;
            }
            .metrics-grid {
                grid-template-columns: 1fr;
            }
        }
    </style>
</head>
<body>
    <div class="container">
        <div class="hero-container">
            <canvas id="neural-network" class="neural-background"></canvas>
            <div class="hero-content">
                <h1 class="hero-title">🔍 Valknut Analysis Report</h1>
                <p class="hero-subtitle">Comprehensive code quality analysis and refactoring guidance</p>
            </div>
        </div>
        <hr class="hero-divider">
        <div class="content">
            <div class="summary">
                <div class="summary-item">
                    <span class="summary-label">Files Analyzed</span>
                    <span class="summary-value">"#;

/// The page between the files-analyzed count and the issues-found count.
pub const HTML_PAGE_AFTER_FILES: &'static str = r#"</span>
                </div>
                <div class="summary-item">
                    <span class="summary-label">Issues Found</span>
                    <span class="summary-value">"#;

/// The page between the issues-found count and the analysis date.
pub const HTML_PAGE_AFTER_ISSUES: &'static str = r#"</span>
                </div>
                <div class="summary-item">
                    <span class="summary-label">Analysis Date</span>
                    <span class="summary-value" style="font-size: 1rem; font-weight: 500;">"#;

/// The page between the analysis date and the report details.
pub const HTML_PAGE_AFTER_DATE: &'static str = r#"</span>
                </div>
            </div>
            "#;

/// The page after the report details: footer and scripts.
pub const HTML_PAGE_TAIL: &'static str = r#"
            <footer style="text-align: center; margin-top: 3rem; padding: 2rem; border-top: 1px solid #e2e8f0; color: #64748b;">
                <em>Report generated by <a href="https://github.com/nathanricedev/valknut" style="color: #3b82f6;">Valknut</a> - AI-Powered Code Analysis</em>
            </footer>
        </div>
        <script src="https://cdnjs.cloudflare.com/ajax/libs/three.js/r128/three.min.js"></script>
        <script src="./webpage_files/trefoil-animation.js"></script>
    </div>
</body>
</html>
"#;

/// The block shown when the result reports no issue.
pub open spec fn success_html() -> Seq<char> {
    "<div class='success-message'>\u{2705} <strong>Excellent!</strong> No significant issues found in your codebase.</div>"@
}

/// The whole HTML page.
pub open spec fn html_report_spec(
    result: JsonSpec,
    date: Seq<char>,
    health_html: Seq<char>,
    refactoring_html: Seq<char>,
    stats_html: Seq<char>,
) -> Seq<char> {
    let total_issues = summary_count(result, "total_issues"@);
    let total_files = summary_count(result, "total_files"@);
    HTML_PAGE_HEAD@ + decimal(total_files as nat) + HTML_PAGE_AFTER_FILES@
        + decimal(total_issues as nat) + HTML_PAGE_AFTER_ISSUES@ + date + HTML_PAGE_AFTER_DATE@
        + (if total_issues == 0 {
            success_html()
        } else {
            report_details_html(result, health_html, refactoring_html, stats_html)
        })
        + HTML_PAGE_TAIL@
}

/// The HTML report of an analysis result, dated `date`; the sections that
/// print floating-point scores come rendered from the caller.
pub fn html_report_at(
    result: &JsonValue,
    date: &str,
    health_html: &str,
    refactoring_html: &str,
    stats_html: &str,
) -> (page: String)
    ensures
        page@ == html_report_spec(json_view(*result), date@, health_html@, refactoring_html@, stats_html@),
{
    let total_issues = crate::report::markdown::summary_total(result, "total_issues");
    let total_files = crate::report::markdown::summary_total(result, "total_files");
    let mut page = String::new();
    push_str(&mut page, HTML_PAGE_HEAD);
    push_decimal(&mut page, total_files);
    push_str(&mut page, HTML_PAGE_AFTER_FILES);
    push_decimal(&mut page, total_issues);
    push_str(&mut page, HTML_PAGE_AFTER_ISSUES);
    push_str(&mut page, date);
    push_str(&mut page, HTML_PAGE_AFTER_DATE);
    let ghost head = page@;
    if total_issues == 0 {
        push_str(&mut page, "<div class='success-message'>\u{2705} <strong>Excellent!</strong> No significant issues found in your codebase.</div>");
    } else {
        let details = build_report_details(result, health_html, refactoring_html, stats_html);
        push_str(&mut page, details.as_str());
    }
    push_str(&mut page, HTML_PAGE_TAIL);
    proof {
        assert(page@ =~= html_report_spec(json_view(*result), date@, health_html@, refactoring_html@, stats_html@));
    }
    page
}

/// Render the analysis result as an HTML document, dated now.
pub fn generate_html_report(
    result: &JsonValue,
    health_html: &str,
    refactoring_html: &str,
    stats_html: &str,
) -> (page: String)
    ensures
        exists|date: Seq<char>|
            crate::report::is_report_date(date)
                && page@ == html_report_spec(json_view(*result), date, health_html@, refactoring_html@, stats_html@),
{
    let date = crate::report::utc_now_formatted(crate::report::REPORT_DATE_FORMAT);
    html_report_at(result, date.as_str(), health_html, refactoring_html, stats_html)
}

/// A report without issues shows the success message, and of the result
/// only its file count: two results without issues and with the same file
/// count give the same page for one date, whatever health metrics,
/// complexity and refactoring members they hold and whatever sections the
/// caller renders.
pub proof fn lemma_html_report_without_issues(
    r1: JsonSpec,
    r2: JsonSpec,
    date: Seq<char>,
    health1: Seq<char>,
    refactoring1: Seq<char>,
    stats1: Seq<char>,
    health2: Seq<char>,
    refactoring2: Seq<char>,
    stats2: Seq<char>,
)
    requires
        summary_count(r1, "total_issues"@) == 0,
        summary_count(r2, "total_issues"@) == 0,
        summary_count(r1, "total_files"@) == summary_count(r2, "total_files"@),
    ensures
        crate::text::contains_seq(html_report_spec(r1, date, health1, refactoring1, stats1), success_html()),
        html_report_spec(r1, date, health1, refactoring1, stats1)
            == html_report_spec(r2, date, health2, refactoring2, stats2),
{
    let page = html_report_spec(r1, date, health1, refactoring1, stats1);
    let f = summary_count(r1, "total_files"@);
    let head = HTML_PAGE_HEAD@ + decimal(f as nat) + HTML_PAGE_AFTER_FILES@ + decimal(0) + HTML_PAGE_AFTER_ISSUES@
        + date + HTML_PAGE_AFTER_DATE@;
    assert(page =~= head + success_html() + HTML_PAGE_TAIL@);
    let i = head.len() as int;
    assert(page.subrange(i, i + success_html().len()) =~= success_html());
}

/// No `<h2` starts anywhere in `s`.
pub open spec fn no_h2_at(s: Seq<char>) -> bool {
    forall|i: int| 0 <= i && i + 2 < s.len() ==> !(#[trigger] s[i] == '<' && s[i + 1] == 'h' && s[i + 2] == '2')
}

/// Neither of the last two characters of `s` opens a tag.
pub open spec fn ends_clear(s: Seq<char>) -> bool {
    forall|j: int| 0 <= j < s.len() && s.len() - 2 <= j ==> #[trigger] s[j] != '<'
}

/// A string without `<` holds no `<h2` and ends clear.
proof fn lemma_no_tags(s: Seq<char>)
    requires
        crate::report::lacks_char(s, '<'),
    ensures
        no_h2_at(s),
        ends_clear(s),
{
}

/// Joining two strings without `<h2`, the first ending clear, makes none,
/// and the join ends clear when the second part does.
proof fn lemma_no_h2_add(a: Seq<char>, b: Seq<char>)
    requires
        no_h2_at(a),
        no_h2_at(b),
        ends_clear(a),
        ends_clear(b),
    ensures
        no_h2_at(a + b),
        ends_clear(a + b),
{
    let s = a + b;
    assert forall|i: int| 0 <= i && i + 2 < s.len() implies !(#[trigger] s[i] == '<' && s[i + 1] == 'h' && s[i + 2] == '2') by {
        if i >= a.len() {
            assert(s[i] == b[i - a.len()] && s[i + 1] == b[i + 1 - a.len()] && s[i + 2] == b[i + 2 - a.len()]);
        } else if i + 2 < a.len() {
            assert(s[i] == a[i] && s[i + 1] == a[i + 1] && s[i + 2] == a[i + 2]);
        } else {
            assert(s[i] == a[i]);
        }
    }
    assert forall|j: int| 0 <= j < s.len() && s.len() - 2 <= j implies #[trigger] s[j] != '<' by {
        if j >= a.len() {
            assert(s[j] == b[j - a.len()]);
        } else {
            assert(s[j] == a[j]);
        }
    }
}

/// `<h2` implies `<h2>`'s first three characters.
proof fn lemma_no_h2_not_contains(s: Seq<char>)
    requires
        no_h2_at(s),
    ensures
        !crate::text::contains_seq(s, "<h2>"@),
{
    reveal_strlit("<h2>");
    if crate::text::contains_seq(s, "<h2>"@) {
        let i = choose|i: int| 0 <= i && i + 4 <= s.len() && #[trigger] s.subrange(i, i + 4) == "<h2>"@;
        assert(s.subrange(i, i + 4)[0] == s[i]);
        assert(s.subrange(i, i + 4)[1] == s[i + 1]);
        assert(s.subrange(i, i + 4)[2] == s[i + 2]);
    }
}

/// The fixed parts of the page hold no `<h2` and end clear. (`reveal_strlit`
/// takes the literal itself, so the template texts are repeated in the
/// lemmas below.)
proof fn lemma_page_template_has_no_h2()
    ensures
        no_h2_at(HTML_PAGE_HEAD@) && ends_clear(HTML_PAGE_HEAD@),
        no_h2_at(HTML_PAGE_AFTER_FILES@) && ends_clear(HTML_PAGE_AFTER_FILES@),
        no_h2_at(HTML_PAGE_AFTER_ISSUES@) && ends_clear(HTML_PAGE_AFTER_ISSUES@),
        no_h2_at(HTML_PAGE_AFTER_DATE@) && ends_clear(HTML_PAGE_AFTER_DATE@),
        no_h2_at(HTML_PAGE_TAIL@) && ends_clear(HTML_PAGE_TAIL@),
        no_h2_at(success_html()) && ends_clear(success_html()),
{
    lemma_page_head_has_no_h2();
    lemma_after_files_has_no_h2();
    lemma_after_issues_has_no_h2();
    lemma_after_date_has_no_h2();
    lemma_page_tail_has_no_h2();
    lemma_success_has_no_h2();
}

#[verifier::spinoff_prover]
#[verifier::rlimit(60)]
proof fn lemma_page_head_has_no_h2()
    ensures
        no_h2_at(HTML_PAGE_HEAD@) && ends_clear(HTML_PAGE_HEAD@),
{
    reveal_strlit(r#"
<!DOCTYPE html>
<html>
<head>
    <title>Valknut Analysis Report</title>
    <meta charset="UTF-8">
    <meta name="viewport" content="width=device-width, initial-scale=1.0">
    <style>
        * {
            box-sizing: border-box;
        }
        body {
            font-family: -apple-system, BlinkMacSystemFont, 'Segoe UI', system-ui, sans-serif;
            line-height: 1.6;
            margin: 0;
            padding: 20px;
            background-color: #f8fafc;
            color: #1a202c;
        }
        .container {
            max-width: 1200px;
            margin: 0 auto;
            background: white;
            border-radius: 12px;
            box-shadow: 0 4px 6px -1px rgba(0, 0, 0, 0.1);
            overflow: hidden;
        }
        .header {
            background: linear-gradient(135deg, #667eea 0%, #764ba2 100%);
            color: white;
            padding: 2rem;
            text-align: center;
        }
        .header h1 {
            margin: 0;
            font-size: 2.5rem;
            font-weight: 600;
        }
        .content {
            padding: 2rem;
        }
        .summary {
            background: #f7fafc;
            border: 1px solid #e2e8f0;
            border-radius: 8px;
            padding: 1.5rem;
            margin-bottom: 2rem;
            display: grid;
            grid-template-columns: repeat(auto-fit, minmax(200px, 1fr));
            gap: 1rem;
        }
        .summary-item {
            text-align: center;
        }
        .summary-label {
            display: block;
            font-size: 0.875rem;
            color: #64748b;
            margin-bottom: 0.5rem;
        }
        .summary-value {
            display: block;
            font-size: 2rem;
            font-weight: 700;
            color: #1e293b;
        }
        .metrics-grid {
            display: grid;
            grid-template-columns: repeat(auto-fit, minmax(200px, 1fr));
            gap: 1rem;
            margin-bottom: 2rem;
        }
        .metric-card {
            padding: 1.5rem;
            border-radius: 8px;
            text-align: center;
            border: 2px solid transparent;
        }
        .metric-good {
            background: #f0fdf4;
            border-color: #22c55e;
        }
        .metric-warning {
            background: #fffbeb;
            border-color: #f59e0b;
        }
        .metric-critical {
            background: #fef2f2;
            border-color: #ef4444;
        }
        .metric-card h3 {
            margin: 0 0 0.5rem;
            font-size: 1rem;
            color: #64748b;
        }
        .metric-value {
            font-size: 2rem;
            font-weight: 700;
            margin-bottom: 0.25rem;
        }
        .metric-good .metric-value { color: #16a34a; }
        .metric-warning .metric-value { color: #d97706; }
        .metric-critical .metric-value { color: #dc2626; }
        .file-section {
            background: white;
            border: 1px solid #e2e8f0;
            border-radius: 8px;
            margin-bottom: 1.5rem;
            overflow: hidden;
        }
        .file-section h3 {
            background: #f8fafc;
            padding: 1rem 1.5rem;
            margin: 0;
            border-bottom: 1px solid #e2e8f0;
            color: #1e293b;
        }
        .file-section h3 code {
            background: #1e293b;
            color: #f1f5f9;
            padding: 0.25rem 0.5rem;
            border-radius: 4px;
            font-weight: normal;
        }
        .issues-list {
            padding: 1rem 1.5rem;
        }
        .issue-item {
            padding: 0.75rem;
            margin-bottom: 0.5rem;
            border-radius: 6px;
            display: flex;
            align-items: center;
            gap: 1rem;
        }
        .severity-critical {
            background: #fef2f2;
            border-left: 4px solid #dc2626;
        }
        .severity-very-high {
            background: #fff7ed;
            border-left: 4px solid #ea580c;
        }
        .severity-high {
            background: #fffbeb;
            border-left: 4px solid #d97706;
        }
        .severity-medium {
            background: #f8fafc;
            border-left: 4px solid #64748b;
        }
        .severity-indicator {
            font-weight: 600;
            min-width: 100px;
        }
        .issue-description {
            flex: 1;
        }
        .recommendations {
            padding: 1rem 1.5rem;
            border-top: 1px solid #e2e8f0;
            background: #f8fafc;
        }
        .recommendations h4 {
            margin: 0 0 1rem;
            color: #1e293b;
        }
        .effort-low { color: #16a34a; }
        .effort-medium { color: #d97706; }
        .effort-high { color: #dc2626; }
        .refactoring-list {
            display: grid;
            gap: 1.5rem;
        }
        .refactoring-file {
            background: white;
            border: 1px solid #e2e8f0;
            border-radius: 8px;
            overflow: hidden;
        }
        .refactoring-file h4 {
            background: #f1f5f9;
            padding: 1rem 1.5rem;
            margin: 0;
            border-bottom: 1px solid #e2e8f0;
        }
        .refactoring-items {
            padding: 1rem 1.5rem;
        }
        .refactoring-item {
            padding: 1rem;
            background: #f8fafc;
            border-radius: 6px;
            margin-bottom: 1rem;
        }
        .refactoring-header {
            font-weight: 600;
            margin-bottom: 0.5rem;
            color: #1e293b;
        }
        .refactoring-description {
            color: #475569;
            margin-bottom: 0.5rem;
        }
        .refactoring-metrics {
            font-size: 0.875rem;
            color: #64748b;
        }
        .stats-grid {
            display: grid;
            grid-template-columns: repeat(auto-fit, minmax(250px, 1fr));
            gap: 1rem;
            margin-bottom: 2rem;
        }
        .stat-item {
            display: flex;
            justify-content: space-between;
            align-items: center;
            padding: 1rem;
            background: #f8fafc;
            border-radius: 6px;
            border-left: 4px solid #3b82f6;
        }
        .stat-label {
            font-weight: 500;
            color: #475569;
        }
        .stat-value {
            font-size: 1.5rem;
            font-weight: 700;
            color: #1e293b;
        }
        .recommendations-list {
            background: #f0f9ff;
            border: 1px solid #0ea5e9;
            border-radius: 8px;
            padding: 1.5rem 2rem;
            margin: 0;
        }
        .recommendations-list li {
            margin-bottom: 1rem;
            color: #1e293b;
        }
        .success-message {
            background: #f0fdf4;
            border: 2px solid #22c55e;
            color: #15803d;
            padding: 2rem;
            border-radius: 8px;
            text-align: center;
            font-size: 1.125rem;
        }
        h2 {
            color: #1e293b;
            border-bottom: 2px solid #e2e8f0;
            padding-bottom: 0.5rem;
            margin: 2rem 0 1rem;
        }
        @media (max-width: 768px) {
            body {
                padding: 10px;
            }
            .header h1 {
                font-size: 2rem;
            }
            .content {
                padding: 1rem;
            }
            .summary {
                grid-template-columns: 1fr;
            }
            .metrics-grid {
                grid-template-columns: 1fr;
            }
        }
    </style>
</head>
<body>
    <div class="container">
        <div class="hero-container">
            <canvas id="neural-network" class="neural-background"></canvas>
            <div class="hero-content">
                <h1 class="hero-title">🔍 Valknut Analysis Report</h1>
                <p class="hero-subtitle">Comprehensive code quality analysis and refactoring guidance</p>
            </div>
        </div>
        <hr class="hero-divider">
        <div class="content">
            <div class="summary">
                <div class="summary-item">
                    <span class="summary-label">Files Analyzed</span>
                    <span class="summary-value">"#);
}

#[verifier::spinoff_prover]
#[verifier::rlimit(60)]
proof fn lemma_after_files_has_no_h2()
    ensures
        no_h2_at(HTML_PAGE_AFTER_FILES@) && ends_clear(HTML_PAGE_AFTER_FILES@),
{
    reveal_strlit(r#"</span>
                </div>
                <div class="summary-item">
                    <span class="summary-label">Issues Found</span>
                    <span class="summary-value">"#);
}

#[verifier::spinoff_prover]
#[verifier::rlimit(60)]
proof fn lemma_after_issues_has_no_h2()
    ensures
        no_h2_at(HTML_PAGE_AFTER_ISSUES@) && ends_clear(HTML_PAGE_AFTER_ISSUES@),
{
    reveal_strlit(r#"</span>
                </div>
                <div class="summary-item">
                    <span class="summary-label">Analysis Date</span>
                    <span class="summary-value" style="font-size: 1rem; font-weight: 500;">"#);
}

#[verifier::spinoff_prover]
#[verifier::rlimit(60)]
proof fn lemma_after_date_has_no_h2()
    ensures
        no_h2_at(HTML_PAGE_AFTER_DATE@) && ends_clear(HTML_PAGE_AFTER_DATE@),
{
    reveal_strlit(r#"</span>
                </div>
            </div>
            "#);
}

#[verifier::spinoff_prover]
#[verifier::rlimit(60)]
proof fn lemma_page_tail_has_no_h2()
    ensures
        no_h2_at(HTML_PAGE_TAIL@) && ends_clear(HTML_PAGE_TAIL@),
{
    reveal_strlit(r#"
            <footer style="text-align: center; margin-top: 3rem; padding: 2rem; border-top: 1px solid #e2e8f0; color: #64748b;">
                <em>Report generated by <a href="https://github.com/nathanricedev/valknut" style="color: #3b82f6;">Valknut</a> - AI-Powered Code Analysis</em>
            </footer>
        </div>
        <script src="https://cdnjs.cloudflare.com/ajax/libs/three.js/r128/three.min.js"></script>
        <script src="./webpage_files/trefoil-animation.js"></script>
    </div>
</body>
</html>
"#);
}

#[verifier::spinoff_prover]
#[verifier::rlimit(60)]
proof fn lemma_success_has_no_h2()
    ensures
        no_h2_at(success_html()) && ends_clear(success_html()),
{
    reveal_strlit("<div class='success-message'>\u{2705} <strong>Excellent!</strong> No significant issues found in your codebase.</div>");
}

/// A digit string holds no `<`.
proof fn lemma_decimal_lacks_tag(n: nat)
    ensures
        crate::report::lacks_char(decimal(n), '<'),
{
    crate::report::lemma_decimal_digits(n);
    let d = decimal(n);
    assert forall|i: int| 0 <= i < d.len() implies d[i] != '<' by {
        assert(crate::report::is_digit(d[i]));
    }
}

/// A dated report without issues holds the success message and no `<h2>`
/// section: no metrics, file, refactoring or recommendation section is
/// rendered, whatever the result's other members and the caller's sections.
pub proof fn lemma_html_report_without_issues_has_no_sections(
    result: JsonSpec,
    date: Seq<char>,
    health_html: Seq<char>,
    refactoring_html: Seq<char>,
    stats_html: Seq<char>,
)
    requires
        summary_count(result, "total_issues"@) == 0,
        crate::report::is_report_date(date),
    ensures
        crate::text::contains_seq(html_report_spec(result, date, health_html, refactoring_html, stats_html), success_html()),
        !crate::text::contains_seq(html_report_spec(result, date, health_html, refactoring_html, stats_html), "<h2>"@),
{
    lemma_html_report_without_issues(result, result, date, health_html, refactoring_html, stats_html,
        health_html, refactoring_html, stats_html);
    lemma_page_template_has_no_h2();
    let f = summary_count(result, "total_files"@);
    let d1 = decimal(f as nat);
    let d2 = decimal(0);
    lemma_decimal_lacks_tag(f as nat);
    lemma_decimal_lacks_tag(0);
    lemma_no_tags(d1);
    lemma_no_tags(d2);
    assert(crate::report::lacks_char(date, '<')) by {
        assert forall|i: int| 0 <= i < date.len() implies date[i] != '<' by {
            crate::report::lemma_report_date_chars(date, i);
        }
    }
    lemma_no_tags(date);
    let p1 = HTML_PAGE_HEAD@ + d1;
    lemma_no_h2_add(HTML_PAGE_HEAD@, d1);
    let p2 = p1 + HTML_PAGE_AFTER_FILES@;
    lemma_no_h2_add(p1, HTML_PAGE_AFTER_FILES@);
    let p3 = p2 + d2;
    lemma_no_h2_add(p2, d2);
    let p4 = p3 + HTML_PAGE_AFTER_ISSUES@;
    lemma_no_h2_add(p3, HTML_PAGE_AFTER_ISSUES@);
    let p5 = p4 + date;
    lemma_no_h2_add(p4, date);
    let p6 = p5 + HTML_PAGE_AFTER_DATE@;
    lemma_no_h2_add(p5, HTML_PAGE_AFTER_DATE@);
    let p7 = p6 + success_html();
    lemma_no_h2_add(p6, success_html());
    let p8 = p7 + HTML_PAGE_TAIL@;
    lemma_no_h2_add(p7, HTML_PAGE_TAIL@);
    assert(html_report_spec(result, date, health_html, refactoring_html, stats_html) == p8);
    lemma_no_h2_not_contains(p8);
}

} // verus!
