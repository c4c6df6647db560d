//! The Markdown analysis report.

use vstd::prelude::*;
use crate::json::{
    JsonValue, JsonSpec, json_view, items_view, lemma_items_view, spec_get, spec_index, str_of,
    u64_of, arr_of,
};
use crate::labels::{
    md_recommendations_footer, render_md_recommendations_footer, severity_indicator,
    severity_indicator_spec,
};
use crate::report::{
    file_has_issues, files_with_issues, issue_severity, path_or_unknown, rec_effort, take_limit,
};
use crate::text::{contains_seq, decimal, push_decimal, push_str};
use crate::report::{
    digits_in, is_digit, lacks_char, lemma_contains_needs_char, lemma_decimal_digits, lemma_lacks_char_add,
    lemma_report_date_lacks_q,
};

verus! {

/// The Markdown list line of one issue; an issue without a description gives
/// no line.
pub open spec fn issue_md_line(issue: JsonSpec) -> Seq<char> {
    match str_of(spec_get(issue, "description"@)) {
        Some(d) => "- "@ + severity_indicator_spec(issue_severity(issue)).0 + " **"@
            + issue_severity(issue) + "**: "@ + d + "\n"@,
        None => Seq::empty(),
    }
}

/// The Markdown lines of a list of issues, in order.
pub open spec fn issues_md(issues: Seq<JsonSpec>) -> Seq<char>
    decreases issues.len(),
{
    if issues.len() == 0 {
        Seq::empty()
    } else {
        issues_md(issues.drop_last()) + issue_md_line(issues.last())
    }
}

/// Render issues list as markdown from a JSON array: the first `limit`
/// issues, one line each.
pub fn render_issues_markdown(issues: &Vec<JsonValue>, limit: usize) -> (md: String)
    ensures
        md@ == issues_md(take_limit(items_view(issues@), limit as int)),
{
    proof { lemma_items_view(issues@); }
    let ghost iv = items_view(issues@);
    let n: usize = if limit < issues.len() { limit } else { issues.len() };
    let mut md = String::new();
    let mut i: usize = 0;
    while i < n
        invariant
            0 <= i <= n,
            n <= issues.len(),
            iv == items_view(issues@),
            iv.len() == issues.len(),
            forall|k: int| 0 <= k < issues.len() ==> #[trigger] iv[k] == json_view(issues@[k]),
            md@ == issues_md(iv.take(i as int)),
        decreases n - i,
    {
        let issue = &issues[i];
        proof {
            assert(iv.take(i + 1).drop_last() =~= iv.take(i as int));
            assert(iv.take(i + 1).last() == iv[i as int]);
        }
        match issue.get_str("description") {
            Some(description) => {
                let severity = match issue.get_str("severity") {
                    Some(s) => s,
                    None => "Medium",
                };
                let (emoji, _) = severity_indicator(severity);
                push_str(&mut md, "- ");
                push_str(&mut md, emoji);
                push_str(&mut md, " **");
                push_str(&mut md, severity);
                push_str(&mut md, "**: ");
                push_str(&mut md, description);
                push_str(&mut md, "\n");
            },
            None => {},
        }
        i += 1;
    }
    proof {
        assert(take_limit(iv, limit as int) =~= iv.take(n as int));
    }
    md
}

/// The numbered Markdown line of the recommendation at `pos` (from 0); a
/// recommendation without a description gives no line, though it keeps its
/// number.
pub open spec fn rec_md_line(rec: JsonSpec, pos: nat) -> Seq<char> {
    match str_of(spec_get(rec, "description"@)) {
        Some(d) => decimal(pos + 1) + ". "@ + d + " (Effort: "@ + decimal(rec_effort(rec) as nat)
            + ")\n"@,
        None => Seq::empty(),
    }
}

/// The Markdown lines of a list of recommendations, numbered from 1.
pub open spec fn recs_md(recs: Seq<JsonSpec>) -> Seq<char>
    decreases recs.len(),
{
    if recs.len() == 0 {
        Seq::empty()
    } else {
        recs_md(recs.drop_last()) + rec_md_line(recs.last(), (recs.len() - 1) as nat)
    }
}

/// The recommendation lines carry the numbers 1, 2, ... by position: the
/// `k`-th recommendation (from 1), when it has a description `d`, gives a line
/// starting `k. d` at the returned offset, and the offsets of such
/// recommendations increase with `k`.
pub proof fn lemma_md_recs_numbered(recs: Seq<JsonSpec>) -> (offs: Seq<int>)
    ensures
        offs.len() == recs.len(),
        forall|k: int| 0 <= k < recs.len() ==> (#[trigger] str_of(spec_get(recs[k], "description"@)) matches Some(d) ==> {
            &&& 0 <= offs[k]
            &&& offs[k] + (decimal((k + 1) as nat) + ". "@ + d).len() <= recs_md(recs).len()
            &&& recs_md(recs).subrange(offs[k], offs[k] + (decimal((k + 1) as nat) + ". "@ + d).len())
                == decimal((k + 1) as nat) + ". "@ + d
        }),
        forall|k: int, j: int| 0 <= k < j < recs.len()
            && str_of(spec_get(recs[k], "description"@)) is Some ==> #[trigger] offs[k] < #[trigger] offs[j],
        forall|k: int| 0 <= k < recs.len() ==> #[trigger] offs[k] <= recs_md(recs).len(),
    decreases recs.len(),
{
    if recs.len() == 0 {
        Seq::empty()
    } else {
        let prev = recs.drop_last();
        let po = lemma_md_recs_numbered(prev);
        let a = recs_md(prev);
        let n = recs.len();
        let r = recs.last();
        let line = rec_md_line(r, (n - 1) as nat);
        let whole = recs_md(recs);
        assert(whole == a + line);
        let offs = po.push(a.len() as int);
        if let Some(d) = str_of(spec_get(r, "description"@)) {
            let h = decimal(n as nat) + ". "@ + d;
            assert(line.subrange(0, h.len() as int) =~= h);
        }
        assert forall|k: int| 0 <= k < recs.len() implies (#[trigger] str_of(spec_get(recs[k], "description"@)) matches Some(d) ==> {
            &&& 0 <= offs[k]
            &&& offs[k] + (decimal((k + 1) as nat) + ". "@ + d).len() <= whole.len()
            &&& whole.subrange(offs[k], offs[k] + (decimal((k + 1) as nat) + ". "@ + d).len())
                == decimal((k + 1) as nat) + ". "@ + d
        }) by {
            if k < n - 1 {
                assert(recs[k] == prev[k]);
                assert(offs[k] == po[k]);
                if let Some(d) = str_of(spec_get(prev[k], "description"@)) {
                    let hk = decimal((k + 1) as nat) + ". "@ + d;
                    assert(whole.subrange(po[k], po[k] + hk.len()) =~= a.subrange(po[k], po[k] + hk.len()));
                }
            } else {
                assert(recs[k] == r);
                if let Some(d) = str_of(spec_get(r, "description"@)) {
                    let h = decimal(n as nat) + ". "@ + d;
                    assert(whole.subrange(a.len() as int, (a.len() + h.len()) as int) =~= line.subrange(0, h.len() as int));
                }
            }
        }
        assert forall|k: int, j: int| 0 <= k < j < recs.len()
            && str_of(spec_get(recs[k], "description"@)) is Some implies #[trigger] offs[k] < #[trigger] offs[j] by {
            assert(recs[k] == prev[k]);
            assert(offs[k] == po[k]);
            if j < n - 1 {
                assert(offs[j] == po[j]);
            } else {
                let d = str_of(spec_get(prev[k], "description"@))->0;
                assert((decimal((k + 1) as nat) + ". "@ + d).len() > 0);
            }
        }
        assert forall|k: int| 0 <= k < recs.len() implies #[trigger] offs[k] <= whole.len() by {
            if k < n - 1 {
                assert(offs[k] == po[k]);
            }
        }
        offs
    }
}

/// The recommended-actions block: nothing for an empty list, else a heading
/// and the first `limit` recommendations.
pub open spec fn recommendations_md(recs: Seq<JsonSpec>, limit: int) -> Seq<char> {
    if recs.len() == 0 {
        Seq::empty()
    } else {
        "\n**Recommended Actions:**\n"@ + recs_md(take_limit(recs, limit))
    }
}

/// Render recommendations list as markdown from a JSON array.
pub fn render_recommendations_markdown(recommendations: &Vec<JsonValue>, limit: usize) -> (md: String)
    ensures
        md@ == recommendations_md(items_view(recommendations@), limit as int),
{
    proof { lemma_items_view(recommendations@); }
    let ghost iv = items_view(recommendations@);
    let mut md = String::new();
    if recommendations.len() == 0 {
        return md;
    }
    push_str(&mut md, "\n**Recommended Actions:**\n");
    let ghost head = md@;
    let n: usize = if limit < recommendations.len() { limit } else { recommendations.len() };
    let mut i: usize = 0;
    while i < n
        invariant
            0 <= i <= n,
            n <= recommendations.len(),
            n <= limit,
            iv == items_view(recommendations@),
            iv.len() == recommendations.len(),
            forall|k: int| 0 <= k < recommendations.len() ==> #[trigger] iv[k] == json_view(recommendations@[k]),
            md@ == head + recs_md(iv.take(i as int)),
        decreases n - i,
    {
        let rec = &recommendations[i];
        proof {
            assert(iv.take(i + 1).drop_last() =~= iv.take(i as int));
            assert(iv.take(i + 1).last() == iv[i as int]);
        }
        match rec.get_str("description") {
            Some(description) => {
                let effort: u64 = match rec.get_u64("effort") {
                    Some(e) => e,
                    None => 1,
                };
                push_decimal(&mut md, (i + 1) as u64);
                push_str(&mut md, ". ");
                push_str(&mut md, description);
                push_str(&mut md, " (Effort: ");
                push_decimal(&mut md, effort);
                push_str(&mut md, ")\n");
                proof {
                    assert(md@ =~= head + recs_md(iv.take(i as int)) + rec_md_line(iv[i as int], i as nat));
                }
            },
            None => {},
        }
        i += 1;
    }
    proof {
        assert(take_limit(iv, limit as int) =~= iv.take(n as int));
    }
    md
}

/// The Markdown entry of one high-priority file, numbered `index`: its
/// first three issues and first three recommendations.
pub open spec fn file_entry_md(f: JsonSpec, index: nat) -> Seq<char> {
    "#### "@ + decimal(index) + ". `"@ + path_or_unknown(f) + "`\n\n"@
        + (match arr_of(spec_get(f, "issues"@)) {
            Some(a) => issues_md(take_limit(a, 3)),
            None => Seq::empty(),
        })
        + (match arr_of(spec_get(f, "recommendations"@)) {
            Some(a) => recommendations_md(a, 3),
            None => Seq::empty(),
        })
        + "\n"@
}

/// Render a single file entry in markdown.
pub fn render_md_file_entry(content: &mut String, file_result: &JsonValue, index: usize)
    ensures
        final(content)@ == old(content)@ + file_entry_md(json_view(*file_result), index as nat),
{
    let file_path = match file_result.get_str("file_path") {
        Some(p) => p,
        None => "unknown",
    };
    push_str(content, "#### ");
    push_decimal(content, index as u64);
    push_str(content, ". `");
    push_str(content, file_path);
    push_str(content, "`\n\n");
    let ghost a = content@;
    match file_result.get_array("issues") {
        Some(issues) => {
            let md = render_issues_markdown(issues, 3);
            push_str(content, md.as_str());
        },
        None => {},
    }
    let ghost b = content@;
    match file_result.get_array("recommendations") {
        Some(recs) => {
            let md = render_recommendations_markdown(recs, 3);
            push_str(content, md.as_str());
        },
        None => {},
    }
    let ghost c = content@;
    push_str(content, "\n");
    proof {
        assert(content@ =~= old(content)@ + file_entry_md(json_view(*file_result), index as nat));
    }
}

/// The entries of a list of files, numbered from 1.
pub open spec fn files_md(files: Seq<JsonSpec>) -> Seq<char>
    decreases files.len(),
{
    if files.len() == 0 {
        Seq::empty()
    } else {
        files_md(files.drop_last()) + file_entry_md(files.last(), files.len())
    }
}

/// The heading of a high-priority file entry numbered `n`:
/// ``#### n. `path` `` (the path is `unknown` when the file result names none).
pub open spec fn md_file_heading(f: JsonSpec, n: nat) -> Seq<char> {
    "#### "@ + decimal(n) + ". `"@ + (match str_of(spec_get(f, "file_path"@)) {
        Some(p) => p,
        None => "unknown"@,
    }) + "`"@
}

/// The entries of a file list carry the headings `#### 1.`, `#### 2.`, ...
/// by position: the returned offsets locate the heading of the `k`-th file
/// (from 1) numbered `k`, and they increase with `k`.
pub proof fn lemma_md_files_numbered(files: Seq<JsonSpec>) -> (offs: Seq<int>)
    ensures
        offs.len() == files.len(),
        forall|k: int| 0 <= k < files.len() ==> {
            &&& 0 <= #[trigger] offs[k]
            &&& offs[k] + md_file_heading(files[k], (k + 1) as nat).len() <= files_md(files).len()
            &&& files_md(files).subrange(offs[k], offs[k] + md_file_heading(files[k], (k + 1) as nat).len())
                == md_file_heading(files[k], (k + 1) as nat)
        },
        forall|k: int, j: int| 0 <= k < j < files.len() ==> #[trigger] offs[k] < #[trigger] offs[j],
    decreases files.len(),
{
    if files.len() == 0 {
        Seq::empty()
    } else {
        let prev = files.drop_last();
        let po = lemma_md_files_numbered(prev);
        let a = files_md(prev);
        let n = files.len();
        let f = files.last();
        let entry = file_entry_md(f, n);
        reveal_strlit("`\n\n");
        reveal_strlit("`");
        let h = md_file_heading(f, n);
        assert(entry.subrange(0, h.len() as int) =~= h);
        let whole = files_md(files);
        assert(whole == a + entry);
        let offs = po.push(a.len() as int);
        assert forall|k: int| 0 <= k < files.len() implies {
            &&& 0 <= #[trigger] offs[k]
            &&& offs[k] + md_file_heading(files[k], (k + 1) as nat).len() <= whole.len()
            &&& whole.subrange(offs[k], offs[k] + md_file_heading(files[k], (k + 1) as nat).len())
                == md_file_heading(files[k], (k + 1) as nat)
        } by {
            if k < n - 1 {
                assert(files[k] == prev[k]);
                assert(offs[k] == po[k]);
                let hk = md_file_heading(prev[k], (k + 1) as nat);
                assert(whole.subrange(po[k], po[k] + hk.len()) =~= a.subrange(po[k], po[k] + hk.len()));
            } else {
                assert(files[k] == f);
                assert(whole.subrange(a.len() as int, (a.len() + h.len()) as int) =~= entry.subrange(0, h.len() as int));
            }
        }
        assert forall|k: int, j: int| 0 <= k < j < files.len() implies #[trigger] offs[k] < #[trigger] offs[j] by {
            if j < n - 1 {
                assert(offs[k] == po[k] && offs[j] == po[j]);
            } else {
                assert(offs[k] == po[k]);
                assert(files[k] == prev[k]);
                assert(md_file_heading(prev[k], (k + 1) as nat).len() > 0);
            }
        }
        offs
    }
}

/// In the Markdown high-priority files section the `k`-th listed file (from
/// 1) is headed ``#### k. `path` ``: the listed files are the first five
/// that list issues, numbered 1, 2, ... in order; the returned offsets locate
/// the headings in the section and increase with `k`.
pub proof fn lemma_md_high_priority_numbered(complexity: JsonSpec) -> (offs: Seq<int>)
    ensures
        match arr_of(spec_get(complexity, "detailed_results"@)) {
            Some(d) => {
                let listed = take_limit(files_with_issues(d), 5);
                let section = high_priority_md(complexity);
                &&& offs.len() == listed.len()
                &&& forall|k: int| 0 <= k < listed.len() ==> {
                    &&& 0 <= #[trigger] offs[k]
                    &&& offs[k] + md_file_heading(listed[k], (k + 1) as nat).len() <= section.len()
                    &&& section.subrange(offs[k], offs[k] + md_file_heading(listed[k], (k + 1) as nat).len())
                        == md_file_heading(listed[k], (k + 1) as nat)
                }
                &&& forall|k: int, j: int| 0 <= k < j < listed.len() ==> #[trigger] offs[k] < #[trigger] offs[j]
            },
            None => offs.len() == 0,
        },
{
    match arr_of(spec_get(complexity, "detailed_results"@)) {
        Some(d) => {
            let listed = take_limit(files_with_issues(d), 5);
            let po = lemma_md_files_numbered(listed);
            if listed.len() == 0 {
                Seq::empty()
            } else {
                assert(files_with_issues(d).len() != 0);
                let head = "### High Priority Files\n\n"@;
                let body = files_md(listed);
                let section = high_priority_md(complexity);
                assert(section == head + body + "\n"@);
                let offs = Seq::new(po.len(), |k: int| po[k] + head.len());
                assert forall|k: int| 0 <= k < listed.len() implies {
                    &&& 0 <= #[trigger] offs[k]
                    &&& offs[k] + md_file_heading(listed[k], (k + 1) as nat).len() <= section.len()
                    &&& section.subrange(offs[k], offs[k] + md_file_heading(listed[k], (k + 1) as nat).len())
                        == md_file_heading(listed[k], (k + 1) as nat)
                } by {
                    let hk = md_file_heading(listed[k], (k + 1) as nat);
                    assert(section.subrange(offs[k], offs[k] + hk.len()) =~= body.subrange(po[k], po[k] + hk.len()));
                }
                assert forall|k: int, j: int| 0 <= k < j < listed.len() implies #[trigger] offs[k] < #[trigger] offs[j] by {
                    assert(po[k] < po[j]);
                }
                offs
            }
        },
        None => Seq::empty(),
    }
}

/// The high-priority files section: the first five files that list issues,
/// or nothing when no file does.
pub open spec fn high_priority_md(complexity: JsonSpec) -> Seq<char> {
    match arr_of(spec_get(complexity, "detailed_results"@)) {
        Some(d) => if files_with_issues(d).len() == 0 {
            Seq::empty()
        } else {
            "### High Priority Files\n\n"@ + files_md(take_limit(files_with_issues(d), 5)) + "\n"@
        },
        None => Seq::empty(),
    }
}

/// Render high priority files with issues.
pub fn render_md_high_priority_files(content: &mut String, complexity: &JsonValue)
    ensures
        final(content)@ == old(content)@ + high_priority_md(json_view(*complexity)),
{
    let detailed_results = match complexity.get_array("detailed_results") {
        Some(d) => d,
        None => return,
    };
    proof { lemma_items_view(detailed_results@); }
    let ghost dv = items_view(detailed_results@);
    let mut body = String::new();
    let mut shown: usize = 0;
    let mut i: usize = 0;
    while i < detailed_results.len()
        invariant
            0 <= i <= detailed_results.len(),
            dv == items_view(detailed_results@),
            dv.len() == detailed_results.len(),
            forall|k: int| 0 <= k < detailed_results.len() ==> #[trigger] dv[k] == json_view(detailed_results@[k]),
            shown as int == if files_with_issues(dv.take(i as int)).len() < 5 {
                files_with_issues(dv.take(i as int)).len() as int
            } else {
                5
            },
            body@ == files_md(take_limit(files_with_issues(dv.take(i as int)), 5)),
        decreases detailed_results.len() - i,
    {
        let f = &detailed_results[i];
        let ghost before = files_with_issues(dv.take(i as int));
        proof {
            assert(dv.take(i + 1).drop_last() =~= dv.take(i as int));
            assert(dv.take(i + 1).last() == dv[i as int]);
        }
        if file_has_issues(f) {
            assert(files_with_issues(dv.take(i + 1)) == before.push(dv[i as int]));
            if shown < 5 {
                render_md_file_entry(&mut body, f, shown + 1);
                proof {
                    let after = before.push(dv[i as int]);
                    assert(take_limit(after, 5) =~= take_limit(before, 5).push(dv[i as int]));
                    assert(take_limit(after, 5).drop_last() =~= take_limit(before, 5));
                }
                shown += 1;
            } else {
                proof {
                    let after = before.push(dv[i as int]);
                    assert(take_limit(after, 5) =~= take_limit(before, 5));
                }
            }
        } else {
            assert(files_with_issues(dv.take(i + 1)) == before);
        }
        i += 1;
    }
    proof {
        assert(dv.take(detailed_results.len() as int) =~= dv);
    }
    if shown == 0 {
        return;
    }
    push_str(content, "### High Priority Files\n\n");
    push_str(content, body.as_str());
    push_str(content, "\n");
    proof {
        assert(content@ =~= old(content)@ + high_priority_md(json_view(*complexity)));
    }
}

/// The numbered path lines of the refactoring section, from 1.
pub open spec fn refactoring_files_md(files: Seq<JsonSpec>) -> Seq<char>
    decreases files.len(),
{
    if files.len() == 0 {
        Seq::empty()
    } else {
        refactoring_files_md(files.drop_last()) + decimal(files.len()) + ". `"@
            + path_or_unknown(files.last()) + "`\n"@
    }
}

/// The path lines of the refactoring section carry the numbers 1, 2, ... by
/// position: the `k`-th file (from 1) gives the line ``k. `path` `` at the
/// returned offset, and the offsets increase with `k`.
pub proof fn lemma_md_refactoring_files_numbered(files: Seq<JsonSpec>) -> (offs: Seq<int>)
    ensures
        offs.len() == files.len(),
        forall|k: int| 0 <= k < files.len() ==> {
            &&& 0 <= #[trigger] offs[k]
            &&& offs[k] + (decimal((k + 1) as nat) + ". `"@ + path_or_unknown(files[k]) + "`"@).len()
                <= refactoring_files_md(files).len()
            &&& refactoring_files_md(files).subrange(offs[k],
                offs[k] + (decimal((k + 1) as nat) + ". `"@ + path_or_unknown(files[k]) + "`"@).len())
                == decimal((k + 1) as nat) + ". `"@ + path_or_unknown(files[k]) + "`"@
        },
        forall|k: int, j: int| 0 <= k < j < files.len() ==> #[trigger] offs[k] < #[trigger] offs[j],
    decreases files.len(),
{
    if files.len() == 0 {
        Seq::empty()
    } else {
        let prev = files.drop_last();
        let po = lemma_md_refactoring_files_numbered(prev);
        let a = refactoring_files_md(prev);
        let n = files.len();
        let f = files.last();
        reveal_strlit("`\n");
        reveal_strlit("`");
        let h = decimal(n as nat) + ". `"@ + path_or_unknown(f) + "`"@;
        let line = decimal(n as nat) + ". `"@ + path_or_unknown(f) + "`\n"@;
        let whole = refactoring_files_md(files);
        assert(whole =~= a + line);
        assert(line.subrange(0, h.len() as int) =~= h);
        let offs = po.push(a.len() as int);
        assert forall|k: int| 0 <= k < files.len() implies {
            &&& 0 <= #[trigger] offs[k]
            &&& offs[k] + (decimal((k + 1) as nat) + ". `"@ + path_or_unknown(files[k]) + "`"@).len() <= whole.len()
            &&& whole.subrange(offs[k],
                offs[k] + (decimal((k + 1) as nat) + ". `"@ + path_or_unknown(files[k]) + "`"@).len())
                == decimal((k + 1) as nat) + ". `"@ + path_or_unknown(files[k]) + "`"@
        } by {
            if k < n - 1 {
                assert(files[k] == prev[k]);
                assert(offs[k] == po[k]);
                let hk = decimal((k + 1) as nat) + ". `"@ + path_or_unknown(prev[k]) + "`"@;
                assert(whole.subrange(po[k], po[k] + hk.len()) =~= a.subrange(po[k], po[k] + hk.len()));
            } else {
                assert(files[k] == f);
                assert(whole.subrange(a.len() as int, (a.len() + h.len()) as int) =~= line.subrange(0, h.len() as int));
            }
        }
        assert forall|k: int, j: int| 0 <= k < j < files.len() implies #[trigger] offs[k] < #[trigger] offs[j] by {
            assert(files[k] == prev[k]);
            assert(offs[k] == po[k]);
            if j < n - 1 {
                assert(offs[j] == po[j]);
            } else {
                assert((decimal((k + 1) as nat) + ". `"@ + path_or_unknown(prev[k]) + "`"@).len() > 0);
            }
        }
        offs
    }
}

/// The count a value names under `key`, 0 when it names none.
pub open spec fn count_or_zero(j: JsonSpec, key: Seq<char>) -> u64 {
    match u64_of(spec_get(j, key)) {
        Some(n) => n,
        None => 0,
    }
}

/// The refactoring section: nothing without opportunities, else their count
/// and the paths of the first five file results.
pub open spec fn refactoring_md(refactoring: JsonSpec) -> Seq<char> {
    let count = count_or_zero(refactoring, "opportunities_count"@);
    if count == 0 {
        Seq::empty()
    } else {
        "### Refactoring Opportunities\n\n"@ + "Found **"@ + decimal(count as nat)
            + "** refactoring opportunities:\n\n"@
            + (match arr_of(spec_get(refactoring, "detailed_results"@)) {
                Some(d) => refactoring_files_md(take_limit(d, 5)),
                None => Seq::empty(),
            })
            + "\n"@
    }
}

/// Render refactoring section.
pub fn render_md_refactoring_section(content: &mut String, refactoring: &JsonValue)
    ensures
        final(content)@ == old(content)@ + refactoring_md(json_view(*refactoring)),
{
    let opportunities_count: u64 = match refactoring.get_u64("opportunities_count") {
        Some(n) => n,
        None => 0,
    };
    if opportunities_count == 0 {
        return;
    }
    push_str(content, "### Refactoring Opportunities\n\n");
    push_str(content, "Found **");
    push_decimal(content, opportunities_count);
    push_str(content, "** refactoring opportunities:\n\n");
    let ghost head = content@;
    match refactoring.get_array("detailed_results") {
        Some(detailed_results) => {
            proof { lemma_items_view(detailed_results@); }
            let ghost dv = items_view(detailed_results@);
            let n: usize = if 5 < detailed_results.len() { 5 } else { detailed_results.len() };
            let mut i: usize = 0;
            while i < n
                invariant
                    0 <= i <= n,
                    n <= detailed_results.len(),
                    dv == items_view(detailed_results@),
                    dv.len() == detailed_results.len(),
                    forall|k: int| 0 <= k < detailed_results.len() ==> #[trigger] dv[k] == json_view(detailed_results@[k]),
                    content@ == head + refactoring_files_md(dv.take(i as int)),
                decreases n - i,
            {
                let f = &detailed_results[i];
                proof {
                    assert(dv.take(i + 1).drop_last() =~= dv.take(i as int));
                    assert(dv.take(i + 1).last() == dv[i as int]);
                }
                let file_path = match f.get_str("file_path") {
                    Some(p) => p,
                    None => "unknown",
                };
                push_decimal(content, (i + 1) as u64);
                push_str(content, ". `");
                push_str(content, file_path);
                push_str(content, "`\n");
                proof {
                    assert(content@ =~= head + refactoring_files_md(dv.take(i + 1)));
                }
                i += 1;
            }
            proof {
                assert(take_limit(dv, 5) =~= dv.take(n as int));
            }
        },
        None => {},
    }
    push_str(content, "\n");
    proof {
        assert(content@ =~= old(content)@ + refactoring_md(json_view(*refactoring)));
    }
}

/// The summary section: file and issue counts and the analysis date.
pub open spec fn summary_md(total_files: u64, total_issues: u64, date: Seq<char>) -> Seq<char> {
    "## Summary\n\n"@ + "- **Files Analyzed**: "@ + decimal(total_files as nat) + "\n"@
        + "- **Issues Found**: "@ + decimal(total_issues as nat) + "\n"@ + "- **Analysis Date**: "@
        + date + "\n\n"@
}

/// Render the summary section header, dated `date`.
pub fn render_md_summary(content: &mut String, total_files: u64, total_issues: u64, date: &str)
    ensures
        final(content)@ == old(content)@ + summary_md(total_files, total_issues, date@),
{
    push_str(content, "## Summary\n\n");
    push_str(content, "- **Files Analyzed**: ");
    push_decimal(content, total_files);
    push_str(content, "\n");
    push_str(content, "- **Issues Found**: ");
    push_decimal(content, total_issues);
    push_str(content, "\n");
    push_str(content, "- **Analysis Date**: ");
    push_str(content, date);
    push_str(content, "\n\n");
    proof {
        assert(content@ =~= old(content)@ + summary_md(total_files, total_issues, date@));
    }
}

/// The health section: a heading, the metric lines and a blank line, when
/// the result has health metrics.
pub open spec fn health_md(result: JsonSpec, metric_lines: Seq<char>) -> Seq<char> {
    match spec_get(result, "health_metrics"@) {
        Some(_) => "### Health Metrics\n\n"@ + metric_lines + "\n"@,
        None => Seq::empty(),
    }
}

/// The complexity section: the high-priority files, then the statistics
/// heading, the statistic lines and a blank line, when the result has
/// complexity results.
pub open spec fn complexity_md(result: JsonSpec, stat_lines: Seq<char>) -> Seq<char> {
    match spec_get(result, "complexity"@) {
        Some(c) => high_priority_md(c) + "### Complexity Statistics\n\n"@ + stat_lines + "\n"@,
        None => Seq::empty(),
    }
}

/// The line written when the result reports no issue.
pub open spec fn no_issues_md() -> Seq<char> {
    "\u{2705} **Excellent!** No significant issues found in your codebase.\n"@
}

/// The total that the summary names under `key`, 0 when it names none.
pub open spec fn summary_count(result: JsonSpec, key: Seq<char>) -> u64 {
    count_or_zero(spec_index(result, "summary"@), key)
}

/// The body of a report with issues: the health, complexity and
/// refactoring sections, then the closing recommendations.
pub open spec fn issue_sections_md(result: JsonSpec, health_lines: Seq<char>, stat_lines: Seq<char>) -> Seq<char> {
    "## Issues Requiring Attention\n\n"@ + health_md(result, health_lines) + complexity_md(result, stat_lines)
        + (match spec_get(result, "refactoring"@) {
            Some(r) => refactoring_md(r),
            None => Seq::empty(),
        })
        + md_recommendations_footer()
}

/// The whole Markdown report.
pub open spec fn markdown_report_spec(
    result: JsonSpec,
    date: Seq<char>,
    health_lines: Seq<char>,
    stat_lines: Seq<char>,
) -> Seq<char> {
    let total_issues = summary_count(result, "total_issues"@);
    let total_files = summary_count(result, "total_files"@);
    "# Valknut Analysis Report\n\n"@ + summary_md(total_files, total_issues, date)
        + if total_issues == 0 {
            no_issues_md()
        } else {
            issue_sections_md(result, health_lines, stat_lines)
        }
}

fn render_md_health(content: &mut String, result: &JsonValue, health_lines: &str)
    ensures
        final(content)@ == old(content)@ + health_md(json_view(*result), health_lines@),
{
    match result.get("health_metrics") {
        Some(_) => {
            push_str(content, "### Health Metrics\n\n");
            push_str(content, health_lines);
            push_str(content, "\n");
            assert(content@ =~= old(content)@ + health_md(json_view(*result), health_lines@));
        },
        None => {
            assert(content@ =~= old(content)@ + health_md(json_view(*result), health_lines@));
        },
    }
}

fn render_md_complexity(content: &mut String, result: &JsonValue, stat_lines: &str)
    ensures
        final(content)@ == old(content)@ + complexity_md(json_view(*result), stat_lines@),
{
    match result.get("complexity") {
        Some(complexity) => {
            render_md_high_priority_files(content, complexity);
            push_str(content, "### Complexity Statistics\n\n");
            push_str(content, stat_lines);
            push_str(content, "\n");
            assert(content@ =~= old(content)@ + complexity_md(json_view(*result), stat_lines@));
        },
        None => {
            assert(content@ =~= old(content)@ + complexity_md(json_view(*result), stat_lines@));
        },
    }
}

fn render_md_refactoring_part(content: &mut String, result: &JsonValue)
    ensures
        final(content)@ == old(content)@ + match spec_get(json_view(*result), "refactoring"@) {
            Some(r) => refactoring_md(r),
            None => Seq::<char>::empty(),
        },
{
    match result.get("refactoring") {
        Some(refactoring) => {
            render_md_refactoring_section(content, refactoring);
        },
        None => {
            assert(content@ =~= old(content)@ + Seq::<char>::empty());
        },
    }
}

/// Render the sections of a report with issues.
pub fn render_md_issue_sections(content: &mut String, result: &JsonValue, health_lines: &str, stat_lines: &str)
    ensures
        final(content)@ == old(content)@ + issue_sections_md(json_view(*result), health_lines@, stat_lines@),
{
    push_str(content, "## Issues Requiring Attention\n\n");
    let ghost h0 = content@;
    render_md_health(content, result, health_lines);
    let ghost h1 = content@;
    render_md_complexity(content, result, stat_lines);
    let ghost h2 = content@;
    render_md_refactoring_part(content, result);
    let ghost h3 = content@;
    render_md_recommendations_footer(content);
    proof {
        assert(content@ =~= old(content)@ + issue_sections_md(json_view(*result), health_lines@, stat_lines@));
    }
}

/// The total that the summary names under `key`, 0 when it names none.
pub fn summary_total(result: &JsonValue, key: &str) -> (n: u64)
    ensures
        n == summary_count(json_view(*result), key@),
{
    match result.get("summary") {
        Some(summary) => match summary.get_u64(key) {
            Some(n) => n,
            None => 0,
        },
        None => 0,
    }
}

/// The Markdown report of an analysis result, dated `date`. The metric lines
/// of the health and statistics sections print floating-point scores; the
/// caller renders them and they are placed here verbatim.
pub fn markdown_report_at(
    result: &JsonValue,
    date: &str,
    health_lines: &str,
    stat_lines: &str,
) -> (content: String)
    ensures
        content@ == markdown_report_spec(json_view(*result), date@, health_lines@, stat_lines@),
{
    let mut content = String::new();
    push_str(&mut content, "# Valknut Analysis Report\n\n");
    let total_issues = summary_total(result, "total_issues");
    let total_files = summary_total(result, "total_files");
    render_md_summary(&mut content, total_files, total_issues, date);
    let ghost head = content@;
    if total_issues == 0 {
        push_str(&mut content, "\u{2705} **Excellent!** No significant issues found in your codebase.\n");
    } else {
        render_md_issue_sections(&mut content, result, health_lines, stat_lines);
    }
    proof {
        assert(content@ =~= markdown_report_spec(json_view(*result), date@, health_lines@, stat_lines@));
    }
    content
}

/// Generate a markdown analysis report, dated now.
pub fn generate_markdown_report(result: &JsonValue, health_lines: &str, stat_lines: &str) -> (content: String)
    ensures
        exists|date: Seq<char>|
            crate::report::is_report_date(date)
                && content@ == markdown_report_spec(json_view(*result), date, health_lines@, stat_lines@),
{
    let date = crate::report::utc_now_formatted(crate::report::REPORT_DATE_FORMAT);
    markdown_report_at(result, date.as_str(), health_lines, stat_lines)
}

/// The opening lines of every Markdown report: the title and the file and
/// issue counts.
pub open spec fn markdown_opening(total_files: u64, total_issues: u64) -> Seq<char> {
    "# Valknut Analysis Report\n\n"@ + "## Summary\n\n"@ + "- **Files Analyzed**: "@ + decimal(total_files as nat)
        + "\n"@ + "- **Issues Found**: "@ + decimal(total_issues as nat) + "\n"@
}

/// Every dated Markdown report opens with the title and the file and issue
/// counts; it has the `## Issues Requiring Attention` section exactly when
/// the summary counts issues; and a report without issues ends with the
/// no-issues line.
pub proof fn lemma_markdown_report_sections(
    result: JsonSpec,
    date: Seq<char>,
    health_lines: Seq<char>,
    stat_lines: Seq<char>,
)
    requires
        crate::report::is_report_date(date),
    ensures
        ({
            let md = markdown_report_spec(result, date, health_lines, stat_lines);
            let n = summary_count(result, "total_issues"@);
            let f = summary_count(result, "total_files"@);
            &&& md.take(markdown_opening(f, n).len() as int) == markdown_opening(f, n)
            &&& contains_seq(md, "## Issues Requiring Attention"@) <==> n > 0
            &&& n == 0 ==> md.skip(md.len() - no_issues_md().len()) == no_issues_md()
        }),
{
    reveal_strlit("# Valknut Analysis Report\n\n");
    reveal_strlit("## Summary\n\n");
    reveal_strlit("- **Files Analyzed**: ");
    reveal_strlit("\n");
    reveal_strlit("- **Issues Found**: ");
    reveal_strlit("- **Analysis Date**: ");
    reveal_strlit("\n\n");
    reveal_strlit("\u{2705} **Excellent!** No significant issues found in your codebase.\n");
    reveal_strlit("## Issues Requiring Attention\n\n");
    reveal_strlit("## Issues Requiring Attention");
    let md = markdown_report_spec(result, date, health_lines, stat_lines);
    let n = summary_count(result, "total_issues"@);
    let f = summary_count(result, "total_files"@);
    let open = markdown_opening(f, n);
    let head = open + "- **Analysis Date**: "@ + date + "\n\n"@;
    let body = if n == 0 { no_issues_md() } else { issue_sections_md(result, health_lines, stat_lines) };
    assert(md =~= head + body);
    assert(md.take(open.len() as int) =~= open);
    let pat = "## Issues Requiring Attention"@;
    if n > 0 {
        let i = head.len() as int;
        assert(md.subrange(i, i + pat.len()) =~= pat);
    } else {
        assert(md.skip(md.len() - no_issues_md().len()) =~= no_issues_md());
        lemma_decimal_digits(f as nat);
        lemma_decimal_digits(n as nat);
        let df = decimal(f as nat);
        let dn = decimal(n as nat);
        assert(lacks_char(df, 'q')) by {
            assert forall|i: int| 0 <= i < df.len() implies df[i] != 'q' by {
                assert(is_digit(df[i]));
            }
        }
        assert(lacks_char(dn, 'q')) by {
            assert forall|i: int| 0 <= i < dn.len() implies dn[i] != 'q' by {
                assert(is_digit(dn[i]));
            }
        }
        lemma_report_date_lacks_q(date);
        let l1 = "# Valknut Analysis Report\n\n"@ + "## Summary\n\n"@ + "- **Files Analyzed**: "@;
        let l2 = "\n"@ + "- **Issues Found**: "@;
        let l3 = "\n"@ + "- **Analysis Date**: "@;
        let l4 = "\n\n"@ + no_issues_md();
        assert(lacks_char(l1, 'q'));
        assert(lacks_char(l2, 'q'));
        assert(lacks_char(l3, 'q'));
        assert(lacks_char(l4, 'q'));
        lemma_lacks_char_add(l1, df, 'q');
        lemma_lacks_char_add(l1 + df, l2, 'q');
        lemma_lacks_char_add(l1 + df + l2, dn, 'q');
        lemma_lacks_char_add(l1 + df + l2 + dn, l3, 'q');
        lemma_lacks_char_add(l1 + df + l2 + dn + l3, date, 'q');
        lemma_lacks_char_add(l1 + df + l2 + dn + l3 + date, l4, 'q');
        assert(md =~= l1 + df + l2 + dn + l3 + date + l4);
        assert(pat[12] == 'q');
        if contains_seq(md, pat) {
            lemma_contains_needs_char(md, pat, 12);
        }
    }
}

} // verus!
