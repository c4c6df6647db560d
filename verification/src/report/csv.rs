//! The CSV report.

use vstd::prelude::*;
use crate::json::{
    JsonValue, JsonSpec, json_view, items_view, lemma_items_view, spec_get, str_of, u64_of, arr_of,
};
use crate::labels::escape_csv;
use crate::report::str_or;
use crate::text::{decimal, push_decimal, push_str, replace_spec, to_owned_string};

verus! {

/// A field with its double quotes doubled, as CSV writes it.
pub open spec fn csv_escaped(s: Seq<char>) -> Seq<char> {
    replace_spec(s, "\""@, "\"\""@)
}

/// The text views of a list of strings.
pub open spec fn string_views(rows: Seq<String>) -> Seq<Seq<char>> {
    rows.map_values(|r: String| r@)
}

/// The rows, one after the other.
pub open spec fn concat_rows(rows: Seq<Seq<char>>) -> Seq<char>
    decreases rows.len(),
{
    if rows.len() == 0 {
        Seq::empty()
    } else {
        concat_rows(rows.drop_last()) + rows.last()
    }
}

/// The CSV row of one complexity issue of the file at `path`.
pub open spec fn issue_csv_row(issue: JsonSpec, path: Seq<char>) -> Seq<char> {
    let line = match u64_of(spec_get(issue, "line"@)) {
        Some(n) => n,
        None => 0,
    };
    "\""@ + csv_escaped(path) + "\",\""@ + str_or(issue, "category"@, "Complexity"@) + "\",\""@
        + str_or(issue, "severity"@, "Medium"@) + "\",\""@
        + csv_escaped(str_or(issue, "description"@, "Complexity issue"@)) + "\","@
        + decimal(line as nat) + ",\"\",\"\"\n"@
}

/// The CSV rows of a file's issues, in order.
pub open spec fn issue_csv_rows(issues: Seq<JsonSpec>, path: Seq<char>) -> Seq<Seq<char>>
    decreases issues.len(),
{
    if issues.len() == 0 {
        Seq::empty()
    } else {
        issue_csv_rows(issues.drop_last(), path).push(issue_csv_row(issues.last(), path))
    }
}

/// The rows of one file result: none unless it has a path and an issue list.
pub open spec fn file_csv_rows(f: JsonSpec) -> Seq<Seq<char>> {
    match (str_of(spec_get(f, "file_path"@)), arr_of(spec_get(f, "issues"@))) {
        (Some(p), Some(issues)) => issue_csv_rows(issues, p),
        _ => Seq::empty(),
    }
}

/// The rows of a list of file results, in order.
pub open spec fn files_csv_rows(files: Seq<JsonSpec>) -> Seq<Seq<char>>
    decreases files.len(),
{
    if files.len() == 0 {
        Seq::empty()
    } else {
        files_csv_rows(files.drop_last()) + file_csv_rows(files.last())
    }
}

/// The rows of the complexity results.
pub open spec fn complexity_csv_rows(complexity: JsonSpec) -> Seq<Seq<char>> {
    match arr_of(spec_get(complexity, "detailed_results"@)) {
        Some(d) => files_csv_rows(d),
        None => Seq::empty(),
    }
}

fn issue_row(issue: &JsonValue, file_path: &str) -> (row: String)
    ensures
        row@ == issue_csv_row(json_view(*issue), file_path@),
{
    let issue_type = match issue.get_str("category") {
        Some(s) => s,
        None => "Complexity",
    };
    let severity = match issue.get_str("severity") {
        Some(s) => s,
        None => "Medium",
    };
    let description = match issue.get_str("description") {
        Some(s) => s,
        None => "Complexity issue",
    };
    let line: u64 = match issue.get_u64("line") {
        Some(n) => n,
        None => 0,
    };
    let mut row = to_owned_string("\"");
    let path = escape_csv(file_path);
    push_str(&mut row, path.as_str());
    push_str(&mut row, "\",\"");
    push_str(&mut row, issue_type);
    push_str(&mut row, "\",\"");
    push_str(&mut row, severity);
    push_str(&mut row, "\",\"");
    let desc = escape_csv(description);
    push_str(&mut row, desc.as_str());
    push_str(&mut row, "\",");
    push_decimal(&mut row, line);
    push_str(&mut row, ",\"\",\"\"\n");
    proof {
        assert(row@ =~= issue_csv_row(json_view(*issue), file_path@));
    }
    row
}

/// Extracts complexity issues and formats them as CSV rows.
pub fn extract_complexity_csv_rows(complexity: &JsonValue) -> (rows: Vec<String>)
    ensures
        string_views(rows@) == complexity_csv_rows(json_view(*complexity)),
{
    let mut rows: Vec<String> = Vec::new();
    let detailed_results = match complexity.get_array("detailed_results") {
        Some(d) => d,
        None => {
            assert(string_views(rows@) =~= Seq::<Seq<char>>::empty());
            return rows;
        },
    };
    proof { lemma_items_view(detailed_results@); }
    let ghost dv = items_view(detailed_results@);
    let mut i: usize = 0;
    while i < detailed_results.len()
        invariant
            0 <= i <= detailed_results.len(),
            dv == items_view(detailed_results@),
            dv.len() == detailed_results.len(),
            forall|k: int| 0 <= k < detailed_results.len() ==> #[trigger] dv[k] == json_view(detailed_results@[k]),
            string_views(rows@) == files_csv_rows(dv.take(i as int)),
        decreases detailed_results.len() - i,
    {
        let f = &detailed_results[i];
        proof {
            assert(dv.take(i + 1).drop_last() =~= dv.take(i as int));
            assert(dv.take(i + 1).last() == dv[i as int]);
        }
        let ghost start = string_views(rows@);
        match (f.get_str("file_path"), f.get_array("issues")) {
            (Some(file_path), Some(issues)) => {
                proof { lemma_items_view(issues@); }
                let ghost iv = items_view(issues@);
                let mut j: usize = 0;
                while j < issues.len()
                    invariant
                        0 <= j <= issues.len(),
                        iv == items_view(issues@),
                        iv.len() == issues.len(),
                        forall|k: int| 0 <= k < issues.len() ==> #[trigger] iv[k] == json_view(issues@[k]),
                        string_views(rows@) == start + issue_csv_rows(iv.take(j as int), file_path@),
                    decreases issues.len() - j,
                {
                    proof {
                        assert(iv.take(j + 1).drop_last() =~= iv.take(j as int));
                        assert(iv.take(j + 1).last() == iv[j as int]);
                    }
                    let row = issue_row(&issues[j], file_path);
                    let ghost before = rows@;
                    rows.push(row);
                    proof {
                        assert(string_views(rows@) =~= string_views(before).push(row@));
                        assert(string_views(rows@) =~= start + issue_csv_rows(iv.take(j + 1), file_path@));
                    }
                    j += 1;
                }
                proof {
                    assert(iv.take(issues.len() as int) =~= iv);
                }
            },
            _ => {
                assert(file_csv_rows(dv[i as int]) =~= Seq::<Seq<char>>::empty());
            },
        }
        proof {
            assert(string_views(rows@) =~= files_csv_rows(dv.take(i + 1)));
        }
        i += 1;
    }
    proof {
        assert(dv.take(detailed_results.len() as int) =~= dv);
    }
    rows
}

/// The strings among a list of values, in order.
pub open spec fn strings_in(items: Seq<JsonSpec>) -> Seq<Seq<char>>
    decreases items.len(),
{
    if items.len() == 0 {
        Seq::empty()
    } else {
        match items.last() {
            JsonSpec::Str(s) => strings_in(items.drop_last()).push(s),
            _ => strings_in(items.drop_last()),
        }
    }
}

/// The parts joined by `sep`.
pub open spec fn join(parts: Seq<Seq<char>>, sep: Seq<char>) -> Seq<char>
    decreases parts.len(),
{
    if parts.len() == 0 {
        Seq::empty()
    } else if parts.len() == 1 {
        parts[0]
    } else {
        join(parts.drop_last(), sep) + sep + parts.last()
    }
}

/// Where a structure pack points: its file, else its directory, else
/// `Unknown`.
pub open spec fn pack_location(pack: JsonSpec) -> Seq<char> {
    match str_of(spec_get(pack, "file"@)) {
        Some(f) => f,
        None => str_or(pack, "directory"@, "Unknown"@),
    }
}

/// The reasons of a structure pack joined by `; `, or `Structure issue`
/// when it lists none.
pub open spec fn pack_reasons(pack: JsonSpec) -> Seq<char> {
    match arr_of(spec_get(pack, "reasons"@)) {
        Some(a) => join(strings_in(a), "; "@),
        None => "Structure issue"@,
    }
}

/// The CSV row of one structure pack.
pub open spec fn pack_csv_row(pack: JsonSpec) -> Seq<char> {
    "\""@ + csv_escaped(pack_location(pack)) + "\",\""@ + str_or(pack, "kind"@, "Structure"@)
        + "\",\"Medium\",\""@ + csv_escaped(pack_reasons(pack)) + "\",0,\"\",\"\"\n"@
}

/// The rows of a list of packs, in order.
pub open spec fn packs_csv_rows(packs: Seq<JsonSpec>) -> Seq<Seq<char>>
    decreases packs.len(),
{
    if packs.len() == 0 {
        Seq::empty()
    } else {
        packs_csv_rows(packs.drop_last()).push(pack_csv_row(packs.last()))
    }
}

/// The rows of the structure results.
pub open spec fn structure_csv_rows(structure: JsonSpec) -> Seq<Seq<char>> {
    match arr_of(spec_get(structure, "packs"@)) {
        Some(p) => packs_csv_rows(p),
        None => Seq::empty(),
    }
}

fn join_reasons(reasons: &Vec<JsonValue>) -> (text: String)
    ensures
        text@ == join(strings_in(items_view(reasons@)), "; "@),
{
    proof { lemma_items_view(reasons@); }
    let ghost rv = items_view(reasons@);
    let mut text = String::new();
    let mut count: usize = 0;
    let mut i: usize = 0;
    while i < reasons.len()
        invariant
            0 <= i <= reasons.len(),
            rv == items_view(reasons@),
            rv.len() == reasons.len(),
            forall|k: int| 0 <= k < reasons.len() ==> #[trigger] rv[k] == json_view(reasons@[k]),
            count == strings_in(rv.take(i as int)).len(),
            count <= i,
            text@ == join(strings_in(rv.take(i as int)), "; "@),
        decreases reasons.len() - i,
    {
        proof {
            assert(rv.take(i + 1).drop_last() =~= rv.take(i as int));
            assert(rv.take(i + 1).last() == rv[i as int]);
        }
        match reasons[i].as_str() {
            Some(r) => {
                let ghost parts = strings_in(rv.take(i as int)).push(r@);
                assert(strings_in(rv.take(i + 1)) == parts);
                if count > 0 {
                    push_str(&mut text, "; ");
                    assert(parts.drop_last() =~= strings_in(rv.take(i as int)));
                } else {
                    assert(parts.len() == 1);
                }
                push_str(&mut text, r);
                proof {
                    assert(text@ =~= join(parts, "; "@));
                }
                count += 1;
            },
            None => {},
        }
        i += 1;
    }
    proof {
        assert(rv.take(reasons.len() as int) =~= rv);
    }
    text
}

fn pack_row(pack: &JsonValue) -> (row: String)
    ensures
        row@ == pack_csv_row(json_view(*pack)),
{
    let kind = match pack.get_str("kind") {
        Some(k) => k,
        None => "Structure",
    };
    let file_or_dir = match pack.get_str("file") {
        Some(f) => f,
        None => match pack.get_str("directory") {
            Some(d) => d,
            None => "Unknown",
        },
    };
    let reasons = match pack.get_array("reasons") {
        Some(a) => join_reasons(a),
        None => to_owned_string("Structure issue"),
    };
    let mut row = to_owned_string("\"");
    let location = escape_csv(file_or_dir);
    push_str(&mut row, location.as_str());
    push_str(&mut row, "\",\"");
    push_str(&mut row, kind);
    push_str(&mut row, "\",\"Medium\",\"");
    let escaped = escape_csv(reasons.as_str());
    push_str(&mut row, escaped.as_str());
    push_str(&mut row, "\",0,\"\",\"\"\n");
    proof {
        assert(row@ =~= pack_csv_row(json_view(*pack)));
    }
    row
}

/// Extracts structure pack issues and formats them as CSV rows.
pub fn extract_structure_csv_rows(structure: &JsonValue) -> (rows: Vec<String>)
    ensures
        string_views(rows@) == structure_csv_rows(json_view(*structure)),
{
    let mut rows: Vec<String> = Vec::new();
    let packs = match structure.get_array("packs") {
        Some(p) => p,
        None => {
            assert(string_views(rows@) =~= Seq::<Seq<char>>::empty());
            return rows;
        },
    };
    proof { lemma_items_view(packs@); }
    let ghost pv = items_view(packs@);
    let mut i: usize = 0;
    while i < packs.len()
        invariant
            0 <= i <= packs.len(),
            pv == items_view(packs@),
            pv.len() == packs.len(),
            forall|k: int| 0 <= k < packs.len() ==> #[trigger] pv[k] == json_view(packs@[k]),
            string_views(rows@) == packs_csv_rows(pv.take(i as int)),
        decreases packs.len() - i,
    {
        proof {
            assert(pv.take(i + 1).drop_last() =~= pv.take(i as int));
            assert(pv.take(i + 1).last() == pv[i as int]);
        }
        let row = pack_row(&packs[i]);
        let ghost before = rows@;
        rows.push(row);
        proof {
            assert(string_views(rows@) =~= string_views(before).push(row@));
        }
        i += 1;
    }
    proof {
        assert(pv.take(packs.len() as int) =~= pv);
    }
    rows
}

/// The CSV header line.
pub open spec fn csv_header() -> Seq<char> {
    "File,Issue Type,Severity,Description,Line,Impact,Effort\n"@
}

/// The single row written when there is nothing to report.
pub open spec fn csv_no_issues_row() -> Seq<char> {
    "\"No issues found\",\"Info\",\"Info\",\"Code quality is excellent\",0,\"\",\"\"\n"@
}

/// All rows of a result: complexity issues, then the refactoring rows, then
/// structure packs.
pub open spec fn csv_rows(result: JsonSpec, refactoring_rows: Seq<Seq<char>>) -> Seq<Seq<char>> {
    (match spec_get(result, "complexity"@) {
        Some(c) => complexity_csv_rows(c),
        None => Seq::empty(),
    }) + (match spec_get(result, "refactoring"@) {
        Some(_) => refactoring_rows,
        None => Seq::empty(),
    }) + (match spec_get(result, "structure"@) {
        Some(s) => structure_csv_rows(s),
        None => Seq::empty(),
    })
}

/// The whole CSV report.
pub open spec fn csv_report_spec(result: JsonSpec, refactoring_rows: Seq<Seq<char>>) -> Seq<char> {
    let rows = csv_rows(result, refactoring_rows);
    csv_header() + if rows.len() == 0 {
        csv_no_issues_row()
    } else {
        concat_rows(rows)
    }
}

fn append_rows(all: &mut Vec<String>, rows: Vec<String>)
    ensures
        string_views(final(all)@) == string_views(old(all)@) + string_views(rows@),
{
    let mut rows = rows;
    let ghost added = rows@;
    all.append(&mut rows);
    proof {
        assert(string_views(all@) =~= string_views(old(all)@) + string_views(added));
    }
}

/// Render the analysis result as CSV rows. The rows of refactoring
/// recommendations print floating-point scores: the caller renders them and
/// they are placed, in order, after the complexity rows.
pub fn generate_csv_report(result: &JsonValue, refactoring_rows: Vec<String>) -> (content: String)
    ensures
        content@ == csv_report_spec(json_view(*result), string_views(refactoring_rows@)),
{
    let mut rows: Vec<String> = Vec::new();
    match result.get("complexity") {
        Some(complexity) => append_rows(&mut rows, extract_complexity_csv_rows(complexity)),
        None => {},
    }
    let ghost r1 = string_views(rows@);
    let ghost given = string_views(refactoring_rows@);
    if result.get("refactoring").is_some() {
        append_rows(&mut rows, refactoring_rows);
    }
    let ghost r2 = string_views(rows@);
    match result.get("structure") {
        Some(structure) => append_rows(&mut rows, extract_structure_csv_rows(structure)),
        None => {},
    }
    proof {
        assert(r1 =~= (match spec_get(json_view(*result), "complexity"@) {
            Some(c) => complexity_csv_rows(c),
            None => Seq::<Seq<char>>::empty(),
        }));
        assert(string_views(rows@) =~= csv_rows(json_view(*result), given));
    }
    let mut content = to_owned_string("File,Issue Type,Severity,Description,Line,Impact,Effort\n");
    if rows.len() == 0 {
        push_str(&mut content, "\"No issues found\",\"Info\",\"Info\",\"Code quality is excellent\",0,\"\",\"\"\n");
    } else {
        let ghost head = content@;
        let mut i: usize = 0;
        while i < rows.len()
            invariant
                0 <= i <= rows.len(),
                content@ == head + concat_rows(string_views(rows@).take(i as int)),
            decreases rows.len() - i,
        {
            proof {
                let sv = string_views(rows@);
                assert(sv.take(i + 1).drop_last() =~= sv.take(i as int));
                assert(sv.take(i + 1).last() == rows@[i as int]@);
            }
            push_str(&mut content, rows[i].as_str());
            i += 1;
        }
        proof {
            assert(string_views(rows@).take(rows.len() as int) =~= string_views(rows@));
        }
    }
    proof {
        assert(content@ =~= csv_report_spec(json_view(*result), given));
    }
    content
}

} // verus!
