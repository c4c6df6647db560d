//! The run overview printed before an analysis: targets, enabled analyses
//! and the coverage status.

use vstd::prelude::*;
use crate::config::{AnalysisSettings, ValknutConfig};
use crate::report::csv::{join, string_views};
use crate::text::{decimal, push_decimal, push_str, to_owned_string};

verus! {

/// The analyses a configuration enables, in display order.
pub open spec fn enabled_analyses_spec(a: AnalysisSettings) -> Seq<Seq<char>> {
    (if a.enable_scoring { seq!["scoring"@] } else { Seq::empty() })
        + (if a.enable_structure_analysis { seq!["structure"@] } else { Seq::empty() })
        + (if a.enable_refactoring_analysis { seq!["refactoring"@] } else { Seq::empty() })
        + (if a.enable_graph_analysis { seq!["impact"@] } else { Seq::empty() })
        + (if a.enable_lsh_analysis { seq!["clones"@] } else { Seq::empty() })
        + (if a.enable_coverage_analysis { seq!["coverage"@] } else { Seq::empty() })
}

fn push_if(names: &mut Vec<String>, on: bool, name: &str)
    ensures
        string_views(final(names)@) == string_views(old(names)@) + (if on { seq![name@] } else { Seq::empty() }),
{
    if on {
        names.push(to_owned_string(name));
    }
    assert(string_views(names@) =~= string_views(old(names)@) + (if on { seq![name@] } else { Seq::empty() }));
}

/// Collect names of enabled analyses.
pub fn collect_enabled_analyses(a: &AnalysisSettings) -> (names: Vec<String>)
    ensures
        string_views(names@) == enabled_analyses_spec(*a),
{
    let mut names: Vec<String> = Vec::new();
    assert(string_views(names@) =~= Seq::<Seq<char>>::empty());
    push_if(&mut names, a.enable_scoring, "scoring");
    push_if(&mut names, a.enable_structure_analysis, "structure");
    push_if(&mut names, a.enable_refactoring_analysis, "refactoring");
    push_if(&mut names, a.enable_graph_analysis, "impact");
    push_if(&mut names, a.enable_lsh_analysis, "clones");
    push_if(&mut names, a.enable_coverage_analysis, "coverage");
    assert(string_views(names@) =~= enabled_analyses_spec(*a));
    names
}

/// The `Analyses:` line's list: the names joined by `, `, or `none`.
pub open spec fn analyses_summary_spec(a: AnalysisSettings) -> Seq<char> {
    if enabled_analyses_spec(a).len() == 0 { "none"@ } else { join(enabled_analyses_spec(a), ", "@) }
}

/// The list of enabled analyses for the run overview.
pub fn enabled_analyses_summary(a: &AnalysisSettings) -> (text: String)
    ensures
        text@ == analyses_summary_spec(*a),
{
    let names = collect_enabled_analyses(a);
    if names.len() == 0 {
        return to_owned_string("none");
    }
    let ghost parts = string_views(names@);
    let mut text = String::new();
    let mut i: usize = 0;
    while i < names.len()
        invariant
            0 <= i <= names.len(),
            parts == string_views(names@),
            text@ == join(parts.take(i as int), ", "@),
        decreases names.len() - i,
    {
        let ghost before = parts.take(i as int);
        if i > 0 {
            push_str(&mut text, ", ");
        }
        push_str(&mut text, names[i].as_str());
        proof {
            let t = parts.take(i + 1);
            assert(t.drop_last() =~= before);
            assert(t.last() == names@[i as int]@);
            if i == 0 {
                assert(t.len() == 1);
                assert(text@ =~= t[0]);
            } else {
                assert(text@ =~= join(before, ", "@) + ", "@ + t.last());
            }
        }
        i += 1;
    }
    proof {
        assert(parts.take(names.len() as int) =~= parts);
    }
    text
}

/// The targets of a run: `-` for none, the path for one, else the first
/// path and how many more follow.
pub open spec fn targets_spec(paths: Seq<Seq<char>>) -> Seq<char> {
    if paths.len() == 0 {
        "-"@
    } else if paths.len() == 1 {
        paths[0]
    } else {
        paths[0] + " (+"@ + decimal((paths.len() - 1) as nat) + " more)"@
    }
}

/// The targets of a run, for the overview.
pub fn run_targets(paths: &Vec<String>) -> (text: String)
    ensures
        text@ == targets_spec(string_views(paths@)),
{
    proof {
        reveal_strlit("-");
    }
    if paths.len() == 0 {
        to_owned_string("-")
    } else if paths.len() == 1 {
        to_owned_string(paths[0].as_str())
    } else {
        let mut text = to_owned_string(paths[0].as_str());
        push_str(&mut text, " (+");
        push_decimal(&mut text, (paths.len() - 1) as u64);
        push_str(&mut text, " more)");
        text
    }
}

/// The coverage status of a run: off, the coverage file given on the
/// command line, automatic discovery with its limits, or manual.
pub open spec fn coverage_status_spec(config: ValknutConfig, coverage_file: Option<Seq<char>>, patterns: usize) -> Seq<char> {
    if !config.analysis.enable_coverage_analysis {
        "off"@
    } else {
        match coverage_file {
            Some(f) => "on (file "@ + f + ")"@,
            None => if config.coverage.auto_discover {
                "on (auto, max age "@ + decimal(config.coverage.max_age_days as nat) + "d, "@
                    + decimal(patterns as nat) + " patterns)"@
            } else {
                "on (manual)"@
            },
        }
    }
}

/// Returns a human-readable coverage status string for display;
/// `coverage_file` is the file given on the command line and `patterns` the
/// number of coverage file patterns of the configuration.
pub fn coverage_status(config: &ValknutConfig, coverage_file: Option<&str>, patterns: usize) -> (text: String)
    ensures
        text@ == coverage_status_spec(*config, crate::text::opt_str_view(coverage_file), patterns),
{
    proof {
        reveal_strlit(")");
    }
    if !config.analysis.enable_coverage_analysis {
        return to_owned_string("off");
    }
    match coverage_file {
        Some(f) => {
            let mut text = to_owned_string("on (file ");
            push_str(&mut text, f);
            push_str(&mut text, ")");
            text
        },
        None => {
            if config.coverage.auto_discover {
                let mut text = to_owned_string("on (auto, max age ");
                push_decimal(&mut text, config.coverage.max_age_days as u64);
                push_str(&mut text, "d, ");
                push_decimal(&mut text, patterns as u64);
                push_str(&mut text, " patterns)");
                text
            } else {
                to_owned_string("on (manual)")
            }
        },
    }
}

/// The file limit as the overview prints it: `unlimited` for 0.
pub fn max_files_text(max_files: usize) -> (text: String)
    ensures
        text@ == if max_files == 0 { "unlimited"@ } else { decimal(max_files as nat) },
{
    if max_files == 0 {
        to_owned_string("unlimited")
    } else {
        let mut text = String::new();
        push_decimal(&mut text, max_files as u64);
        assert(text@ =~= decimal(max_files as nat));
        text
    }
}

/// A configured language: its name, whether it is enabled, and whether the
/// engine supports one of its file extensions.
#[derive(Clone, Debug, PartialEq)]
pub struct LanguageSupport {
    pub name: String,
    pub enabled: bool,
    pub supported: bool,
}

/// The names of the enabled languages that the engine does not support.
pub open spec fn unsupported_names(langs: Seq<LanguageSupport>) -> Seq<Seq<char>>
    decreases langs.len(),
{
    if langs.len() == 0 {
        Seq::empty()
    } else if langs.last().enabled && !langs.last().supported {
        unsupported_names(langs.drop_last()).push(langs.last().name@)
    } else {
        unsupported_names(langs.drop_last())
    }
}

/// The warning for configured languages that will be skipped, if any.
pub open spec fn unsupported_warning_spec(langs: Seq<LanguageSupport>) -> Option<Seq<char>> {
    if unsupported_names(langs).len() == 0 {
        None
    } else {
        Some("Languages configured but not yet supported: "@ + join(unsupported_names(langs), ", "@)
            + ". They will be skipped during analysis."@)
    }
}

/// The warning for configured languages that will be skipped, if any.
pub fn unsupported_language_warning(langs: &Vec<LanguageSupport>) -> (res: Option<String>)
    ensures
        crate::labels::opt_string_view(res) == unsupported_warning_spec(langs@),
{
    let mut text = String::new();
    let mut count: usize = 0;
    let mut i: usize = 0;
    while i < langs.len()
        invariant
            0 <= i <= langs.len(),
            count <= i,
            count == unsupported_names(langs@.take(i as int)).len(),
            text@ == join(unsupported_names(langs@.take(i as int)), ", "@),
        decreases langs.len() - i,
    {
        let ghost before = unsupported_names(langs@.take(i as int));
        proof {
            assert(langs@.take(i + 1).drop_last() =~= langs@.take(i as int));
            assert(langs@.take(i + 1).last() == langs@[i as int]);
        }
        if langs[i].enabled && !langs[i].supported {
            let ghost after = before.push(langs@[i as int].name@);
            if count > 0 {
                push_str(&mut text, ", ");
                assert(after.drop_last() =~= before);
            }
            push_str(&mut text, langs[i].name.as_str());
            proof {
                if count == 0 {
                    assert(after.len() == 1);
                    assert(text@ =~= after[0]);
                } else {
                    assert(text@ =~= join(before, ", "@) + ", "@ + after.last());
                }
            }
            count += 1;
        }
        i += 1;
    }
    proof {
        assert(langs@.take(langs.len() as int) =~= langs@);
    }
    if count == 0 {
        return None;
    }
    let mut message = to_owned_string("Languages configured but not yet supported: ");
    push_str(&mut message, text.as_str());
    push_str(&mut message, ". They will be skipped during analysis.");
    Some(message)
}

} // verus!
