//! Settings of the documentation audit: configuration file, command line and
//! ignore lists.

use vstd::prelude::*;
use crate::args::DocAuditArgs;
use crate::config::{clone_opt_string, strings_view};
use crate::format::DocAuditFormat;
use crate::text::{is_blank, is_blank_str, str_eq, to_owned_string};

verus! {

/// Optional YAML configuration for the standalone doc-audit command.
#[derive(Clone, Debug, PartialEq)]
pub struct DocAuditConfigFile {
    pub root: Option<String>,
    pub complexity_threshold: Option<usize>,
    pub max_readme_commits: Option<usize>,
    pub ignore_dir: Vec<String>,
    pub ignore_suffix: Vec<String>,
    pub ignore: Vec<String>,
}

/// The audit settings: thresholds, and what to skip. Directory names and
/// suffixes form sets; glob patterns keep their order.
#[derive(Clone, Debug, PartialEq)]
pub struct DocAuditConfig {
    pub root: String,
    pub complexity_threshold: usize,
    pub max_readme_commits: usize,
    pub ignore_dirs: Vec<String>,
    pub ignore_suffixes: Vec<String>,
    pub ignore_globs: Vec<String>,
}

/// The non-blank strings of a list, as a set.
pub open spec fn nonblank_set(items: Seq<Seq<char>>) -> Set<Seq<char>> {
    Set::new(|s: Seq<char>| items.contains(s) && !is_blank(s))
}

/// The non-blank strings of a list, in order.
pub open spec fn nonblank_seq(items: Seq<Seq<char>>) -> Seq<Seq<char>>
    decreases items.len(),
{
    if items.len() == 0 {
        Seq::empty()
    } else if is_blank(items.last()) {
        nonblank_seq(items.drop_last())
    } else {
        nonblank_seq(items.drop_last()).push(items.last())
    }
}

impl DocAuditConfig {
    /// Settings for `root` with the given thresholds and ignore lists.
    pub fn new(root: String, complexity_threshold: usize, max_readme_commits: usize,
        ignore_dirs: Vec<String>, ignore_suffixes: Vec<String>, ignore_globs: Vec<String>) -> (c: Self)
        ensures
            c.root == root,
            c.complexity_threshold == complexity_threshold,
            c.max_readme_commits == max_readme_commits,
            c.ignored_dirs() == strings_view(ignore_dirs@).to_set(),
            c.ignored_suffixes() == strings_view(ignore_suffixes@).to_set(),
            c.ignore_globs == ignore_globs,
    {
        let mut dirs: Vec<String> = Vec::new();
        insert_all(&mut dirs, ignore_dirs, false);
        let mut suffixes: Vec<String> = Vec::new();
        insert_all(&mut suffixes, ignore_suffixes, false);
        let c = DocAuditConfig {
            root,
            complexity_threshold,
            max_readme_commits,
            ignore_dirs: dirs,
            ignore_suffixes: suffixes,
            ignore_globs,
        };
        c
    }

    /// Directory names to skip.
    pub open spec fn ignored_dirs(&self) -> Set<Seq<char>> {
        strings_view(self.ignore_dirs@).to_set()
    }

    /// File suffixes to skip.
    pub open spec fn ignored_suffixes(&self) -> Set<Seq<char>> {
        strings_view(self.ignore_suffixes@).to_set()
    }

    /// The directory names to skip.
    pub fn ignore_dirs(&self) -> (v: &Vec<String>)
        ensures
            strings_view(v@).to_set() == self.ignored_dirs(),
    {
        &self.ignore_dirs
    }

    /// The suffixes to skip.
    pub fn ignore_suffixes(&self) -> (v: &Vec<String>)
        ensures
            strings_view(v@).to_set() == self.ignored_suffixes(),
    {
        &self.ignore_suffixes
    }
}

pub(crate) fn contains_string(v: &Vec<String>, s: &str) -> (res: bool)
    ensures
        res == strings_view(v@).contains(s@),
{
    let mut i: usize = 0;
    while i < v.len()
        invariant
            0 <= i <= v.len(),
            forall|j: int| 0 <= j < i ==> v@[j]@ != s@,
        decreases v.len() - i,
    {
        if str_eq(v[i].as_str(), s) {
            assert(strings_view(v@)[i as int] == s@);
            return true;
        }
        i += 1;
    }
    assert forall|j: int| 0 <= j < strings_view(v@).len() implies strings_view(v@)[j] != s@ by {
        assert(strings_view(v@)[j] == v@[j]@);
    }
    false
}

/// Adds each item (the non-blank ones when `skip_blank`) that the list does
/// not hold yet.
fn insert_all(set: &mut Vec<String>, items: Vec<String>, skip_blank: bool)
    ensures
        strings_view(final(set)@).to_set() == strings_view(old(set)@).to_set().union(
            if skip_blank { nonblank_set(strings_view(items@)) } else { strings_view(items@).to_set() }),
{
    let ghost start = strings_view(set@).to_set();
    let ghost iv = strings_view(items@);
    let mut i: usize = 0;
    proof {
        assert(added_upto(iv, 0, skip_blank) =~= Set::empty());
        assert(start.union(Set::empty()) =~= start);
    }
    while i < items.len()
        invariant
            0 <= i <= items.len(),
            iv == strings_view(items@),
            strings_view(set@).to_set() == start.union(added_upto(iv, i as int, skip_blank)),
        decreases items.len() - i,
    {
        let ghost before = strings_view(set@);
        let item = items[i].as_str();
        let keep = !skip_blank || !is_blank_str(item);
        let ghost x = item@;
        proof {
            assert(iv[i as int] == x);
            lemma_added_step(iv, i as int, skip_blank);
        }
        if keep && !contains_string(set, item) {
            set.push(items[i].clone());
            proof {
                assert(strings_view(set@) =~= before.push(x));
                lemma_push_to_set(before, x);
            }
        }
        proof {
            if keep {
                assert(strings_view(set@).to_set() =~= before.to_set().insert(x)) by {
                    if before.contains(x) {
                        assert(strings_view(set@) == before);
                        assert(before.to_set().insert(x) =~= before.to_set());
                    }
                }
                assert(start.union(added_upto(iv, i + 1, skip_blank))
                    =~= start.union(added_upto(iv, i as int, skip_blank)).insert(x));
            } else {
                assert(added_upto(iv, i + 1, skip_blank) =~= added_upto(iv, i as int, skip_blank));
            }
        }
        i += 1;
    }
    proof {
        if skip_blank {
            assert(added_upto(iv, items.len() as int, skip_blank) =~= nonblank_set(iv));
        } else {
            assert(added_upto(iv, items.len() as int, skip_blank) =~= iv.to_set());
        }
    }
}

/// The items among the first `n` that are added (all, or the non-blank ones).
spec fn added_upto(iv: Seq<Seq<char>>, n: int, skip_blank: bool) -> Set<Seq<char>> {
    Set::new(|s: Seq<char>| exists|j: int| 0 <= j < n && iv[j] == s && (!skip_blank || !is_blank(s)))
}

proof fn lemma_added_step(iv: Seq<Seq<char>>, i: int, skip_blank: bool)
    requires
        0 <= i < iv.len(),
    ensures
        added_upto(iv, i + 1, skip_blank) == if !skip_blank || !is_blank(iv[i]) {
            added_upto(iv, i, skip_blank).insert(iv[i])
        } else {
            added_upto(iv, i, skip_blank)
        },
{
    let a = added_upto(iv, i + 1, skip_blank);
    let b = added_upto(iv, i, skip_blank);
    if !skip_blank || !is_blank(iv[i]) {
        assert forall|s: Seq<char>| a.contains(s) <==> b.insert(iv[i]).contains(s) by {
            if s == iv[i] {
                assert(iv[i] == s);
            }
        }
        assert(a =~= b.insert(iv[i]));
    } else {
        assert forall|s: Seq<char>| a.contains(s) <==> b.contains(s) by {
            if a.contains(s) {
                let j = choose|j: int| 0 <= j < i + 1 && iv[j] == s && (!skip_blank || !is_blank(s));
                assert(j != i);
            }
        }
        assert(a =~= b);
    }
}

proof fn lemma_push_to_set(s: Seq<Seq<char>>, x: Seq<char>)
    ensures
        s.push(x).to_set() == s.to_set().insert(x),
{
    assert forall|y: Seq<char>| s.push(x).to_set().contains(y) <==> s.to_set().insert(x).contains(y) by {
        if s.push(x).contains(y) && y != x {
            let k = choose|k: int| 0 <= k < s.push(x).len() && s.push(x)[k] == y;
            assert(k < s.len());
            assert(s[k] == y);
        }
        if s.contains(y) {
            let k = choose|k: int| 0 <= k < s.len() && s[k] == y;
            assert(s.push(x)[k] == y);
        }
        if y == x {
            assert(s.push(x)[s.len() as int] == x);
        }
    }
    assert(s.push(x).to_set() =~= s.to_set().insert(x));
}

/// Extend a set with non-empty trimmed strings.
pub fn extend_ignore_set(config: &mut DocAuditConfig, dirs: bool, items: Vec<String>)
    ensures
        dirs ==> final(config).ignored_dirs() == old(config).ignored_dirs().union(nonblank_set(strings_view(items@))),
        dirs ==> final(config).ignored_suffixes() == old(config).ignored_suffixes(),
        !dirs ==> final(config).ignored_suffixes() == old(config).ignored_suffixes().union(nonblank_set(strings_view(items@))),
        !dirs ==> final(config).ignored_dirs() == old(config).ignored_dirs(),
        final(config).root == old(config).root,
        final(config).complexity_threshold == old(config).complexity_threshold,
        final(config).max_readme_commits == old(config).max_readme_commits,
        final(config).ignore_globs == old(config).ignore_globs,
{
    if dirs {
        insert_all(&mut config.ignore_dirs, items, true);
    } else {
        insert_all(&mut config.ignore_suffixes, items, true);
    }
}

/// Extend a list with non-empty trimmed strings, in order.
pub fn extend_ignore_vec(vec: &mut Vec<String>, items: Vec<String>)
    ensures
        strings_view(final(vec)@) == strings_view(old(vec)@) + nonblank_seq(strings_view(items@)),
{
    let ghost start = strings_view(vec@);
    let ghost iv = strings_view(items@);
    let mut i: usize = 0;
    proof {
        assert(iv.take(0) =~= Seq::<Seq<char>>::empty());
        assert(start + nonblank_seq(iv.take(0)) =~= start);
    }
    while i < items.len()
        invariant
            0 <= i <= items.len(),
            iv == strings_view(items@),
            strings_view(vec@) == start + nonblank_seq(iv.take(i as int)),
        decreases items.len() - i,
    {
        let ghost before = strings_view(vec@);
        proof {
            assert(iv.take(i + 1).drop_last() =~= iv.take(i as int));
            assert(iv.take(i + 1).last() == items@[i as int]@);
        }
        if !is_blank_str(items[i].as_str()) {
            vec.push(items[i].clone());
            assert(nonblank_seq(iv.take(i + 1)) == nonblank_seq(iv.take(i as int)).push(iv[i as int]));
            assert(strings_view(vec@) =~= before.push(iv[i as int]));
            assert(strings_view(vec@) =~= start + nonblank_seq(iv.take(i + 1)));
        } else {
            assert(nonblank_seq(iv.take(i + 1)) == nonblank_seq(iv.take(i as int)));
        }
        i += 1;
    }
    assert(iv.take(items.len() as int) =~= iv);
}

/// Apply file config settings to doc audit config.
pub fn apply_file_config_to_doc_audit(config: &mut DocAuditConfig, file_cfg: DocAuditConfigFile)
    ensures
        final(config).complexity_threshold == match file_cfg.complexity_threshold {
            Some(t) => t,
            None => old(config).complexity_threshold,
        },
        final(config).max_readme_commits == match file_cfg.max_readme_commits {
            Some(c) => c,
            None => old(config).max_readme_commits,
        },
        final(config).ignored_dirs() == old(config).ignored_dirs().union(nonblank_set(strings_view(file_cfg.ignore_dir@))),
        final(config).ignored_suffixes() == old(config).ignored_suffixes().union(nonblank_set(strings_view(file_cfg.ignore_suffix@))),
        strings_view(final(config).ignore_globs@) == strings_view(old(config).ignore_globs@) + nonblank_seq(strings_view(file_cfg.ignore@)),
        final(config).root == old(config).root,
{
    if let Some(threshold) = file_cfg.complexity_threshold {
        config.complexity_threshold = threshold;
    }
    if let Some(commits) = file_cfg.max_readme_commits {
        config.max_readme_commits = commits;
    }
    extend_ignore_set(config, true, file_cfg.ignore_dir);
    extend_ignore_set(config, false, file_cfg.ignore_suffix);
    extend_ignore_vec(&mut config.ignore_globs, file_cfg.ignore);
}

/// A copy of a list of strings.
fn copy_strings(v: &Vec<String>) -> (res: Vec<String>)
    ensures
        res@ == v@,
{
    crate::config::clone_strings(v)
}

/// Apply CLI ignore arguments to doc audit config.
pub fn apply_cli_ignores_to_doc_audit(config: &mut DocAuditConfig, ignore_dir: &Vec<String>,
    ignore_suffix: &Vec<String>, ignore: &Vec<String>)
    ensures
        final(config).ignored_dirs() == old(config).ignored_dirs().union(nonblank_set(strings_view(ignore_dir@))),
        final(config).ignored_suffixes() == old(config).ignored_suffixes().union(nonblank_set(strings_view(ignore_suffix@))),
        strings_view(final(config).ignore_globs@) == strings_view(old(config).ignore_globs@) + nonblank_seq(strings_view(ignore@)),
        final(config).root == old(config).root,
        final(config).complexity_threshold == old(config).complexity_threshold,
        final(config).max_readme_commits == old(config).max_readme_commits,
{
    extend_ignore_set(config, true, copy_strings(ignore_dir));
    extend_ignore_set(config, false, copy_strings(ignore_suffix));
    extend_ignore_vec(&mut config.ignore_globs, copy_strings(ignore));
}

/// Choose the audit configuration file: the explicit path, else the first of
/// `.valknut.docaudit.yml` and `.valknut.docaudit.yaml` that exists.
pub fn find_doc_audit_config_file(explicit_path: &Option<String>, yml_exists: bool, yaml_exists: bool) -> (res: Option<String>)
    ensures
        match *explicit_path {
            Some(p) => res == Some(p),
            None => if yml_exists {
                res matches Some(p) && p@ == ".valknut.docaudit.yml"@
            } else if yaml_exists {
                res matches Some(p) && p@ == ".valknut.docaudit.yaml"@
            } else {
                res is None
            },
        },
{
    match explicit_path {
        Some(p) => Some(p.clone()),
        None => {
            if yml_exists {
                Some(to_owned_string(".valknut.docaudit.yml"))
            } else if yaml_exists {
                Some(to_owned_string(".valknut.docaudit.yaml"))
            } else {
                None
            }
        },
    }
}

/// The audit root before it is checked on disk: the CLI root unless it is
/// ".", else the root of the configuration file, else ".".
pub fn doc_audit_root_override(cli_root: &str, file_root: &Option<String>) -> (res: String)
    ensures
        res@ == if cli_root@ != "."@ {
            cli_root@
        } else {
            match *file_root {
                Some(r) => r@,
                None => cli_root@,
            }
        },
{
    if !str_eq(cli_root, ".") {
        to_owned_string(cli_root)
    } else {
        match file_root {
            Some(r) => r.clone(),
            None => to_owned_string(cli_root),
        }
    }
}

/// Layer the audit settings: the file's settings over `config`, then the
/// thresholds and ignore lists of the command line.
pub fn layer_doc_audit_settings(config: &mut DocAuditConfig, file_cfg: Option<DocAuditConfigFile>, args: &DocAuditArgs)
    ensures
        final(config).complexity_threshold == args.complexity_threshold,
        final(config).max_readme_commits == args.max_readme_commits,
        nonblank_set(strings_view(args.ignore_dir@)) <= final(config).ignored_dirs(),
        nonblank_set(strings_view(args.ignore_suffix@)) <= final(config).ignored_suffixes(),
        old(config).ignored_dirs() <= final(config).ignored_dirs(),
        old(config).ignored_suffixes() <= final(config).ignored_suffixes(),
        final(config).root == old(config).root,
{
    if let Some(file) = file_cfg {
        apply_file_config_to_doc_audit(config, file);
    }
    config.complexity_threshold = args.complexity_threshold;
    config.max_readme_commits = args.max_readme_commits;
    apply_cli_ignores_to_doc_audit(config, &args.ignore_dir, &args.ignore_suffix, &args.ignore);
}

/// The command's outcome: strict mode fails when the audit found issues.
pub fn doc_audit_outcome(strict: bool, has_issues: bool) -> (res: Result<(), String>)
    ensures
        res is Err <==> (strict && has_issues),
        res matches Err(m) ==> m@ == "Documentation audit found issues"@,
{
    if strict && has_issues {
        Err(to_owned_string("Documentation audit found issues"))
    } else {
        Ok(())
    }
}

/// Audit arguments for `root` with the widest thresholds and no filters.
pub fn create_doc_args(root: String) -> (args: DocAuditArgs)
    ensures
        args.root == root,
        args.complexity_threshold == usize::MAX,
        args.max_readme_commits == usize::MAX,
        !args.strict,
        args.format == DocAuditFormat::Text,
        args.ignore_dir@.len() == 0,
        args.ignore_suffix@.len() == 0,
        args.ignore@.len() == 0,
        args.config is None,
{
    DocAuditArgs {
        root,
        complexity_threshold: usize::MAX,
        max_readme_commits: usize::MAX,
        strict: false,
        format: DocAuditFormat::Text,
        ignore_dir: Vec::new(),
        ignore_suffix: Vec::new(),
        ignore: Vec::new(),
        config: None,
    }
}

} // verus!
