//! Command-line argument values, as plain data.
//!
//! The parser itself lives in the front end; these types hold what the
//! parsed options mean. Paths are kept as strings. Floating-point options
//! (similarity weights and score thresholds) are not held here: the front end
//! applies them itself.

use vstd::prelude::*;
use crate::format::{DocAuditFormat, OutputFormat, PerformanceProfile};
use crate::text::{push_str, to_owned_string};

verus! {

/// Documentation audit configuration options.
#[derive(Clone, Debug, PartialEq)]
pub struct DocAuditArgs {
    /// Project root to scan (defaults to current directory)
    pub root: String,
    /// Require READMEs for directories above this descendant threshold
    pub complexity_threshold: usize,
    /// Mark README as stale after this many commits touch the directory
    pub max_readme_commits: usize,
    /// Exit with non-zero status when any issues are detected
    pub strict: bool,
    /// Output format for audit results
    pub format: DocAuditFormat,
    /// Additional directory names to ignore (repeatable)
    pub ignore_dir: Vec<String>,
    /// Additional file suffixes to ignore (repeatable)
    pub ignore_suffix: Vec<String>,
    /// Additional glob patterns to ignore (repeatable)
    pub ignore: Vec<String>,
    /// Explicit audit configuration file
    pub config: Option<String>,
}

/// Coverage analysis configuration.
#[derive(Clone, Debug, PartialEq)]
pub struct CoverageArgs {
    /// Disable coverage analysis
    pub no_coverage: bool,
    /// Specific coverage file to use (overrides auto-discovery)
    pub coverage_file: Option<String>,
    /// Disable automatic coverage file discovery
    pub no_coverage_auto_discover: bool,
    /// Maximum age of coverage files in days
    pub coverage_max_age_days: Option<u32>,
}

/// Analysis module enable/disable flags.
#[derive(Clone, Debug, PartialEq)]
pub struct AnalysisControlArgs {
    pub no_complexity: bool,
    pub no_structure: bool,
    pub no_refactoring: bool,
    pub no_impact: bool,
    pub no_lsh: bool,
}

/// AI-powered analysis features.
#[derive(Clone, Debug, PartialEq)]
pub struct AIFeaturesArgs {
    /// Enable the refactoring oracle
    pub oracle: bool,
    /// Maximum tokens to send to the refactoring oracle
    pub oracle_max_tokens: Option<usize>,
}

/// Switches and counts of the quality gate options.
#[derive(Clone, Debug, PartialEq)]
pub struct QualityGateArgs {
    pub quality_gate: bool,
    pub fail_on_issues: bool,
    pub max_issues: Option<usize>,
    pub max_critical: Option<usize>,
    pub max_high_priority: Option<usize>,
}

/// Clone detection switches and token counts.
#[derive(Clone, Debug, PartialEq)]
pub struct CloneDetectionArgs {
    pub semantic_clones: bool,
    pub strict_dedupe: bool,
    pub denoise: bool,
    pub min_function_tokens: Option<usize>,
    pub min_match_tokens: Option<usize>,
    pub require_blocks: Option<usize>,
    pub denoise_dry_run: bool,
}

/// Advanced clone detection switches and counts.
#[derive(Clone, Debug, PartialEq)]
pub struct AdvancedCloneArgs {
    pub no_auto: bool,
    pub loose_sweep: bool,
    pub rarity_weighting: bool,
    pub structural_validation: bool,
    pub apted_verify: bool,
    pub apted_max_nodes: Option<usize>,
    pub apted_max_pairs: Option<usize>,
    pub no_apted_verify: bool,
    pub live_reach_boost: bool,
    pub sample_size: Option<usize>,
    pub min_saved_tokens: Option<usize>,
}

/// Options of the `analyze` command.
#[derive(Clone, Debug, PartialEq)]
pub struct AnalyzeArgs {
    pub paths: Vec<String>,
    pub config: Option<String>,
    pub out: String,
    pub format: OutputFormat,
    pub quiet: bool,
    pub profile: PerformanceProfile,
    pub quality_gate: QualityGateArgs,
    pub clone_detection: CloneDetectionArgs,
    pub advanced_clone: AdvancedCloneArgs,
    pub coverage: CoverageArgs,
    pub analysis_control: AnalysisControlArgs,
    pub ai_features: AIFeaturesArgs,
}

/// Options of the `init-config` command.
#[derive(Clone, Debug, PartialEq)]
pub struct InitConfigArgs {
    /// Output configuration file name
    pub output: String,
    /// Overwrite existing configuration file
    pub force: bool,
}

/// Options of the `validate-config` command.
#[derive(Clone, Debug, PartialEq)]
pub struct ValidateConfigArgs {
    /// Path to configuration file to validate
    pub config: String,
    /// Show detailed configuration breakdown
    pub verbose: bool,
}

/// Options of the `mcp-stdio` command.
#[derive(Clone, Debug, PartialEq)]
pub struct McpStdioArgs {
    /// Configuration file
    pub config: Option<String>,
}

/// Options of the `mcp-manifest` command.
#[derive(Clone, Debug, PartialEq)]
pub struct McpManifestArgs {
    /// Output file (default: stdout)
    pub output: Option<String>,
}

impl AnalyzeArgs {
    /// Whether the requested format is machine readable.
    pub fn has_machine_readable_format(&self) -> (res: bool)
        ensures
            res == crate::format::spec_machine_readable(self.format),
    {
        self.format.is_machine_readable()
    }
}

/// Quiet output: asked for, or implied by a machine-readable format.
pub fn is_quiet(args: &AnalyzeArgs) -> (res: bool)
    ensures
        res == (args.quiet || crate::format::spec_machine_readable(args.format)),
{
    args.quiet || args.has_machine_readable_format()
}

/// The refusal to overwrite an existing configuration file.
pub open spec fn existing_config_message(output: Seq<char>) -> Seq<char> {
    "Configuration file already exists: "@ + output
        + ". Use --force to overwrite or choose a different name with --output"@
}

/// Whether `init-config` may write `output`: it refuses an existing file
/// unless `--force` is given.
pub fn init_config_guard(output: &str, exists: bool, force: bool) -> (res: Result<(), String>)
    ensures
        res is Err <==> (exists && !force),
        res matches Err(m) ==> m@ == existing_config_message(output@),
{
    if exists && !force {
        let mut m = to_owned_string("Configuration file already exists: ");
        push_str(&mut m, output);
        push_str(&mut m, ". Use --force to overwrite or choose a different name with --output");
        Err(m)
    } else {
        Ok(())
    }
}

/// The index of the first path that does not exist, if any.
pub open spec fn first_missing(exists: Seq<bool>) -> Option<int>
    decreases exists.len(),
{
    if exists.len() == 0 {
        None
    } else {
        match first_missing(exists.drop_last()) {
            Some(i) => Some(i),
            None => if !exists.last() { Some(exists.len() - 1) } else { None },
        }
    }
}

/// The outcome of checking the input paths, given which of them exist: the
/// first missing one is reported, an empty list is refused, else all paths
/// are kept in order.
pub open spec fn validate_paths_spec(paths: Seq<Seq<char>>, exists: Seq<bool>) -> Result<Seq<Seq<char>>, Seq<char>> {
    match first_missing(exists) {
        Some(i) => Err("Path does not exist: "@ + paths[i]),
        None => if paths.len() == 0 {
            Err("No valid paths provided"@)
        } else {
            Ok(paths)
        },
    }
}

/// Validate that all input paths exist and return them; `exists[i]` tells
/// whether `paths[i]` exists on disk.
pub fn validate_input_paths(paths: &Vec<String>, exists: &Vec<bool>) -> (res: Result<Vec<String>, String>)
    requires
        exists.len() == paths.len(),
    ensures
        match res {
            Ok(v) => validate_paths_spec(paths@.map_values(|p: String| p@), exists@)
                == Ok::<Seq<Seq<char>>, Seq<char>>(v@.map_values(|p: String| p@)),
            Err(e) => validate_paths_spec(paths@.map_values(|p: String| p@), exists@)
                == Err::<Seq<Seq<char>>, Seq<char>>(e@),
        },
{
    let ghost pv = paths@.map_values(|p: String| p@);
    let mut valid_paths: Vec<String> = Vec::new();
    let mut i: usize = 0;
    while i < paths.len()
        invariant
            0 <= i <= paths.len(),
            exists.len() == paths.len(),
            pv == paths@.map_values(|p: String| p@),
            first_missing(exists@.take(i as int)) is None,
            valid_paths@.map_values(|p: String| p@) == pv.take(i as int),
        decreases paths.len() - i,
    {
        proof {
            assert(exists@.take(i + 1).drop_last() =~= exists@.take(i as int));
            assert(exists@.take(i + 1).last() == exists@[i as int]);
        }
        if exists[i] {
            let p = paths[i].clone();
            let ghost before = valid_paths@;
            assert(p@ == pv[i as int]);
            valid_paths.push(p);
            assert(valid_paths@ == before.push(p));
            assert(pv.take(i + 1) =~= pv.take(i as int).push(pv[i as int]));
            assert(valid_paths@.map_values(|p: String| p@) =~= before.map_values(|p: String| p@).push(p@));
        } else {
            let mut message = to_owned_string("Path does not exist: ");
            push_str(&mut message, paths[i].as_str());
            proof {
                assert(first_missing(exists@.take(i + 1)) == Some(i as int));
                lemma_first_missing_prefix(exists@, (i + 1) as int);
            }
            return Err(message);
        }
        i += 1;
    }
    proof {
        assert(exists@.take(paths.len() as int) =~= exists@);
        assert(pv.take(paths.len() as int) =~= pv);
    }
    if valid_paths.len() == 0 {
        return Err(to_owned_string("No valid paths provided"));
    }
    Ok(valid_paths)
}

/// A missing path found in a prefix is the first missing path of the whole
/// list.
proof fn lemma_first_missing_prefix(exists: Seq<bool>, n: int)
    requires
        0 <= n <= exists.len(),
        first_missing(exists.take(n)) is Some,
    ensures
        first_missing(exists) == first_missing(exists.take(n)),
    decreases exists.len() - n,
{
    if n < exists.len() {
        assert(exists.take(n + 1).drop_last() =~= exists.take(n));
        lemma_first_missing_prefix(exists, n + 1);
    } else {
        assert(exists.take(n) =~= exists);
    }
}

} // verus!
