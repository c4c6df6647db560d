//! Layered analysis configuration: defaults, configuration file and CLI
//! overrides, merged field by field.
//!
//! The types hold the switches, counts and paths of the analysis settings.
//! Similarity thresholds and weights are floating-point values and are merged
//! by the front end.

use vstd::prelude::*;
use crate::args::{AdvancedCloneArgs, AnalysisControlArgs, AnalyzeArgs, CoverageArgs};
use crate::format::PerformanceProfile;

verus! {

/// Merge another configuration into this one, with the other taking priority.
pub trait ConfigMerge<T> {
    /// Merge another configuration into this one, with the other taking priority
    fn merge_with(&mut self, other: T);
}

/// Create a partial configuration from CLI arguments.
pub trait FromCliArgs<T>: Sized {
    /// Create a partial configuration from CLI arguments
    fn from_cli_args(args: &T) -> Self;
}

/// The coverage-file age limit that means "not set".
pub const DEFAULT_COVERAGE_MAX_AGE_DAYS: u32 = 7;

/// Coverage discovery settings.
#[derive(Clone, Debug, PartialEq)]
pub struct CoverageConfig {
    pub coverage_file: Option<String>,
    pub auto_discover: bool,
    pub max_age_days: u32,
}

/// Coverage settings after `other` has been merged over `base`.
pub open spec fn merged_coverage(base: CoverageConfig, other: CoverageConfig) -> CoverageConfig {
    CoverageConfig {
        coverage_file: if other.coverage_file is Some { other.coverage_file } else { base.coverage_file },
        auto_discover: if !other.auto_discover { false } else { base.auto_discover },
        max_age_days: if other.max_age_days != DEFAULT_COVERAGE_MAX_AGE_DAYS {
            other.max_age_days
        } else {
            base.max_age_days
        },
    }
}

impl ConfigMerge<CoverageConfig> for CoverageConfig {
    fn merge_with(&mut self, other: CoverageConfig)
        ensures
            *final(self) == merged_coverage(*old(self), other),
    {
        if other.coverage_file.is_some() {
            self.coverage_file = other.coverage_file;
        }
        if !other.auto_discover {
            self.auto_discover = false;
        }
        if other.max_age_days != DEFAULT_COVERAGE_MAX_AGE_DAYS {
            self.max_age_days = other.max_age_days;
        }
    }
}

/// Coverage settings taken from the command line.
pub open spec fn coverage_from_args(args: CoverageArgs) -> CoverageConfig {
    CoverageConfig {
        coverage_file: args.coverage_file,
        auto_discover: !args.no_coverage_auto_discover,
        max_age_days: match args.coverage_max_age_days {
            Some(d) => d,
            None => DEFAULT_COVERAGE_MAX_AGE_DAYS,
        },
    }
}

/// A copy of an optional string.
pub fn clone_opt_string(s: &Option<String>) -> (res: Option<String>)
    ensures
        res == *s,
{
    match s {
        Some(t) => Some(t.clone()),
        None => None,
    }
}

impl FromCliArgs<AnalyzeArgs> for CoverageConfig {
    fn from_cli_args(args: &AnalyzeArgs) -> (res: Self)
        ensures
            res == coverage_from_args(args.coverage),
    {
        CoverageConfig {
            coverage_file: clone_opt_string(&args.coverage.coverage_file),
            auto_discover: !args.coverage.no_coverage_auto_discover,
            max_age_days: match args.coverage.coverage_max_age_days {
                Some(d) => d,
                None => DEFAULT_COVERAGE_MAX_AGE_DAYS,
            },
        }
    }
}

/// Auto-calibration counts of the clone denoiser.
#[derive(Clone, Debug, PartialEq)]
pub struct AutoCalibrationConfig {
    pub enabled: bool,
    pub sample_size: usize,
    pub max_iterations: usize,
}

/// Ranking settings of the clone denoiser.
#[derive(Clone, Debug, PartialEq)]
pub struct RankingConfig {
    pub min_saved_tokens: usize,
    pub live_reach_boost: bool,
}

/// Clone denoising switches and token counts.
#[derive(Clone, Debug, PartialEq)]
pub struct DenoiseConfig {
    pub enabled: bool,
    pub auto: bool,
    pub dry_run: bool,
    pub min_function_tokens: usize,
    pub min_match_tokens: usize,
    pub require_blocks: usize,
    pub auto_calibration: AutoCalibrationConfig,
    pub ranking: RankingConfig,
}

/// Default minimum function size, in tokens.
pub const DEFAULT_MIN_FUNCTION_TOKENS: usize = 40;
/// Default minimum match size, in tokens.
pub const DEFAULT_MIN_MATCH_TOKENS: usize = 24;
/// Default number of distinct blocks a match needs.
pub const DEFAULT_REQUIRE_BLOCKS: usize = 2;
/// Default auto-calibration sample size.
pub const DEFAULT_SAMPLE_SIZE: usize = 200;
/// Default auto-calibration iteration limit.
pub const DEFAULT_MAX_ITERATIONS: usize = 10;
/// Default minimum saved tokens for ranking.
pub const DEFAULT_MIN_SAVED_TOKENS: usize = 100;

/// Denoise settings after `other` has been merged over `base`: the later
/// layer's enabled switch, `auto` turned off by a layer that turns it off,
/// `dry_run` turned on by a layer that turns it on, and each count that the
/// later layer sets to other than its default.
pub open spec fn merged_denoise(base: DenoiseConfig, other: DenoiseConfig) -> DenoiseConfig {
    DenoiseConfig {
        enabled: other.enabled,
        auto: if !other.auto { false } else { base.auto },
        dry_run: if other.dry_run { true } else { base.dry_run },
        min_function_tokens: if other.min_function_tokens != DEFAULT_MIN_FUNCTION_TOKENS {
            other.min_function_tokens
        } else {
            base.min_function_tokens
        },
        min_match_tokens: if other.min_match_tokens != DEFAULT_MIN_MATCH_TOKENS {
            other.min_match_tokens
        } else {
            base.min_match_tokens
        },
        require_blocks: if other.require_blocks != DEFAULT_REQUIRE_BLOCKS {
            other.require_blocks
        } else {
            base.require_blocks
        },
        auto_calibration: AutoCalibrationConfig {
            sample_size: if other.auto_calibration.sample_size != DEFAULT_SAMPLE_SIZE {
                other.auto_calibration.sample_size
            } else {
                base.auto_calibration.sample_size
            },
            ..base.auto_calibration
        },
        ranking: RankingConfig {
            min_saved_tokens: if other.ranking.min_saved_tokens != DEFAULT_MIN_SAVED_TOKENS {
                other.ranking.min_saved_tokens
            } else {
                base.ranking.min_saved_tokens
            },
            ..base.ranking
        },
    }
}

impl ConfigMerge<DenoiseConfig> for DenoiseConfig {
    fn merge_with(&mut self, other: DenoiseConfig)
        ensures
            *final(self) == merged_denoise(*old(self), other),
    {
        self.enabled = other.enabled;
        if !other.auto {
            self.auto = false;
        }
        if other.dry_run {
            self.dry_run = true;
        }
        if other.min_function_tokens != DEFAULT_MIN_FUNCTION_TOKENS {
            self.min_function_tokens = other.min_function_tokens;
        }
        if other.min_match_tokens != DEFAULT_MIN_MATCH_TOKENS {
            self.min_match_tokens = other.min_match_tokens;
        }
        if other.require_blocks != DEFAULT_REQUIRE_BLOCKS {
            self.require_blocks = other.require_blocks;
        }
        if other.auto_calibration.sample_size != DEFAULT_SAMPLE_SIZE {
            self.auto_calibration.sample_size = other.auto_calibration.sample_size;
        }
        if other.ranking.min_saved_tokens != DEFAULT_MIN_SAVED_TOKENS {
            self.ranking.min_saved_tokens = other.ranking.min_saved_tokens;
        }
    }
}

/// The value inside an option, or a default.
pub open spec fn or_default(o: Option<usize>, d: usize) -> usize {
    match o {
        Some(v) => v,
        None => d,
    }
}

fn unwrap_or_usize(o: Option<usize>, d: usize) -> (res: usize)
    ensures
        res == or_default(o, d),
{
    match o {
        Some(v) => v,
        None => d,
    }
}

/// Denoise settings taken from the command line.
pub open spec fn denoise_from_args(args: AnalyzeArgs) -> DenoiseConfig {
    DenoiseConfig {
        enabled: args.clone_detection.denoise,
        auto: !args.advanced_clone.no_auto,
        dry_run: args.clone_detection.denoise_dry_run,
        min_function_tokens: or_default(args.clone_detection.min_function_tokens, DEFAULT_MIN_FUNCTION_TOKENS),
        min_match_tokens: or_default(args.clone_detection.min_match_tokens, DEFAULT_MIN_MATCH_TOKENS),
        require_blocks: or_default(args.clone_detection.require_blocks, DEFAULT_REQUIRE_BLOCKS),
        auto_calibration: AutoCalibrationConfig {
            enabled: !args.advanced_clone.no_auto,
            sample_size: or_default(args.advanced_clone.sample_size, DEFAULT_SAMPLE_SIZE),
            max_iterations: DEFAULT_MAX_ITERATIONS,
        },
        ranking: RankingConfig {
            min_saved_tokens: or_default(args.advanced_clone.min_saved_tokens, DEFAULT_MIN_SAVED_TOKENS),
            live_reach_boost: args.advanced_clone.live_reach_boost,
        },
    }
}

impl FromCliArgs<AnalyzeArgs> for DenoiseConfig {
    fn from_cli_args(args: &AnalyzeArgs) -> (res: Self)
        ensures
            res == denoise_from_args(*args),
    {
        DenoiseConfig {
            enabled: args.clone_detection.denoise,
            auto: !args.advanced_clone.no_auto,
            dry_run: args.clone_detection.denoise_dry_run,
            min_function_tokens: unwrap_or_usize(args.clone_detection.min_function_tokens, DEFAULT_MIN_FUNCTION_TOKENS),
            min_match_tokens: unwrap_or_usize(args.clone_detection.min_match_tokens, DEFAULT_MIN_MATCH_TOKENS),
            require_blocks: unwrap_or_usize(args.clone_detection.require_blocks, DEFAULT_REQUIRE_BLOCKS),
            auto_calibration: AutoCalibrationConfig {
                enabled: !args.advanced_clone.no_auto,
                sample_size: unwrap_or_usize(args.advanced_clone.sample_size, DEFAULT_SAMPLE_SIZE),
                max_iterations: DEFAULT_MAX_ITERATIONS,
            },
            ranking: RankingConfig {
                min_saved_tokens: unwrap_or_usize(args.advanced_clone.min_saved_tokens, DEFAULT_MIN_SAVED_TOKENS),
                live_reach_boost: args.advanced_clone.live_reach_boost,
            },
        }
    }
}

/// The coverage layer that the command line produces when no coverage option is given.
pub open spec fn neutral_coverage() -> CoverageConfig {
    CoverageConfig { coverage_file: None, auto_discover: true, max_age_days: DEFAULT_COVERAGE_MAX_AGE_DAYS }
}

/// Merging a coverage layer that sets nothing leaves the settings unchanged.
pub proof fn lemma_coverage_merge_neutral(base: CoverageConfig)
    ensures
        merged_coverage(base, neutral_coverage()) == base,
{
}

/// Merging coverage settings with themselves changes nothing.
pub proof fn lemma_coverage_merge_idempotent(c: CoverageConfig)
    ensures
        merged_coverage(c, c) == c,
{
}

/// Merging coverage layers is associative: applying `b` then `c` to `a`
/// equals applying the merge of `b` and `c` to `a`.
pub proof fn lemma_coverage_merge_associative(a: CoverageConfig, b: CoverageConfig, c: CoverageConfig)
    ensures
        merged_coverage(merged_coverage(a, b), c) == merged_coverage(a, merged_coverage(b, c)),
{
}

/// Whatever the earlier layers held, a coverage file, a disabled discovery or
/// an age limit set by the last layer is what the merged settings hold.
pub proof fn lemma_coverage_last_layer_wins(base: CoverageConfig, other: CoverageConfig)
    ensures
        other.coverage_file is Some ==> merged_coverage(base, other).coverage_file == other.coverage_file,
        !other.auto_discover ==> !merged_coverage(base, other).auto_discover,
        other.max_age_days != DEFAULT_COVERAGE_MAX_AGE_DAYS
            ==> merged_coverage(base, other).max_age_days == other.max_age_days,
{
}

/// A denoise layer that changes nothing: the base's enabled switch, and
/// every other option at the value that counts as unset.
pub open spec fn neutral_denoise(base: DenoiseConfig) -> DenoiseConfig {
    DenoiseConfig {
        enabled: base.enabled,
        auto: true,
        dry_run: false,
        min_function_tokens: DEFAULT_MIN_FUNCTION_TOKENS,
        min_match_tokens: DEFAULT_MIN_MATCH_TOKENS,
        require_blocks: DEFAULT_REQUIRE_BLOCKS,
        auto_calibration: AutoCalibrationConfig {
            enabled: base.auto_calibration.enabled,
            sample_size: DEFAULT_SAMPLE_SIZE,
            max_iterations: base.auto_calibration.max_iterations,
        },
        ranking: RankingConfig {
            min_saved_tokens: DEFAULT_MIN_SAVED_TOKENS,
            live_reach_boost: base.ranking.live_reach_boost,
        },
    }
}

/// Merging a denoise layer that keeps every default leaves the settings unchanged.
pub proof fn lemma_denoise_merge_neutral(base: DenoiseConfig)
    ensures
        merged_denoise(base, neutral_denoise(base)) == base,
{
}

/// Merging denoise settings with themselves changes nothing.
pub proof fn lemma_denoise_merge_idempotent(c: DenoiseConfig)
    ensures
        merged_denoise(c, c) == c,
{
}

/// Merging denoise layers is associative.
pub proof fn lemma_denoise_merge_associative(a: DenoiseConfig, b: DenoiseConfig, c: DenoiseConfig)
    ensures
        merged_denoise(merged_denoise(a, b), c) == merged_denoise(a, merged_denoise(b, c)),
{
}

/// The later layer decides whether denoising is on: a layer with `--denoise`
/// turns it on over a configuration file that disables it, and a layer
/// without it turns it off over a file that enables it.
pub proof fn lemma_denoise_enable_wins(base: DenoiseConfig, other: DenoiseConfig)
    ensures
        merged_denoise(base, other).enabled == other.enabled,
{
}

/// Locality-sensitive hashing and APTED verification settings.
#[derive(Clone, Debug, PartialEq)]
pub struct LshConfig {
    pub num_bands: usize,
    pub num_hashes: usize,
    pub shingle_size: usize,
    pub use_semantic_similarity: bool,
    pub verify_with_apted: bool,
    pub apted_max_nodes: usize,
    pub apted_max_pairs_per_entity: usize,
}

/// Cache and report directory settings.
#[derive(Clone, Debug, PartialEq)]
pub struct IoConfig {
    pub cache_dir: Option<String>,
    pub report_dir: Option<String>,
    pub cache_ttl_seconds: u64,
    pub enable_caching: bool,
}

/// Which analyses run.
#[derive(Clone, Debug, PartialEq)]
pub struct AnalysisSettings {
    pub enable_scoring: bool,
    pub enable_graph_analysis: bool,
    pub enable_lsh_analysis: bool,
    pub enable_refactoring_analysis: bool,
    pub enable_coverage_analysis: bool,
    pub enable_structure_analysis: bool,
    pub enable_names_analysis: bool,
    pub max_files: usize,
}

/// Structural clone deduplication counts.
#[derive(Clone, Debug, PartialEq)]
pub struct DedupeConfig {
    pub min_ast_nodes: usize,
    pub min_match_tokens: usize,
    pub rarity_weighting: bool,
}

/// The analysis configuration that the engine runs with.
#[derive(Clone, Debug, PartialEq)]
pub struct ValknutConfig {
    pub analysis: AnalysisSettings,
    pub coverage: CoverageConfig,
    pub denoise: DenoiseConfig,
    pub lsh: LshConfig,
    pub io: IoConfig,
    pub dedupe: DedupeConfig,
}

/// The configuration after the CLI layer `other` has been merged over `base`;
/// `default_lsh` holds the LSH defaults that mark an APTED limit as unset.
pub open spec fn merged_valknut(base: ValknutConfig, other: ValknutConfig, default_lsh: LshConfig) -> ValknutConfig {
    ValknutConfig {
        coverage: merged_coverage(base.coverage, other.coverage),
        denoise: merged_denoise(base.denoise, other.denoise),
        io: IoConfig {
            cache_dir: if other.io.cache_dir is Some { other.io.cache_dir } else { base.io.cache_dir },
            report_dir: if other.io.report_dir is Some { other.io.report_dir } else { base.io.report_dir },
            cache_ttl_seconds: other.io.cache_ttl_seconds,
            enable_caching: other.io.enable_caching,
        },
        lsh: LshConfig {
            verify_with_apted: other.lsh.verify_with_apted,
            apted_max_nodes: if other.lsh.apted_max_nodes != default_lsh.apted_max_nodes {
                other.lsh.apted_max_nodes
            } else {
                base.lsh.apted_max_nodes
            },
            apted_max_pairs_per_entity: if other.lsh.apted_max_pairs_per_entity
                != default_lsh.apted_max_pairs_per_entity {
                other.lsh.apted_max_pairs_per_entity
            } else {
                base.lsh.apted_max_pairs_per_entity
            },
            ..base.lsh
        },
        ..base
    }
}

impl ValknutConfig {
    /// Merge a CLI override layer into this configuration (the layer takes
    /// priority); `default_lsh` is the engine's default LSH setting, against
    /// which the APTED limits count as set or unset.
    pub fn merge_layer(&mut self, other: ValknutConfig, default_lsh: &LshConfig)
        ensures
            *final(self) == merged_valknut(*old(self), other, *default_lsh),
    {
        self.coverage.merge_with(other.coverage);
        self.denoise.merge_with(other.denoise);
        if other.io.cache_dir.is_some() {
            self.io.cache_dir = other.io.cache_dir;
        }
        if other.io.report_dir.is_some() {
            self.io.report_dir = other.io.report_dir;
        }
        if other.io.cache_ttl_seconds != self.io.cache_ttl_seconds {
            self.io.cache_ttl_seconds = other.io.cache_ttl_seconds;
        }
        if other.lsh.verify_with_apted != self.lsh.verify_with_apted {
            self.lsh.verify_with_apted = other.lsh.verify_with_apted;
        }
        if other.lsh.apted_max_nodes != default_lsh.apted_max_nodes {
            self.lsh.apted_max_nodes = other.lsh.apted_max_nodes;
        }
        if other.lsh.apted_max_pairs_per_entity != default_lsh.apted_max_pairs_per_entity {
            self.lsh.apted_max_pairs_per_entity = other.lsh.apted_max_pairs_per_entity;
        }
        if other.io.enable_caching != self.io.enable_caching {
            self.io.enable_caching = other.io.enable_caching;
        }
    }
}

/// APTED switches and limits after the CLI options have been applied.
pub open spec fn apted_applied(lsh: LshConfig, args: AdvancedCloneArgs) -> LshConfig {
    LshConfig {
        verify_with_apted: if args.no_apted_verify { false }
            else if args.apted_verify { true }
            else { lsh.verify_with_apted },
        apted_max_nodes: match args.apted_max_nodes { Some(n) => n, None => lsh.apted_max_nodes },
        apted_max_pairs_per_entity: match args.apted_max_pairs {
            Some(n) => n,
            None => lsh.apted_max_pairs_per_entity,
        },
        ..lsh
    }
}

/// Apply APTED verification settings to config.
pub fn apply_apted_config(config: &mut ValknutConfig, args: &AdvancedCloneArgs)
    ensures
        *final(config) == (ValknutConfig { lsh: apted_applied(old(config).lsh, *args), ..*old(config) }),
{
    if args.no_apted_verify {
        config.lsh.verify_with_apted = false;
    } else if args.apted_verify {
        config.lsh.verify_with_apted = true;
    }
    if let Some(max_nodes) = args.apted_max_nodes {
        config.lsh.apted_max_nodes = max_nodes;
    }
    if let Some(max_pairs) = args.apted_max_pairs {
        config.lsh.apted_max_pairs_per_entity = max_pairs;
    }
}

/// The CLI override layer: `base` (the engine defaults) with the coverage,
/// denoise and APTED options of the command line.
pub open spec fn valknut_from_args(args: AnalyzeArgs, base: ValknutConfig) -> ValknutConfig {
    ValknutConfig {
        coverage: coverage_from_args(args.coverage),
        denoise: denoise_from_args(args),
        lsh: apted_applied(base.lsh, args.advanced_clone),
        ..base
    }
}

/// Build the CLI override layer from the engine defaults `base`.
pub fn valknut_config_from_cli_args(args: &AnalyzeArgs, base: ValknutConfig) -> (res: ValknutConfig)
    ensures
        res == valknut_from_args(*args, base),
{
    let mut config = base;
    config.coverage = CoverageConfig::from_cli_args(args);
    config.denoise = DenoiseConfig::from_cli_args(args);
    apply_apted_config(&mut config, &args.advanced_clone);
    config
}

/// A copy of an LSH configuration.
pub fn clone_lsh(c: &LshConfig) -> (res: LshConfig)
    ensures
        res == *c,
{
    LshConfig {
        num_bands: c.num_bands,
        num_hashes: c.num_hashes,
        shingle_size: c.shingle_size,
        use_semantic_similarity: c.use_semantic_similarity,
        verify_with_apted: c.verify_with_apted,
        apted_max_nodes: c.apted_max_nodes,
        apted_max_pairs_per_entity: c.apted_max_pairs_per_entity,
    }
}

/// A copy of a denoise configuration.
pub fn clone_denoise(c: &DenoiseConfig) -> (res: DenoiseConfig)
    ensures
        res == *c,
{
    DenoiseConfig {
        enabled: c.enabled,
        auto: c.auto,
        dry_run: c.dry_run,
        min_function_tokens: c.min_function_tokens,
        min_match_tokens: c.min_match_tokens,
        require_blocks: c.require_blocks,
        auto_calibration: AutoCalibrationConfig {
            enabled: c.auto_calibration.enabled,
            sample_size: c.auto_calibration.sample_size,
            max_iterations: c.auto_calibration.max_iterations,
        },
        ranking: RankingConfig {
            min_saved_tokens: c.ranking.min_saved_tokens,
            live_reach_boost: c.ranking.live_reach_boost,
        },
    }
}

/// A copy of an I/O configuration.
pub fn clone_io(c: &IoConfig) -> (res: IoConfig)
    ensures
        res == *c,
{
    IoConfig {
        cache_dir: clone_opt_string(&c.cache_dir),
        report_dir: clone_opt_string(&c.report_dir),
        cache_ttl_seconds: c.cache_ttl_seconds,
        enable_caching: c.enable_caching,
    }
}

/// Copy the advanced sections of a configuration file over the target:
/// LSH, deduplication, denoising, I/O and the names-analysis switch.
pub fn apply_advanced_sections_from_file(target: &mut ValknutConfig, source: &ValknutConfig)
    ensures
        final(target).lsh == source.lsh,
        final(target).dedupe == source.dedupe,
        final(target).denoise == source.denoise,
        final(target).io == source.io,
        final(target).analysis == (AnalysisSettings {
            enable_names_analysis: source.analysis.enable_names_analysis,
            ..old(target).analysis
        }),
        final(target).coverage == old(target).coverage,
{
    target.lsh = clone_lsh(&source.lsh);
    target.dedupe = DedupeConfig {
        min_ast_nodes: source.dedupe.min_ast_nodes,
        min_match_tokens: source.dedupe.min_match_tokens,
        rarity_weighting: source.dedupe.rarity_weighting,
    };
    target.denoise = clone_denoise(&source.denoise);
    target.io = clone_io(&source.io);
    target.analysis.enable_names_analysis = source.analysis.enable_names_analysis;
}

/// LSH precision and denoising for a performance profile.
pub open spec fn profile_applied(config: ValknutConfig, profile: PerformanceProfile) -> ValknutConfig {
    match profile {
        PerformanceProfile::Fast => ValknutConfig {
            lsh: LshConfig { num_bands: 10, num_hashes: 50, ..config.lsh },
            analysis: AnalysisSettings { max_files: 500, ..config.analysis },
            ..config
        },
        PerformanceProfile::Balanced => config,
        PerformanceProfile::Thorough => ValknutConfig {
            lsh: LshConfig { num_bands: 20, num_hashes: 160, ..config.lsh },
            denoise: DenoiseConfig { enabled: true, ..config.denoise },
            ..config
        },
        PerformanceProfile::Extreme => ValknutConfig {
            lsh: LshConfig { num_bands: 50, num_hashes: 200, ..config.lsh },
            denoise: DenoiseConfig { enabled: true, ..config.denoise },
            ..config
        },
    }
}

/// The smaller of two counts.
pub open spec fn min_usize(a: usize, b: usize) -> usize {
    if a < b { a } else { b }
}

/// A count lowered to at most `cap` and raised to at least 1.
pub open spec fn clamp_low(v: usize, cap: usize) -> usize {
    if min_usize(v, cap) < 1 { 1 } else { min_usize(v, cap) }
}

fn clamp_low_exec(v: usize, cap: usize) -> (res: usize)
    ensures
        res == clamp_low(v, cap),
{
    let m = if v < cap { v } else { cap };
    if m < 1 { 1 } else { m }
}

/// Low clone thresholds for demos: the switch and count parts of the preset.
pub open spec fn dev_presets_applied(config: ValknutConfig) -> ValknutConfig {
    ValknutConfig {
        analysis: AnalysisSettings { enable_lsh_analysis: true, ..config.analysis },
        denoise: DenoiseConfig {
            enabled: true,
            min_function_tokens: clamp_low(config.denoise.min_function_tokens, 8),
            min_match_tokens: clamp_low(config.denoise.min_match_tokens, 6),
            require_blocks: 1,
            ..config.denoise
        },
        dedupe: DedupeConfig {
            min_ast_nodes: clamp_low(config.dedupe.min_ast_nodes, 8),
            min_match_tokens: clamp_low(config.dedupe.min_match_tokens, 8),
            ..config.dedupe
        },
        lsh: LshConfig { use_semantic_similarity: true, ..config.lsh },
        ..config
    }
}

/// Lower clone thresholds and enable semantic similarity for demos/UI snapshots.
pub fn apply_dev_clone_presets(config: &mut ValknutConfig)
    ensures
        *final(config) == dev_presets_applied(*old(config)),
{
    config.analysis.enable_lsh_analysis = true;
    config.denoise.enabled = true;
    config.denoise.min_function_tokens = clamp_low_exec(config.denoise.min_function_tokens, 8);
    config.denoise.min_match_tokens = clamp_low_exec(config.denoise.min_match_tokens, 6);
    config.denoise.require_blocks = 1;
    config.dedupe.min_ast_nodes = clamp_low_exec(config.dedupe.min_ast_nodes, 8);
    config.dedupe.min_match_tokens = clamp_low_exec(config.dedupe.min_match_tokens, 8);
    config.lsh.use_semantic_similarity = true;
}

/// Apply performance profile optimizations to the configuration; the demo
/// presets follow when `dev_presets` is set (a development build, or the
/// `VALKNUT_DEV_DEMO` environment variable).
pub fn apply_performance_profile(config: &mut ValknutConfig, profile: &PerformanceProfile, dev_presets: bool)
    ensures
        *final(config) == if dev_presets {
            dev_presets_applied(profile_applied(*old(config), *profile))
        } else {
            profile_applied(*old(config), *profile)
        },
{
    match profile {
        PerformanceProfile::Fast => {
            config.lsh.num_bands = 10;
            config.lsh.num_hashes = 50;
            config.analysis.max_files = 500;
        },
        PerformanceProfile::Balanced => {},
        PerformanceProfile::Thorough => {
            config.lsh.num_bands = 20;
            config.lsh.num_hashes = 160;
            config.denoise.enabled = true;
        },
        PerformanceProfile::Extreme => {
            config.lsh.num_bands = 50;
            config.lsh.num_hashes = 200;
            config.denoise.enabled = true;
        },
    }
    if dev_presets {
        apply_dev_clone_presets(config);
    }
}

/// Every profile other than `Balanced` leaves a hash count that the band
/// count divides, and the thorough profiles switch denoising on.
pub proof fn lemma_profile_bands_divide_hashes(config: ValknutConfig, profile: PerformanceProfile)
    ensures
        profile != PerformanceProfile::Balanced ==> ({
            let c = profile_applied(config, profile);
            c.lsh.num_bands > 0 && c.lsh.num_hashes % c.lsh.num_bands == 0
        }),
        (profile == PerformanceProfile::Thorough || profile == PerformanceProfile::Extreme)
            ==> profile_applied(config, profile).denoise.enabled,
        profile == PerformanceProfile::Balanced ==> profile_applied(config, profile) == config,
{
}

/// Analysis switches after the `--no-*` flags.
pub open spec fn control_flags_applied(a: AnalysisSettings, coverage: CoverageArgs, control: AnalysisControlArgs) -> AnalysisSettings {
    AnalysisSettings {
        enable_coverage_analysis: if coverage.no_coverage { false } else { a.enable_coverage_analysis },
        enable_scoring: if control.no_complexity { false } else { a.enable_scoring },
        enable_structure_analysis: if control.no_structure { false } else { a.enable_structure_analysis },
        enable_refactoring_analysis: if control.no_refactoring { false } else { a.enable_refactoring_analysis },
        enable_graph_analysis: if control.no_impact { false } else { a.enable_graph_analysis },
        enable_lsh_analysis: if control.no_lsh { false } else { a.enable_lsh_analysis },
        ..a
    }
}

/// Each `--no-*` flag turns its own analysis off, and a switch whose flag is
/// not given keeps its earlier value: `--no-coverage` coverage,
/// `--no-complexity` scoring, `--no-structure` structure, `--no-refactoring`
/// refactoring, `--no-impact` the dependency graph and `--no-lsh` clone
/// detection.
pub open spec fn no_flags_switch_off(
    before: AnalysisSettings,
    after: AnalysisSettings,
    coverage: CoverageArgs,
    control: AnalysisControlArgs,
) -> bool {
    &&& (coverage.no_coverage ==> !after.enable_coverage_analysis)
    &&& (!coverage.no_coverage ==> after.enable_coverage_analysis == before.enable_coverage_analysis)
    &&& (control.no_complexity ==> !after.enable_scoring)
    &&& (!control.no_complexity ==> after.enable_scoring == before.enable_scoring)
    &&& (control.no_structure ==> !after.enable_structure_analysis)
    &&& (!control.no_structure ==> after.enable_structure_analysis == before.enable_structure_analysis)
    &&& (control.no_refactoring ==> !after.enable_refactoring_analysis)
    &&& (!control.no_refactoring ==> after.enable_refactoring_analysis == before.enable_refactoring_analysis)
    &&& (control.no_impact ==> !after.enable_graph_analysis)
    &&& (!control.no_impact ==> after.enable_graph_analysis == before.enable_graph_analysis)
    &&& (control.no_lsh ==> !after.enable_lsh_analysis)
    &&& (!control.no_lsh ==> after.enable_lsh_analysis == before.enable_lsh_analysis)
    &&& after.enable_names_analysis == before.enable_names_analysis
    &&& after.max_files == before.max_files
}

/// The `--no-*` flags switch off exactly their own analyses.
pub proof fn lemma_no_flags_switch_off(a: AnalysisSettings, coverage: CoverageArgs, control: AnalysisControlArgs)
    ensures
        no_flags_switch_off(a, control_flags_applied(a, coverage, control), coverage, control),
{
}

/// Apply analysis control flags from CLI args.
pub fn apply_analysis_control_flags(config: &mut ValknutConfig, args: &AnalyzeArgs)
    ensures
        *final(config) == (ValknutConfig {
            analysis: control_flags_applied(old(config).analysis, args.coverage, args.analysis_control),
            ..*old(config)
        }),
        no_flags_switch_off(old(config).analysis, final(config).analysis, args.coverage, args.analysis_control),
{
    if args.coverage.no_coverage {
        config.analysis.enable_coverage_analysis = false;
    }
    if args.analysis_control.no_complexity {
        config.analysis.enable_scoring = false;
    }
    if args.analysis_control.no_structure {
        config.analysis.enable_structure_analysis = false;
    }
    if args.analysis_control.no_refactoring {
        config.analysis.enable_refactoring_analysis = false;
    }
    if args.analysis_control.no_impact {
        config.analysis.enable_graph_analysis = false;
    }
    if args.analysis_control.no_lsh {
        config.analysis.enable_lsh_analysis = false;
    }
}

/// Coverage settings built from the engine default `base` and the CLI options.
pub open spec fn coverage_built(args: CoverageArgs, base: CoverageConfig) -> CoverageConfig {
    CoverageConfig {
        coverage_file: if args.coverage_file is Some { args.coverage_file } else { base.coverage_file },
        auto_discover: if args.coverage_file is Some || args.no_coverage_auto_discover {
            false
        } else {
            base.auto_discover
        },
        max_age_days: match args.coverage_max_age_days { Some(d) => d, None => base.max_age_days },
    }
}

/// Build coverage config from CLI args over the engine default `base`.
pub fn build_coverage_config(args: &CoverageArgs, base: CoverageConfig) -> (res: CoverageConfig)
    ensures
        res == coverage_built(*args, base),
        args.coverage_file is Some ==> res.coverage_file == args.coverage_file && !res.auto_discover,
        args.coverage_file is None ==> res.coverage_file == base.coverage_file,
        args.no_coverage_auto_discover ==> !res.auto_discover,
        args.coverage_file is None && !args.no_coverage_auto_discover ==> res.auto_discover == base.auto_discover,
        args.coverage_max_age_days matches Some(d) ==> res.max_age_days == d,
        args.coverage_max_age_days is None ==> res.max_age_days == base.max_age_days,
{
    let mut config = base;
    if args.coverage_file.is_some() {
        config.coverage_file = clone_opt_string(&args.coverage_file);
        config.auto_discover = false;
    }
    if args.no_coverage_auto_discover {
        config.auto_discover = false;
    }
    if let Some(max_age_days) = args.coverage_max_age_days {
        config.max_age_days = max_age_days;
    }
    config
}

/// The switches that the denoise mode sets besides the denoise section.
pub fn apply_denoise_settings(config: &mut ValknutConfig)
    ensures
        *final(config) == (ValknutConfig {
            dedupe: DedupeConfig { rarity_weighting: true, ..old(config).dedupe },
            lsh: LshConfig { shingle_size: 9, ..old(config).lsh },
            ..*old(config)
        }),
{
    config.dedupe.rarity_weighting = true;
    config.lsh.shingle_size = 9;
}

/// Auto-calibration settings from the CLI options.
pub fn build_auto_calibration_config(args: &AdvancedCloneArgs, auto_enabled: bool) -> (res: AutoCalibrationConfig)
    ensures
        res == (AutoCalibrationConfig {
            enabled: auto_enabled,
            sample_size: or_default(args.sample_size, DEFAULT_SAMPLE_SIZE),
            max_iterations: DEFAULT_MAX_ITERATIONS,
        }),
{
    AutoCalibrationConfig {
        enabled: auto_enabled,
        sample_size: unwrap_or_usize(args.sample_size, DEFAULT_SAMPLE_SIZE),
        max_iterations: DEFAULT_MAX_ITERATIONS,
    }
}

/// Ranking settings from the CLI options over the engine default `default_ranking`.
pub fn build_ranking_config(args: &AdvancedCloneArgs, default_ranking: &RankingConfig) -> (res: RankingConfig)
    ensures
        res == (RankingConfig {
            min_saved_tokens: or_default(args.min_saved_tokens, default_ranking.min_saved_tokens),
            live_reach_boost: default_ranking.live_reach_boost,
        }),
{
    RankingConfig {
        min_saved_tokens: unwrap_or_usize(args.min_saved_tokens, default_ranking.min_saved_tokens),
        live_reach_boost: default_ranking.live_reach_boost,
    }
}

/// Build denoise configuration from CLI args.
pub fn build_denoise_config(
    args: &AnalyzeArgs,
    denoise_enabled: bool,
    auto_enabled: bool,
    default_ranking: &RankingConfig,
) -> (res: DenoiseConfig)
    ensures
        res == (DenoiseConfig {
            enabled: denoise_enabled,
            auto: auto_enabled,
            dry_run: args.clone_detection.denoise_dry_run,
            min_function_tokens: or_default(args.clone_detection.min_function_tokens, DEFAULT_MIN_FUNCTION_TOKENS),
            min_match_tokens: or_default(args.clone_detection.min_match_tokens, DEFAULT_MIN_MATCH_TOKENS),
            require_blocks: or_default(args.clone_detection.require_blocks, DEFAULT_REQUIRE_BLOCKS),
            auto_calibration: AutoCalibrationConfig {
                enabled: auto_enabled,
                sample_size: or_default(args.advanced_clone.sample_size, DEFAULT_SAMPLE_SIZE),
                max_iterations: DEFAULT_MAX_ITERATIONS,
            },
            ranking: RankingConfig {
                min_saved_tokens: or_default(args.advanced_clone.min_saved_tokens, default_ranking.min_saved_tokens),
                live_reach_boost: default_ranking.live_reach_boost,
            },
        }),
{
    DenoiseConfig {
        enabled: denoise_enabled,
        auto: auto_enabled,
        dry_run: args.clone_detection.denoise_dry_run,
        min_function_tokens: unwrap_or_usize(args.clone_detection.min_function_tokens, DEFAULT_MIN_FUNCTION_TOKENS),
        min_match_tokens: unwrap_or_usize(args.clone_detection.min_match_tokens, DEFAULT_MIN_MATCH_TOKENS),
        require_blocks: unwrap_or_usize(args.clone_detection.require_blocks, DEFAULT_REQUIRE_BLOCKS),
        auto_calibration: build_auto_calibration_config(&args.advanced_clone, auto_enabled),
        ranking: build_ranking_config(&args.advanced_clone, default_ranking),
    }
}

/// Which analysis modules run (the API-level configuration).
#[derive(Clone, Debug, PartialEq)]
pub struct AnalysisModules {
    pub complexity: bool,
    pub dependencies: bool,
    pub duplicates: bool,
    pub refactoring: bool,
    pub structure: bool,
    pub coverage: bool,
}

/// Languages to analyse.
#[derive(Clone, Debug, PartialEq)]
pub struct LanguageSettings {
    pub enabled: Vec<String>,
}

/// File selection settings.
#[derive(Clone, Debug, PartialEq)]
pub struct FileSettings {
    pub include_patterns: Vec<String>,
    pub exclude_patterns: Vec<String>,
    pub max_files: Option<usize>,
    pub follow_symlinks: bool,
}

/// Strictness switch of the analysis.
#[derive(Clone, Debug, PartialEq)]
pub struct QualitySettings {
    pub strict_mode: bool,
}

/// Coverage settings of the API-level configuration.
#[derive(Clone, Debug, PartialEq)]
pub struct CoverageSettings {
    pub enabled: bool,
    pub file_path: Option<String>,
    pub auto_discover: bool,
    pub max_age_days: u32,
    pub search_paths: Vec<String>,
}

/// The API-level analysis configuration.
#[derive(Clone, Debug, PartialEq)]
pub struct ApiAnalysisConfig {
    pub modules: AnalysisModules,
    pub languages: LanguageSettings,
    pub files: FileSettings,
    pub quality: QualitySettings,
    pub coverage: CoverageSettings,
}

/// The characters of each string in a list.
pub open spec fn strings_view(v: Seq<String>) -> Seq<Seq<char>> {
    v.map_values(|s: String| s@)
}

/// Whether two string lists hold the same strings in the same order.
pub fn strings_eq(a: &Vec<String>, b: &Vec<String>) -> (res: bool)
    ensures
        res == (strings_view(a@) == strings_view(b@)),
{
    if a.len() != b.len() {
        assert(strings_view(a@).len() != strings_view(b@).len());
        return false;
    }
    let mut i: usize = 0;
    while i < a.len()
        invariant
            a.len() == b.len(),
            0 <= i <= a.len(),
            forall|j: int| 0 <= j < i ==> a@[j]@ == b@[j]@,
        decreases a.len() - i,
    {
        if !crate::text::str_eq(a[i].as_str(), b[i].as_str()) {
            assert(strings_view(a@)[i as int] != strings_view(b@)[i as int]);
            return false;
        }
        i += 1;
    }
    assert(strings_view(a@) =~= strings_view(b@));
    true
}

/// Module switches after merging; a switch equal to its default counts as unset.
pub open spec fn merged_modules(base: AnalysisModules, other: AnalysisModules, d: AnalysisModules) -> AnalysisModules {
    AnalysisModules {
        complexity: if other.complexity != d.complexity { other.complexity } else { base.complexity },
        dependencies: if other.dependencies != d.dependencies { other.dependencies } else { base.dependencies },
        duplicates: if other.duplicates != d.duplicates { other.duplicates } else { base.duplicates },
        refactoring: if other.refactoring != d.refactoring { other.refactoring } else { base.refactoring },
        structure: if other.structure != d.structure { other.structure } else { base.structure },
        coverage: if other.coverage != d.coverage { other.coverage } else { base.coverage },
    }
}

/// File settings after merging.
pub open spec fn merged_files(base: FileSettings, other: FileSettings, d: FileSettings) -> FileSettings {
    FileSettings {
        include_patterns: if strings_view(other.include_patterns@) != strings_view(d.include_patterns@) {
            other.include_patterns
        } else {
            base.include_patterns
        },
        exclude_patterns: if strings_view(other.exclude_patterns@) != strings_view(d.exclude_patterns@) {
            other.exclude_patterns
        } else {
            base.exclude_patterns
        },
        max_files: if other.max_files is Some { other.max_files } else { base.max_files },
        follow_symlinks: if other.follow_symlinks { true } else { base.follow_symlinks },
    }
}

/// API coverage settings after merging.
pub open spec fn merged_coverage_settings(base: CoverageSettings, other: CoverageSettings, d: CoverageSettings) -> CoverageSettings {
    CoverageSettings {
        enabled: if other.enabled != d.enabled { other.enabled } else { base.enabled },
        file_path: if other.file_path is Some { other.file_path } else { base.file_path },
        auto_discover: if other.auto_discover != d.auto_discover { other.auto_discover } else { base.auto_discover },
        max_age_days: if other.max_age_days != d.max_age_days { other.max_age_days } else { base.max_age_days },
        search_paths: if strings_view(other.search_paths@) != strings_view(d.search_paths@)
            && other.search_paths.len() != 0 {
            other.search_paths
        } else {
            base.search_paths
        },
    }
}

/// The API configuration after `other` has been merged over `base`;
/// `d` holds the API defaults that mark a setting as unset.
pub open spec fn merged_api(base: ApiAnalysisConfig, other: ApiAnalysisConfig, d: ApiAnalysisConfig) -> ApiAnalysisConfig {
    ApiAnalysisConfig {
        modules: merged_modules(base.modules, other.modules, d.modules),
        languages: LanguageSettings {
            enabled: if other.languages.enabled.len() != 0 { other.languages.enabled } else { base.languages.enabled },
        },
        files: merged_files(base.files, other.files, d.files),
        quality: QualitySettings {
            strict_mode: if other.quality.strict_mode { true } else { base.quality.strict_mode },
        },
        coverage: merged_coverage_settings(base.coverage, other.coverage, d.coverage),
    }
}

fn merge_modules(m: &mut AnalysisModules, other: AnalysisModules, d: &AnalysisModules)
    ensures
        *final(m) == merged_modules(*old(m), other, *d),
{
    if other.complexity != d.complexity {
        m.complexity = other.complexity;
    }
    if other.dependencies != d.dependencies {
        m.dependencies = other.dependencies;
    }
    if other.duplicates != d.duplicates {
        m.duplicates = other.duplicates;
    }
    if other.refactoring != d.refactoring {
        m.refactoring = other.refactoring;
    }
    if other.structure != d.structure {
        m.structure = other.structure;
    }
    if other.coverage != d.coverage {
        m.coverage = other.coverage;
    }
}

fn merge_files(f: &mut FileSettings, other: FileSettings, d: &FileSettings)
    ensures
        *final(f) == merged_files(*old(f), other, *d),
{
    if !strings_eq(&other.include_patterns, &d.include_patterns) {
        f.include_patterns = other.include_patterns;
    }
    if !strings_eq(&other.exclude_patterns, &d.exclude_patterns) {
        f.exclude_patterns = other.exclude_patterns;
    }
    if other.max_files.is_some() {
        f.max_files = other.max_files;
    }
    if other.follow_symlinks {
        f.follow_symlinks = true;
    }
}

fn merge_coverage_settings(c: &mut CoverageSettings, other: CoverageSettings, d: &CoverageSettings)
    ensures
        *final(c) == merged_coverage_settings(*old(c), other, *d),
{
    if other.enabled != d.enabled {
        c.enabled = other.enabled;
    }
    if other.file_path.is_some() {
        c.file_path = other.file_path;
    }
    if other.auto_discover != d.auto_discover {
        c.auto_discover = other.auto_discover;
    }
    if other.max_age_days != d.max_age_days {
        c.max_age_days = other.max_age_days;
    }
    if !strings_eq(&other.search_paths, &d.search_paths) && other.search_paths.len() != 0 {
        c.search_paths = other.search_paths;
    }
}

impl ApiAnalysisConfig {
    /// Merge another API configuration into this one (the other takes
    /// priority); settings equal to the defaults `d` count as unset.
    pub fn merge_layer(&mut self, other: ApiAnalysisConfig, d: &ApiAnalysisConfig)
        ensures
            *final(self) == merged_api(*old(self), other, *d),
    {
        merge_modules(&mut self.modules, other.modules, &d.modules);
        if other.languages.enabled.len() != 0 {
            self.languages.enabled = other.languages.enabled;
        }
        merge_files(&mut self.files, other.files, &d.files);
        if other.quality.strict_mode {
            self.quality.strict_mode = true;
        }
        merge_coverage_settings(&mut self.coverage, other.coverage, &d.coverage);
    }
}

/// Module switches chosen on the command line.
pub open spec fn modules_from_args(args: AnalyzeArgs) -> AnalysisModules {
    AnalysisModules {
        structure: !args.analysis_control.no_structure,
        refactoring: !args.analysis_control.no_refactoring,
        dependencies: !args.analysis_control.no_impact,
        duplicates: !args.analysis_control.no_lsh,
        coverage: !args.coverage.no_coverage,
        complexity: !args.analysis_control.no_complexity,
    }
}

/// API coverage settings with the coverage options of the command line.
pub open spec fn api_coverage_from_args(args: CoverageArgs, base: CoverageSettings) -> CoverageSettings {
    CoverageSettings {
        enabled: if args.no_coverage { false } else { base.enabled },
        file_path: if args.coverage_file is Some { args.coverage_file } else { base.file_path },
        auto_discover: if args.no_coverage_auto_discover { false } else { base.auto_discover },
        max_age_days: match args.coverage_max_age_days { Some(d) => d, None => base.max_age_days },
        ..base
    }
}

/// The API-level CLI layer: `base` (the API defaults) with the module
/// switches and coverage options of the command line and no languages.
pub fn api_config_from_cli_args(args: &AnalyzeArgs, base: ApiAnalysisConfig) -> (res: ApiAnalysisConfig)
    ensures
        res.modules == modules_from_args(*args),
        res.languages.enabled@.len() == 0,
        res.files == base.files,
        res.quality == base.quality,
        res.coverage == api_coverage_from_args(args.coverage, base.coverage),
{
    let mut config = base;
    config.modules.structure = !args.analysis_control.no_structure;
    config.modules.refactoring = !args.analysis_control.no_refactoring;
    config.modules.dependencies = !args.analysis_control.no_impact;
    if args.analysis_control.no_lsh {
        config.modules.duplicates = false;
    } else {
        config.modules.duplicates = true;
    }
    config.modules.coverage = !args.coverage.no_coverage;
    config.modules.complexity = !args.analysis_control.no_complexity;
    config.languages.enabled = Vec::new();
    if args.coverage.no_coverage {
        config.coverage.enabled = false;
    }
    if args.coverage.coverage_file.is_some() {
        config.coverage.file_path = clone_opt_string(&args.coverage.coverage_file);
    }
    if args.coverage.no_coverage_auto_discover {
        config.coverage.auto_discover = false;
    }
    if let Some(max_age) = args.coverage.coverage_max_age_days {
        config.coverage.max_age_days = max_age;
    }
    config
}

/// The configuration layered as the CLI builds it: the configuration derived
/// from the merged API settings, the advanced sections of the configuration
/// file, then the CLI override layer.
pub open spec fn layered(
    derived: ValknutConfig,
    file: Option<ValknutConfig>,
    args: AnalyzeArgs,
    engine_defaults: ValknutConfig,
    default_lsh: LshConfig,
) -> ValknutConfig {
    let with_file = match file {
        Some(f) => ValknutConfig {
            lsh: f.lsh,
            dedupe: f.dedupe,
            denoise: f.denoise,
            io: f.io,
            analysis: AnalysisSettings { enable_names_analysis: f.analysis.enable_names_analysis, ..derived.analysis },
            ..derived
        },
        None => derived,
    };
    merged_valknut(with_file, valknut_from_args(args, engine_defaults), default_lsh)
}

/// Finish the layered configuration: `derived` is the engine configuration
/// obtained from the merged API settings, `file` the loaded configuration
/// file if any, `engine_defaults` and `default_lsh` the engine defaults.
pub fn finish_layered_config(
    derived: ValknutConfig,
    file: Option<&ValknutConfig>,
    args: &AnalyzeArgs,
    engine_defaults: ValknutConfig,
    default_lsh: &LshConfig,
) -> (res: ValknutConfig)
    ensures
        res == layered(derived, match file { Some(f) => Some(*f), None => None }, *args, engine_defaults, *default_lsh),
{
    let mut config = derived;
    if let Some(file_cfg) = file {
        apply_advanced_sections_from_file(&mut config, file_cfg);
    }
    let cli_overrides = valknut_config_from_cli_args(args, engine_defaults);
    config.merge_layer(cli_overrides, default_lsh);
    config
}

/// The CLI takes priority over the configuration file: a coverage file,
/// `--no-coverage-auto-discover`, a coverage age, a function token count and
/// APTED limits given on the command line (other than the default values,
/// which count as unset) are what the layered configuration holds, and the
/// file's cache directory survives when the engine defaults set none.
pub proof fn lemma_cli_overrides_file(
    derived: ValknutConfig,
    file: ValknutConfig,
    args: AnalyzeArgs,
    engine_defaults: ValknutConfig,
    default_lsh: LshConfig,
)
    requires
        engine_defaults.lsh.apted_max_nodes == default_lsh.apted_max_nodes,
        engine_defaults.lsh.apted_max_pairs_per_entity == default_lsh.apted_max_pairs_per_entity,
    ensures
        ({
            let c = layered(derived, Some(file), args, engine_defaults, default_lsh);
            &&& args.coverage.coverage_file is Some ==> c.coverage.coverage_file == args.coverage.coverage_file
            &&& args.coverage.no_coverage_auto_discover ==> !c.coverage.auto_discover
            &&& args.coverage.coverage_max_age_days matches Some(d)
                ==> (d != DEFAULT_COVERAGE_MAX_AGE_DAYS ==> c.coverage.max_age_days == d)
            &&& args.coverage.coverage_max_age_days is None ==> c.coverage.max_age_days == derived.coverage.max_age_days
            &&& args.clone_detection.min_function_tokens matches Some(n)
                ==> (n != DEFAULT_MIN_FUNCTION_TOKENS ==> c.denoise.min_function_tokens == n)
            &&& args.clone_detection.denoise_dry_run ==> c.denoise.dry_run
            &&& args.advanced_clone.apted_max_nodes matches Some(n)
                ==> (n != default_lsh.apted_max_nodes ==> c.lsh.apted_max_nodes == n)
            &&& args.advanced_clone.apted_max_pairs matches Some(n)
                ==> (n != default_lsh.apted_max_pairs_per_entity ==> c.lsh.apted_max_pairs_per_entity == n)
            &&& args.advanced_clone.no_apted_verify ==> !c.lsh.verify_with_apted
            &&& (args.advanced_clone.apted_verify && !args.advanced_clone.no_apted_verify) ==> c.lsh.verify_with_apted
            &&& engine_defaults.io.cache_dir is None ==> c.io.cache_dir == file.io.cache_dir
        }),
{
}

/// A copy of a list of strings.
pub fn clone_strings(v: &Vec<String>) -> (res: Vec<String>)
    ensures
        res@ == v@,
{
    let mut out: Vec<String> = Vec::new();
    let mut i: usize = 0;
    while i < v.len()
        invariant
            0 <= i <= v.len(),
            out@ == v@.take(i as int),
        decreases v.len() - i,
    {
        out.push(v[i].clone());
        assert(v@.take(i + 1) =~= v@.take(i as int).push(v@[i as int]));
        i += 1;
    }
    assert(v@.take(v.len() as int) =~= v@);
    out
}

/// The characters of an optional string.
pub open spec fn opt_view(s: Option<String>) -> Option<Seq<char>> {
    match s {
        Some(t) => Some(t@),
        None => None,
    }
}

/// The API configuration as plain values.
pub struct ApiView {
    pub modules: AnalysisModules,
    pub languages: Seq<Seq<char>>,
    pub include_patterns: Seq<Seq<char>>,
    pub exclude_patterns: Seq<Seq<char>>,
    pub max_files: Option<usize>,
    pub follow_symlinks: bool,
    pub strict_mode: bool,
    pub coverage_enabled: bool,
    pub coverage_file: Option<Seq<char>>,
    pub coverage_auto_discover: bool,
    pub coverage_max_age_days: u32,
    pub coverage_search_paths: Seq<Seq<char>>,
}

impl View for ApiAnalysisConfig {
    type V = ApiView;

    open spec fn view(&self) -> ApiView {
        ApiView {
            modules: self.modules,
            languages: strings_view(self.languages.enabled@),
            include_patterns: strings_view(self.files.include_patterns@),
            exclude_patterns: strings_view(self.files.exclude_patterns@),
            max_files: self.files.max_files,
            follow_symlinks: self.files.follow_symlinks,
            strict_mode: self.quality.strict_mode,
            coverage_enabled: self.coverage.enabled,
            coverage_file: opt_view(self.coverage.file_path),
            coverage_auto_discover: self.coverage.auto_discover,
            coverage_max_age_days: self.coverage.max_age_days,
            coverage_search_paths: strings_view(self.coverage.search_paths@),
        }
    }
}

/// A copy of an API configuration.
pub fn clone_api(c: &ApiAnalysisConfig) -> (res: ApiAnalysisConfig)
    ensures
        res@ == c@,
{
    let res = ApiAnalysisConfig {
        modules: AnalysisModules {
            complexity: c.modules.complexity,
            dependencies: c.modules.dependencies,
            duplicates: c.modules.duplicates,
            refactoring: c.modules.refactoring,
            structure: c.modules.structure,
            coverage: c.modules.coverage,
        },
        languages: LanguageSettings { enabled: clone_strings(&c.languages.enabled) },
        files: FileSettings {
            include_patterns: clone_strings(&c.files.include_patterns),
            exclude_patterns: clone_strings(&c.files.exclude_patterns),
            max_files: c.files.max_files,
            follow_symlinks: c.files.follow_symlinks,
        },
        quality: QualitySettings { strict_mode: c.quality.strict_mode },
        coverage: CoverageSettings {
            enabled: c.coverage.enabled,
            file_path: clone_opt_string(&c.coverage.file_path),
            auto_discover: c.coverage.auto_discover,
            max_age_days: c.coverage.max_age_days,
            search_paths: clone_strings(&c.coverage.search_paths),
        },
    };
    assert(res@ =~= c@);
    res
}

/// Merging over views: a list, file or switch of `other` replaces the one of
/// `base` when it differs from the default `d`.
pub open spec fn merged_api_view(base: ApiView, other: ApiView, d: ApiView) -> ApiView {
    ApiView {
        modules: merged_modules(base.modules, other.modules, d.modules),
        languages: if other.languages.len() != 0 { other.languages } else { base.languages },
        include_patterns: if other.include_patterns != d.include_patterns { other.include_patterns } else { base.include_patterns },
        exclude_patterns: if other.exclude_patterns != d.exclude_patterns { other.exclude_patterns } else { base.exclude_patterns },
        max_files: if other.max_files is Some { other.max_files } else { base.max_files },
        follow_symlinks: if other.follow_symlinks { true } else { base.follow_symlinks },
        strict_mode: if other.strict_mode { true } else { base.strict_mode },
        coverage_enabled: if other.coverage_enabled != d.coverage_enabled { other.coverage_enabled } else { base.coverage_enabled },
        coverage_file: if other.coverage_file is Some { other.coverage_file } else { base.coverage_file },
        coverage_auto_discover: if other.coverage_auto_discover != d.coverage_auto_discover {
            other.coverage_auto_discover
        } else {
            base.coverage_auto_discover
        },
        coverage_max_age_days: if other.coverage_max_age_days != d.coverage_max_age_days {
            other.coverage_max_age_days
        } else {
            base.coverage_max_age_days
        },
        coverage_search_paths: if other.coverage_search_paths != d.coverage_search_paths
            && other.coverage_search_paths.len() != 0 {
            other.coverage_search_paths
        } else {
            base.coverage_search_paths
        },
    }
}

/// The merge of configurations, seen through their views.
pub proof fn lemma_merged_api_view(base: ApiAnalysisConfig, other: ApiAnalysisConfig, d: ApiAnalysisConfig)
    ensures
        merged_api(base, other, d)@ == merged_api_view(base@, other@, d@),
{
    let m = merged_api(base, other, d);
    assert(strings_view(other.coverage.search_paths@).len() == other.coverage.search_paths@.len());
    assert(strings_view(other.languages.enabled@).len() == other.languages.enabled@.len());
    assert(m@ =~= merged_api_view(base@, other@, d@));
}

/// The CLI layer of the API settings, over views.
pub open spec fn cli_api_view(args: AnalyzeArgs, d: ApiView) -> ApiView {
    ApiView {
        modules: modules_from_args(args),
        languages: Seq::empty(),
        coverage_enabled: if args.coverage.no_coverage { false } else { d.coverage_enabled },
        coverage_file: if args.coverage.coverage_file is Some { opt_view(args.coverage.coverage_file) } else { d.coverage_file },
        coverage_auto_discover: if args.coverage.no_coverage_auto_discover { false } else { d.coverage_auto_discover },
        coverage_max_age_days: match args.coverage.coverage_max_age_days { Some(a) => a, None => d.coverage_max_age_days },
        ..d
    }
}

/// The API settings layered as the CLI builds them: the defaults `d`, the
/// settings normalized from the configuration file, then the CLI layer.
pub open spec fn layered_api(d: ApiView, file: Option<ApiView>, args: AnalyzeArgs) -> ApiView {
    let x = match file {
        Some(f) => merged_api_view(d, f, d),
        None => d,
    };
    merged_api_view(x, cli_api_view(args, d), d)
}

/// Layer the API settings: defaults, then the file's settings (if a
/// configuration file was given), then the command line.
pub fn build_layered_api_config(
    args: &AnalyzeArgs,
    file_layer: Option<ApiAnalysisConfig>,
    defaults: &ApiAnalysisConfig,
) -> (res: ApiAnalysisConfig)
    ensures
        res@ == layered_api(defaults@, match file_layer { Some(f) => Some(f@), None => None }, *args),
{
    let mut api = clone_api(defaults);
    if let Some(from_file) = file_layer {
        proof { lemma_merged_api_view(api, from_file, *defaults); }
        api.merge_layer(from_file, defaults);
    }
    let base = clone_api(defaults);
    let cli = api_config_from_cli_args(args, base);
    assert(strings_view(cli.languages.enabled@) =~= Seq::<Seq<char>>::empty());
    assert(cli@.coverage_file == cli_api_view(*args, defaults@).coverage_file);
    assert(cli@ =~= cli_api_view(*args, defaults@));
    proof { lemma_merged_api_view(api, cli, *defaults); }
    api.merge_layer(cli, defaults);
    api
}


/// A language of the configuration file, as the language merge reads it.
#[derive(Clone, Debug, PartialEq)]
pub struct LanguageLayer {
    pub name: String,
    pub enabled: bool,
}

/// What the layered configuration takes for one language of the
/// configuration file: the whole entry where it had none (`insert`), the
/// enabled switch, and whether the file size limit and the complexity
/// threshold come from the file. Extensions, grammar and additional settings
/// always come from the file.
#[derive(Clone, Debug, PartialEq)]
pub struct LanguageMerge {
    pub language: String,
    pub insert: bool,
    pub enabled: bool,
    pub size_from_file: bool,
    pub threshold_from_file: bool,
}

/// The merge step for the file's language `l`: `present` lists the languages
/// the layered configuration already has, `api_enabled` the languages the API
/// settings enable, `api_size_set` whether they set a file size limit, and
/// `api_thresholds` the languages they give a complexity threshold.
pub open spec fn language_merge_spec(
    l: LanguageLayer,
    present: Seq<Seq<char>>,
    api_enabled: Seq<Seq<char>>,
    api_size_set: bool,
    api_thresholds: Seq<Seq<char>>,
    m: LanguageMerge,
) -> bool {
    &&& m.language@ == l.name@
    &&& m.insert == !present.contains(l.name@)
    &&& m.enabled == (api_enabled.contains(l.name@) || l.enabled)
    &&& m.size_from_file == !api_size_set
    &&& m.threshold_from_file == !api_thresholds.contains(l.name@)
}

/// Merge the configuration file's language settings into the layered
/// configuration: one step per language of the file, in the file's order.
pub fn merge_language_settings(
    present: &Vec<String>,
    file_languages: &Vec<LanguageLayer>,
    api_enabled: &Vec<String>,
    api_size_set: bool,
    api_thresholds: &Vec<String>,
) -> (steps: Vec<LanguageMerge>)
    ensures
        steps.len() == file_languages.len(),
        forall|i: int| 0 <= i < steps.len() ==> language_merge_spec(
            #[trigger] file_languages@[i],
            strings_view(present@),
            strings_view(api_enabled@),
            api_size_set,
            strings_view(api_thresholds@),
            steps@[i],
        ),
{
    let mut steps: Vec<LanguageMerge> = Vec::new();
    let mut i: usize = 0;
    while i < file_languages.len()
        invariant
            0 <= i <= file_languages.len(),
            steps.len() == i,
            forall|j: int| 0 <= j < i ==> language_merge_spec(
                #[trigger] file_languages@[j],
                strings_view(present@),
                strings_view(api_enabled@),
                api_size_set,
                strings_view(api_thresholds@),
                steps@[j],
            ),
        decreases file_languages.len() - i,
    {
        let l = &file_languages[i];
        let name = l.name.as_str();
        let in_present = crate::doc_audit::contains_string(present, name);
        let in_enabled = crate::doc_audit::contains_string(api_enabled, name);
        let in_thresholds = crate::doc_audit::contains_string(api_thresholds, name);
        let step = LanguageMerge {
            language: crate::text::to_owned_string(name),
            insert: !in_present,
            enabled: in_enabled || l.enabled,
            size_from_file: !api_size_set,
            threshold_from_file: !in_thresholds,
        };
        steps.push(step);
        i += 1;
    }
    steps
}

} // verus!
