use valknut::config::{
    AnalysisSettings, AutoCalibrationConfig, CoverageConfig, DedupeConfig, DenoiseConfig,
    IoConfig, LshConfig, RankingConfig, ValknutConfig,
};
use valknut::overview::{
    collect_enabled_analyses, coverage_status, enabled_analyses_summary, max_files_text,
    run_targets, unsupported_language_warning, LanguageSupport,
};

fn all_analyses(on: bool) -> AnalysisSettings {
    AnalysisSettings {
        enable_scoring: on,
        enable_graph_analysis: on,
        enable_lsh_analysis: on,
        enable_refactoring_analysis: on,
        enable_coverage_analysis: on,
        enable_structure_analysis: on,
        enable_names_analysis: on,
        max_files: 0,
    }
}

fn config_with(analysis: AnalysisSettings, auto_discover: bool) -> ValknutConfig {
    ValknutConfig {
        analysis,
        coverage: CoverageConfig { coverage_file: None, auto_discover, max_age_days: 7 },
        denoise: DenoiseConfig {
            enabled: false,
            auto: true,
            dry_run: false,
            min_function_tokens: 40,
            min_match_tokens: 24,
            require_blocks: 2,
            auto_calibration: AutoCalibrationConfig { enabled: true, sample_size: 200, max_iterations: 10 },
            ranking: RankingConfig { min_saved_tokens: 100, live_reach_boost: true },
        },
        lsh: LshConfig {
            num_bands: 16,
            num_hashes: 128,
            shingle_size: 3,
            use_semantic_similarity: false,
            verify_with_apted: true,
            apted_max_nodes: 4000,
            apted_max_pairs_per_entity: 25,
        },
        io: IoConfig { cache_dir: None, report_dir: None, cache_ttl_seconds: 3600, enable_caching: true },
        dedupe: DedupeConfig { min_ast_nodes: 35, min_match_tokens: 100, rarity_weighting: true },
    }
}

fn lang(name: &str, enabled: bool, supported: bool) -> LanguageSupport {
    LanguageSupport { name: name.to_string(), enabled, supported }
}

#[test]
fn enabled_analyses_follow_display_order() {
    let names = collect_enabled_analyses(&all_analyses(true));
    assert_eq!(names, vec!["scoring", "structure", "refactoring", "impact", "clones", "coverage"]);
}

#[test]
fn enabled_analyses_skip_disabled_ones() {
    let mut a = all_analyses(false);
    a.enable_lsh_analysis = true;
    a.enable_scoring = true;
    assert_eq!(collect_enabled_analyses(&a), vec!["scoring", "clones"]);
    assert_eq!(enabled_analyses_summary(&a), "scoring, clones");
}

#[test]
fn enabled_analyses_summary_says_none_when_all_are_off() {
    let a = all_analyses(false);
    assert!(collect_enabled_analyses(&a).is_empty());
    assert_eq!(enabled_analyses_summary(&a), "none");
}

#[test]
fn run_targets_for_zero_one_and_many_paths() {
    assert_eq!(run_targets(&vec![]), "-");
    assert_eq!(run_targets(&vec!["src".to_string()]), "src");
    let many = vec!["src".to_string(), "lib".to_string(), "tests".to_string()];
    assert_eq!(run_targets(&many), "src (+2 more)");
}

#[test]
fn coverage_status_is_off_without_coverage_analysis() {
    let config = config_with(all_analyses(false), true);
    assert_eq!(coverage_status(&config, Some("cov.xml"), 3), "off");
}

#[test]
fn coverage_status_names_the_given_file() {
    let config = config_with(all_analyses(true), true);
    assert_eq!(coverage_status(&config, Some("coverage/lcov.info"), 3), "on (file coverage/lcov.info)");
}

#[test]
fn coverage_status_describes_auto_discovery() {
    let config = config_with(all_analyses(true), true);
    assert_eq!(coverage_status(&config, None, 4), "on (auto, max age 7d, 4 patterns)");
}

#[test]
fn coverage_status_is_manual_without_auto_discovery() {
    let config = config_with(all_analyses(true), false);
    assert_eq!(coverage_status(&config, None, 4), "on (manual)");
}

#[test]
fn max_files_text_reads_unlimited_for_zero() {
    assert_eq!(max_files_text(0), "unlimited");
    assert_eq!(max_files_text(250), "250");
}

#[test]
fn unsupported_language_warning_lists_enabled_unsupported_languages() {
    let langs = vec![
        lang("python", true, true),
        lang("cobol", true, false),
        lang("fortran", false, false),
        lang("ada", true, false),
    ];
    assert_eq!(
        unsupported_language_warning(&langs),
        Some(
            "Languages configured but not yet supported: cobol, ada. They will be skipped during analysis."
                .to_string()
        )
    );
}

#[test]
fn unsupported_language_warning_is_none_when_all_are_supported() {
    let langs = vec![lang("python", true, true), lang("fortran", false, false)];
    assert_eq!(unsupported_language_warning(&langs), None);
    assert_eq!(unsupported_language_warning(&vec![]), None);
}
