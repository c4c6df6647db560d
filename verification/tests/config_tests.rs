use valknut::args::{DocAuditArgs, CoverageArgs};
use valknut::config::{
    build_coverage_config, merge_language_settings, AutoCalibrationConfig, ConfigMerge, CoverageConfig,
    DenoiseConfig, LanguageLayer, LanguageMerge, RankingConfig,
};
use valknut::doc_audit::{
    apply_cli_ignores_to_doc_audit, apply_file_config_to_doc_audit, create_doc_args,
    doc_audit_outcome, doc_audit_root_override, find_doc_audit_config_file,
    layer_doc_audit_settings, DocAuditConfig, DocAuditConfigFile,
};
use valknut::format::DocAuditFormat;

fn strings(v: &[&str]) -> Vec<String> {
    v.iter().map(|s| s.to_string()).collect()
}

fn base_doc_config() -> DocAuditConfig {
    DocAuditConfig::new(".".to_string(), 8, 10, strings(&["target"]), strings(&[".lock"]), strings(&["*.tmp"]))
}

fn denoise(enabled: bool, min_function_tokens: usize) -> DenoiseConfig {
    DenoiseConfig {
        enabled,
        auto: true,
        dry_run: false,
        min_function_tokens,
        min_match_tokens: 24,
        require_blocks: 2,
        auto_calibration: AutoCalibrationConfig { enabled: true, sample_size: 200, max_iterations: 10 },
        ranking: RankingConfig { min_saved_tokens: 100, live_reach_boost: true },
    }
}

#[test]
fn coverage_merge_prefers_the_later_layer() {
    let mut base = CoverageConfig { coverage_file: Some("a.xml".to_string()), auto_discover: true, max_age_days: 3 };
    base.merge_with(CoverageConfig { coverage_file: Some("b.xml".to_string()), auto_discover: false, max_age_days: 9 });
    assert_eq!(base, CoverageConfig { coverage_file: Some("b.xml".to_string()), auto_discover: false, max_age_days: 9 });
}

#[test]
fn coverage_merge_with_neutral_layer_changes_nothing() {
    let original = CoverageConfig { coverage_file: Some("a.xml".to_string()), auto_discover: true, max_age_days: 3 };
    let mut merged = original.clone();
    merged.merge_with(CoverageConfig { coverage_file: None, auto_discover: true, max_age_days: 7 });
    assert_eq!(merged, original);
}

#[test]
fn coverage_config_from_cli_flags() {
    let args = CoverageArgs {
        no_coverage: false,
        coverage_file: Some("lcov.info".to_string()),
        no_coverage_auto_discover: true,
        coverage_max_age_days: Some(2),
    };
    let base = CoverageConfig { coverage_file: None, auto_discover: true, max_age_days: 7 };
    let config = build_coverage_config(&args, base);
    assert_eq!(config, CoverageConfig { coverage_file: Some("lcov.info".to_string()), auto_discover: false, max_age_days: 2 });
}

#[test]
fn denoise_merge_twice_is_merge_once() {
    let mut once = denoise(false, 40);
    once.merge_with(denoise(true, 12));
    let mut twice = once.clone();
    twice.merge_with(denoise(true, 12));
    assert_eq!(once, twice);
}

#[test]
fn doc_audit_config_file_is_found_in_order() {
    assert_eq!(find_doc_audit_config_file(&Some("custom.yml".to_string()), true, true), Some("custom.yml".to_string()));
    assert_eq!(find_doc_audit_config_file(&None, true, true), Some(".valknut.docaudit.yml".to_string()));
    assert_eq!(find_doc_audit_config_file(&None, false, true), Some(".valknut.docaudit.yaml".to_string()));
    assert_eq!(find_doc_audit_config_file(&None, false, false), None);
}

#[test]
fn doc_audit_root_prefers_cli_then_file() {
    assert_eq!(doc_audit_root_override("src", &Some("other".to_string())), "src");
    assert_eq!(doc_audit_root_override(".", &Some("other".to_string())), "other");
    assert_eq!(doc_audit_root_override(".", &None), ".");
}

#[test]
fn doc_audit_file_config_adds_nonblank_ignores() {
    let mut config = base_doc_config();
    let file = DocAuditConfigFile {
        root: None,
        complexity_threshold: Some(3),
        max_readme_commits: None,
        ignore_dir: strings(&["node_modules", "  ", "target"]),
        ignore_suffix: strings(&[".min.js"]),
        ignore: strings(&["", "docs/**"]),
    };
    apply_file_config_to_doc_audit(&mut config, file);
    assert_eq!(config.complexity_threshold, 3);
    assert_eq!(config.max_readme_commits, 10);
    let mut dirs = config.ignore_dirs().clone();
    dirs.sort();
    assert_eq!(dirs, strings(&["node_modules", "target"]));
    assert_eq!(config.ignore_globs, strings(&["*.tmp", "docs/**"]));
    assert!(config.ignore_suffixes().contains(&".min.js".to_string()));
}

#[test]
fn doc_audit_cli_ignores_extend_settings() {
    let mut config = base_doc_config();
    apply_cli_ignores_to_doc_audit(&mut config, &strings(&["vendor"]), &strings(&[""]), &strings(&["gen/*"]));
    assert!(config.ignore_dirs().contains(&"vendor".to_string()));
    assert_eq!(config.ignore_suffixes(), &strings(&[".lock"]));
    assert_eq!(config.ignore_globs, strings(&["*.tmp", "gen/*"]));
}

#[test]
fn doc_audit_layers_file_then_cli() {
    let mut config = base_doc_config();
    let args = DocAuditArgs {
        root: ".".to_string(),
        complexity_threshold: 5,
        max_readme_commits: 2,
        strict: false,
        format: DocAuditFormat::Text,
        ignore_dir: strings(&["build"]),
        ignore_suffix: vec![],
        ignore: vec![],
        config: None,
    };
    let file = DocAuditConfigFile {
        root: None,
        complexity_threshold: Some(99),
        max_readme_commits: Some(99),
        ignore_dir: strings(&["dist"]),
        ignore_suffix: vec![],
        ignore: vec![],
    };
    layer_doc_audit_settings(&mut config, Some(file), &args);
    assert_eq!(config.complexity_threshold, 5);
    assert_eq!(config.max_readme_commits, 2);
    assert!(config.ignore_dirs().contains(&"dist".to_string()));
    assert!(config.ignore_dirs().contains(&"build".to_string()));
    assert!(config.ignore_dirs().contains(&"target".to_string()));
}

#[test]
fn doc_audit_strict_mode_fails_on_issues() {
    assert_eq!(doc_audit_outcome(true, true), Err("Documentation audit found issues".to_string()));
    assert!(doc_audit_outcome(false, true).is_ok());
    assert!(doc_audit_outcome(true, false).is_ok());
}

#[test]
fn create_doc_args_uses_widest_thresholds() {
    let args = create_doc_args("repo".to_string());
    assert_eq!(args.root, "repo");
    assert_eq!(args.complexity_threshold, usize::MAX);
    assert_eq!(args.max_readme_commits, usize::MAX);
    assert!(!args.strict);
    assert_eq!(args.format, DocAuditFormat::Text);
    assert!(args.ignore_dir.is_empty());
}

fn layer(name: &str, enabled: bool) -> LanguageLayer {
    LanguageLayer { name: name.to_string(), enabled }
}

#[test]
fn language_merge_takes_file_languages_in_order() {
    let steps = merge_language_settings(
        &strings(&["python"]),
        &vec![layer("python", false), layer("rust", false), layer("go", true)],
        &strings(&["rust"]),
        false,
        &strings(&["go"]),
    );
    assert_eq!(
        steps,
        vec![
            LanguageMerge { language: "python".to_string(), insert: false, enabled: false, size_from_file: true, threshold_from_file: true },
            LanguageMerge { language: "rust".to_string(), insert: true, enabled: true, size_from_file: true, threshold_from_file: true },
            LanguageMerge { language: "go".to_string(), insert: true, enabled: true, size_from_file: true, threshold_from_file: false },
        ]
    );
}

#[test]
fn language_merge_keeps_api_file_size_limit() {
    let steps = merge_language_settings(&strings(&[]), &vec![layer("java", true)], &strings(&[]), true, &strings(&[]));
    assert_eq!(steps.len(), 1);
    assert!(!steps[0].size_from_file);
    assert!(steps[0].insert);
    assert!(steps[0].enabled);
}

#[test]
fn language_merge_of_no_file_languages_is_empty() {
    assert!(merge_language_settings(&strings(&["python"]), &vec![], &strings(&["python"]), false, &strings(&[])).is_empty());
}

#[test]
fn denoise_switch_follows_the_later_layer() {
    let mut from_file = denoise(false, 40);
    from_file.merge_with(denoise(true, 40));
    assert!(from_file.enabled);
    let mut on = denoise(true, 40);
    on.merge_with(denoise(false, 40));
    assert!(!on.enabled);
}
