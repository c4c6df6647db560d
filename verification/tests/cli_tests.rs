use valknut::args::{
    validate_input_paths, AIFeaturesArgs, AdvancedCloneArgs, AnalysisControlArgs, AnalyzeArgs,
    CloneDetectionArgs, CoverageArgs, QualityGateArgs,
};
use valknut::config::{
    apply_performance_profile, AnalysisSettings, AutoCalibrationConfig, CoverageConfig,
    DedupeConfig, DenoiseConfig, IoConfig, LshConfig, RankingConfig, ValknutConfig,
};
use valknut::json::{JsonNumber, JsonValue};
use valknut::format::{format_file_info, format_to_string, OutputFormat, PerformanceProfile};
use valknut::labels::{header_lines_for_width, priority_label, quality_status, Priority};
use valknut::quality_gates::{
    build_quality_gate_config, check_issue_count_violations, handle_quality_gate_result,
    severity_for_excess, top_issue_files, QualityGateConfig, RankedCandidate,
};

fn create_default_analyze_args() -> AnalyzeArgs {
    AnalyzeArgs {
        paths: vec!["test".to_string()],
        config: None,
        out: "output".to_string(),
        format: OutputFormat::Json,
        quiet: false,
        profile: PerformanceProfile::Balanced,
        quality_gate: QualityGateArgs {
            quality_gate: false,
            fail_on_issues: false,
            max_issues: None,
            max_critical: None,
            max_high_priority: None,
        },
        clone_detection: CloneDetectionArgs {
            semantic_clones: false,
            strict_dedupe: false,
            denoise: false,
            min_function_tokens: None,
            min_match_tokens: None,
            require_blocks: None,
            denoise_dry_run: false,
        },
        advanced_clone: AdvancedCloneArgs {
            no_auto: false,
            loose_sweep: false,
            rarity_weighting: false,
            structural_validation: false,
            apted_verify: false,
            apted_max_nodes: None,
            apted_max_pairs: None,
            no_apted_verify: false,
            live_reach_boost: false,
            sample_size: None,
            min_saved_tokens: None,
        },
        coverage: CoverageArgs {
            no_coverage: false,
            coverage_file: None,
            no_coverage_auto_discover: false,
            coverage_max_age_days: None,
        },
        analysis_control: AnalysisControlArgs {
            no_complexity: false,
            no_structure: false,
            no_refactoring: false,
            no_impact: false,
            no_lsh: false,
        },
        ai_features: AIFeaturesArgs { oracle: false, oracle_max_tokens: None },
    }
}

fn engine_gate_defaults() -> QualityGateConfig {
    QualityGateConfig { enabled: false, max_critical_issues: 0, max_high_priority_issues: 5 }
}

fn default_valknut_config() -> ValknutConfig {
    ValknutConfig {
        analysis: AnalysisSettings {
            enable_scoring: true,
            enable_graph_analysis: true,
            enable_lsh_analysis: true,
            enable_refactoring_analysis: true,
            enable_coverage_analysis: true,
            enable_structure_analysis: true,
            enable_names_analysis: true,
            max_files: 0,
        },
        coverage: CoverageConfig { coverage_file: None, auto_discover: true, max_age_days: 7 },
        denoise: DenoiseConfig {
            enabled: false,
            auto: true,
            dry_run: false,
            min_function_tokens: 40,
            min_match_tokens: 24,
            require_blocks: 2,
            auto_calibration: AutoCalibrationConfig { enabled: true, sample_size: 200, max_iterations: 10 },
            ranking: RankingConfig { min_saved_tokens: 100, live_reach_boost: true },
        },
        lsh: LshConfig {
            num_bands: 16,
            num_hashes: 128,
            shingle_size: 3,
            use_semantic_similarity: false,
            verify_with_apted: true,
            apted_max_nodes: 4000,
            apted_max_pairs_per_entity: 25,
        },
        io: IoConfig { cache_dir: None, report_dir: None, cache_ttl_seconds: 3600, enable_caching: true },
        dedupe: DedupeConfig { min_ast_nodes: 35, min_match_tokens: 100, rarity_weighting: true },
    }
}

#[test]
fn output_format_machine_readable_detection() {
    assert!(OutputFormat::Json.is_machine_readable());
    assert!(OutputFormat::Jsonl.is_machine_readable());
    assert!(OutputFormat::Yaml.is_machine_readable());
    assert!(OutputFormat::Csv.is_machine_readable());
    assert!(OutputFormat::Sonar.is_machine_readable());
    assert!(OutputFormat::CiSummary.is_machine_readable());
    assert!(!OutputFormat::Markdown.is_machine_readable());
    assert!(!OutputFormat::Html.is_machine_readable());
    assert!(!OutputFormat::Pretty.is_machine_readable());
}

#[test]
fn test_header_lines_for_wide_terminal() {
    let lines = header_lines_for_width(120);
    assert_eq!(lines.len(), 1);
    assert!(lines[0].contains("Valknut"));
}

#[test]
fn test_header_lines_for_narrow_terminal() {
    let lines = header_lines_for_width(40);
    assert_eq!(lines.len(), 1);
    assert!(lines[0].contains("Valknut"), "expected compact header to mention Valknut");
}

#[test]
fn header_line_names_the_version() {
    assert_eq!(header_lines_for_width(80)[0], "Valknut v0.1.0");
}

fn check_format_names() {
    assert_eq!(format_to_string(&OutputFormat::Json), "json");
    assert_eq!(format_to_string(&OutputFormat::Yaml), "yaml");
    assert_eq!(format_to_string(&OutputFormat::Markdown), "markdown");
    assert_eq!(format_to_string(&OutputFormat::Html), "html");
    assert_eq!(format_to_string(&OutputFormat::Jsonl), "jsonl");
    assert_eq!(format_to_string(&OutputFormat::Sonar), "sonar");
    assert_eq!(format_to_string(&OutputFormat::Csv), "csv");
    assert_eq!(format_to_string(&OutputFormat::CiSummary), "ci-summary");
    assert_eq!(format_to_string(&OutputFormat::Pretty), "pretty");
}

#[test]
fn analyze_tests_test_format_to_string() {
    check_format_names();
}

#[test]
fn output_test_format_to_string() {
    check_format_names();
}

#[test]
fn output_tests_test_format_to_string() {
    check_format_names();
}

#[test]
fn format_file_info_names_report_files() {
    assert_eq!(format_file_info(&OutputFormat::Markdown), ("team-report.md", "markdown"));
    assert_eq!(format_file_info(&OutputFormat::Csv), ("analysis-data.csv", "CSV"));
    assert_eq!(format_file_info(&OutputFormat::Html), ("analysis-results.json", "JSON"));
}

#[test]
fn is_quiet_respects_format_overrides() {
    let mut args = create_default_analyze_args();
    args.quiet = false;
    args.format = OutputFormat::Json;
    assert!(valknut::args::is_quiet(&args));

    args.format = OutputFormat::Pretty;
    assert!(!valknut::args::is_quiet(&args));

    args.quiet = true;
    assert!(valknut::args::is_quiet(&args));
}

#[test]
fn test_is_quiet_considers_flag_and_format() {
    let mut args = create_default_analyze_args();
    assert!(valknut::args::is_quiet(&args));

    args.quiet = true;
    args.format = OutputFormat::Markdown;
    assert!(valknut::args::is_quiet(&args));

    args.quiet = false;
    args.format = OutputFormat::Markdown;
    assert!(!valknut::args::is_quiet(&args));
}

#[test]
fn test_build_quality_gate_config_defaults() {
    let args = create_default_analyze_args();
    let config = build_quality_gate_config(&args, engine_gate_defaults());
    assert!(!config.enabled);
}

#[test]
fn test_build_quality_gate_config_quality_gate_enabled() {
    let mut args = create_default_analyze_args();
    args.quality_gate.quality_gate = true;
    args.quality_gate.max_issues = Some(10);
    args.quality_gate.max_critical = Some(5);
    args.quality_gate.max_high_priority = Some(15);

    let config = build_quality_gate_config(&args, engine_gate_defaults());
    assert!(config.enabled);
    assert_eq!(config.max_critical_issues, 5);
    assert_eq!(config.max_high_priority_issues, 15);
}

#[test]
fn test_build_quality_gate_config_fail_on_issues() {
    let mut args = create_default_analyze_args();
    args.quality_gate.fail_on_issues = true;

    let config = build_quality_gate_config(&args, engine_gate_defaults());
    assert!(config.enabled);
    assert_eq!(config.max_critical_issues, 0);
    assert_eq!(config.max_high_priority_issues, 0);
}

#[test]
fn max_issues_sets_critical_limit_without_max_critical() {
    let mut args = create_default_analyze_args();
    args.quality_gate.max_issues = Some(7);
    let config = build_quality_gate_config(&args, engine_gate_defaults());
    assert_eq!(config.max_critical_issues, 7);
    assert_eq!(config.max_high_priority_issues, 5);
}

#[test]
fn test_severity_for_excess_relative_thresholds() {
    assert_eq!(severity_for_excess(150, 200), "Medium");
    assert_eq!(severity_for_excess(108, 100), "Medium");
    assert_eq!(severity_for_excess(75, 60), "High");
    assert_eq!(severity_for_excess(95, 60), "Critical");
}

#[test]
fn severity_for_excess_covers_threshold_cases() {
    assert_eq!(severity_for_excess(10, 0), "Critical");
    assert_eq!(severity_for_excess(20, 10), "Critical");
    assert_eq!(severity_for_excess(26, 20), "High");
    assert_eq!(severity_for_excess(22, 20), "Medium");
}

#[test]
fn severity_for_excess_on_zero_threshold_counts() {
    assert_eq!(severity_for_excess(10, 0), "Critical");
    assert_eq!(severity_for_excess(2, 0), "High");
    assert_eq!(severity_for_excess(0, 0), "Medium");
}

fn ranked(path: &str, priority: Priority) -> RankedCandidate {
    RankedCandidate { file_path: path.to_string(), priority }
}

#[test]
fn test_top_issue_files_ranks_and_limits() {
    let candidates = vec![
        ranked("src/b.rs", Priority::Critical),
        ranked("src/a.rs", Priority::High),
        ranked("src/a.rs", Priority::Medium),
        ranked("src/c.rs", Priority::Low),
    ];
    let top = top_issue_files(&candidates, Priority::High, 2);
    assert_eq!(top.len(), 2);
    assert_eq!(top[0], "src/b.rs");
    assert_eq!(top[1], "src/a.rs");
}

#[test]
fn top_issue_files_skips_duplicates_and_lower_priorities() {
    let candidates = vec![
        ranked("x.rs", Priority::Critical),
        ranked("x.rs", Priority::Critical),
        ranked("y.rs", Priority::Low),
        ranked("z.rs", Priority::High),
    ];
    assert_eq!(top_issue_files(&candidates, Priority::High, 5), vec!["x.rs".to_string(), "z.rs".to_string()]);
    assert_eq!(top_issue_files(&candidates, Priority::Critical, 5), vec!["x.rs".to_string()]);
    assert_eq!(top_issue_files(&candidates, Priority::High, 0), vec!["x.rs".to_string()]);
}

#[test]
fn test_priority_label_variants() {
    assert_eq!(priority_label(Priority::Unprioritized), "none");
    assert_eq!(priority_label(Priority::Low), "low");
    assert_eq!(priority_label(Priority::Medium), "medium");
    assert_eq!(priority_label(Priority::High), "high");
    assert_eq!(priority_label(Priority::Critical), "critical");
}

#[test]
fn quality_status_reports_gate_switches() {
    assert_eq!(quality_status(true, false), "fail on issues");
    assert_eq!(quality_status(true, true), "fail on issues");
    assert_eq!(quality_status(false, true), "on");
    assert_eq!(quality_status(false, false), "off");
}

#[test]
fn count_violations_report_both_limits() {
    let candidates = vec![ranked("hot.rs", Priority::Critical), ranked("warm.rs", Priority::High)];
    let config = QualityGateConfig { enabled: true, max_critical_issues: 1, max_high_priority_issues: 2 };
    let mut violations = Vec::new();
    check_issue_count_violations(&mut violations, 4, 3, &candidates, &config);
    assert_eq!(violations.len(), 2);
    assert_eq!(violations[0].rule_name, "Critical Issues");
    assert_eq!(violations[0].description, "4 critical issues detected (limit: 1)");
    assert_eq!(violations[0].severity, "Critical");
    assert_eq!(violations[0].affected_files, vec!["hot.rs".to_string()]);
    assert_eq!(violations[1].rule_name, "High Priority Issues");
    assert_eq!(violations[1].description, "3 high-priority issues detected (limit: 2)");
    assert_eq!(violations[1].severity, "Critical");
    assert_eq!(violations[1].affected_files, vec!["hot.rs".to_string(), "warm.rs".to_string()]);

    let mut none = Vec::new();
    check_issue_count_violations(&mut none, 1, 2, &candidates, &config);
    assert!(none.is_empty());
}

#[test]
fn quality_gate_result_fails_only_on_failed_gate() {
    assert!(handle_quality_gate_result(None).is_ok());
    assert!(handle_quality_gate_result(Some(true)).is_ok());
    assert_eq!(handle_quality_gate_result(Some(false)), Err("Quality gates failed".to_string()));
}

#[test]
fn apply_performance_profile_adjusts_configuration() {
    let mut config = default_valknut_config();
    apply_performance_profile(&mut config, &PerformanceProfile::Fast, false);
    assert_eq!(config.analysis.max_files, 500);
    apply_performance_profile(&mut config, &PerformanceProfile::Balanced, false);
    apply_performance_profile(&mut config, &PerformanceProfile::Thorough, false);
    assert!(config.denoise.enabled);
    apply_performance_profile(&mut config, &PerformanceProfile::Extreme, false);
    assert_eq!(config.lsh.num_hashes, 200);
}

#[test]
fn dev_presets_lower_clone_thresholds() {
    let mut config = default_valknut_config();
    apply_performance_profile(&mut config, &PerformanceProfile::Balanced, true);
    assert!(config.denoise.enabled);
    assert_eq!(config.denoise.min_function_tokens, 8);
    assert_eq!(config.denoise.min_match_tokens, 6);
    assert_eq!(config.denoise.require_blocks, 1);
    assert_eq!(config.dedupe.min_ast_nodes, 8);
    assert!(config.lsh.use_semantic_similarity);
}

#[test]
fn validate_input_paths_reports_first_missing_path() {
    let paths = vec!["a".to_string(), "b".to_string(), "c".to_string()];
    assert_eq!(validate_input_paths(&paths, &vec![true, false, false]), Err("Path does not exist: b".to_string()));
    assert_eq!(validate_input_paths(&paths, &vec![true, true, true]), Ok(paths.clone()));
    assert_eq!(validate_input_paths(&vec![], &vec![]), Err("No valid paths provided".to_string()));
}

fn summary_result(total_issues: Option<u64>) -> JsonValue {
    let mut summary = vec![("total_files".to_string(), JsonValue::Number(JsonNumber::PosInt(10)))];
    if let Some(t) = total_issues {
        summary.push(("total_issues".to_string(), JsonValue::Number(JsonNumber::PosInt(t))));
    }
    JsonValue::Obj(vec![("summary".to_string(), JsonValue::Obj(summary))])
}

#[test]
fn test_handle_quality_gates_missing_summary() {
    let config = QualityGateConfig { enabled: true, max_critical_issues: 3, max_high_priority_issues: 5 };
    let result = JsonValue::Obj(vec![("health_metrics".to_string(), JsonValue::Obj(vec![]))]);
    assert_eq!(
        valknut::quality_gates::total_issues_gate(&result, &config),
        Err("Summary not found in analysis result".to_string())
    );
}

#[test]
fn total_issues_gate_flags_excess_issues() {
    let config = QualityGateConfig { enabled: true, max_critical_issues: 3, max_high_priority_issues: 5 };
    let violation = valknut::quality_gates::total_issues_gate(&summary_result(Some(5)), &config)
        .unwrap()
        .expect("violation");
    assert_eq!(violation.rule_name, "Total Issues Count");
    assert_eq!(violation.description, "Total issues (5) exceeds maximum allowed (3)");
    assert_eq!(violation.severity, "High");
    assert_eq!(violation.current_value, 5);
    assert_eq!(violation.threshold, 3);
    assert_eq!(violation.recommended_actions, vec!["Review and address high-priority issues".to_string()]);

    let critical = valknut::quality_gates::total_issues_gate(&summary_result(Some(7)), &config).unwrap().unwrap();
    assert_eq!(critical.severity, "Critical");
    assert_eq!(valknut::quality_gates::total_issues_gate(&summary_result(Some(3)), &config), Ok(None));
    assert_eq!(valknut::quality_gates::total_issues_gate(&summary_result(None), &config), Ok(None));
    let unlimited = QualityGateConfig { enabled: true, max_critical_issues: 0, max_high_priority_issues: 0 };
    assert_eq!(valknut::quality_gates::total_issues_gate(&summary_result(Some(50)), &unlimited), Ok(None));
}

#[test]
fn init_config_refuses_existing_file_without_force() {
    assert_eq!(
        valknut::args::init_config_guard(".valknut.yml", true, false),
        Err("Configuration file already exists: .valknut.yml. Use --force to overwrite or choose a different name with --output".to_string())
    );
    assert!(valknut::args::init_config_guard(".valknut.yml", true, true).is_ok());
    assert!(valknut::args::init_config_guard(".valknut.yml", false, false).is_ok());
}
