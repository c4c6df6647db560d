//! Output formats and the other enumerated CLI options.

use vstd::prelude::*;

verus! {

/// Report format requested on the command line.
#[derive(Clone, Copy, Debug, PartialEq, Eq, Structural)]
pub enum OutputFormat {
    /// Line-delimited JSON format
    Jsonl,
    /// JSON format output
    Json,
    /// YAML format output
    Yaml,
    /// Markdown team report
    Markdown,
    /// Interactive HTML report
    Html,
    /// SonarQube integration format
    Sonar,
    /// CSV spreadsheet data
    Csv,
    /// CI/CD summary format (concise JSON for automated systems)
    CiSummary,
    /// Human-readable format
    Pretty,
}

/// The command-line spelling of each output format.
pub open spec fn format_name(format: OutputFormat) -> Seq<char> {
    match format {
        OutputFormat::Jsonl => "jsonl"@,
        OutputFormat::Json => "json"@,
        OutputFormat::Yaml => "yaml"@,
        OutputFormat::Markdown => "markdown"@,
        OutputFormat::Html => "html"@,
        OutputFormat::Sonar => "sonar"@,
        OutputFormat::Csv => "csv"@,
        OutputFormat::CiSummary => "ci-summary"@,
        OutputFormat::Pretty => "pretty"@,
    }
}

/// Formats whose output is meant for programs rather than people.
pub open spec fn spec_machine_readable(format: OutputFormat) -> bool {
    match format {
        OutputFormat::Json | OutputFormat::Jsonl | OutputFormat::Yaml | OutputFormat::Csv
        | OutputFormat::Sonar | OutputFormat::CiSummary => true,
        _ => false,
    }
}

impl OutputFormat {
    /// Whether this format produces machine-readable output.
    pub fn is_machine_readable(&self) -> (res: bool)
        ensures
            res == spec_machine_readable(*self),
    {
        match self {
            OutputFormat::Json | OutputFormat::Jsonl | OutputFormat::Yaml | OutputFormat::Csv
            | OutputFormat::Sonar | OutputFormat::CiSummary => true,
            _ => false,
        }
    }
}

/// Map an `OutputFormat` to its CLI/output string representation.
pub fn format_to_string(format: &OutputFormat) -> (res: &'static str)
    ensures
        res@ == format_name(*format),
{
    match format {
        OutputFormat::Jsonl => "jsonl",
        OutputFormat::Json => "json",
        OutputFormat::Yaml => "yaml",
        OutputFormat::Markdown => "markdown",
        OutputFormat::Html => "html",
        OutputFormat::Sonar => "sonar",
        OutputFormat::Csv => "csv",
        OutputFormat::CiSummary => "ci-summary",
        OutputFormat::Pretty => "pretty",
    }
}

/// Report file name and format label for each output format.
pub open spec fn file_info_spec(format: OutputFormat) -> (Seq<char>, Seq<char>) {
    match format {
        OutputFormat::Json => ("analysis-results.json"@, "JSON"@),
        OutputFormat::Jsonl => ("analysis-results.jsonl"@, "JSONL"@),
        OutputFormat::Yaml => ("analysis-results.yaml"@, "YAML"@),
        OutputFormat::Markdown => ("team-report.md"@, "markdown"@),
        OutputFormat::Sonar => ("sonarqube-issues.json"@, "SonarQube"@),
        OutputFormat::Csv => ("analysis-data.csv"@, "CSV"@),
        _ => ("analysis-results.json"@, "JSON"@),
    }
}

/// Returns the (filename, format_label) for a given output format.
pub fn format_file_info(format: &OutputFormat) -> (res: (&'static str, &'static str))
    ensures
        (res.0@, res.1@) == file_info_spec(*format),
{
    match format {
        OutputFormat::Json => ("analysis-results.json", "JSON"),
        OutputFormat::Jsonl => ("analysis-results.jsonl", "JSONL"),
        OutputFormat::Yaml => ("analysis-results.yaml", "YAML"),
        OutputFormat::Markdown => ("team-report.md", "markdown"),
        OutputFormat::Sonar => ("sonarqube-issues.json", "SonarQube"),
        OutputFormat::Csv => ("analysis-data.csv", "CSV"),
        _ => ("analysis-results.json", "JSON"),
    }
}

/// Distinct output formats have distinct command-line names, so a name
/// identifies its format.
pub proof fn lemma_format_names_distinct(a: OutputFormat, b: OutputFormat)
    requires
        a != b,
    ensures
        format_name(a) != format_name(b),
{
    reveal_strlit("jsonl");
    reveal_strlit("json");
    reveal_strlit("yaml");
    reveal_strlit("markdown");
    reveal_strlit("html");
    reveal_strlit("sonar");
    reveal_strlit("csv");
    reveal_strlit("ci-summary");
    reveal_strlit("pretty");
    if format_name(a) == format_name(b) {
        assert(format_name(a).len() == format_name(b).len());
        assert(format_name(a)[0] == format_name(b)[0]);
        assert(format_name(a)[1] == format_name(b)[1]);
        assert(format_name(a)[3] == format_name(b)[3]);
    }
}

/// Survey invitation verbosity level.
#[derive(Clone, Copy, Debug, PartialEq, Eq, Structural)]
pub enum SurveyVerbosity {
    Low,
    Medium,
    High,
    Maximum,
}

/// Performance optimization profiles.
#[derive(Clone, Copy, Debug, PartialEq, Eq, Structural)]
pub enum PerformanceProfile {
    /// Fast mode - minimal analysis, optimized for speed
    Fast,
    /// Balanced mode - good balance of speed and thoroughness (default)
    Balanced,
    /// Thorough mode - comprehensive analysis, optimized for accuracy
    Thorough,
    /// Extreme mode - maximum analysis depth, all optimizations enabled
    Extreme,
}

/// Output format of the documentation audit.
#[derive(Clone, Copy, Debug, PartialEq, Eq, Structural)]
pub enum DocAuditFormat {
    Text,
    Json,
}

} // verus!
