# valknut

The front end of the Valknut code-analysis tool: the `valknut` command line
and its MCP (JSON-RPC over stdio) server. The analysis itself is done by the
Valknut engine; this crate decides everything around it and proves those
decisions with Verus.

## Layout

- `src/` — the verified library, one module per concern:
  - `format`, `labels`, `text`, `json` — output formats, labels and badges,
    verified string helpers, and a JSON value model with a spec view;
  - `args`, `config`, `doc_audit` — the command-line model and the layered
    configuration (defaults, configuration file, command line), with the
    merge laws proved as public lemmas;
  - `quality_gates` — gate settings, count violations and the files named in
    them;
  - `cache`, `mcp` — the MCP server's session cache (at most ten paths,
    five-minute expiry, oldest evicted first, held as a type invariant) and
    request handling;
  - `report` — the Markdown, HTML, CSV, SonarQube and CI reports, each stated
    exactly as a spec function of the analysis result;
  - `display`, `overview` — what the terminal output shows.
- `tests/` — tests of the library on concrete values.
- `app/` — the program: argument parsing, files, the terminal, the async MCP
  loop, and the engine calls. Scores and thresholds are floating-point
  values and are handled there; everything else is decided by the library.

Only two things are taken on trust: std's `String::push`, and chrono's clock
reading (the report date, whose form is stated but whose value is not).

Verify with Verus on `src/lib.rs`; run the tests with cargo.
