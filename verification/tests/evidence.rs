use excel_com_range_probe::evidence::{
    diagnose, jsonl, merge_capture, merge_records, summarize, text_less, Capture, Record,
};
use excel_com_range_probe::evidence::FieldKind;
use excel_com_range_probe::parity::{parity_configuration, Mode, ParityMode};
use excel_com_range_probe::report::{
    check_artifact, escape_toml, markdown_cell, reject_mojibake, report_header, runtime_manifest,
};

fn record(id: &str, status: &str) -> Record {
    Record::new(id.to_owned(), status.to_owned(), format!("{{\"id\":\"{id}\",\"status\":\"{status}\"}}"))
}

fn capture(manifest: &str, observations: Vec<Record>, cases: Vec<Record>) -> Capture {
    Capture {
        manifest: manifest.to_owned(),
        environments: Vec::new(),
        observations,
        cases,
        unresolved: Vec::new(),
    }
}

#[test]
fn portable_manifest_contains_no_machine_path() {
    let manifest = runtime_manifest("csharp-dynamic-control");
    assert!(!manifest.contains(":\\"));
    assert!(manifest.ends_with('\n'));
}

#[test]
fn empty_jsonl_keeps_final_lf() {
    assert_eq!(jsonl(Vec::new()), "\n");
}

#[test]
fn generated_runtime_artifacts_reject_known_mojibake_patterns() {
    assert!(reject_mojibake("Application â†’ Workbooks", "report.md").is_err());
    let generated = [
        runtime_manifest("not-run"),
        report_header("Range shapes", "Rows preserve copied raw observation metadata."),
        jsonl(Vec::new()),
    ];
    for text in generated {
        reject_mojibake(&text, "artifact").expect("generated artifact contains no mojibake");
    }
}

#[test]
fn parity_mode_configurations_are_serialized_and_source_bounded() {
    let baseline = parity_configuration(ParityMode::RustBaseline);
    let pywin_dynamic = parity_configuration(ParityMode::Pywin32Dynamic);
    let comtypes_generated = parity_configuration(ParityMode::ComtypesGenerated);
    assert_eq!(baseline.invoke_lcid, 0x0400);
    assert_eq!(pywin_dynamic.activation_api, "CoCreateInstanceEx");
    assert_eq!(pywin_dynamic.invoke_lcid, 0);
    assert_eq!(comtypes_generated.get_ids_of_names_lcid, 0);
    assert!(comtypes_generated.dual_interface_handling.contains("no vtable layout is improvised"));
    assert_eq!(pywin_dynamic.mode.id(), "pywin32-dynamic");
    assert_eq!(ParityMode::parse("comtypes-dynamic").expect("mode").id(), "comtypes-dynamic");
    assert!(ParityMode::parse("invented-mode").is_err());
}

#[test]
fn every_parity_mode_parses_back_from_its_id() {
    for mode in ParityMode::all() {
        assert_eq!(ParityMode::parse(mode.id()), Ok(mode));
        assert_eq!(parity_configuration(mode).mode, mode);
    }
    assert_eq!(
        ParityMode::parse("Rust-Baseline"),
        Err("parity mode must be rust-baseline, pywin32-dynamic, pywin32-generated, comtypes-dynamic, or comtypes-generated".to_owned())
    );
}

#[test]
fn modes_are_explicit() {
    assert_eq!(Mode::parse("all").unwrap().len(), 3);
    assert!(Mode::parse("Q").is_err());
    assert_eq!(Mode::parse("s"), Ok(vec![Mode::S]));
    assert_eq!(Mode::X.activation(), "CoCreateInstanceEx(CLSCTX_SERVER), LCID 0");
}

#[test]
fn merge_keeps_existing_and_prefers_fresh_records() {
    let existing = vec![record("b", "inconclusive"), record("a", "completed")];
    let fresh = vec![record("c", "completed"), record("b", "completed")];
    let merged = merge_records(existing, fresh);
    let ids: Vec<&str> = merged.iter().map(|r| r.id.as_str()).collect();
    assert_eq!(ids, vec!["a", "b", "c"]);
    assert_eq!(merged[1].status, "completed");
}

#[test]
fn later_duplicate_wins_within_one_capture() {
    let merged = merge_records(Vec::new(), vec![record("x", "first"), record("x", "second")]);
    assert_eq!(merged.len(), 1);
    assert_eq!(merged[0].status, "second");
}

#[test]
fn jsonl_orders_records_by_identifier() {
    let text = jsonl(vec![record("b", "s"), record("a", "s")]);
    assert_eq!(text, "{\"id\":\"a\",\"status\":\"s\"}\n{\"id\":\"b\",\"status\":\"s\"}\n");
}

#[test]
fn identifiers_order_as_strings_do() {
    for (a, b) in [("a", "b"), ("", "a"), ("ab", "b"), ("Z", "a"), ("a", "ab"), ("é", "z")] {
        assert_eq!(text_less(a, b), a < b);
        assert_eq!(text_less(b, a), b < a);
    }
    assert!(!text_less("same", "same"));
}

#[test]
fn summary_counts_completed_and_other_cases() {
    let cases = vec![record("1", "completed"), record("2", "inconclusive"), record("3", "--")];
    let summary = summarize(7, &cases);
    assert_eq!(summary.observations, 7);
    assert_eq!(summary.completed_cases, 1);
    assert_eq!(summary.inconclusive_cases, 2);
}

#[test]
fn diagnose_summarizes_fresh_run_and_merges_it() {
    let existing = capture("old", vec![record("runtime.blocked", "--")], Vec::new());
    let fresh = capture(
        "new",
        vec![record("runtime.fresh", "--")],
        vec![record("case.a", "completed"), record("case.b", "inconclusive")],
    );
    let (summary, merged) = diagnose(existing, fresh);
    assert_eq!(summary.observations, 1);
    assert_eq!(summary.completed_cases, 1);
    assert_eq!(summary.inconclusive_cases, 1);
    assert_eq!(merged.manifest, "new");
    assert_eq!(merged.observations.len(), 2);
    assert_eq!(merged.observations[0].id, "runtime.blocked");
    let again = merge_capture(capture("m", Vec::new(), Vec::new()), capture("n", Vec::new(), Vec::new()));
    assert_eq!(again.manifest, "n");
}

#[test]
fn portable_manifest_escapes_machine_text() {
    assert_eq!(escape_toml("A\\B\"C"), "A\\\\B\\\"C");
}

#[test]
fn runtime_manifest_embeds_escaped_control_version() {
    let manifest = runtime_manifest("a\"b");
    assert!(manifest.starts_with("schema_version = 1\nprobe_version = 2\n"));
    assert!(manifest.contains("control_version = \"a\\\"b\"\n"));
}

#[test]
fn markdown_cells_are_single_line_and_pipe_safe() {
    assert_eq!(markdown_cell("  a|b\r\nc\nd  "), "a\\|b<br>c<br>d");
    assert_eq!(markdown_cell("   "), "");
}

#[test]
fn report_header_is_fixed() {
    assert_eq!(
        report_header("T", "S"),
        "# T\n\nGenerated by `excel-com-range-probe`; do not edit by hand. S\n\nRuntime observations are version-specific and do not define a public API.\n\n"
    );
}

#[test]
fn artifacts_must_match_and_be_lf_terminated() {
    let read = |t: &str| Ok::<String, String>(t.to_owned());
    assert!(check_artifact("r", "p", "x\n", &read("x\n")).is_ok());
    assert_eq!(
        check_artifact("r", "p", "x\n", &read("y\n")),
        Err("runtime artifact p is stale; rerun the explicit live probe".to_owned())
    );
    assert_eq!(
        check_artifact("r", "p", "x", &read("x")),
        Err("runtime artifact p must have LF endings and a final newline".to_owned())
    );
    assert_eq!(
        check_artifact("r", "p", "\u{FFFD}\n", &Err("gone".to_owned())),
        Err("runtime artifact r contains mojibake pattern \"\u{FFFD}\"".to_owned())
    );
    assert_eq!(
        check_artifact("r", "p", "x\n", &Err("gone".to_owned())),
        Err("cannot read p: gone".to_owned())
    );
}

fn field(path: &str, kind: excel_com_range_probe::evidence::FieldKind, text: &str, json: &str) -> excel_com_range_probe::evidence::Field {
    excel_com_range_probe::evidence::Field {
        path: path.to_owned(),
        kind,
        text: text.to_owned(),
        json: json.to_owned(),
        int: None,
        uint: None,
        boolean: None,
        len: None,
    }
}

#[test]
fn reports_are_stable_for_empty_capture() {
    let empty = || capture(&excel_com_range_probe::report::runtime_manifest("not-run"), Vec::new(), Vec::new());
    let first = excel_com_range_probe::refresh(&empty());
    let second = excel_com_range_probe::refresh(&empty());
    assert_eq!(first, second);
    assert_eq!(first.len(), 24);
    assert!(first.iter().all(|(_, text)| text.ends_with('\n')));
    for (path, text) in &first {
        reject_mojibake(text, path).expect("generated artifact contains no mojibake");
    }
    assert_eq!(first[0].0, "generated/runtime/control-comparison.md");
    assert_eq!(first[23].0, "runtime/unresolved.jsonl");
    assert_eq!(first[23].1, "\n");
}

#[test]
fn observation_reports_show_matching_rows_by_identifier() {
    let row = |id: &str, category: &str| {
        let mut fields = vec![
            field("id", FieldKind::Text, id, &format!("\"{id}\"")),
            field("case_id", FieldKind::Text, "case|1", "\"case|1\""),
            field("categories", FieldKind::List, &format!("[\"{category}\"]"), &format!("[\"{category}\"]")),
            field("categories#0", FieldKind::Text, category, &format!("\"{category}\"")),
            field("classification", FieldKind::Text, "Runtime-observed", "\"Runtime-observed\""),
        ];
        fields[2].len = Some(1);
        Record::with_fields(id.to_owned(), "--".to_owned(), "{}".to_owned(), fields)
    };
    let observations = vec![row("b", "scalar"), row("a", "scalar"), row("c", "array")];
    let reports = excel_com_range_probe::runtime_report::reports(&capture("m", observations, Vec::new()));
    let (name, scalar) = &reports[12];
    assert_eq!(*name, "scalar-values.md");
    let lines: Vec<&str> = scalar.lines().collect();
    let table: Vec<&&str> = lines.iter().filter(|l| l.starts_with("| `")).collect();
    assert_eq!(table.len(), 2);
    assert_eq!(*table[0], "| `case|1` | `--` | `--` | `--` | `--` | scalar | Runtime-observed |");
    let (name, shapes) = &reports[8];
    assert_eq!(*name, "range-shapes.md");
    assert!(shapes.contains("| `case|1` |"));
    let (name, writes) = &reports[18];
    assert_eq!(*name, "writes.md");
    assert!(writes.ends_with("| -- | -- | -- | -- | No observation captured. | -- | Not tested |\n"));
}

#[test]
fn unresolved_parity_rows_name_their_mode() {
    let record = Record::with_fields(
        "runtime.unresolved.05d.r1.pywin32-generated.range-smoke".to_owned(),
        "--".to_owned(),
        "{}".to_owned(),
        vec![field("id", FieldKind::Text, "runtime.unresolved.05d.r1.pywin32-generated.range-smoke", "\"x\"")],
    );
    assert_eq!(excel_com_range_probe::runtime_report::parity_mode_for_unresolved(&record), "pywin32-generated");
    let report = excel_com_range_probe::runtime_report::parity_blockers_report(&vec![record]);
    assert!(report.contains("| `pywin32-generated` | `--` | `--` | -- |\n"));
}

#[test]
fn sorting_keeps_the_order_of_equal_identifiers() {
    let sorted = excel_com_range_probe::evidence::sort_records(vec![
        record("b", "first"),
        record("a", "second"),
        record("b", "third"),
    ]);
    let order: Vec<(&str, &str)> = sorted.iter().map(|r| (r.id.as_str(), r.status.as_str())).collect();
    assert_eq!(order, vec![("a", "second"), ("b", "first"), ("b", "third")]);
}
