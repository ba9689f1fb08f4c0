use excel_com_range_probe::pydiff::{
    cases, check_evidence_text, differential_manifest, differential_report, evidence_files,
    manifest_is_current, python_family_file, raw_family_file, require_minimum,
    requirements_report, table_report, validate_capture_options, differential_reports,
    successful_cleanups, DifferentialEvidence,
};
use excel_com_range_probe::evidence::{Field, FieldKind, Record};
use excel_com_range_probe::scode::{error_case_numbers, error_cases, full_scode};

#[test]
fn case_definitions_cover_required_families() {
    let families: Vec<&str> = cases().iter().map(|(id, _)| *id).collect();
    assert!(families.contains(&"mixed-array"));
    assert!(families.contains(&"date"));
    assert!(families.contains(&"shape-mismatch"));
    assert!(families.contains(&"dynamic-array"));
}

#[test]
fn requirements_state_the_python_variant_boundary() {
    let report = requirements_report(0, 0, 0, 0, 0, 0, 0);
    assert!(report.contains("not evidence of a raw returned VARTYPE"));
}

#[test]
fn full_scode_preserves_signed_bits() {
    assert_eq!(full_scode(2042) as u32, 0x800A07FA);
    assert_eq!(full_scode(2042), -2146826246);
}

#[test]
fn case_numbers_are_exact() {
    assert_eq!(error_case_numbers(), vec![2000, 2007, 2015, 2023, 2029, 2036, 2042]);
    assert_eq!(error_cases()[6].display, "#N/A");
}

#[test]
fn capture_options_are_checked_in_order() {
    assert!(validate_capture_options("pywin32", "generated", "all").is_ok());
    assert_eq!(
        validate_capture_options("win32com", "x", "y"),
        Err("python client must be pywin32 or comtypes".to_owned())
    );
    assert_eq!(
        validate_capture_options("comtypes", "x", "y"),
        Err("python wrapper must be dynamic or generated".to_owned())
    );
    assert_eq!(
        validate_capture_options("comtypes", "dynamic", "y"),
        Err("python family must be all, mixed, date, shape, or dynamic".to_owned())
    );
}

#[test]
fn families_select_their_evidence_files() {
    assert_eq!(raw_family_file("rectangles"), Ok("shape-mismatch-observations.jsonl"));
    assert!(raw_family_file("all").is_err());
    assert_eq!(python_family_file("date"), "date-python-observations.jsonl");
    assert_eq!(python_family_file("smoke"), "cross-mode-observations.jsonl");
    assert_eq!(evidence_files().len(), 13);
    assert!(manifest_is_current(differential_manifest()));
    assert!(!manifest_is_current("schema_version = 1\n"));
}

#[test]
fn minimum_row_counts_are_reported() {
    assert!(require_minimum("shape rows", 60, 60).is_ok());
    assert_eq!(
        require_minimum("shape rows", 59, 60),
        Err("shape rows are incomplete: 59/60 rows".to_owned())
    );
}

fn field(path: &str, kind: FieldKind, text: &str, json: &str) -> Field {
    Field {
        path: path.to_owned(),
        kind,
        text: text.to_owned(),
        json: json.to_owned(),
        int: None,
        uint: None,
        boolean: None,
        len: None,
    }
}

fn row(fields: Vec<Field>) -> Record {
    Record::with_fields("r".to_owned(), "--".to_owned(), "{}".to_owned(), fields)
}

fn verified_cleanup(value: bool) -> Field {
    let mut f = field("cleanup/owned_process_exit_verified", FieldKind::Bool, &value.to_string(), &value.to_string());
    f.boolean = Some(value);
    f
}

#[test]
fn table_reports_escape_cells() {
    let rows = vec![
        row(vec![
            field("id", FieldKind::Text, "a|b", "\"a|b\""),
            field("success", FieldKind::Bool, "true", "true"),
            field("classification", FieldKind::Text, "Runtime-observed", "\"Runtime-observed\""),
        ]),
        row(vec![
            field("family", FieldKind::Text, "date", "\"date\""),
            field("write/status", FieldKind::Text, "ok", "\"ok\""),
            field("success", FieldKind::Bool, "true", "true"),
        ]),
        row(vec![field("classification", FieldKind::Text, "A|B", "\"A|B\"")]),
        row(Vec::new()),
    ];
    assert_eq!(
        table_report("T", &rows),
        "# T\n\nObserved records: 4.\n\n| ID | Family | Result |\n| --- | --- | --- |\n| a\\|b | -- | true |\n| -- | date | \"ok\" |\n| -- | -- | \"A\\|B\" |\n| -- | -- | -- |\n"
    );
    let report = differential_report("D", 3, &Vec::new());
    assert!(report.starts_with("# D\n\nRaw records: 3. Python-visible records: 0."));
}

#[test]
fn evidence_text_must_be_portable() {
    assert!(check_evidence_text("f", "{}\n").is_ok());
    assert_eq!(check_evidence_text("f", "{}\r\n"), Err("f must use LF endings and a final newline".to_owned()));
    assert_eq!(check_evidence_text("f", "{\"pid\":1}\n"), Err("f contains machine-specific data".to_owned()));
}

fn raw(mode: &str, run: Option<&str>) -> excel_com_range_probe::pydiff::RawRow {
    excel_com_range_probe::pydiff::RawRow {
        activation_mode: Some(mode.to_owned()),
        run_id: run.map(str::to_owned),
        backend: Some("raw-windows-sys".to_owned()),
        category: Some("rectangular-differential".to_owned()),
        rows: Some(2),
        columns: Some(3),
    }
}

#[test]
fn record_identifiers_name_environment_mode_and_run() {
    use_ids();
}

fn use_ids() {
    assert_eq!(excel_com_range_probe::pydiff::python_record_id("env", "M-01"), "python.05i.env.M-01");
    assert_eq!(excel_com_range_probe::pydiff::raw_record_id("S", Some("run-01"), "M-01"), "raw.05i.S.run-01.M-01");
    assert_eq!(excel_com_range_probe::pydiff::raw_record_id("L", None, "M-01"), "raw.05i.L.M-01");
    assert_eq!(excel_com_range_probe::pydiff::run_record_id("raw-windows-sys-X", "date", Some("run-02")), "run.05i.raw-windows-sys-X.date.run-02");
    assert_eq!(excel_com_range_probe::pydiff::run_record_id("py", "all", None), "run.05i.py.all");
}

#[test]
fn raw_modes_and_repeats_are_complete() {
    let mut mixed = vec![raw("X", Some("run-01")), raw("L", None), raw("S", Some("run-01")), raw("S", Some("run-02")), raw("X", Some("run-02"))];
    assert!(excel_com_range_probe::pydiff::check_raw_modes(&mixed).is_ok());
    let partial = vec![raw("S", None), raw("L", None), raw("S", None)];
    assert_eq!(
        excel_com_range_probe::pydiff::check_raw_modes(&partial),
        Err("raw mixed-array modes are incomplete: {\"L\", \"S\"}".to_owned())
    );
    let mut shape: Vec<_> = (0..46).map(|_| raw("L", None)).collect();
    shape.extend(vec![raw("S", Some("run-01")), raw("S", Some("run-02")), raw("X", Some("run-01")), raw("X", Some("run-02"))]);
    assert!(excel_com_range_probe::pydiff::check_repeats(&mixed, &shape).is_ok());
    shape.pop();
    assert_eq!(
        excel_com_range_probe::pydiff::check_repeats(&mixed, &shape),
        Err("raw rectangular rows are incomplete: 49/50".to_owned())
    );
    mixed.remove(4);
    assert_eq!(
        excel_com_range_probe::pydiff::check_repeats(&mixed, &shape),
        Err("missing X mixed-array repeat run-02".to_owned())
    );
}

fn rows(n: usize) -> Vec<Record> {
    (0..n).map(|_| row(Vec::new())).collect()
}

fn evidence_with(counts: [usize; 9]) -> DifferentialEvidence {
    DifferentialEvidence {
        python_environments: rows(counts[0]),
        mixed_raw: rows(counts[1]),
        mixed_python: rows(counts[2]),
        date_raw: rows(counts[3]),
        date_python: rows(counts[4]),
        shape: rows(counts[5]),
        dynamic: rows(counts[6]),
        cross: Vec::new(),
        source_audit: rows(counts[7]),
        conversion: rows(counts[8]),
        unresolved: Vec::new(),
    }
}

#[test]
fn minimum_counts_are_checked_in_order() {
    let enough = evidence_with([5, 10, 35, 24, 100, 60, 25, 4, 4]);
    assert!(excel_com_range_probe::pydiff::check_differential_counts(&enough).is_ok());
    let short = evidence_with([5, 10, 35, 23, 99, 60, 25, 4, 4]);
    assert_eq!(
        excel_com_range_probe::pydiff::check_differential_counts(&short),
        Err("raw date rows are incomplete: 23/24 rows".to_owned())
    );
}

#[test]
fn differential_reports_count_verified_cleanups() {
    let cross = vec![row(vec![verified_cleanup(true)]), row(vec![verified_cleanup(false)]), row(Vec::new())];
    assert_eq!(successful_cleanups(&cross), 1);
    let evidence = DifferentialEvidence {
        python_environments: Vec::new(),
        mixed_python: Vec::new(),
        mixed_raw: vec![row(Vec::new())],
        date_python: Vec::new(),
        date_raw: Vec::new(),
        shape: Vec::new(),
        dynamic: Vec::new(),
        cross,
        source_audit: Vec::new(),
        conversion: Vec::new(),
        unresolved: Vec::new(),
    };
    let reports = differential_reports(&evidence);
    assert_eq!(reports.len(), 10);
    assert_eq!(reports[4].0, "mixed-array-differential.md");
    assert!(reports[4].1.starts_with("# Mixed SAFEARRAY differential\n\nRaw records: 1. Python-visible records: 0."));
    assert_eq!(reports[6].0, "requirements.md");
    assert!(reports[6].1.contains("; 1 recorded run(s) meet that condition."));
    assert_eq!(reports[1].1.lines().filter(|l| l.starts_with("| -- |")).count(), 3);
}
