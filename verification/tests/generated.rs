use excel_com_range_probe::evidence::{frame_lines, Field, FieldKind, Record};
use excel_com_range_probe::kernel::{initialize_kernel, KernelCapture};
use excel_com_range_probe::runtime_report::jsonl_of;
use excel_com_range_probe::scode_runtime::{
    array_row_id, blockers_report, check_scode_cases, check_scode_file, controls_report,
    repeat_count, scalar_row_id, scode_evidence_files, scode_report, scode_reports, write_policy,
    ScodeEvidence,
};
use excel_com_range_probe::typelib::{
    primitive_type, AuditData, AuditInput, FileEvidence,
};
use excel_com_range_probe::typelib_report::{
    candidate_report, collections_report, documentation_differences, enum_report,
    library_summary, missing_candidates, optional_arguments_report, range_report,
    source_manifest, spine_report, typelib_artifacts, typelib_reports, unresolved_report,
};
use excel_com_range_probe::value_runtime::{
    check_value_evidence, check_value_file, check_value_report, comparison_report,
    require_count, requirements_report, safearray_report, value_evidence_files, value_report,
    value_reports, ValueEvidence,
};

fn field(path: &str, kind: FieldKind, text: &str, json: &str) -> Field {
    Field {
        path: path.to_owned(),
        kind,
        text: text.to_owned(),
        json: json.to_owned(),
        int: None,
        uint: None,
        boolean: None,
        len: None,
    }
}

fn text(path: &str, value: &str) -> Field {
    field(path, FieldKind::Text, value, &format!("\"{value}\""))
}

fn num(path: &str, value: i64) -> Field {
    let mut f = field(path, FieldKind::Number, &value.to_string(), &value.to_string());
    f.int = Some(value);
    if value >= 0 {
        f.uint = Some(value as u64);
    }
    f
}

fn list(path: &str, len: usize, json: &str) -> Field {
    let mut f = field(path, FieldKind::List, json, json);
    f.len = Some(len);
    f
}

fn object(path: &str, json: &str) -> Field {
    field(path, FieldKind::Object, json, json)
}

fn record(id: &str, json: &str, fields: Vec<Field>) -> Record {
    Record::with_fields(id.to_owned(), "--".to_owned(), json.to_owned(), fields)
}

// ---- value-runtime evidence ----

#[test]
fn report_is_deterministic() {
    let rows = vec![
        record("B", "{}", vec![text("id", "B"), text("category", "x")]),
        record("A", "{}", vec![text("id", "A"), text("category", "y")]),
    ];
    assert_eq!(value_report("Test", &rows), value_report("Test", &rows));
}

#[test]
fn jsonl_is_lf_terminated() {
    assert_eq!(jsonl_of(&Vec::new()), "\n");
}

#[test]
fn empty_jsonl_has_final_lf() {
    assert_eq!(jsonl_of(&Vec::new()), "\n");
}

#[test]
fn empty_jsonl_still_has_a_final_lf() {
    assert_eq!(frame_lines(&Vec::new()), "\n");
}

#[test]
fn value_evidence_files_are_the_fifteen_committed_files() {
    let files = value_evidence_files();
    assert_eq!(files.len(), 15);
    assert_eq!(files[0], "case-definitions.jsonl");
    assert_eq!(files[14], "unresolved.jsonl");
}

#[test]
fn value_evidence_files_must_be_portable() {
    assert_eq!(check_value_file("a.jsonl", "{}\n"), Ok(()));
    assert_eq!(
        check_value_file("a.jsonl", "{}\r\n"),
        Err("a.jsonl must use LF endings and a final newline".to_owned())
    );
    assert_eq!(
        check_value_file("a.jsonl", "{}"),
        Err("a.jsonl must use LF endings and a final newline".to_owned())
    );
    assert_eq!(
        check_value_file("a.jsonl", "{\"p\":\"ptr=0x1\"}\n"),
        Err("a.jsonl contains prohibited machine-specific data".to_owned())
    );
    assert_eq!(
        check_value_file("a.jsonl", "{\"pid\":4}\n"),
        Err("a.jsonl contains prohibited machine-specific data".to_owned())
    );
    assert_eq!(
        check_value_file("a.jsonl", "{\"p\":\"\\\\?\\C:\"}\n"),
        Err("a.jsonl contains prohibited machine-specific data".to_owned())
    );
}

#[test]
fn value_counts_report_the_first_shortfall() {
    assert_eq!(
        require_count("strings", 3, 14),
        Err("strings evidence is incomplete: 3/14 rows".to_owned())
    );
    assert_eq!(require_count("strings", 14, 14), Ok(()));
    let rows = |n: usize| (0..n).map(|_| record("r", "{}", Vec::new())).collect::<Vec<_>>();
    let evidence = |blank: usize, stability: usize| ValueEvidence {
        cases: Vec::new(),
        scalar_value2: rows(28),
        scalar_value: rows(28),
        blank: rows(blank),
        dates: rows(11),
        errors: rows(7),
        formulas: rows(8),
        rectangles_read: rows(13),
        rectangles_write: rows(9),
        mixed: rows(1),
        precision: rows(10),
        strings: rows(14),
        dynamic: rows(1),
        stability: rows(stability),
        unresolved: Vec::new(),
    };
    assert_eq!(check_value_evidence(&evidence(6, 40)), Ok(()));
    assert_eq!(
        check_value_evidence(&evidence(5, 0)),
        Err("blank/null/empty evidence is incomplete: 5/6 rows".to_owned())
    );
    assert_eq!(
        check_value_evidence(&evidence(6, 39)),
        Err("stability evidence is incomplete: 39/40 rows".to_owned())
    );
}

#[test]
fn value_reports_render_rows_and_primary_results() {
    let rows = vec![
        record(
            "S-1",
            "{}",
            vec![
                text("id", "S|1"),
                text("category", "scalar"),
                text("write/hresult_hex", "0x00000000"),
                text("classification", "ignored"),
            ],
        ),
        record("S-2", "{}", vec![text("category", "scalar"), text("value2_read_call/hresult_hex", "0x800A03EC")]),
        record("S-3", "{}", vec![text("id", "S-3"), num("classification", 4)]),
    ];
    assert_eq!(
        value_report("Scalar", &rows),
        "# Scalar\n\nObserved records: 3.\n\n| ID | Category | Primary result |\n| --- | --- | --- |\n| S\\|1 | scalar | 0x00000000 |\n| -- | scalar | 0x800A03EC |\n| S-3 | -- | -- |\n"
    );
    assert!(comparison_report(&rows, &Vec::new()).contains("contains 3 `Value` and 0 `Value2` scalar rows"));
}

#[test]
fn safearray_layout_comes_from_the_marker_read() {
    let reads = vec![
        record("R-01", "{}", vec![text("id", "R-01"), object("value2_read/layout", "{\"rank\":1}")]),
        record("R-09", "{}", vec![text("id", "R-09"), object("value2_read/layout", "{\"rank\":2}")]),
    ];
    let writes = vec![record("W-01", "{}", Vec::new())];
    let report = safearray_report(&reads, &writes);
    assert!(report.starts_with("# SAFEARRAY layout\n\nRectangular reads: 2. Rectangular writes: 1."));
    assert!(report.contains("```json\n{\"rank\":2}\n```"));
    assert!(safearray_report(&Vec::new(), &Vec::new()).contains("```json\nnull\n```"));
}

#[test]
fn requirements_list_distinct_vartypes_in_order() {
    let scalar = vec![
        record("a", "{}", vec![num("value2_read/vartype", 8)]),
        record("b", "{}", vec![num("value2_read/vartype", 5)]),
        record("c", "{}", vec![num("value2_read/vartype", 8)]),
        record("d", "{}", vec![text("value2_read/vartype", "8")]),
    ];
    let report = requirements_report(&Vec::new(), &scalar, &Vec::new(), &Vec::new(), &Vec::new(), &Vec::new(), &Vec::new());
    assert!(report.contains("It is based on 0 case definitions, 4 `Value2` scalar rows, 0 `Value` scalar rows"));
    assert!(report.contains("1. Scalar physical VARTYPEs observed: 5, 8.\n2. Rectangular physical owner VARTYPEs observed: none.\n"));
}

fn value_evidence() -> ValueEvidence {
    ValueEvidence {
        cases: Vec::new(),
        scalar_value2: Vec::new(),
        scalar_value: Vec::new(),
        blank: Vec::new(),
        dates: Vec::new(),
        errors: Vec::new(),
        formulas: Vec::new(),
        rectangles_read: Vec::new(),
        rectangles_write: Vec::new(),
        mixed: Vec::new(),
        precision: Vec::new(),
        strings: Vec::new(),
        dynamic: Vec::new(),
        stability: Vec::new(),
        unresolved: Vec::new(),
    }
}

#[test]
fn value_reports_name_eighteen_files() {
    let reports = value_reports(&value_evidence());
    assert_eq!(reports.len(), 18);
    assert_eq!(reports[0].0, "scalar-value2-matrix.md");
    assert_eq!(reports[16].0, "value-model-requirements.md");
    assert_eq!(reports[17], ("remaining-blockers.md", "# Remaining blockers\n\nObserved records: 0.\n\n| ID | Category | Primary result |\n| --- | --- | --- |\n".to_owned()));
    assert_eq!(check_value_report("x.md", "a\n", &Ok("a\n".to_owned())), Ok(()));
    assert_eq!(
        check_value_report("x.md", "a\n", &Ok("b\n".to_owned())),
        Err("value-runtime report x.md is stale; rerun value-matrix-refresh".to_owned())
    );
    assert_eq!(
        check_value_report("x.md", "a\n", &Err("gone".to_owned())),
        Err("missing generated value-runtime report x.md: gone".to_owned())
    );
}

// ---- worksheet-error SCODE evidence ----

fn case(number: i64, full: i64) -> Record {
    record("c", "{}", vec![num("excel_error_number", number), num("full_scode_decimal", full)])
}

#[test]
fn scode_case_table_requires_seven_consistent_cases() {
    let numbers = [2000i64, 2007, 2015, 2023, 2029, 2036, 2042];
    let full = |n: i64| (0x800A_0000u32 | n as u32) as i32 as i64;
    let good = || numbers.iter().map(|&n| case(n, full(n))).collect::<Vec<Record>>();
    assert_eq!(check_scode_cases(&good()), Ok(()));
    assert_eq!(full(2042), -2146826246);
    let mut six = good();
    six.pop();
    assert_eq!(
        check_scode_cases(&six),
        Err("error-SCODE case table must contain seven core worksheet errors".to_owned())
    );
    let mut wrong = good();
    wrong[3] = case(2023, 2023);
    assert_eq!(check_scode_cases(&wrong), Err("full SCODE relation is inconsistent".to_owned()));
    let mut missing = good();
    missing[0] = record("c", "{}", vec![text("excel_error_number", "2000")]);
    assert_eq!(check_scode_cases(&missing), Err("missing number".to_owned()));
}

#[test]
fn scode_files_must_be_portable() {
    assert_eq!(scode_evidence_files().len(), 14);
    assert_eq!(check_scode_file("f", "{}\n"), Ok(()));
    assert_eq!(check_scode_file("f", "{}"), Err("f must use LF and a final newline".to_owned()));
    assert_eq!(
        check_scode_file("f", "{\"hwnd\":1}\n"),
        Err("f contains prohibited local identity data".to_owned())
    );
    assert_eq!(
        check_scode_file("f", "C:\\\\Temp\n"),
        Err("f contains prohibited local identity data".to_owned())
    );
}

#[test]
fn failed_and_full_scode_writes_are_repeated() {
    let ok = record("r", "{}", vec![num("write/hresult", 0)]);
    let failed = record("r", "{}", vec![num("write/hresult", -2146827284)]);
    let absent = record("r", "{}", Vec::new());
    assert_eq!(repeat_count(&failed, "short-number"), 3);
    assert_eq!(repeat_count(&absent, "full-scode"), 3);
    assert_eq!(repeat_count(&ok, "full-scode"), 2);
    assert_eq!(repeat_count(&ok, "formula-raw-copy"), 0);
    assert_eq!(scalar_row_id("na", "full-scode", "Value2", 3), "scalar.na.full-scode.Value2.run-03");
    assert_eq!(
        array_row_id("mixed-array", "div0", "short-number", "Value", 3, 3, 12),
        "mixed-array.div0.short-number.Value.3x3.run-12"
    );
}

#[test]
fn scode_reports_show_results_in_committed_order() {
    let rows = vec![
        record("b", "{}", vec![text("id", "b"), num("write/hresult", 0)]),
        record("a", "{}", vec![text("id", "a"), num("write/hresult", 1), text("write/hresult_hex", "0x00000001")]),
        record("c", "{}", Vec::new()),
    ];
    assert_eq!(
        scode_report("T", &rows),
        "# T\n\nObserved records: 3.\n\n| ID | Result |\n| --- | --- |\n| b | completed |\n| a | 0x00000001 |\n| -- | unknown |\n"
    );
    assert!(controls_report(&Vec::new(), &Vec::new()).starts_with("# Python and VBA controls\n\n# Python\n"));
    let unresolved = vec![record("u", "{\"id\":\"u\"}", Vec::new())];
    assert_eq!(blockers_report(&unresolved), "# Remaining blockers\n\n{\"id\":\"u\"}\n");
    assert!(write_policy().contains("`0x800A07FA` -> `-2146826246`"));
    let evidence = ScodeEvidence {
        formula: Vec::new(),
        scalar: rows,
        single: Vec::new(),
        mixed: Vec::new(),
        homogeneous: Vec::new(),
        documentation: Vec::new(),
        audit: Vec::new(),
        python: Vec::new(),
        vba: Vec::new(),
        unresolved: Vec::new(),
    };
    let reports = scode_reports(&evidence);
    assert_eq!(reports.len(), 11);
    assert_eq!(reports[2].0, "scode-comparison.md");
    assert!(reports[2].1.starts_with("# Short number versus full SCODE\n\nObserved records: 3."));
    assert_eq!(reports[10], ("remaining-blockers.md", String::new()));
}

// ---- type-library reports ----

#[test]
fn primitive_types_keep_structured_vartype_evidence() {
    assert_eq!(primitive_type(12).kind, "variant");
    assert_eq!(primitive_type(12).vartype_raw, 12);
    assert_eq!(primitive_type(8).kind, "bstr");
    assert_eq!(primitive_type(99).vartype, "unrecognized VARENUM");
}

fn member(candidate: &str, owner: &str, name: &str, invoke: &str, params: i64) -> Record {
    let id = format!("Excel.TypeLib.member.{candidate}.{invoke}");
    record(
        &id,
        "{}",
        vec![
            text("id", &id),
            text("canonical_documentation_id", candidate),
            text("owner", owner),
            text("typelib_interface", "Range"),
            text("name", name),
            num("dispid", 6),
            text("invoke_kind", invoke),
            object("return_type", "{\"kind\":\"variant\"}"),
            text("return_type/kind", "variant"),
            num("parameter_count", params),
            num("optional_parameter_count", 0),
            field("default_member", FieldKind::Bool, "false", "false"),
        ],
    )
}

fn audit_data() -> AuditData {
    let value = member("Excel.Range.Value", "Excel.Range", "Value", "INVOKE_PROPERTYGET", 1);
    let mut find = member("Excel.Range.Find", "Excel.Range", "Find", "INVOKE_FUNC", 9);
    find.fields.push(object("parameters#0", "{}"));
    find.fields.push(object("parameters#0/type", "{\"kind\":\"enum\",\"name\":\"XlLookAt\"}"));
    find.fields.push(text("parameters#0/type/kind", "enum"));
    find.fields.push(text("parameters#0/type/name", "XlLookAt"));
    find.fields.push(object("parameters#1/type", "{\"kind\":\"enum\",\"name\":\"XlFindLookIn\"}"));
    find.fields.push(text("parameters#1/type/kind", "enum"));
    find.fields.push(text("parameters#1/type/name", "XlFindLookIn"));
    let parameter = record(
        "p",
        "{}",
        vec![
            text("member_id", "Excel.TypeLib.member.Excel.Range.Find.INVOKE_FUNC"),
            num("ordinal", 0),
            text("name", "What"),
            object("type", "{\"kind\":\"variant\"}"),
            text("type/kind", "variant"),
            list("param_flags", 1, "[\"PARAMFLAG_FIN\"]"),
            field("optional", FieldKind::Bool, "false", "false"),
        ],
    );
    let documentation = vec![
        record("d", "{}", vec![text("id", "Excel.Range.Find"), text("kind", "method"), list("parameters", 9, "[]")]),
        record("d", "{}", vec![text("id", "Excel.Range.Value"), text("kind", "property"), list("parameters", 0, "[]")]),
    ];
    AuditData {
        library: record(
            "Excel.TypeLib",
            "{\"id\":\"Excel.TypeLib\",\"major_version\":1}",
            vec![text("name", "Excel"), num("major_version", 1), text("guid", "{00020813-0000-0000-C000-000000000046}")],
        ),
        coclasses: vec![record("c", "{}", vec![text("id", "Excel.Application.Coclass"), list("implemented_interfaces", 0, "[]")])],
        interfaces: vec![record("i", "{}", vec![text("canonical_owner", "Excel.Range"), text("name", "Range"), text("guid", "{G}"), num("type_flags_raw", 4160)])],
        members: vec![value, find],
        parameters: vec![parameter],
        enums: vec![record("e", "{}", vec![text("name", "XlLookAt"), text("guid", "{E}"), list("values", 2, "[1,2]")])],
        aliases: Vec::new(),
        unresolved: Vec::new(),
        documentation,
        source_manifest: "schema_version = 1\n".to_owned(),
    }
}

#[test]
fn candidate_report_classifies_every_candidate() {
    let data = audit_data();
    let report = candidate_report(&data);
    let rows: Vec<&str> = report.lines().filter(|l| l.starts_with("| `Excel.")).collect();
    assert_eq!(rows.len(), 50);
    assert!(rows.contains(&"| `Excel.Application.Visible` | -- | -- | -- | -- | -- | -- | -- | -- | Missing from installed typelib | Runtime verification required if later resolved. |"));
    assert!(rows.contains(&"| `Excel.Range.Find` | `Excel.Range/Range` | `Find` | 6 | `INVOKE_FUNC` | `variant` | 9 | 0 | `Excel.XlFindLookIn`, `Excel.XlLookAt` | Typelib verified | Runtime verification required: declared metadata does not establish behavior. |"));
    assert!(rows.contains(&"| `Excel.Range.Value` | `Excel.Range/Range` | `Value` | 6 | `INVOKE_PROPERTYGET` | `variant` | 1 | 0 | -- | Typelib verified | Runtime verification required: declared metadata does not establish behavior. |"));
    let missing = missing_candidates(&data.members, &data.documentation);
    assert_eq!(missing.len(), 48);
    assert_eq!(missing[0], ("Excel.Application.Visible", false));
}

#[test]
fn keyed_reports_select_members_and_parameters() {
    let data = audit_data();
    assert!(range_report(&data).contains("| `Excel.Range.Value` | `INVOKE_PROPERTYGET` | `variant` | 1 | 0 | false | Runtime verification required. |\n"));
    assert!(collections_report(&data).ends_with("| --- | --- | ---: | --- | --- | ---: | --- | --- |\n\n`_NewEnum` and default-member evidence above is declared metadata only; runtime indexing, name lookup, and enumeration lifetime remain runtime gates.\n"));
    assert!(optional_arguments_report(&data).contains("| `Excel.Range.Find` | 0 | `What` | `variant` | `[\"PARAMFLAG_FIN\"]` | -- | required | -- | Runtime verification required. |\n"));
    let differences = documentation_differences(&data);
    assert!(differences.contains("| `Excel.Range.Find` | Signature shape agrees | documentation method with 9 parameter(s); typelib INVOKE_FUNC with 9 parameter(s), DISPID 6. |\n"));
    assert!(differences.contains("| `Excel.Range.Value` | Parameter count differs | documentation property with 0 parameter(s); typelib INVOKE_PROPERTYGET with 1 parameter(s), DISPID 6. |\n"));
    assert!(differences.contains("| `Excel.Application.Quit` | Documentation record missing | Neither evidence layer supplied this target. |\n"));
}

#[test]
fn summary_reports_render_library_counts_and_enums() {
    let data = audit_data();
    let summary = library_summary(&data);
    assert!(summary.contains("| name | `Excel` |\n| guid | `{00020813-0000-0000-C000-000000000046}` |\n| major_version | `1` |\n| minor_version | `--` |\n"));
    assert!(summary.ends_with("| 1 | 1 | 2 | 1 | 1 | 0 | 0 |\n"));
    assert!(enum_report(&data).ends_with("| `XlLookAt` | `{E}` | 2 |\n"));
    assert!(unresolved_report(&data).ends_with("| None | -- | No unresolved target was emitted. |\n"));
    let spine = spine_report(&data);
    assert!(spine.contains("| `Excel.Range` | `Range` | `{G}` | 4160 | 2 |\n"));
    assert!(spine.contains("| `Excel.Application` | -- | -- | -- | 0 |\n"));
    assert!(spine.ends_with("## Application coclass\n\n- `Excel.Application.Coclass`: []\n"));
    assert_eq!(typelib_reports(&data).len(), 9);
}

#[test]
fn typelib_artifacts_are_path_ordered_and_pretty() {
    let data = audit_data();
    let artifacts = typelib_artifacts(&data).expect("library record is JSON");
    assert_eq!(artifacts.len(), 18);
    assert_eq!(artifacts[0].0, "generated/typelib/architectural-spine.md");
    assert_eq!(artifacts[9], ("typelib/SOURCE_MANIFEST.toml".to_owned(), "schema_version = 1\n".to_owned()));
    assert_eq!(artifacts[10], ("typelib/aliases.jsonl".to_owned(), "\n".to_owned()));
    assert_eq!(
        artifacts[14],
        ("typelib/library.json".to_owned(), "{\n  \"id\": \"Excel.TypeLib\",\n  \"major_version\": 1\n}\n".to_owned())
    );
    let mut broken = audit_data();
    broken.library.json = "{".to_owned();
    assert!(typelib_artifacts(&broken).is_err());
}

#[test]
fn source_manifest_escapes_the_described_installation() {
    let data = audit_data();
    let file = FileEvidence {
        basename: "EXCEL.EXE".to_owned(),
        sha256: "ab".to_owned(),
        registration_category: "HKCR".to_owned(),
    };
    let input = AuditInput {
        typelib_path: None,
        windows_version: "Windows \"11\"".to_owned(),
        excel_file_version: "16.0".to_owned(),
        office_bitness: "64-bit".to_owned(),
    };
    let manifest = source_manifest(&data.library, &file, &input);
    assert!(manifest.starts_with("schema_version = 1\naudit_tool_version = 1\n"));
    assert!(manifest.contains("library_guid = \"{00020813-0000-0000-C000-000000000046}\"\nmajor_version = 1\nminor_version = --\n"));
    assert!(manifest.contains("windows_version = \"Windows \\\"11\\\"\"\n"));
    assert!(manifest.ends_with("candidate_0_1_count = 50\n"));
}

// ---- kernel initialization ----

fn kernel(manifest: &str, environments: usize, workbooks: usize) -> KernelCapture {
    let rows = |n: usize, prefix: &str| (0..n).map(|i| record(&format!("{prefix}{i}"), "{}", Vec::new())).collect::<Vec<_>>();
    KernelCapture {
        manifest: manifest.to_owned(),
        environments: rows(environments, "env"),
        configurations: Vec::new(),
        workbooks: rows(workbooks, "wb"),
        smoke: Vec::new(),
        repeatability: Vec::new(),
        retries: Vec::new(),
        comparisons: Vec::new(),
        unresolved: Vec::new(),
    }
}

#[test]
fn kernel_initialization_fills_only_empty_sets() {
    let mut defaults = kernel("default manifest\n", 1, 0);
    defaults.configurations = vec![record("cfg", "{}", Vec::new())];
    let first = initialize_kernel(kernel("", 0, 2), kernel("default manifest\n", 1, 0));
    assert_eq!(first.manifest, "default manifest\n");
    assert_eq!(first.environments.len(), 1);
    assert_eq!(first.workbooks.len(), 2);
    let kept = initialize_kernel(kernel("mine\n", 3, 0), defaults);
    assert_eq!(kept.manifest, "mine\n");
    assert_eq!(kept.environments.len(), 3);
    assert_eq!(kept.configurations.len(), 1);
}
