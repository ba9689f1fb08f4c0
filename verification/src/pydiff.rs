//! Evidence layout, options, completeness checks and reports of the
//! Python-client differential.

use vstd::prelude::*;

use crate::evidence::{find_field, strictly_ordered, texts_of, Field, FieldKind, Record};
use crate::runtime_report::{fstr, fstr_of};
use crate::text::{decimal, push_decimal, push_str, replace_spec, replace_text, str_eq, contains_spec, contains_text};

verus! {

/// The evidence files of the differential, in their fixed order.
pub open spec fn evidence_file_list() -> Seq<Seq<char>> {
    seq![
        "environments.jsonl"@,
        "python-environments.jsonl"@,
        "case-definitions.jsonl"@,
        "mixed-array-rust-observations.jsonl"@,
        "mixed-array-python-observations.jsonl"@,
        "date-rust-observations.jsonl"@,
        "date-python-observations.jsonl"@,
        "shape-mismatch-observations.jsonl"@,
        "dynamic-array-observations.jsonl"@,
        "cross-mode-observations.jsonl"@,
        "source-audit.jsonl"@,
        "conversion-policy-comparison.jsonl"@,
        "unresolved.jsonl"@,
    ]
}

pub fn evidence_files() -> (v: Vec<&'static str>)
    ensures
        v@.map_values(|s: &str| s@) == evidence_file_list(),
{
    let mut v: Vec<&'static str> = Vec::new();
    v.push("environments.jsonl");
    v.push("python-environments.jsonl");
    v.push("case-definitions.jsonl");
    v.push("mixed-array-rust-observations.jsonl");
    v.push("mixed-array-python-observations.jsonl");
    v.push("date-rust-observations.jsonl");
    v.push("date-python-observations.jsonl");
    v.push("shape-mismatch-observations.jsonl");
    v.push("dynamic-array-observations.jsonl");
    v.push("cross-mode-observations.jsonl");
    v.push("source-audit.jsonl");
    v.push("conversion-policy-comparison.jsonl");
    v.push("unresolved.jsonl");
    assert(v@.map_values(|s: &str| s@) =~= evidence_file_list());
    v
}

pub open spec fn differential_manifest_text() -> Seq<char> {
    "schema_version = 1\nname = \"excel-com-python-client-differential\"\nclassification = \"research-only\"\nraw_backend = \"windows-sys generic IDispatch\"\npython_clients = [\"pywin32\", \"comtypes\"]\nvalue_boundary = \"Python-visible values are never inferred to be raw returned VARTYPEs.\"\n"@
}

/// The source manifest of the differential evidence.
pub fn differential_manifest() -> (s: &'static str)
    ensures
        s@ == differential_manifest_text(),
{
    "schema_version = 1\nname = \"excel-com-python-client-differential\"\nclassification = \"research-only\"\nraw_backend = \"windows-sys generic IDispatch\"\npython_clients = [\"pywin32\", \"comtypes\"]\nvalue_boundary = \"Python-visible values are never inferred to be raw returned VARTYPEs.\"\n"
}

/// The planned case families with their descriptions.
pub open spec fn case_list() -> Seq<(Seq<char>, Seq<char>)> {
    seq![
        ("mixed-array"@, "Fixed-position heterogeneous inputs, isolating Empty, Null, I4, error, date, and currency candidates."@),
        ("date"@, "OA -1, 0, 1, fraction, modern, and negative-fraction comparisons through Value and Value2."@),
        ("shape-mismatch"@, "Natural Python sequence rank and rectangular target-shape controls."@),
        ("dynamic-array"@, "Formula2 SEQUENCE, text-spill, and blocked-spill controls."@),
        ("stability"@, "Raw L/S/X repetitions are retained separately from client-wrapper conversion observations."@),
    ]
}

pub fn cases() -> (v: Vec<(&'static str, &'static str)>)
    ensures
        v@.map_values(|p: (&str, &str)| (p.0@, p.1@)) == case_list(),
{
    let mut v: Vec<(&'static str, &'static str)> = Vec::new();
    v.push(("mixed-array", "Fixed-position heterogeneous inputs, isolating Empty, Null, I4, error, date, and currency candidates."));
    v.push(("date", "OA -1, 0, 1, fraction, modern, and negative-fraction comparisons through Value and Value2."));
    v.push(("shape-mismatch", "Natural Python sequence rank and rectangular target-shape controls."));
    v.push(("dynamic-array", "Formula2 SEQUENCE, text-spill, and blocked-spill controls."));
    v.push(("stability", "Raw L/S/X repetitions are retained separately from client-wrapper conversion observations."));
    assert(v@.map_values(|p: (&str, &str)| (p.0@, p.1@)) =~= case_list());
    v
}

/// The internal requirements derived from the evidence counts.
pub open spec fn requirements_text(
    mixed_python: usize,
    mixed_raw: usize,
    date_python: usize,
    date_raw: usize,
    shape: usize,
    dynamic: usize,
    successful_cleanup: usize,
) -> Seq<char> {
    "# Internal value-model requirements\n\nThis derived report records research requirements only; it defines no public Rust API.\n\n1. Retain raw VARTYPE, HRESULT, EXCEPINFO, `puArgErr`, SAFEARRAY rank, and bounds independently from any Python-client conversion.\n2. A client-visible `None`, numeric value, `datetime`, `Decimal`, or tuple is not evidence of a raw returned VARTYPE.\n3. Preserve the exact mixed-array position and client-side input metadata for all "@ + decimal(mixed_python as nat) + " Python and "@ + decimal(mixed_raw as nat) + " raw rows.\n4. Preserve `Value` and `Value2`, OA serial, and NumberFormat context for all "@ + decimal(date_python as nat) + " Python and "@ + decimal(date_raw as nat) + " raw date rows.\n5. Shape/rank rejection or coercion must retain the target range and source sequence shape ("@ + decimal(shape as nat) + " rows).\n6. Formula2 spill and blocked-spill results remain capability observations, not assumptions ("@ + decimal(dynamic as nat) + " rows).\n7. Each live run must begin with no Excel process and finish with an owned natural exit; "@ + decimal(successful_cleanup as nat) + " recorded run(s) meet that condition.\n8. No public enum, conversion policy implementation, or Excel-specific vtable is introduced.\n"@
}

pub fn requirements_report(
    mixed_python: usize,
    mixed_raw: usize,
    date_python: usize,
    date_raw: usize,
    shape: usize,
    dynamic: usize,
    successful_cleanup: usize,
) -> (s: String)
    ensures
        s@ == requirements_text(
            mixed_python,
            mixed_raw,
            date_python,
            date_raw,
            shape,
            dynamic,
            successful_cleanup,
        ),
{
    let mut s = String::new();
    push_str(&mut s, "# Internal value-model requirements\n\nThis derived report records research requirements only; it defines no public Rust API.\n\n1. Retain raw VARTYPE, HRESULT, EXCEPINFO, `puArgErr`, SAFEARRAY rank, and bounds independently from any Python-client conversion.\n2. A client-visible `None`, numeric value, `datetime`, `Decimal`, or tuple is not evidence of a raw returned VARTYPE.\n3. Preserve the exact mixed-array position and client-side input metadata for all ");
    push_decimal(&mut s, mixed_python as u64);
    push_str(&mut s, " Python and ");
    push_decimal(&mut s, mixed_raw as u64);
    push_str(&mut s, " raw rows.\n4. Preserve `Value` and `Value2`, OA serial, and NumberFormat context for all ");
    push_decimal(&mut s, date_python as u64);
    push_str(&mut s, " Python and ");
    push_decimal(&mut s, date_raw as u64);
    push_str(&mut s, " raw date rows.\n5. Shape/rank rejection or coercion must retain the target range and source sequence shape (");
    push_decimal(&mut s, shape as u64);
    push_str(&mut s, " rows).\n6. Formula2 spill and blocked-spill results remain capability observations, not assumptions (");
    push_decimal(&mut s, dynamic as u64);
    push_str(&mut s, " rows).\n7. Each live run must begin with no Excel process and finish with an owned natural exit; ");
    push_decimal(&mut s, successful_cleanup as u64);
    push_str(&mut s, " recorded run(s) meet that condition.\n8. No public enum, conversion policy implementation, or Excel-specific vtable is introduced.\n");
    s
}

/// Why a capture request is refused: the client, the wrapper or the family
/// is not one that the harness knows.
pub open spec fn capture_option_error(client: Seq<char>, wrapper: Seq<char>, family: Seq<char>) -> Option<Seq<char>> {
    if !(client == "pywin32"@ || client == "comtypes"@) {
        Some("python client must be pywin32 or comtypes"@)
    } else if !(wrapper == "dynamic"@ || wrapper == "generated"@) {
        Some("python wrapper must be dynamic or generated"@)
    } else if !(family == "all"@ || family == "mixed"@ || family == "date"@ || family == "shape"@
        || family == "dynamic"@) {
        Some("python family must be all, mixed, date, shape, or dynamic"@)
    } else {
        None
    }
}

pub fn validate_capture_options(client: &str, wrapper: &str, family: &str) -> (r: Result<(), String>)
    ensures
        match capture_option_error(client@, wrapper@, family@) {
            None => r is Ok,
            Some(m) => r matches Err(e) && e@ == m,
        },
{
    if !(str_eq(client, "pywin32") || str_eq(client, "comtypes")) {
        return Err(String::from_str("python client must be pywin32 or comtypes"));
    }
    if !(str_eq(wrapper, "dynamic") || str_eq(wrapper, "generated")) {
        return Err(String::from_str("python wrapper must be dynamic or generated"));
    }
    if !(str_eq(family, "all") || str_eq(family, "mixed") || str_eq(family, "date") || str_eq(
        family,
        "shape",
    ) || str_eq(family, "dynamic")) {
        return Err(String::from_str("python family must be all, mixed, date, shape, or dynamic"));
    }
    Ok(())
}

/// The evidence file of a raw differential family.
pub open spec fn raw_family_file_spec(family: Seq<char>) -> Option<Seq<char>> {
    if family == "mixed"@ {
        Some("mixed-array-rust-observations.jsonl"@)
    } else if family == "date"@ {
        Some("date-rust-observations.jsonl"@)
    } else if family == "shape"@ || family == "rectangles"@ {
        Some("shape-mismatch-observations.jsonl"@)
    } else if family == "dynamic"@ {
        Some("dynamic-array-observations.jsonl"@)
    } else {
        None
    }
}

pub fn raw_family_file(family: &str) -> (r: Result<&'static str, String>)
    ensures
        match raw_family_file_spec(family@) {
            Some(f) => r matches Ok(g) && g@ == f,
            None => r matches Err(e) && e@
                == "raw differential family must be mixed, date, shape, rectangles, or dynamic"@,
        },
{
    if str_eq(family, "mixed") {
        Ok("mixed-array-rust-observations.jsonl")
    } else if str_eq(family, "date") {
        Ok("date-rust-observations.jsonl")
    } else if str_eq(family, "shape") || str_eq(family, "rectangles") {
        Ok("shape-mismatch-observations.jsonl")
    } else if str_eq(family, "dynamic") {
        Ok("dynamic-array-observations.jsonl")
    } else {
        Err(String::from_str(
            "raw differential family must be mixed, date, shape, rectangles, or dynamic",
        ))
    }
}

/// The evidence file of a Python-visible record of the given family;
/// records of other families go to the cross-mode file.
pub open spec fn python_family_file_spec(family: Seq<char>) -> Seq<char> {
    if family == "mixed-array"@ {
        "mixed-array-python-observations.jsonl"@
    } else if family == "date"@ {
        "date-python-observations.jsonl"@
    } else if family == "shape-mismatch"@ {
        "shape-mismatch-observations.jsonl"@
    } else if family == "dynamic-array"@ {
        "dynamic-array-observations.jsonl"@
    } else {
        "cross-mode-observations.jsonl"@
    }
}

pub fn python_family_file(family: &str) -> (f: &'static str)
    ensures
        f@ == python_family_file_spec(family@),
{
    if str_eq(family, "mixed-array") {
        "mixed-array-python-observations.jsonl"
    } else if str_eq(family, "date") {
        "date-python-observations.jsonl"
    } else if str_eq(family, "shape-mismatch") {
        "shape-mismatch-observations.jsonl"
    } else if str_eq(family, "dynamic-array") {
        "dynamic-array-observations.jsonl"
    } else {
        "cross-mode-observations.jsonl"
    }
}

pub open spec fn minimum_message(label: Seq<char>, count: nat, minimum: nat) -> Seq<char> {
    label + " are incomplete: "@ + decimal(count) + "/"@ + decimal(minimum) + " rows"@
}

/// Requires at least `minimum` rows of a kind.
pub fn require_minimum(label: &str, count: usize, minimum: usize) -> (r: Result<(), String>)
    ensures
        count >= minimum ==> r is Ok,
        count < minimum ==> (r matches Err(e) && e@ == minimum_message(
            label@,
            count as nat,
            minimum as nat,
        )),
{
    if count < minimum {
        let mut s = String::new();
        push_str(&mut s, label);
        push_str(&mut s, " are incomplete: ");
        push_decimal(&mut s, count as u64);
        push_str(&mut s, "/");
        push_decimal(&mut s, minimum as u64);
        push_str(&mut s, " rows");
        Err(s)
    } else {
        Ok(())
    }
}

/// A value as a table cell: `--` when absent, pipes escaped.
pub open spec fn field_cell(value: Option<Seq<char>>) -> Seq<char> {
    replace_spec(
        match value {
            Some(v) => v,
            None => "--"@,
        },
        "|"@,
        "\\|"@,
    )
}

fn push_field_cell(s: &mut String, value: Option<&str>)
    ensures
        final(s)@ == old(s)@ + field_cell(
            match value {
                Some(v) => Some(v@),
                None => None,
            },
        ),
{
    proof {
        reveal_strlit("|");
    }
    let escaped = match value {
        Some(v) => replace_text(v, "|", "\\|"),
        None => replace_text("--", "|", "\\|"),
    };
    push_str(s, escaped.as_str());
}

/// The value a row's result is read from: its write status, else `success`,
/// else `classification`, whichever is present first.
pub open spec fn result_field(r: Record) -> Option<Field> {
    let status = find_field(r.fields@, "write/status"@);
    let success = find_field(r.fields@, "success"@);
    if status is Some {
        status
    } else if success is Some {
        success
    } else {
        find_field(r.fields@, "classification"@)
    }
}

/// A row's result as the table shows it: the chosen value's JSON text.
pub open spec fn row_result(r: Record) -> Option<Seq<char>> {
    match result_field(r) {
        Some(f) => Some(f.json@),
        None => None,
    }
}

fn row_result_of(r: &Record) -> (o: Option<&str>)
    ensures
        match o {
            Some(t) => row_result(*r) == Some(t@),
            None => row_result(*r) is None,
        },
{
    let status = crate::evidence::field(r, "write/status");
    let chosen = if status.is_some() {
        status
    } else {
        let success = crate::evidence::field(r, "success");
        if success.is_some() {
            success
        } else {
            crate::evidence::field(r, "classification")
        }
    };
    match chosen {
        Some(f) => Some(f.json.as_str()),
        None => None,
    }
}

pub open spec fn table_row_text(r: Record) -> Seq<char> {
    "| "@ + field_cell(fstr(r, "id"@)) + " | "@ + field_cell(fstr(r, "family"@)) + " | "@
        + field_cell(row_result(r)) + " |\n"@
}

fn push_table_row(s: &mut String, r: &Record)
    ensures
        final(s)@ == old(s)@ + table_row_text(*r),
{
    let ghost start = s@;
    push_str(s, "| ");
    push_field_cell(s, fstr_of(r, "id"));
    push_str(s, " | ");
    push_field_cell(s, fstr_of(r, "family"));
    push_str(s, " | ");
    push_field_cell(s, row_result_of(r));
    push_str(s, " |\n");
    assert(s@ =~= start + table_row_text(*r));
}

pub open spec fn table_rows_text(rows: Seq<Record>) -> Seq<char>
    decreases rows.len(),
{
    if rows.len() == 0 {
        Seq::empty()
    } else {
        table_rows_text(rows.drop_last()) + table_row_text(rows.last())
    }
}

pub open spec fn table_report_text(title: Seq<char>, rows: Seq<Record>) -> Seq<char> {
    "# "@ + title + "\n\nObserved records: "@ + decimal(rows.len())
        + ".\n\n| ID | Family | Result |\n| --- | --- | --- |\n"@ + table_rows_text(rows)
}

/// A report listing each row's string identifier and family and its result,
/// in committed order.
pub fn table_report(title: &str, rows: &Vec<Record>) -> (s: String)
    ensures
        s@ == table_report_text(title@, rows@),
{
    let mut s = String::new();
    push_str(&mut s, "# ");
    push_str(&mut s, title);
    push_str(&mut s, "\n\nObserved records: ");
    push_decimal(&mut s, rows.len() as u64);
    push_str(&mut s, ".\n\n| ID | Family | Result |\n| --- | --- | --- |\n");
    let ghost head = s@;
    let mut i: usize = 0;
    while i < rows.len()
        invariant
            i <= rows@.len(),
            s@ == head + table_rows_text(rows@.take(i as int)),
        decreases rows.len() - i,
    {
        assert(rows@.take(i + 1).drop_last() =~= rows@.take(i as int));
        push_table_row(&mut s, &rows[i]);
        i = i + 1;
        assert(s@ =~= head + table_rows_text(rows@.take(i as int)));
    }
    assert(rows@.take(i as int) =~= rows@);
    s
}

pub open spec fn differential_report_text(title: Seq<char>, raw_count: nat, python: Seq<Record>) -> Seq<char> {
    "# "@ + title + "\n\nRaw records: "@ + decimal(raw_count) + ". Python-visible records: "@ + decimal(
        python.len(),
    )
        + ". Python client values are post-conversion observations and are not asserted to be physical return VARTYPEs.\n\n"@
        + table_report_text("Python-side rows"@, python)
}

/// A raw-versus-Python report: both counts, then the Python-side rows.
pub fn differential_report(title: &str, raw_count: usize, python: &Vec<Record>) -> (s: String)
    ensures
        s@ == differential_report_text(title@, raw_count as nat, python@),
{
    let mut s = String::new();
    push_str(&mut s, "# ");
    push_str(&mut s, title);
    push_str(&mut s, "\n\nRaw records: ");
    push_decimal(&mut s, raw_count as u64);
    push_str(&mut s, ". Python-visible records: ");
    push_decimal(&mut s, python.len() as u64);
    push_str(
        &mut s,
        ". Python client values are post-conversion observations and are not asserted to be physical return VARTYPEs.\n\n",
    );
    let table = table_report("Python-side rows", python);
    push_str(&mut s, table.as_str());
    s
}

/// Whether a run record verified the natural exit of its owned process.
pub open spec fn cleanup_verified(r: Record) -> bool {
    match find_field(r.fields@, "cleanup/owned_process_exit_verified"@) {
        Some(f) => f.kind == FieldKind::Bool && f.boolean == Some(true),
        None => false,
    }
}

pub open spec fn cleanup_count(rows: Seq<Record>) -> nat
    decreases rows.len(),
{
    if rows.len() == 0 {
        0
    } else {
        cleanup_count(rows.drop_last()) + if cleanup_verified(rows.last()) {
            1nat
        } else {
            0nat
        }
    }
}

/// How many run records verified the natural exit of their owned process.
pub fn successful_cleanups(rows: &Vec<Record>) -> (n: usize)
    ensures
        n == cleanup_count(rows@),
{
    let mut n: usize = 0;
    let mut i: usize = 0;
    while i < rows.len()
        invariant
            i <= rows@.len(),
            n == cleanup_count(rows@.take(i as int)),
            n <= i,
        decreases rows.len() - i,
    {
        assert(rows@.take(i + 1).drop_last() =~= rows@.take(i as int));
        let verified = match crate::evidence::field(&rows[i], "cleanup/owned_process_exit_verified") {
            Some(f) => f.kind == FieldKind::Bool && match f.boolean {
                Some(b) => b,
                None => false,
            },
            None => false,
        };
        if verified {
            n = n + 1;
        }
        i = i + 1;
    }
    assert(rows@.take(i as int) =~= rows@);
    n
}

/// The committed differential evidence that the reports are generated from.
#[derive(Debug)]
pub struct DifferentialEvidence {
    pub python_environments: Vec<Record>,
    pub mixed_python: Vec<Record>,
    pub mixed_raw: Vec<Record>,
    pub date_python: Vec<Record>,
    pub date_raw: Vec<Record>,
    pub shape: Vec<Record>,
    pub dynamic: Vec<Record>,
    pub cross: Vec<Record>,
    pub source_audit: Vec<Record>,
    pub conversion: Vec<Record>,
    pub unresolved: Vec<Record>,
}

/// The generated differential reports, by file name in name order.
pub fn differential_reports(evidence: &DifferentialEvidence) -> (v: Vec<(&'static str, String)>)
    ensures
        v@.len() == 10,
        v@[0].0@ == "conversion-policies.md"@,
        v@[0].1@ == table_report_text("Conversion-policy comparison"@, evidence.conversion@),
        v@[1].0@ == "cross-mode.md"@,
        v@[1].1@ == table_report_text("Cross-mode and cleanup observations"@, evidence.cross@),
        v@[2].0@ == "date-differential.md"@,
        v@[2].1@ == differential_report_text("Date differential"@, evidence.date_raw@.len(), evidence.date_python@),
        v@[3].0@ == "dynamic-arrays.md"@,
        v@[3].1@ == table_report_text("Formula2 and dynamic-array observations"@, evidence.dynamic@),
        v@[4].0@ == "mixed-array-differential.md"@,
        v@[4].1@ == differential_report_text("Mixed SAFEARRAY differential"@, evidence.mixed_raw@.len(), evidence.mixed_python@),
        v@[5].0@ == "python-environments.md"@,
        v@[5].1@ == table_report_text("Python environments"@, evidence.python_environments@),
        v@[6].0@ == "requirements.md"@,
        v@[6].1@ == requirements_text(
            evidence.mixed_python@.len() as usize,
            evidence.mixed_raw@.len() as usize,
            evidence.date_python@.len() as usize,
            evidence.date_raw@.len() as usize,
            evidence.shape@.len() as usize,
            evidence.dynamic@.len() as usize,
            cleanup_count(evidence.cross@) as usize,
        ),
        v@[7].0@ == "shape-mismatch.md"@,
        v@[7].1@ == table_report_text("Shape mismatch observations"@, evidence.shape@),
        v@[8].0@ == "source-audit.md"@,
        v@[8].1@ == table_report_text("Python client source audit"@, evidence.source_audit@),
        v@[9].0@ == "unresolved.md"@,
        v@[9].1@ == table_report_text("Unresolved observations"@, evidence.unresolved@),
{
    let mut v: Vec<(&'static str, String)> = Vec::new();
    v.push(("conversion-policies.md", table_report("Conversion-policy comparison", &evidence.conversion)));
    v.push(("cross-mode.md", table_report("Cross-mode and cleanup observations", &evidence.cross)));
    v.push(("date-differential.md", differential_report("Date differential", evidence.date_raw.len(), &evidence.date_python)));
    v.push(("dynamic-arrays.md", table_report("Formula2 and dynamic-array observations", &evidence.dynamic)));
    v.push(("mixed-array-differential.md", differential_report("Mixed SAFEARRAY differential", evidence.mixed_raw.len(), &evidence.mixed_python)));
    v.push(("python-environments.md", table_report("Python environments", &evidence.python_environments)));
    let cleanups = successful_cleanups(&evidence.cross);
    v.push((
        "requirements.md",
        requirements_report(
            evidence.mixed_python.len(),
            evidence.mixed_raw.len(),
            evidence.date_python.len(),
            evidence.date_raw.len(),
            evidence.shape.len(),
            evidence.dynamic.len(),
            cleanups,
        ),
    ));
    v.push(("shape-mismatch.md", table_report("Shape mismatch observations", &evidence.shape)));
    v.push(("source-audit.md", table_report("Python client source audit", &evidence.source_audit)));
    v.push(("unresolved.md", table_report("Unresolved observations", &evidence.unresolved)));
    v
}

/// Whether a committed source manifest is the current one, LF-terminated.
pub fn manifest_is_current(text: &str) -> (b: bool)
    ensures
        b == (text@ == differential_manifest_text()),
{
    str_eq(text, differential_manifest())
}

/// Why an evidence file's text is refused: CRLF or a missing final newline,
/// or machine-specific data (an extended-length path, a process id, a
/// pointer).
pub open spec fn evidence_text_error(path: Seq<char>, text: Seq<char>) -> Option<Seq<char>> {
    if contains_spec(text, "\r\n"@) || text.len() == 0 || text.last() != '\n' {
        Some(path + " must use LF endings and a final newline"@)
    } else if contains_spec(text, "\\\\?\\"@) || contains_spec(text, "\"pid\""@) || contains_spec(
        text,
        "ptr="@,
    ) {
        Some(path + " contains machine-specific data"@)
    } else {
        None
    }
}

pub fn check_evidence_text(path: &str, text: &str) -> (r: Result<(), String>)
    ensures
        match evidence_text_error(path@, text@) {
            None => r is Ok,
            Some(m) => r matches Err(e) && e@ == m,
        },
{
    if !crate::report::is_lf_terminated(text) {
        let mut s = String::new();
        push_str(&mut s, path);
        push_str(&mut s, " must use LF endings and a final newline");
        return Err(s);
    }
    if contains_text(text, "\\\\?\\") || contains_text(text, "\"pid\"") || contains_text(
        text,
        "ptr=",
    ) {
        let mut s = String::new();
        push_str(&mut s, path);
        push_str(&mut s, " contains machine-specific data");
        return Err(s);
    }
    Ok(())
}

/// The identifier a Python-visible record is stored under.
pub fn python_record_id(environment_id: &str, source_id: &str) -> (s: String)
    ensures
        s@ == "python.05i."@ + environment_id@ + "."@ + source_id@,
{
    let mut s = String::new();
    push_str(&mut s, "python.05i.");
    push_str(&mut s, environment_id);
    push_str(&mut s, ".");
    push_str(&mut s, source_id);
    s
}

/// The identifier a raw record is stored under, with the run when one is named.
pub fn raw_record_id(mode: &str, run_id: Option<&str>, source_id: &str) -> (s: String)
    ensures
        s@ == "raw.05i."@ + mode@ + "."@ + (match run_id {
            Some(r) => r@ + "."@,
            None => Seq::empty(),
        }) + source_id@,
{
    let mut s = String::new();
    push_str(&mut s, "raw.05i.");
    push_str(&mut s, mode);
    push_str(&mut s, ".");
    match run_id {
        Some(r) => {
            push_str(&mut s, r);
            push_str(&mut s, ".");
        },
        None => {},
    }
    push_str(&mut s, source_id);
    s
}

/// The identifier of one run's cross-mode record.
pub fn run_record_id(environment_id: &str, family: &str, run_id: Option<&str>) -> (s: String)
    ensures
        s@ == "run.05i."@ + environment_id@ + "."@ + family@ + (match run_id {
            Some(r) => "."@ + r@,
            None => Seq::empty(),
        }),
{
    let mut s = String::new();
    push_str(&mut s, "run.05i.");
    push_str(&mut s, environment_id);
    push_str(&mut s, ".");
    push_str(&mut s, family);
    match run_id {
        Some(r) => {
            push_str(&mut s, ".");
            push_str(&mut s, r);
        },
        None => {},
    }
    s
}

/// What the completeness check reads of a raw differential row.
#[derive(Debug, Clone, PartialEq, Eq)]
pub struct RawRow {
    pub activation_mode: Option<String>,
    pub run_id: Option<String>,
    pub backend: Option<String>,
    pub category: Option<String>,
    pub rows: Option<u64>,
    pub columns: Option<u64>,
}

pub open spec fn text_is(t: Option<String>, v: Seq<char>) -> bool {
    t matches Some(x) && x@ == v
}

/// Whether some row of `rows` was taken in `mode` during run `run_id`.
pub open spec fn has_repeat(rows: Seq<RawRow>, mode: Seq<char>, run_id: Seq<char>) -> bool {
    exists|i: int|
        0 <= i < rows.len() && text_is(#[trigger] rows[i].activation_mode, mode) && text_is(
            rows[i].run_id,
            run_id,
        )
}

/// Whether a row is a raw rectangular differential row.
pub open spec fn is_raw_rectangle(r: RawRow) -> bool {
    text_is(r.backend, "raw-windows-sys"@) && text_is(r.category, "rectangular-differential"@)
}

/// Whether some raw rectangle row of `mode` and `run_id` is 2 x 3.
pub open spec fn has_two_by_three(rows: Seq<RawRow>, mode: Seq<char>, run_id: Seq<char>) -> bool {
    exists|i: int|
        0 <= i < rows.len() && is_raw_rectangle(#[trigger] rows[i]) && text_is(
            rows[i].activation_mode,
            mode,
        ) && text_is(rows[i].run_id, run_id) && rows[i].rows == Some(2u64) && rows[i].columns
            == Some(3u64)
}

pub open spec fn rectangle_count(rows: Seq<RawRow>) -> nat
    decreases rows.len(),
{
    if rows.len() == 0 {
        0
    } else {
        rectangle_count(rows.drop_last()) + if is_raw_rectangle(rows.last()) {
            1nat
        } else {
            0nat
        }
    }
}

fn opt_is(t: &Option<String>, v: &str) -> (b: bool)
    ensures
        b == text_is(*t, v@),
{
    match t {
        Some(x) => str_eq(x.as_str(), v),
        None => false,
    }
}

fn find_repeat(rows: &Vec<RawRow>, mode: &str, run_id: &str) -> (b: bool)
    ensures
        b == has_repeat(rows@, mode@, run_id@),
{
    let mut i: usize = 0;
    while i < rows.len()
        invariant
            i <= rows@.len(),
            forall|j: int|
                0 <= j < i ==> !(text_is(#[trigger] rows@[j].activation_mode, mode@) && text_is(
                    rows@[j].run_id,
                    run_id@,
                )),
        decreases rows.len() - i,
    {
        if opt_is(&rows[i].activation_mode, mode) && opt_is(&rows[i].run_id, run_id) {
            return true;
        }
        i = i + 1;
    }
    false
}

fn is_rectangle(r: &RawRow) -> (b: bool)
    ensures
        b == is_raw_rectangle(*r),
{
    opt_is(&r.backend, "raw-windows-sys") && opt_is(&r.category, "rectangular-differential")
}

fn find_two_by_three(rows: &Vec<RawRow>, mode: &str, run_id: &str) -> (b: bool)
    ensures
        b == has_two_by_three(rows@, mode@, run_id@),
{
    let mut i: usize = 0;
    while i < rows.len()
        invariant
            i <= rows@.len(),
            forall|j: int|
                0 <= j < i ==> !(is_raw_rectangle(#[trigger] rows@[j]) && text_is(
                    rows@[j].activation_mode,
                    mode@,
                ) && text_is(rows@[j].run_id, run_id@) && rows@[j].rows == Some(2u64)
                    && rows@[j].columns == Some(3u64)),
        decreases rows.len() - i,
    {
        let r = &rows[i];
        if is_rectangle(r) && opt_is(&r.activation_mode, mode) && opt_is(&r.run_id, run_id)
            && r.rows == Some(2u64) && r.columns == Some(3u64) {
            return true;
        }
        i = i + 1;
    }
    false
}

fn count_rectangles(rows: &Vec<RawRow>) -> (n: usize)
    ensures
        n == rectangle_count(rows@),
{
    let mut n: usize = 0;
    let mut i: usize = 0;
    while i < rows.len()
        invariant
            i <= rows@.len(),
            n == rectangle_count(rows@.take(i as int)),
            n <= i,
        decreases rows.len() - i,
    {
        assert(rows@.take(i + 1).drop_last() =~= rows@.take(i as int));
        if is_rectangle(&rows[i]) {
            n = n + 1;
        }
        i = i + 1;
    }
    assert(rows@.take(i as int) =~= rows@);
    n
}

/// The repeated runs the differential must hold: S and X, each in runs
/// `run-01` and `run-02`, for the mixed array and for a 2 x 3 rectangle,
/// and at least fifty raw rectangle rows.
pub open spec fn repeats_error(mixed_raw: Seq<RawRow>, shape: Seq<RawRow>) -> Option<Seq<char>> {
    if !has_repeat(mixed_raw, "S"@, "run-01"@) {
        Some("missing S mixed-array repeat run-01"@)
    } else if !has_repeat(mixed_raw, "S"@, "run-02"@) {
        Some("missing S mixed-array repeat run-02"@)
    } else if !has_repeat(mixed_raw, "X"@, "run-01"@) {
        Some("missing X mixed-array repeat run-01"@)
    } else if !has_repeat(mixed_raw, "X"@, "run-02"@) {
        Some("missing X mixed-array repeat run-02"@)
    } else if rectangle_count(shape) < 50 {
        Some("raw rectangular rows are incomplete: "@ + decimal(rectangle_count(shape)) + "/50"@)
    } else if !has_two_by_three(shape, "S"@, "run-01"@) {
        Some("missing S 2x3 rectangular repeat run-01"@)
    } else if !has_two_by_three(shape, "S"@, "run-02"@) {
        Some("missing S 2x3 rectangular repeat run-02"@)
    } else if !has_two_by_three(shape, "X"@, "run-01"@) {
        Some("missing X 2x3 rectangular repeat run-01"@)
    } else if !has_two_by_three(shape, "X"@, "run-02"@) {
        Some("missing X 2x3 rectangular repeat run-02"@)
    } else {
        None
    }
}

pub fn check_repeats(mixed_raw: &Vec<RawRow>, shape: &Vec<RawRow>) -> (r: Result<(), String>)
    ensures
        match repeats_error(mixed_raw@, shape@) {
            None => r is Ok,
            Some(m) => r matches Err(e) && e@ == m,
        },
{
    if !find_repeat(mixed_raw, "S", "run-01") {
        return Err(String::from_str("missing S mixed-array repeat run-01"));
    }
    if !find_repeat(mixed_raw, "S", "run-02") {
        return Err(String::from_str("missing S mixed-array repeat run-02"));
    }
    if !find_repeat(mixed_raw, "X", "run-01") {
        return Err(String::from_str("missing X mixed-array repeat run-01"));
    }
    if !find_repeat(mixed_raw, "X", "run-02") {
        return Err(String::from_str("missing X mixed-array repeat run-02"));
    }
    let n = count_rectangles(shape);
    if n < 50 {
        let mut e = String::new();
        push_str(&mut e, "raw rectangular rows are incomplete: ");
        push_decimal(&mut e, n as u64);
        push_str(&mut e, "/50");
        return Err(e);
    }
    if !find_two_by_three(shape, "S", "run-01") {
        return Err(String::from_str("missing S 2x3 rectangular repeat run-01"));
    }
    if !find_two_by_three(shape, "S", "run-02") {
        return Err(String::from_str("missing S 2x3 rectangular repeat run-02"));
    }
    if !find_two_by_three(shape, "X", "run-01") {
        return Err(String::from_str("missing X 2x3 rectangular repeat run-01"));
    }
    if !find_two_by_three(shape, "X", "run-02") {
        return Err(String::from_str("missing X 2x3 rectangular repeat run-02"));
    }
    Ok(())
}

pub open spec fn mode_of(r: RawRow) -> Option<Seq<char>> {
    match r.activation_mode {
        Some(m) => Some(m@),
        None => None,
    }
}

/// The activation modes that the rows name, each once, in string order.
pub open spec fn modes_listed(rows: Seq<RawRow>, modes: Seq<Seq<char>>) -> bool {
    &&& strictly_ordered(modes)
    &&& forall|k: int|
        0 <= k < modes.len() ==> exists|i: int|
            0 <= i < rows.len() && mode_of(#[trigger] rows[i]) == Some(#[trigger] modes[k])
    &&& forall|i: int|
        0 <= i < rows.len() ==> (mode_of(#[trigger] rows[i]) matches Some(m) ==> modes.contains(m))
}

/// A string as its `Debug` implementation prints it: in double quotes,
/// with the characters that `char::escape_debug` escapes escaped.
pub uninterp spec fn debug_quoted(t: Seq<char>) -> Seq<char>;

/// A set of strings as `{:?}` prints a `BTreeSet`.
pub open spec fn debug_set(modes: Seq<Seq<char>>) -> Seq<char> {
    "{"@ + crate::text::joined(modes.map_values(|m: Seq<char>| debug_quoted(m)), ", "@) + "}"@
}

/// The distinct activation modes of the rows, in string order.
fn distinct_modes(rows: &Vec<RawRow>) -> (modes: Vec<String>)
    ensures
        modes_listed(rows@, texts_of(modes@)),
{
    let mut modes: Vec<String> = Vec::new();
    let mut i: usize = 0;
    while i < rows.len()
        invariant
            i <= rows@.len(),
            modes_listed(rows@.take(i as int), texts_of(modes@)),
        decreases rows.len() - i,
    {
        let ghost before = texts_of(modes@);
        let ghost prefix = rows@.take(i as int);
        let ghost next = rows@.take(i + 1);
        assert(forall|j: int| 0 <= j < prefix.len() ==> next[j] == prefix[j]);
        let ghost added: Option<Seq<char>> = match &rows@[i as int].activation_mode {
            Some(m) => Some(m@),
            None => None,
        };
        match &rows[i].activation_mode {
            None => {},
            Some(m) => {
                crate::evidence::insert_distinct(&mut modes, m.as_str());
            },
        }
        assert(next[i as int] == rows@[i as int]);
        assert(mode_of(next[i as int]) == added);
        assert(added is None ==> texts_of(modes@) == before);
        assert(forall|x: Seq<char>| #[trigger] texts_of(modes@).contains(x) ==> before.contains(x) || added == Some(x));
        proof {
            let after = texts_of(modes@);
            assert forall|k: int| 0 <= k < after.len() implies exists|j: int|
                0 <= j < next.len() && mode_of(#[trigger] next[j]) == Some(#[trigger] after[k]) by {
                if before.contains(after[k]) {
                    let kk = choose|kk: int| 0 <= kk < before.len() && before[kk] == after[k];
                    let j = choose|j: int|
                        0 <= j < prefix.len() && mode_of(#[trigger] prefix[j]) == Some(before[kk]);
                    assert(mode_of(next[j]) == Some(after[k]));
                } else {
                    assert(after.contains(after[k]));
                    assert(added == Some(after[k]));
                }
            }
            assert forall|j: int| 0 <= j < next.len() implies (mode_of(#[trigger] next[j]) matches Some(
                m,
            ) ==> after.contains(m)) by {
                if j < prefix.len() {
                    assert(next[j] == prefix[j]);
                }
            }
        }
        i = i + 1;
    }
    assert(rows@.take(i as int) =~= rows@);
    modes
}

/// `format!("{:?}", t)`: std's `Debug` for `str`. The contract names the
/// text; it depends on `t` alone.
#[verifier::external_body]
fn debug_quote(t: &str) -> (q: String)
    ensures
        q@ == debug_quoted(t@),
{
    format!("{:?}", t)
}

/// The raw mixed-array rows must come from exactly the L, S and X modes;
/// otherwise the modes found are named.
pub fn check_raw_modes(mixed_raw: &Vec<RawRow>) -> (r: Result<(), String>)
    ensures
        exists|modes: Seq<Seq<char>>|
            modes_listed(mixed_raw@, modes) && if modes == seq!["L"@, "S"@, "X"@] {
                r is Ok
            } else {
                r matches Err(e) && e@ == "raw mixed-array modes are incomplete: "@ + debug_set(modes)
            },
{
    let modes = distinct_modes(mixed_raw);
    let ghost texts = texts_of(modes@);
    if modes.len() == 3 && str_eq(modes[0].as_str(), "L") && str_eq(modes[1].as_str(), "S")
        && str_eq(modes[2].as_str(), "X") {
        assert(texts =~= seq!["L"@, "S"@, "X"@]);
        return Ok(());
    }
    let mut quoted: Vec<String> = Vec::new();
    let mut k: usize = 0;
    while k < modes.len()
        invariant
            k <= modes@.len(),
            texts == texts_of(modes@),
            quoted@.len() == k,
            forall|j: int| 0 <= j < k ==> (#[trigger] quoted@[j])@ == debug_quoted(texts[j]),
        decreases modes.len() - k,
    {
        quoted.push(debug_quote(modes[k].as_str()));
        k = k + 1;
    }
    let mut parts: Vec<&str> = Vec::new();
    let mut k: usize = 0;
    while k < quoted.len()
        invariant
            k <= quoted@.len(),
            parts@.len() == k,
            forall|j: int| 0 <= j < k ==> (#[trigger] parts@[j])@ == quoted@[j]@,
        decreases quoted.len() - k,
    {
        parts.push(quoted[k].as_str());
        k = k + 1;
    }
    assert(parts@.map_values(|p: &str| p@) =~= texts.map_values(|m: Seq<char>| debug_quoted(m)));
    let joined = crate::text::join_strs(&parts, ", ");
    let mut e = String::new();
    push_str(&mut e, "raw mixed-array modes are incomplete: {");
    push_str(&mut e, joined.as_str());
    push_str(&mut e, "}");
    proof {
        reveal_strlit("raw mixed-array modes are incomplete: {");
        reveal_strlit("raw mixed-array modes are incomplete: ");
        reveal_strlit("{");
        if texts == seq!["L"@, "S"@, "X"@] {
            reveal_strlit("L");
            reveal_strlit("S");
            reveal_strlit("X");
            assert(false);
        }
    }
    assert(e@ =~= "raw mixed-array modes are incomplete: "@ + debug_set(texts));
    Err(e)
}

/// The least number of rows of each evidence kind, in the order checked:
/// Python environments, raw and Python mixed-array rows, raw and Python
/// date rows, shape, dynamic, source-audit and conversion-policy rows.
pub open spec fn minimum_table() -> Seq<(Seq<char>, nat)> {
    seq![
        ("Python environments"@, 5nat),
        ("raw mixed-array rows"@, 10nat),
        ("Python mixed-array rows"@, 35nat),
        ("raw date rows"@, 24nat),
        ("Python date rows"@, 100nat),
        ("shape rows"@, 60nat),
        ("dynamic rows"@, 25nat),
        ("source-audit rows"@, 4nat),
        ("conversion-policy rows"@, 4nat),
    ]
}

fn minimum_entries() -> (v: Vec<(&'static str, usize)>)
    ensures
        v@.map_values(|e: (&str, usize)| (e.0@, e.1 as nat)) == minimum_table(),
{
    let mut v: Vec<(&'static str, usize)> = Vec::new();
    v.push(("Python environments", 5));
    v.push(("raw mixed-array rows", 10));
    v.push(("Python mixed-array rows", 35));
    v.push(("raw date rows", 24));
    v.push(("Python date rows", 100));
    v.push(("shape rows", 60));
    v.push(("dynamic rows", 25));
    v.push(("source-audit rows", 4));
    v.push(("conversion-policy rows", 4));
    assert(v@.map_values(|e: (&str, usize)| (e.0@, e.1 as nat)) =~= minimum_table());
    v
}

/// The first evidence kind with fewer rows than its minimum.
pub open spec fn first_shortfall(counts: Seq<usize>, k: int) -> Option<Seq<char>>
    decreases minimum_table().len() - k,
{
    if k < 0 || k >= minimum_table().len() || k >= counts.len() {
        None
    } else if counts[k] < minimum_table()[k].1 {
        Some(minimum_message(minimum_table()[k].0, counts[k] as nat, minimum_table()[k].1))
    } else {
        first_shortfall(counts, k + 1)
    }
}

/// Checks the row counts of the nine evidence kinds against their minimums.
fn check_minimums(counts: &Vec<usize>) -> (r: Result<(), String>)
    requires
        counts@.len() == 9,
    ensures
        match first_shortfall(counts@, 0) {
            None => r is Ok,
            Some(m) => r matches Err(e) && e@ == m,
        },
{
    let table = minimum_entries();
    let mut k: usize = 0;
    while k < 9
        invariant
            k <= 9,
            counts@.len() == 9,
            table@.map_values(|e: (&str, usize)| (e.0@, e.1 as nat)) == minimum_table(),
            first_shortfall(counts@, 0) == first_shortfall(counts@, k as int),
        decreases 9 - k,
    {
        assert(minimum_table()[k as int] == (table@[k as int].0@, table@[k as int].1 as nat));
        match require_minimum(table[k].0, counts[k], table[k].1) {
            Err(e) => {
                return Err(e);
            },
            Ok(()) => {},
        }
        k = k + 1;
    }
    Ok(())
}

/// The row counts of the evidence kinds, in the order of `minimum_table`.
pub open spec fn differential_counts(evidence: DifferentialEvidence) -> Seq<usize> {
    seq![
        evidence.python_environments@.len() as usize,
        evidence.mixed_raw@.len() as usize,
        evidence.mixed_python@.len() as usize,
        evidence.date_raw@.len() as usize,
        evidence.date_python@.len() as usize,
        evidence.shape@.len() as usize,
        evidence.dynamic@.len() as usize,
        evidence.source_audit@.len() as usize,
        evidence.conversion@.len() as usize,
    ]
}

/// Checks that each evidence kind holds at least its minimum number of
/// rows; the first shortfall, in the order of `minimum_table`, is the error.
pub fn check_differential_counts(evidence: &DifferentialEvidence) -> (r: Result<(), String>)
    ensures
        match first_shortfall(differential_counts(*evidence), 0) {
            None => r is Ok,
            Some(m) => r matches Err(e) && e@ == m,
        },
{
    let mut counts: Vec<usize> = Vec::new();
    counts.push(evidence.python_environments.len());
    counts.push(evidence.mixed_raw.len());
    counts.push(evidence.mixed_python.len());
    counts.push(evidence.date_raw.len());
    counts.push(evidence.date_python.len());
    counts.push(evidence.shape.len());
    counts.push(evidence.dynamic.len());
    counts.push(evidence.source_audit.len());
    counts.push(evidence.conversion.len());
    assert(counts@ =~= differential_counts(*evidence));
    check_minimums(&counts)
}

} // verus!
