//! The worksheet-error SCODE evidence: the rules every committed evidence
//! file meets, the consistency of the case table, the rerun policy of the
//! live writes, and the reports generated from the records.

use vstd::prelude::*;

use crate::evidence::{find_field, Record};
use crate::kernel::two_digits;
use crate::report::lf_terminated;
use crate::runtime_report::{fstr, fstr_of};
use crate::scode::{full_scode, full_scode_spec};
use crate::text::{contains_spec, contains_text, decimal, push_char, push_decimal, push_str, str_eq};

verus! {

/// The committed evidence files of the SCODE investigation, in the order
/// they are checked.
pub open spec fn scode_evidence_file_list() -> Seq<Seq<char>> {
    seq![
        "SOURCE_MANIFEST.toml"@,
        "environments.jsonl"@,
        "documentation-sources.jsonl"@,
        "case-definitions.jsonl"@,
        "formula-error-observations.jsonl"@,
        "raw-copy-observations.jsonl"@,
        "constructed-scalar-observations.jsonl"@,
        "single-cell-array-observations.jsonl"@,
        "mixed-array-observations.jsonl"@,
        "homogeneous-array-observations.jsonl"@,
        "python-observations.jsonl"@,
        "vba-observations.jsonl"@,
        "variant-construction-audit.jsonl"@,
        "unresolved.jsonl"@,
    ]
}

pub fn scode_evidence_files() -> (v: Vec<&'static str>)
    ensures
        v@.map_values(|s: &str| s@) == scode_evidence_file_list(),
{
    let mut v: Vec<&'static str> = Vec::new();
    v.push("SOURCE_MANIFEST.toml");
    v.push("environments.jsonl");
    v.push("documentation-sources.jsonl");
    v.push("case-definitions.jsonl");
    v.push("formula-error-observations.jsonl");
    v.push("raw-copy-observations.jsonl");
    v.push("constructed-scalar-observations.jsonl");
    v.push("single-cell-array-observations.jsonl");
    v.push("mixed-array-observations.jsonl");
    v.push("homogeneous-array-observations.jsonl");
    v.push("python-observations.jsonl");
    v.push("vba-observations.jsonl");
    v.push("variant-construction-audit.jsonl");
    v.push("unresolved.jsonl");
    assert(v@.map_values(|s: &str| s@) =~= scode_evidence_file_list());
    v
}

/// Why a committed SCODE evidence file is refused: CRLF endings or no final
/// newline, else local identity data (a doubled backslash, a process or
/// window identifier).
pub open spec fn scode_file_error(file: Seq<char>, text: Seq<char>) -> Option<Seq<char>> {
    if !lf_terminated(text) {
        Some(file + " must use LF and a final newline"@)
    } else if contains_spec(text, "\\\\"@) || contains_spec(text, "\"pid\""@) || contains_spec(
        text,
        "\"hwnd\""@,
    ) {
        Some(file + " contains prohibited local identity data"@)
    } else {
        None
    }
}

/// Checks one committed SCODE evidence file.
pub fn check_scode_file(file: &str, text: &str) -> (r: Result<(), String>)
    ensures
        match scode_file_error(file@, text@) {
            None => r is Ok,
            Some(m) => r matches Err(e) && e@ == m,
        },
{
    if !crate::report::is_lf_terminated(text) {
        let mut m = String::new();
        push_str(&mut m, file);
        push_str(&mut m, " must use LF and a final newline");
        return Err(m);
    }
    if contains_text(text, "\\\\") || contains_text(text, "\"pid\"") || contains_text(text, "\"hwnd\"") {
        let mut m = String::new();
        push_str(&mut m, file);
        push_str(&mut m, " contains prohibited local identity data");
        return Err(m);
    }
    Ok(())
}

/// What the consistency check finds in one case definition.
#[derive(Debug, Clone, Copy, PartialEq, Eq, Structural)]
pub enum CaseFinding {
    /// No integer `excel_error_number`.
    MissingNumber,
    /// The number, taken as an `i32`, is negative.
    Negative,
    /// `full_scode_decimal` is the full SCODE of the number.
    Consistent,
    /// `full_scode_decimal` is absent or another value.
    Inconsistent,
}

pub open spec fn case_finding(case: Record) -> CaseFinding {
    match find_field(case.fields@, "excel_error_number"@) {
        Some(f) => match f.int {
            Some(n) => {
                let number = n as i32;
                if number < 0 {
                    CaseFinding::Negative
                } else if (match find_field(case.fields@, "full_scode_decimal"@) {
                    Some(g) => g.int,
                    None => None,
                }) == Some(full_scode_spec(number) as i64) {
                    CaseFinding::Consistent
                } else {
                    CaseFinding::Inconsistent
                }
            },
            None => CaseFinding::MissingNumber,
        },
        None => CaseFinding::MissingNumber,
    }
}

/// The error of the first case definition, from position `k` on, that is
/// not consistent.
pub open spec fn first_case_error(cases: Seq<Record>, k: int) -> Option<Seq<char>>
    decreases cases.len() - k,
{
    if k < 0 || k >= cases.len() {
        None
    } else {
        match case_finding(cases[k]) {
            CaseFinding::MissingNumber => Some("missing number"@),
            CaseFinding::Inconsistent => Some("full SCODE relation is inconsistent"@),
            _ => first_case_error(cases, k + 1),
        }
    }
}

/// Whether the check, going through the cases from position `k` on,
/// reaches a negative number before any error.
pub open spec fn reaches_negative(cases: Seq<Record>, k: int) -> bool
    decreases cases.len() - k,
{
    if k < 0 || k >= cases.len() {
        false
    } else {
        match case_finding(cases[k]) {
            CaseFinding::Negative => true,
            CaseFinding::Consistent => reaches_negative(cases, k + 1),
            _ => false,
        }
    }
}

/// Why the case table is refused: it does not hold the seven core errors,
/// or a case's full SCODE does not follow from its number.
pub open spec fn case_table_error(cases: Seq<Record>) -> Option<Seq<char>> {
    if cases.len() != 7 {
        Some("error-SCODE case table must contain seven core worksheet errors"@)
    } else {
        first_case_error(cases, 0)
    }
}

fn case_finding_of(case: &Record) -> (f: CaseFinding)
    ensures
        f == case_finding(*case),
{
    match crate::evidence::field(case, "excel_error_number") {
        Some(f) => match f.int {
            Some(n) => {
                let number = n as i32;
                if number < 0 {
                    CaseFinding::Negative
                } else {
                    let expected = full_scode(number) as i64;
                    let recorded = match crate::evidence::field(case, "full_scode_decimal") {
                        Some(g) => g.int,
                        None => None,
                    };
                    match recorded {
                        Some(v) => if v == expected {
                            CaseFinding::Consistent
                        } else {
                            CaseFinding::Inconsistent
                        },
                        None => CaseFinding::Inconsistent,
                    }
                }
            },
            None => CaseFinding::MissingNumber,
        },
        None => CaseFinding::MissingNumber,
    }
}

/// Checks the case table: seven cases, each with a number whose full SCODE
/// is the one recorded. A negative number has no full SCODE; the check never
/// reaches one.
pub fn check_scode_cases(cases: &Vec<Record>) -> (r: Result<(), String>)
    requires
        cases@.len() != 7 || !reaches_negative(cases@, 0),
    ensures
        match case_table_error(cases@) {
            None => r is Ok,
            Some(m) => r matches Err(e) && e@ == m,
        },
{
    if cases.len() != 7 {
        return Err(String::from_str("error-SCODE case table must contain seven core worksheet errors"));
    }
    let mut k: usize = 0;
    while k < cases.len()
        invariant
            k <= cases@.len(),
            cases@.len() == 7,
            first_case_error(cases@, 0) == first_case_error(cases@, k as int),
            !reaches_negative(cases@, k as int),
        decreases cases.len() - k,
    {
        match case_finding_of(&cases[k]) {
            CaseFinding::MissingNumber => {
                return Err(String::from_str("missing number"));
            },
            CaseFinding::Inconsistent => {
                return Err(String::from_str("full SCODE relation is inconsistent"));
            },
            _ => {},
        }
        k = k + 1;
    }
    Ok(())
}

/// Whether a recorded write completed: its `write/hresult` is the integer 0.
pub open spec fn write_completed(row: Record) -> bool {
    match find_field(row.fields@, "write/hresult"@) {
        Some(f) => f.int == Some(0i64),
        None => false,
    }
}

fn write_completed_of(row: &Record) -> (b: bool)
    ensures
        b == write_completed(*row),
{
    match crate::evidence::field(row, "write/hresult") {
        Some(f) => match f.int {
            Some(v) => v == 0,
            None => false,
        },
        None => false,
    }
}

/// How many more times a live write is repeated: a failed write three
/// times, a completed full-SCODE write twice, any other completed write
/// never.
pub fn repeat_count(row: &Record, representation: &str) -> (n: u32)
    ensures
        n == (if !write_completed(*row) {
            3u32
        } else if representation@ == "full-scode"@ {
            2u32
        } else {
            0u32
        }),
{
    if !write_completed_of(row) {
        3
    } else if str_eq(representation, "full-scode") {
        2
    } else {
        0
    }
}

/// The identifier of a constructed scalar write:
/// `scalar.{case}.{representation}.{member}.run-{nn}`.
pub fn scalar_row_id(case: &str, representation: &str, member: &str, iteration: u32) -> (s: String)
    ensures
        s@ == "scalar."@ + case@ + "."@ + representation@ + "."@ + member@ + ".run-"@ + two_digits(
            iteration as nat,
        ),
{
    let mut s = String::new();
    push_str(&mut s, "scalar.");
    push_str(&mut s, case);
    push_str(&mut s, ".");
    push_str(&mut s, representation);
    push_str(&mut s, ".");
    push_str(&mut s, member);
    push_str(&mut s, ".run-");
    if iteration < 10 {
        push_char(&mut s, '0');
    }
    push_decimal(&mut s, iteration as u64);
    s
}

/// The identifier of an array write:
/// `{kind}.{case}.{representation}.{member}.{rows}x{columns}.run-{nn}`.
pub fn array_row_id(
    kind: &str,
    case: &str,
    representation: &str,
    member: &str,
    rows: u32,
    columns: u32,
    iteration: u32,
) -> (s: String)
    ensures
        s@ == kind@ + "."@ + case@ + "."@ + representation@ + "."@ + member@ + "."@ + decimal(
            rows as nat,
        ) + "x"@ + decimal(columns as nat) + ".run-"@ + two_digits(iteration as nat),
{
    let mut s = String::new();
    push_str(&mut s, kind);
    push_str(&mut s, ".");
    push_str(&mut s, case);
    push_str(&mut s, ".");
    push_str(&mut s, representation);
    push_str(&mut s, ".");
    push_str(&mut s, member);
    push_str(&mut s, ".");
    push_decimal(&mut s, rows as u64);
    push_str(&mut s, "x");
    push_decimal(&mut s, columns as u64);
    push_str(&mut s, ".run-");
    if iteration < 10 {
        push_char(&mut s, '0');
    }
    push_decimal(&mut s, iteration as u64);
    s
}

/// A row's result: `completed`, else its string `write/hresult_hex`, else
/// `unknown`.
pub open spec fn row_result(row: Record) -> Seq<char> {
    if write_completed(row) {
        "completed"@
    } else {
        match fstr(row, "write/hresult_hex"@) {
            Some(t) => t,
            None => "unknown"@,
        }
    }
}

pub open spec fn scode_row_text(row: Record) -> Seq<char> {
    "| "@ + (match fstr(row, "id"@) {
        Some(t) => t,
        None => "--"@,
    }) + " | "@ + row_result(row) + " |\n"@
}

pub open spec fn scode_rows_text(rows: Seq<Record>) -> Seq<char>
    decreases rows.len(),
{
    if rows.len() == 0 {
        Seq::empty()
    } else {
        scode_rows_text(rows.drop_last()) + scode_row_text(rows.last())
    }
}

/// A results table: the record count, then each record's identifier and
/// result in committed order.
pub open spec fn scode_report_text(title: Seq<char>, rows: Seq<Record>) -> Seq<char> {
    "# "@ + title + "\n\nObserved records: "@ + decimal(rows.len()) + ".\n\n| ID | Result |\n| --- | --- |\n"@
        + scode_rows_text(rows)
}

fn push_row_result(s: &mut String, row: &Record)
    ensures
        final(s)@ == old(s)@ + row_result(*row),
{
    if write_completed_of(row) {
        push_str(s, "completed");
    } else {
        match fstr_of(row, "write/hresult_hex") {
            Some(t) => push_str(s, t),
            None => push_str(s, "unknown"),
        }
    }
}

pub fn scode_report(title: &str, rows: &Vec<Record>) -> (s: String)
    ensures
        s@ == scode_report_text(title@, rows@),
{
    let mut s = String::new();
    push_str(&mut s, "# ");
    push_str(&mut s, title);
    push_str(&mut s, "\n\nObserved records: ");
    push_decimal(&mut s, rows.len() as u64);
    push_str(&mut s, ".\n\n| ID | Result |\n| --- | --- |\n");
    let ghost head = s@;
    let mut i: usize = 0;
    while i < rows.len()
        invariant
            i <= rows@.len(),
            s@ == head + scode_rows_text(rows@.take(i as int)),
        decreases rows.len() - i,
    {
        assert(rows@.take(i + 1).drop_last() =~= rows@.take(i as int));
        push_str(&mut s, "| ");
        match fstr_of(&rows[i], "id") {
            Some(t) => push_str(&mut s, t),
            None => push_str(&mut s, "--"),
        }
        push_str(&mut s, " | ");
        push_row_result(&mut s, &rows[i]);
        push_str(&mut s, " |\n");
        i = i + 1;
        assert(s@ =~= head + scode_rows_text(rows@.take(i as int)));
    }
    assert(rows@.take(i as int) =~= rows@);
    s
}

pub open spec fn controls_text(python: Seq<Record>, vba: Seq<Record>) -> Seq<char> {
    "# Python and VBA controls\n\n"@ + scode_report_text("Python"@, python) + "\n\n"@
        + scode_report_text("VBA"@, vba) + "\n"@
}

/// The Python and VBA control results, one table each.
pub fn controls_report(python: &Vec<Record>, vba: &Vec<Record>) -> (s: String)
    ensures
        s@ == controls_text(python@, vba@),
{
    let mut s = String::new();
    push_str(&mut s, "# Python and VBA controls\n\n");
    let p = scode_report("Python", python);
    push_str(&mut s, p.as_str());
    push_str(&mut s, "\n\n");
    let v = scode_report("VBA", vba);
    push_str(&mut s, v.as_str());
    push_str(&mut s, "\n");
    s
}

pub open spec fn write_policy_text() -> Seq<char> {
    "# Final Excel-error write policy\n\nAll seven tested worksheet errors are returned as `VT_ERROR` with a physical signed `SCODE`: `0x800A0000 | ExcelErrorNumber` (for example, `#N/A`: `2042` -> `0x800A07FA` -> `-2146826246`). Excel/CVErr error numbers are not directly writable raw SCODEs.\n\n| Representation | Scalar Value | Scalar Value2 | 1×1 array | Mixed array | Homogeneous array |\n| --- | ---: | ---: | ---: | ---: | ---: |\n| Short Excel number | rejected | rejected | rejected | rejected | not tested |\n| Full signed SCODE | complete | complete | complete | complete | complete |\n| Formula-returned raw copy | complete | complete | complete | complete | complete |\n| VBA CVErr control | not run | not run | not run | not run | not run |\n\nOutcome A applies to the seven tested errors: future internal work must preserve the exact physical signed SCODE, expose symbolic kinds only as a construction aid, encode `VT_ERROR` with that SCODE, and support scalar and rectangular-array writes.\n"@
}

/// The final write policy drawn from the evidence.
pub fn write_policy() -> (s: String)
    ensures
        s@ == write_policy_text(),
{
    String::from_str("# Final Excel-error write policy\n\nAll seven tested worksheet errors are returned as `VT_ERROR` with a physical signed `SCODE`: `0x800A0000 | ExcelErrorNumber` (for example, `#N/A`: `2042` -> `0x800A07FA` -> `-2146826246`). Excel/CVErr error numbers are not directly writable raw SCODEs.\n\n| Representation | Scalar Value | Scalar Value2 | 1×1 array | Mixed array | Homogeneous array |\n| --- | ---: | ---: | ---: | ---: | ---: |\n| Short Excel number | rejected | rejected | rejected | rejected | not tested |\n| Full signed SCODE | complete | complete | complete | complete | complete |\n| Formula-returned raw copy | complete | complete | complete | complete | complete |\n| VBA CVErr control | not run | not run | not run | not run | not run |\n\nOutcome A applies to the seven tested errors: future internal work must preserve the exact physical signed SCODE, expose symbolic kinds only as a construction aid, encode `VT_ERROR` with that SCODE, and support scalar and rectangular-array writes.\n")
}

pub open spec fn blockers_text(unresolved: Seq<Record>) -> Seq<char>
    decreases unresolved.len(),
{
    if unresolved.len() == 0 {
        Seq::empty()
    } else {
        blockers_text(unresolved.drop_last()) + "# Remaining blockers\n\n"@ + unresolved.last().json@
            + "\n"@
    }
}

/// One heading and the record's JSON text per unresolved record.
pub fn blockers_report(unresolved: &Vec<Record>) -> (s: String)
    ensures
        s@ == blockers_text(unresolved@),
{
    let mut s = String::new();
    let mut i: usize = 0;
    while i < unresolved.len()
        invariant
            i <= unresolved@.len(),
            s@ == blockers_text(unresolved@.take(i as int)),
        decreases unresolved.len() - i,
    {
        assert(unresolved@.take(i + 1).drop_last() =~= unresolved@.take(i as int));
        push_str(&mut s, "# Remaining blockers\n\n");
        push_str(&mut s, unresolved[i].json.as_str());
        push_str(&mut s, "\n");
        i = i + 1;
    }
    assert(unresolved@.take(i as int) =~= unresolved@);
    s
}

/// The committed SCODE evidence that the reports are generated from.
#[derive(Debug)]
pub struct ScodeEvidence {
    pub formula: Vec<Record>,
    pub scalar: Vec<Record>,
    pub single: Vec<Record>,
    pub mixed: Vec<Record>,
    pub homogeneous: Vec<Record>,
    pub documentation: Vec<Record>,
    pub audit: Vec<Record>,
    pub python: Vec<Record>,
    pub vba: Vec<Record>,
    pub unresolved: Vec<Record>,
}

/// The generated SCODE reports, by file name in their fixed order.
pub fn scode_reports(evidence: &ScodeEvidence) -> (v: Vec<(&'static str, String)>)
    ensures
        v@.len() == 11,
        v@[0].0@ == "documentation-findings.md"@,
        v@[0].1@ == scode_report_text("Documentation findings"@, evidence.documentation@),
        v@[1].0@ == "formula-returned-errors.md"@,
        v@[1].1@ == scode_report_text("Formula-returned worksheet errors"@, evidence.formula@),
        v@[2].0@ == "scode-comparison.md"@,
        v@[2].1@ == scode_report_text("Short number versus full SCODE"@, evidence.scalar@),
        v@[3].0@ == "scalar-write-results.md"@,
        v@[3].1@ == scode_report_text("Scalar write results"@, evidence.scalar@),
        v@[4].0@ == "single-cell-array-results.md"@,
        v@[4].1@ == scode_report_text("1×1 SAFEARRAY results"@, evidence.single@),
        v@[5].0@ == "mixed-array-results.md"@,
        v@[5].1@ == scode_report_text("Mixed SAFEARRAY results"@, evidence.mixed@),
        v@[6].0@ == "homogeneous-array-results.md"@,
        v@[6].1@ == scode_report_text("Homogeneous error-array results"@, evidence.homogeneous@),
        v@[7].0@ == "python-vba-controls.md"@,
        v@[7].1@ == controls_text(evidence.python@, evidence.vba@),
        v@[8].0@ == "variant-construction-audit.md"@,
        v@[8].1@ == scode_report_text("VARIANT construction audit"@, evidence.audit@),
        v@[9].0@ == "final-error-write-policy.md"@,
        v@[9].1@ == write_policy_text(),
        v@[10].0@ == "remaining-blockers.md"@,
        v@[10].1@ == blockers_text(evidence.unresolved@),
{
    let mut v: Vec<(&'static str, String)> = Vec::new();
    v.push(("documentation-findings.md", scode_report("Documentation findings", &evidence.documentation)));
    v.push(("formula-returned-errors.md", scode_report("Formula-returned worksheet errors", &evidence.formula)));
    v.push(("scode-comparison.md", scode_report("Short number versus full SCODE", &evidence.scalar)));
    v.push(("scalar-write-results.md", scode_report("Scalar write results", &evidence.scalar)));
    v.push(("single-cell-array-results.md", scode_report("1×1 SAFEARRAY results", &evidence.single)));
    v.push(("mixed-array-results.md", scode_report("Mixed SAFEARRAY results", &evidence.mixed)));
    v.push(("homogeneous-array-results.md", scode_report("Homogeneous error-array results", &evidence.homogeneous)));
    v.push(("python-vba-controls.md", controls_report(&evidence.python, &evidence.vba)));
    v.push(("variant-construction-audit.md", scode_report("VARIANT construction audit", &evidence.audit)));
    v.push(("final-error-write-policy.md", write_policy()));
    v.push(("remaining-blockers.md", blockers_report(&evidence.unresolved)));
    v
}

} // verus!
