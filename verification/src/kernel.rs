//! Decisions of the fresh-process raw kernel runs: which action a request
//! names, when a startup failure may be retried, what a repeatability matrix
//! must show, and the identifiers and reports of its records.

use vstd::prelude::*;

use crate::evidence::{find_field, FieldKind, Record};
use crate::parity::{kernel_mode_id, Mode};
use crate::runtime_report::{fstr, fstr_of};
use crate::text::{
    contains_spec, contains_text, decimal, push_char, push_decimal, push_str, replace_spec,
    replace_text, str_eq,
};

verus! {

/// What a kernel request asks for.
#[derive(Debug, Clone, Copy, PartialEq, Eq, Structural)]
pub enum KernelAction {
    Child,
    Single,
    Repeatability,
    Compare,
    Retry,
}

pub open spec fn kernel_action_named(value: Seq<char>) -> Option<KernelAction> {
    if value == "child"@ {
        Some(KernelAction::Child)
    } else if value == "single"@ {
        Some(KernelAction::Single)
    } else if value == "repeatability"@ {
        Some(KernelAction::Repeatability)
    } else if value == "compare"@ {
        Some(KernelAction::Compare)
    } else if value == "retry"@ {
        Some(KernelAction::Retry)
    } else {
        None
    }
}

pub fn parse_kernel_action(value: &str) -> (r: Result<KernelAction, String>)
    ensures
        match kernel_action_named(value@) {
            Some(a) => r == Ok::<KernelAction, String>(a),
            None => r matches Err(e) && e@
                == "kernel action must be single, repeatability, compare, retry, or child"@,
        },
{
    if str_eq(value, "child") {
        Ok(KernelAction::Child)
    } else if str_eq(value, "single") {
        Ok(KernelAction::Single)
    } else if str_eq(value, "repeatability") {
        Ok(KernelAction::Repeatability)
    } else if str_eq(value, "compare") {
        Ok(KernelAction::Compare)
    } else if str_eq(value, "retry") {
        Ok(KernelAction::Retry)
    } else {
        Err(String::from_str("kernel action must be single, repeatability, compare, retry, or child"))
    }
}

/// The repeatability matrix runs only on the raw backend and for all three
/// activation modes.
pub open spec fn repeatability_request_error(backend: Seq<char>, modes: nat) -> Option<Seq<char>> {
    if backend != "raw-windows-sys"@ {
        Some("the required repeatability matrix is limited to raw-windows-sys"@)
    } else if modes != 3 {
        Some(
            "repeatability must use --mode all for exactly 10 L, 10 S, and 10 X fresh processes"@,
        )
    } else {
        None
    }
}

pub fn check_repeatability_request(backend: &str, modes: &Vec<Mode>) -> (r: Result<(), String>)
    ensures
        match repeatability_request_error(backend@, modes@.len()) {
            None => r is Ok,
            Some(m) => r matches Err(e) && e@ == m,
        },
{
    if !str_eq(backend, "raw-windows-sys") {
        return Err(String::from_str("the required repeatability matrix is limited to raw-windows-sys"));
    }
    if modes.len() != 3 {
        return Err(String::from_str(
            "repeatability must use --mode all for exactly 10 L, 10 S, and 10 X fresh processes",
        ));
    }
    Ok(())
}

/// The verdict on the committed repeatability rows: all thirty sequences
/// must have succeeded; failures stay recorded either way.
pub fn repeatability_verdict(successful: usize) -> (r: Result<String, String>)
    ensures
        successful == 30 ==> (r matches Ok(m) && m@
            == "recorded exactly 30/30 successful raw-windows-sys fresh-process sequences"@),
        successful != 30 ==> (r matches Err(e) && e@ == "repeatability is incomplete: "@
            + decimal(successful as nat)
            + "/30 successful complete sequences; failures were preserved"@),
{
    if successful == 30 {
        Ok(String::from_str("recorded exactly 30/30 successful raw-windows-sys fresh-process sequences"))
    } else {
        let mut e = String::new();
        push_str(&mut e, "repeatability is incomplete: ");
        push_decimal(&mut e, successful as u64);
        push_str(&mut e, "/30 successful complete sequences; failures were preserved");
        Err(e)
    }
}

/// `n` in decimal with at least two digits (`{:02}`).
pub open spec fn two_digits(n: nat) -> Seq<char> {
    if n < 10 {
        seq!['0'] + decimal(n)
    } else {
        decimal(n)
    }
}

/// The identifier of one repeatability run: `repeatability.05g.{mode}.run-{nn}`.
pub fn repeatability_id(mode: Mode, iteration: u32) -> (s: String)
    ensures
        s@ == "repeatability.05g."@ + kernel_mode_id(mode) + ".run-"@ + two_digits(
            iteration as nat,
        ),
{
    let mut s = String::new();
    push_str(&mut s, "repeatability.05g.");
    push_str(&mut s, mode.id());
    push_str(&mut s, ".run-");
    if iteration < 10 {
        push_char(&mut s, '0');
    }
    push_decimal(&mut s, iteration as u64);
    proof {
        reveal_strlit(".run-");
    }
    s
}

/// The identifiers of the workbook and Range-smoke rows of one run.
pub fn run_record_ids(context: &str, backend: &str, mode: &str) -> (r: (String, String))
    ensures
        r.0@ == "workbook.05g."@ + context@ + "."@ + backend@ + "."@ + mode@,
        r.1@ == "range-smoke.05g."@ + context@ + "."@ + backend@ + "."@ + mode@,
{
    let mut a = String::new();
    push_str(&mut a, "workbook.05g.");
    push_str(&mut a, context);
    push_str(&mut a, ".");
    push_str(&mut a, backend);
    push_str(&mut a, ".");
    push_str(&mut a, mode);
    let mut b = String::new();
    push_str(&mut b, "range-smoke.05g.");
    push_str(&mut b, context);
    push_str(&mut b, ".");
    push_str(&mut b, backend);
    push_str(&mut b, ".");
    push_str(&mut b, mode);
    (a, b)
}

/// The parts of a kernel child's result that the retry policy reads: the
/// HRESULTs of Add and Open (where they are integers), the inner SCODE of
/// the failure, and whether a workbook was returned.
#[derive(Debug, Clone, PartialEq, Eq)]
pub struct StartupResult {
    pub add_hresult: Option<i64>,
    pub open_hresult: Option<i64>,
    pub inner_scode_hex: Option<String>,
    pub workbook_returned: Option<bool>,
}

/// Only an Add or Open failure before any workbook was returned, with the
/// inner SCODE `0x800A03EC`, may be retried once in a new instance.
pub open spec fn retry_eligible_spec(r: StartupResult) -> bool {
    let failed = (r.add_hresult matches Some(h) && h != 0) || (r.open_hresult matches Some(h) && h
        != 0);
    &&& failed
    &&& r.inner_scode_hex matches Some(s) && s@ == "0x800A03EC"@
    &&& r.workbook_returned == Some(false)
}

pub fn retry_eligible(result: &StartupResult) -> (b: bool)
    ensures
        b == retry_eligible_spec(*result),
{
    let failed = match result.add_hresult {
        Some(h) => h != 0,
        None => false,
    } || match result.open_hresult {
        Some(h) => h != 0,
        None => false,
    };
    let scode = match &result.inner_scode_hex {
        Some(s) => str_eq(s.as_str(), "0x800A03EC"),
        None => false,
    };
    let returned_none = match result.workbook_returned {
        Some(b) => !b,
        None => false,
    };
    failed && scode && returned_none
}

/// One table line of a kernel report: the record's string `id` (`--`
/// otherwise), its string `classification` (`Runtime-observed` otherwise),
/// and its JSON text with pipes escaped.
pub open spec fn kernel_row_text(r: Record) -> Seq<char> {
    "| `"@ + (match fstr(r, "id"@) {
        Some(v) => v,
        None => "--"@,
    }) + "` | "@ + (match fstr(r, "classification"@) {
        Some(v) => v,
        None => "Runtime-observed"@,
    }) + " | `"@ + replace_spec(r.json@, "|"@, "\\|"@) + "` |\n"@
}

pub open spec fn kernel_rows_text(rows: Seq<Record>) -> Seq<char>
    decreases rows.len(),
{
    if rows.len() == 0 {
        Seq::empty()
    } else {
        kernel_rows_text(rows.drop_last()) + kernel_row_text(rows.last())
    }
}

fn push_kernel_row(s: &mut String, r: &Record)
    ensures
        final(s)@ == old(s)@ + kernel_row_text(*r),
{
    proof {
        reveal_strlit("|");
    }
    push_str(s, "| `");
    match fstr_of(r, "id") {
        Some(v) => push_str(s, v),
        None => push_str(s, "--"),
    }
    push_str(s, "` | ");
    match fstr_of(r, "classification") {
        Some(v) => push_str(s, v),
        None => push_str(s, "Runtime-observed"),
    }
    push_str(s, " | `");
    let escaped = replace_text(r.json.as_str(), "|", "\\|");
    push_str(s, escaped.as_str());
    push_str(s, "` |\n");
    assert(final(s)@ =~= old(s)@ + kernel_row_text(*r));
}

pub open spec fn kernel_report_text(title: Seq<char>, rows: Seq<Record>) -> Seq<char> {
    "# "@ + title
        + "\n\nGenerated by `excel-com-range-probe`; do not edit by hand. Pointer values, HWNDs, PIDs, and local fixture paths are never persisted.\n\n| ID | Classification | Summary |\n| --- | --- | --- |\n"@
        + if rows.len() == 0 {
        "| -- | Not tested | No row captured. |\n"@
    } else {
        kernel_rows_text(rows)
    }
}

/// A kernel report: one row per record in its committed order, or a single
/// not-tested row.
pub fn kernel_report(title: &str, rows: &Vec<Record>) -> (s: String)
    ensures
        s@ == kernel_report_text(title@, rows@),
{
    let mut s = String::new();
    push_str(&mut s, "# ");
    push_str(&mut s, title);
    push_str(
        &mut s,
        "\n\nGenerated by `excel-com-range-probe`; do not edit by hand. Pointer values, HWNDs, PIDs, and local fixture paths are never persisted.\n\n| ID | Classification | Summary |\n| --- | --- | --- |\n",
    );
    if rows.len() == 0 {
        push_str(&mut s, "| -- | Not tested | No row captured. |\n");
        return s;
    }
    let ghost head = s@;
    let mut i: usize = 0;
    while i < rows.len()
        invariant
            i <= rows@.len(),
            s@ == head + kernel_rows_text(rows@.take(i as int)),
        decreases rows.len() - i,
    {
        assert(rows@.take(i + 1).drop_last() =~= rows@.take(i as int));
        push_kernel_row(&mut s, &rows[i]);
        i = i + 1;
        assert(s@ =~= head + kernel_rows_text(rows@.take(i as int)));
    }
    assert(rows@.take(i as int) =~= rows@);
    s
}

/// Why a committed kernel artifact is refused.
pub open spec fn kernel_artifact_error(path: Seq<char>, expected: Seq<char>, actual: Seq<char>) -> Option<
    Seq<char>,
> {
    if actual != expected {
        Some(
            "kernel artifact "@ + path
                + " is stale; rerun kernel-init or the relevant kernel action"@,
        )
    } else if contains_spec(actual, "\r\n"@) || actual.len() == 0 || actual.last() != '\n'
        || contains_spec(actual, "ptr="@) {
        Some("kernel artifact "@ + path + " violates persistence rules"@)
    } else {
        None
    }
}

pub fn check_kernel_artifact(path: &str, expected: &str, actual: &str) -> (r: Result<(), String>)
    ensures
        match kernel_artifact_error(path@, expected@, actual@) {
            None => r is Ok,
            Some(m) => r matches Err(e) && e@ == m,
        },
{
    if !str_eq(actual, expected) {
        let mut m = String::new();
        push_str(&mut m, "kernel artifact ");
        push_str(&mut m, path);
        push_str(&mut m, " is stale; rerun kernel-init or the relevant kernel action");
        return Err(m);
    }
    if !crate::report::is_lf_terminated(actual) || contains_text(actual, "ptr=") {
        let mut m = String::new();
        push_str(&mut m, "kernel artifact ");
        push_str(&mut m, path);
        push_str(&mut m, " violates persistence rules");
        return Err(m);
    }
    Ok(())
}


/// The source manifest of the kernel evidence.
pub fn kernel_manifest() -> (s: &'static str)
    ensures
        s@ == "schema_version = 1\nname = \"excel-com-windows-sys-kernel\"\nclassification = \"research-only\"\nbackend_default = \"raw-windows-sys\"\nsource = \"Prompt 05E lower_level_run generic IDispatch path\"\n"@,
{
    "schema_version = 1\nname = \"excel-com-windows-sys-kernel\"\nclassification = \"research-only\"\nbackend_default = \"raw-windows-sys\"\nsource = \"Prompt 05E lower_level_run generic IDispatch path\"\n"
}

/// The kernel's committed evidence: its manifest and eight record sets. The
/// kernel orders and merges its records by their string `id`, so each
/// record's `id` holds that string, empty where the record has none.
#[derive(Debug)]
pub struct KernelCapture {
    pub manifest: String,
    pub environments: Vec<Record>,
    pub configurations: Vec<Record>,
    pub workbooks: Vec<Record>,
    pub smoke: Vec<Record>,
    pub repeatability: Vec<Record>,
    pub retries: Vec<Record>,
    pub comparisons: Vec<Record>,
    pub unresolved: Vec<Record>,
}

/// The kernel's artifacts by path in path order: the ten reports, the
/// manifest and the eight JSON Lines files.
pub fn kernel_artifacts(capture: &KernelCapture) -> (v: Vec<(String, String)>)
    ensures
        v@.len() == 19,
        v@[0].0@ == "../generated/windows-sys-kernel/backend-comparison.md"@,
        v@[0].1@ == kernel_report_text("Backend comparison"@, capture.comparisons@),
        v@[1].0@ == "../generated/windows-sys-kernel/cleanup.md"@,
        v@[1].1@ == kernel_report_text("Owned Excel cleanup"@, capture.workbooks@),
        v@[2].0@ == "../generated/windows-sys-kernel/kernel-design.md"@,
        v@[2].1@ == kernel_report_text("Windows-sys Automation kernel"@, capture.configurations@),
        v@[3].0@ == "../generated/windows-sys-kernel/prompt-05-resumption.md"@,
        v@[3].1@ == kernel_report_text("Prompt 05 resumption status"@, capture.unresolved@),
        v@[4].0@ == "../generated/windows-sys-kernel/range-smoke-results.md"@,
        v@[4].1@ == kernel_report_text("Range smoke results"@, capture.smoke@),
        v@[5].0@ == "../generated/windows-sys-kernel/remaining-blockers.md"@,
        v@[5].1@ == kernel_report_text("Remaining blockers"@, capture.unresolved@),
        v@[6].0@ == "../generated/windows-sys-kernel/repeatability.md"@,
        v@[6].1@ == kernel_report_text("Fresh-process repeatability"@, capture.repeatability@),
        v@[7].0@ == "../generated/windows-sys-kernel/startup-retry.md"@,
        v@[7].1@ == kernel_report_text("Startup retry policy"@, capture.retries@),
        v@[8].0@ == "../generated/windows-sys-kernel/workbook-add-results.md"@,
        v@[8].1@ == kernel_report_text("Workbook Add results"@, capture.workbooks@),
        v@[9].0@ == "../generated/windows-sys-kernel/workbook-open-results.md"@,
        v@[9].1@ == kernel_report_text("Workbook Open results"@, capture.workbooks@),
        v@[10].0@ == "SOURCE_MANIFEST.toml"@,
        v@[10].1@ == capture.manifest@,
        v@[11].0@ == "backend-comparisons.jsonl"@,
        crate::runtime_report::is_jsonl_of(v@[11].1@, capture.comparisons@),
        v@[12].0@ == "backend-configurations.jsonl"@,
        crate::runtime_report::is_jsonl_of(v@[12].1@, capture.configurations@),
        v@[13].0@ == "environments.jsonl"@,
        crate::runtime_report::is_jsonl_of(v@[13].1@, capture.environments@),
        v@[14].0@ == "range-smoke-observations.jsonl"@,
        crate::runtime_report::is_jsonl_of(v@[14].1@, capture.smoke@),
        v@[15].0@ == "repeatability.jsonl"@,
        crate::runtime_report::is_jsonl_of(v@[15].1@, capture.repeatability@),
        v@[16].0@ == "startup-retry.jsonl"@,
        crate::runtime_report::is_jsonl_of(v@[16].1@, capture.retries@),
        v@[17].0@ == "unresolved.jsonl"@,
        crate::runtime_report::is_jsonl_of(v@[17].1@, capture.unresolved@),
        v@[18].0@ == "workbook-observations.jsonl"@,
        crate::runtime_report::is_jsonl_of(v@[18].1@, capture.workbooks@),
{
    let mut v: Vec<(String, String)> = Vec::new();
    v.push((String::from_str("../generated/windows-sys-kernel/backend-comparison.md"), kernel_report("Backend comparison", &capture.comparisons)));
    v.push((String::from_str("../generated/windows-sys-kernel/cleanup.md"), kernel_report("Owned Excel cleanup", &capture.workbooks)));
    v.push((String::from_str("../generated/windows-sys-kernel/kernel-design.md"), kernel_report("Windows-sys Automation kernel", &capture.configurations)));
    v.push((String::from_str("../generated/windows-sys-kernel/prompt-05-resumption.md"), kernel_report("Prompt 05 resumption status", &capture.unresolved)));
    v.push((String::from_str("../generated/windows-sys-kernel/range-smoke-results.md"), kernel_report("Range smoke results", &capture.smoke)));
    v.push((String::from_str("../generated/windows-sys-kernel/remaining-blockers.md"), kernel_report("Remaining blockers", &capture.unresolved)));
    v.push((String::from_str("../generated/windows-sys-kernel/repeatability.md"), kernel_report("Fresh-process repeatability", &capture.repeatability)));
    v.push((String::from_str("../generated/windows-sys-kernel/startup-retry.md"), kernel_report("Startup retry policy", &capture.retries)));
    v.push((String::from_str("../generated/windows-sys-kernel/workbook-add-results.md"), kernel_report("Workbook Add results", &capture.workbooks)));
    v.push((String::from_str("../generated/windows-sys-kernel/workbook-open-results.md"), kernel_report("Workbook Open results", &capture.workbooks)));
    v.push((String::from_str("SOURCE_MANIFEST.toml"), crate::text::string_of(&crate::text::chars_of(capture.manifest.as_str()))));
    v.push((String::from_str("backend-comparisons.jsonl"), crate::runtime_report::jsonl_of(&capture.comparisons)));
    v.push((String::from_str("backend-configurations.jsonl"), crate::runtime_report::jsonl_of(&capture.configurations)));
    v.push((String::from_str("environments.jsonl"), crate::runtime_report::jsonl_of(&capture.environments)));
    v.push((String::from_str("range-smoke-observations.jsonl"), crate::runtime_report::jsonl_of(&capture.smoke)));
    v.push((String::from_str("repeatability.jsonl"), crate::runtime_report::jsonl_of(&capture.repeatability)));
    v.push((String::from_str("startup-retry.jsonl"), crate::runtime_report::jsonl_of(&capture.retries)));
    v.push((String::from_str("unresolved.jsonl"), crate::runtime_report::jsonl_of(&capture.unresolved)));
    v.push((String::from_str("workbook-observations.jsonl"), crate::runtime_report::jsonl_of(&capture.workbooks)));
    v
}

/// `set` where it holds records, else `default`.
pub open spec fn filled(set: Seq<Record>, default: Seq<Record>) -> Seq<Record> {
    if set.len() == 0 {
        default
    } else {
        set
    }
}

/// `r` is `capture` initialized from `defaults`: the manifest, the
/// environments, the configurations and the unresolved records are filled
/// from the defaults where they are empty; the run records are kept.
pub open spec fn kernel_initialized(capture: KernelCapture, defaults: KernelCapture, r: KernelCapture) -> bool {
    &&& r.manifest@ == (if capture.manifest@.len() == 0 {
        defaults.manifest@
    } else {
        capture.manifest@
    })
    &&& r.environments@ == filled(capture.environments@, defaults.environments@)
    &&& r.configurations@ == filled(capture.configurations@, defaults.configurations@)
    &&& r.unresolved@ == filled(capture.unresolved@, defaults.unresolved@)
    &&& r.workbooks == capture.workbooks
    &&& r.smoke == capture.smoke
    &&& r.repeatability == capture.repeatability
    &&& r.retries == capture.retries
    &&& r.comparisons == capture.comparisons
}

fn fill(set: Vec<Record>, default: Vec<Record>) -> (r: Vec<Record>)
    ensures
        r@ == filled(set@, default@),
{
    if set.len() == 0 {
        default
    } else {
        set
    }
}

/// Initializes the kernel evidence without losing any runtime row: only
/// what is still empty takes its default.
pub fn initialize_kernel(capture: KernelCapture, defaults: KernelCapture) -> (r: KernelCapture)
    ensures
        kernel_initialized(capture, defaults, r),
{
    let KernelCapture {
        manifest,
        environments,
        configurations,
        workbooks,
        smoke,
        repeatability,
        retries,
        comparisons,
        unresolved,
    } = capture;
    let manifest = if crate::text::chars_of(manifest.as_str()).len() == 0 {
        defaults.manifest
    } else {
        manifest
    };
    KernelCapture {
        manifest,
        environments: fill(environments, defaults.environments),
        configurations: fill(configurations, defaults.configurations),
        workbooks,
        smoke,
        repeatability,
        retries,
        comparisons,
        unresolved: fill(unresolved, defaults.unresolved),
    }
}

/// Initializing the kernel evidence again changes nothing: every set that
/// the first initialization filled or kept is kept by the second.
pub proof fn lemma_initialize_kernel_idempotent(
    capture: KernelCapture,
    defaults: KernelCapture,
    once: KernelCapture,
    twice: KernelCapture,
)
    requires
        kernel_initialized(capture, defaults, once),
        kernel_initialized(once, defaults, twice),
    ensures
        twice.manifest@ == once.manifest@,
        twice.environments@ == once.environments@,
        twice.configurations@ == once.configurations@,
        twice.unresolved@ == once.unresolved@,
        twice.workbooks == once.workbooks,
        twice.smoke == once.smoke,
        twice.repeatability == once.repeatability,
        twice.retries == once.retries,
        twice.comparisons == once.comparisons,
{
}

/// Whether a repeatability row records a complete successful sequence.
pub open spec fn sequence_succeeded(r: Record) -> bool {
    match find_field(r.fields@, "complete_sequence_success"@) {
        Some(f) => f.kind == FieldKind::Bool && f.boolean == Some(true),
        None => false,
    }
}

pub open spec fn success_count(rows: Seq<Record>) -> nat
    decreases rows.len(),
{
    if rows.len() == 0 {
        0
    } else {
        success_count(rows.drop_last()) + if sequence_succeeded(rows.last()) {
            1nat
        } else {
            0nat
        }
    }
}

/// The value at `path` of `r` is the JSON boolean `true`.
pub open spec fn holds_true(r: Record, path: Seq<char>) -> bool {
    find_field(r.fields@, path) matches Some(f) && f.kind == FieldKind::Bool && f.boolean == Some(
        true,
    )
}

/// Law: the successful sequences are counted by the rows whose
/// `complete_sequence_success` value is the boolean `true`, and by no other
/// row: the count is the length of the rows kept by that test, never more
/// than the rows, and a row whose value is anything else (`false`, another
/// kind, or no value) leaves the count unchanged when it is added, while a
/// row holding `true` raises it by one.
pub proof fn lemma_success_count_counts_true_rows(rows: Seq<Record>, row: Record)
    ensures
        success_count(rows) == rows.filter(
            |r: Record| holds_true(r, "complete_sequence_success"@),
        ).len(),
        success_count(rows) <= rows.len(),
        !holds_true(row, "complete_sequence_success"@) ==> success_count(rows.push(row))
            == success_count(rows),
        holds_true(row, "complete_sequence_success"@) ==> success_count(rows.push(row))
            == success_count(rows) + 1,
    decreases rows.len(),
{
    let pred = |r: Record| holds_true(r, "complete_sequence_success"@);
    assert(rows.push(row).drop_last() =~= rows);
    reveal(Seq::filter);
    if rows.len() > 0 {
        lemma_success_count_counts_true_rows(rows.drop_last(), rows.last());
        assert(rows.drop_last().push(rows.last()) =~= rows);
    }
}

/// How many repeatability rows record a complete successful sequence.
pub fn successful_sequences(rows: &Vec<Record>) -> (n: usize)
    ensures
        n == success_count(rows@),
        n == rows@.filter(|r: Record| holds_true(r, "complete_sequence_success"@)).len(),
        n <= rows@.len(),
{
    let mut n: usize = 0;
    let mut i: usize = 0;
    while i < rows.len()
        invariant
            i <= rows@.len(),
            n == success_count(rows@.take(i as int)),
            n <= i,
        decreases rows.len() - i,
    {
        assert(rows@.take(i + 1).drop_last() =~= rows@.take(i as int));
        let succeeded = match crate::evidence::field(&rows[i], "complete_sequence_success") {
            Some(f) => f.kind == FieldKind::Bool && match f.boolean {
                Some(b) => b,
                None => false,
            },
            None => false,
        };
        if succeeded {
            n = n + 1;
        }
        i = i + 1;
    }
    assert(rows@.take(i as int) =~= rows@);
    proof {
        lemma_success_count_counts_true_rows(rows@, rows@[0]);
    }
    n
}

} // verus!
