//! The value-runtime evidence: the rules every committed evidence file
//! meets, the row minimums of each evidence kind, and the deterministic
//! reports generated from the records.

use vstd::prelude::*;

use crate::evidence::{find_field, Field, FieldKind, Record};
use crate::report::lf_terminated;
use crate::runtime_report::{fstr, fstr_of};
use crate::text::{
    contains_spec, contains_text, decimal, joined, push_decimal, push_str, replace_spec,
    replace_text,
};

verus! {

/// The value-runtime evidence files, in their fixed order.
pub open spec fn value_evidence_file_list() -> Seq<Seq<char>> {
    seq![
        "case-definitions.jsonl"@,
        "scalar-value2-observations.jsonl"@,
        "scalar-value-observations.jsonl"@,
        "blank-null-empty-observations.jsonl"@,
        "date-currency-observations.jsonl"@,
        "error-observations.jsonl"@,
        "formula-observations.jsonl"@,
        "rectangular-read-observations.jsonl"@,
        "rectangular-write-observations.jsonl"@,
        "mixed-array-observations.jsonl"@,
        "precision-observations.jsonl"@,
        "string-observations.jsonl"@,
        "dynamic-array-observations.jsonl"@,
        "stability-observations.jsonl"@,
        "unresolved.jsonl"@,
    ]
}

pub fn value_evidence_files() -> (v: Vec<&'static str>)
    ensures
        v@.map_values(|s: &str| s@) == value_evidence_file_list(),
{
    let mut v: Vec<&'static str> = Vec::new();
    v.push("case-definitions.jsonl");
    v.push("scalar-value2-observations.jsonl");
    v.push("scalar-value-observations.jsonl");
    v.push("blank-null-empty-observations.jsonl");
    v.push("date-currency-observations.jsonl");
    v.push("error-observations.jsonl");
    v.push("formula-observations.jsonl");
    v.push("rectangular-read-observations.jsonl");
    v.push("rectangular-write-observations.jsonl");
    v.push("mixed-array-observations.jsonl");
    v.push("precision-observations.jsonl");
    v.push("string-observations.jsonl");
    v.push("dynamic-array-observations.jsonl");
    v.push("stability-observations.jsonl");
    v.push("unresolved.jsonl");
    assert(v@.map_values(|s: &str| s@) =~= value_evidence_file_list());
    v
}

/// Why a committed value-runtime evidence file is refused: CRLF endings or
/// no final newline, else machine-specific data (a pointer rendering, a
/// verbatim path prefix, a process identifier).
pub open spec fn value_file_error(path: Seq<char>, text: Seq<char>) -> Option<Seq<char>> {
    if !lf_terminated(text) {
        Some(path + " must use LF endings and a final newline"@)
    } else if contains_spec(text, "ptr="@) || contains_spec(text, "\\\\?\\"@) || contains_spec(
        text,
        "\"pid\""@,
    ) {
        Some(path + " contains prohibited machine-specific data"@)
    } else {
        None
    }
}

/// Checks one committed value-runtime evidence file.
pub fn check_value_file(path: &str, text: &str) -> (r: Result<(), String>)
    ensures
        match value_file_error(path@, text@) {
            None => r is Ok,
            Some(m) => r matches Err(e) && e@ == m,
        },
{
    if !crate::report::is_lf_terminated(text) {
        let mut m = String::new();
        push_str(&mut m, path);
        push_str(&mut m, " must use LF endings and a final newline");
        return Err(m);
    }
    if contains_text(text, "ptr=") || contains_text(text, "\\\\?\\") || contains_text(text, "\"pid\"") {
        let mut m = String::new();
        push_str(&mut m, path);
        push_str(&mut m, " contains prohibited machine-specific data");
        return Err(m);
    }
    Ok(())
}

pub open spec fn count_message(label: Seq<char>, count: nat, minimum: nat) -> Seq<char> {
    label + " evidence is incomplete: "@ + decimal(count) + "/"@ + decimal(minimum) + " rows"@
}

/// Requires at least `minimum` rows of one evidence kind.
pub fn require_count(label: &str, count: usize, minimum: usize) -> (r: Result<(), String>)
    ensures
        count >= minimum ==> r is Ok,
        count < minimum ==> (r matches Err(e) && e@ == count_message(
            label@,
            count as nat,
            minimum as nat,
        )),
{
    if count < minimum {
        let mut s = String::new();
        push_str(&mut s, label);
        push_str(&mut s, " evidence is incomplete: ");
        push_decimal(&mut s, count as u64);
        push_str(&mut s, "/");
        push_decimal(&mut s, minimum as u64);
        push_str(&mut s, " rows");
        Err(s)
    } else {
        Ok(())
    }
}

/// The row minimums, in the order they are checked: scalar `Value2` and
/// `Value`, rectangular reads and writes, then the other evidence kinds.
pub open spec fn value_count_table() -> Seq<(Seq<char>, nat)> {
    seq![
        ("scalar Value2"@, 28nat),
        ("scalar Value"@, 28nat),
        ("rectangular reads"@, 13nat),
        ("rectangular writes"@, 9nat),
        ("blank/null/empty"@, 6nat),
        ("date/currency"@, 11nat),
        ("errors"@, 7nat),
        ("formulas"@, 8nat),
        ("mixed array"@, 1nat),
        ("precision"@, 10nat),
        ("strings"@, 14nat),
        ("dynamic arrays"@, 1nat),
        ("stability"@, 40nat),
    ]
}

fn value_count_entries() -> (v: Vec<(&'static str, usize)>)
    ensures
        v@.map_values(|e: (&str, usize)| (e.0@, e.1 as nat)) == value_count_table(),
{
    let mut v: Vec<(&'static str, usize)> = Vec::new();
    v.push(("scalar Value2", 28));
    v.push(("scalar Value", 28));
    v.push(("rectangular reads", 13));
    v.push(("rectangular writes", 9));
    v.push(("blank/null/empty", 6));
    v.push(("date/currency", 11));
    v.push(("errors", 7));
    v.push(("formulas", 8));
    v.push(("mixed array", 1));
    v.push(("precision", 10));
    v.push(("strings", 14));
    v.push(("dynamic arrays", 1));
    v.push(("stability", 40));
    assert(v@.map_values(|e: (&str, usize)| (e.0@, e.1 as nat)) =~= value_count_table());
    v
}

/// The first evidence kind, from position `k` on, with fewer rows than its
/// minimum.
pub open spec fn first_count_shortfall(counts: Seq<usize>, k: int) -> Option<Seq<char>>
    decreases value_count_table().len() - k,
{
    if k < 0 || k >= value_count_table().len() || k >= counts.len() {
        None
    } else if counts[k] < value_count_table()[k].1 {
        Some(count_message(value_count_table()[k].0, counts[k] as nat, value_count_table()[k].1))
    } else {
        first_count_shortfall(counts, k + 1)
    }
}

/// The row counts of the evidence kinds, in the order of
/// `value_count_table`.
pub open spec fn value_counts(evidence: ValueEvidence) -> Seq<usize> {
    seq![
        evidence.scalar_value2@.len() as usize,
        evidence.scalar_value@.len() as usize,
        evidence.rectangles_read@.len() as usize,
        evidence.rectangles_write@.len() as usize,
        evidence.blank@.len() as usize,
        evidence.dates@.len() as usize,
        evidence.errors@.len() as usize,
        evidence.formulas@.len() as usize,
        evidence.mixed@.len() as usize,
        evidence.precision@.len() as usize,
        evidence.strings@.len() as usize,
        evidence.dynamic@.len() as usize,
        evidence.stability@.len() as usize,
    ]
}

/// Checks that each evidence kind holds at least its minimum number of
/// rows; the first shortfall, in the order of `value_count_table`, is the
/// error.
pub fn check_value_evidence(evidence: &ValueEvidence) -> (r: Result<(), String>)
    ensures
        match first_count_shortfall(value_counts(*evidence), 0) {
            None => r is Ok,
            Some(m) => r matches Err(e) && e@ == m,
        },
{
    let mut counts: Vec<usize> = Vec::new();
    counts.push(evidence.scalar_value2.len());
    counts.push(evidence.scalar_value.len());
    counts.push(evidence.rectangles_read.len());
    counts.push(evidence.rectangles_write.len());
    counts.push(evidence.blank.len());
    counts.push(evidence.dates.len());
    counts.push(evidence.errors.len());
    counts.push(evidence.formulas.len());
    counts.push(evidence.mixed.len());
    counts.push(evidence.precision.len());
    counts.push(evidence.strings.len());
    counts.push(evidence.dynamic.len());
    counts.push(evidence.stability.len());
    assert(counts@ =~= value_counts(*evidence));
    check_value_counts(&counts)
}

/// Checks the row counts of the thirteen evidence kinds, in the order of
/// `value_count_table`, against their minimums.
fn check_value_counts(counts: &Vec<usize>) -> (r: Result<(), String>)
    requires
        counts@.len() == 13,
    ensures
        match first_count_shortfall(counts@, 0) {
            None => r is Ok,
            Some(m) => r matches Err(e) && e@ == m,
        },
{
    let table = value_count_entries();
    let mut k: usize = 0;
    while k < 13
        invariant
            k <= 13,
            counts@.len() == 13,
            table@.map_values(|e: (&str, usize)| (e.0@, e.1 as nat)) == value_count_table(),
            first_count_shortfall(counts@, 0) == first_count_shortfall(counts@, k as int),
        decreases 13 - k,
    {
        assert(value_count_table()[k as int] == (table@[k as int].0@, table@[k as int].1 as nat));
        match require_count(table[k].0, counts[k], table[k].1) {
            Err(e) => {
                return Err(e);
            },
            Ok(()) => {},
        }
        k = k + 1;
    }
    Ok(())
}

/// A string value of a record as a table cell: `--` where it is absent or
/// not a string, pipes escaped.
pub open spec fn cell_text(r: Record, name: Seq<char>) -> Seq<char> {
    replace_spec(
        match fstr(r, name) {
            Some(t) => t,
            None => "--"@,
        },
        "|"@,
        "\\|"@,
    )
}

fn cell_string(r: &Record, name: &str) -> (s: String)
    ensures
        s@ == cell_text(*r, name@),
{
    proof {
        reveal_strlit("|");
    }
    match fstr_of(r, name) {
        Some(t) => replace_text(t, "|", "\\|"),
        None => replace_text("--", "|", "\\|"),
    }
}

/// The value a row's result is read from: the write status, else the
/// `Value2` read status, else the classification, whichever is present
/// first.
pub open spec fn primary_field(r: Record) -> Option<Field> {
    let write = find_field(r.fields@, "write/hresult_hex"@);
    let read = find_field(r.fields@, "value2_read_call/hresult_hex"@);
    if write is Some {
        write
    } else if read is Some {
        read
    } else {
        find_field(r.fields@, "classification"@)
    }
}

/// A row's primary result: the chosen value where it is a string, else `--`.
pub open spec fn primary_result(r: Record) -> Seq<char> {
    match primary_field(r) {
        Some(f) => if f.kind == FieldKind::Text {
            f.text@
        } else {
            "--"@
        },
        None => "--"@,
    }
}

fn push_primary_result(s: &mut String, r: &Record)
    ensures
        final(s)@ == old(s)@ + primary_result(*r),
{
    let write = crate::evidence::field(r, "write/hresult_hex");
    let chosen = if write.is_some() {
        write
    } else {
        let read = crate::evidence::field(r, "value2_read_call/hresult_hex");
        if read.is_some() {
            read
        } else {
            crate::evidence::field(r, "classification")
        }
    };
    match chosen {
        Some(f) => if f.kind == FieldKind::Text {
            push_str(s, f.text.as_str());
        } else {
            push_str(s, "--");
        },
        None => push_str(s, "--"),
    }
}

pub open spec fn value_row_text(r: Record) -> Seq<char> {
    "| "@ + cell_text(r, "id"@) + " | "@ + cell_text(r, "category"@) + " | "@ + primary_result(r)
        + " |\n"@
}

pub open spec fn value_rows_text(rows: Seq<Record>) -> Seq<char>
    decreases rows.len(),
{
    if rows.len() == 0 {
        Seq::empty()
    } else {
        value_rows_text(rows.drop_last()) + value_row_text(rows.last())
    }
}

/// An evidence table: the record count, then one row per record in its
/// committed order.
pub open spec fn value_report_text(title: Seq<char>, rows: Seq<Record>) -> Seq<char> {
    "# "@ + title + "\n\nObserved records: "@ + decimal(rows.len()) + ".\n\n| ID | Category | Primary result |\n| --- | --- | --- |\n"@
        + value_rows_text(rows)
}

pub fn value_report(title: &str, rows: &Vec<Record>) -> (s: String)
    ensures
        s@ == value_report_text(title@, rows@),
{
    let mut s = String::new();
    push_str(&mut s, "# ");
    push_str(&mut s, title);
    push_str(&mut s, "\n\nObserved records: ");
    push_decimal(&mut s, rows.len() as u64);
    push_str(&mut s, ".\n\n| ID | Category | Primary result |\n| --- | --- | --- |\n");
    let ghost head = s@;
    let mut i: usize = 0;
    while i < rows.len()
        invariant
            i <= rows@.len(),
            s@ == head + value_rows_text(rows@.take(i as int)),
        decreases rows.len() - i,
    {
        assert(rows@.take(i + 1).drop_last() =~= rows@.take(i as int));
        let r = &rows[i];
        push_str(&mut s, "| ");
        let id = cell_string(r, "id");
        push_str(&mut s, id.as_str());
        push_str(&mut s, " | ");
        let category = cell_string(r, "category");
        push_str(&mut s, category.as_str());
        push_str(&mut s, " | ");
        push_primary_result(&mut s, r);
        push_str(&mut s, " |\n");
        i = i + 1;
        assert(s@ =~= head + value_rows_text(rows@.take(i as int)));
    }
    assert(rows@.take(i as int) =~= rows@);
    s
}

pub open spec fn comparison_text(value: nat, value2: nat) -> Seq<char> {
    "# `Value` versus `Value2`\n\nThe canonical evidence contains "@ + decimal(value) + " `Value` and "@
        + decimal(value2)
        + " `Value2` scalar rows, keyed by their stable case IDs. Integer, floating-point, BSTR, Empty/Null, error, date, and currency outcomes are retained in the source JSONL rather than coerced in this report.\n"@
}

/// The `Value` versus `Value2` summary: the two scalar row counts.
pub fn comparison_report(value: &Vec<Record>, value2: &Vec<Record>) -> (s: String)
    ensures
        s@ == comparison_text(value@.len(), value2@.len()),
{
    let mut s = String::new();
    push_str(&mut s, "# `Value` versus `Value2`\n\nThe canonical evidence contains ");
    push_decimal(&mut s, value.len() as u64);
    push_str(&mut s, " `Value` and ");
    push_decimal(&mut s, value2.len() as u64);
    push_str(
        &mut s,
        " `Value2` scalar rows, keyed by their stable case IDs. Integer, floating-point, BSTR, Empty/Null, error, date, and currency outcomes are retained in the source JSONL rather than coerced in this report.\n",
    );
    s
}

/// The first record whose `id` is the string `id`.
pub open spec fn first_with_id(rows: Seq<Record>, id: Seq<char>) -> Option<Record>
    decreases rows.len(),
{
    if rows.len() == 0 {
        None
    } else if fstr(rows[0], "id"@) == Some(id) {
        Some(rows[0])
    } else {
        first_with_id(rows.drop_first(), id)
    }
}

/// The `Value2` layout of the 3×4 marker read as compact JSON; `null` where
/// the marker read or its layout is absent.
pub open spec fn marker_layout(reads: Seq<Record>) -> Seq<char> {
    match first_with_id(reads, "R-09"@) {
        Some(r) => match find_field(r.fields@, "value2_read/layout"@) {
            Some(f) => f.json@,
            None => "null"@,
        },
        None => "null"@,
    }
}

fn marker_layout_string(reads: &Vec<Record>) -> (s: String)
    ensures
        s@ == marker_layout(reads@),
{
    let mut i: usize = 0;
    assert(reads@.skip(0) =~= reads@);
    while i < reads.len()
        invariant
            i <= reads@.len(),
            first_with_id(reads@, "R-09"@) == first_with_id(reads@.skip(i as int), "R-09"@),
        decreases reads.len() - i,
    {
        let ghost rest = reads@.skip(i as int);
        assert(rest[0] == reads@[i as int]);
        let is_marker = match fstr_of(&reads[i], "id") {
            Some(t) => crate::text::str_eq(t, "R-09"),
            None => false,
        };
        if is_marker {
            let mut s = String::new();
            match crate::evidence::field(&reads[i], "value2_read/layout") {
                Some(f) => push_str(&mut s, f.json.as_str()),
                None => push_str(&mut s, "null"),
            }
            return s;
        }
        assert(rest.drop_first() =~= reads@.skip(i + 1));
        i = i + 1;
    }
    let mut s = String::new();
    push_str(&mut s, "null");
    s
}

pub open spec fn safearray_text(reads: Seq<Record>, writes: nat) -> Seq<char> {
    "# SAFEARRAY layout\n\nRectangular reads: "@ + decimal(reads.len()) + ". Rectangular writes: "@
        + decimal(writes)
        + ". The 3×4 marker case records this runtime layout:\n\n```json\n"@
        + marker_layout(reads)
        + "\n```\n\nThe marker traversal is preserved in `rectangular-read-observations.jsonl`; it establishes physical dimension 1 as Excel rows and dimension 2 as Excel columns for this environment.\n"@
}

/// The SAFEARRAY layout summary: the read and write counts and the layout
/// recorded by the marker read.
pub fn safearray_report(reads: &Vec<Record>, writes: &Vec<Record>) -> (s: String)
    ensures
        s@ == safearray_text(reads@, writes@.len()),
{
    let mut s = String::new();
    push_str(&mut s, "# SAFEARRAY layout\n\nRectangular reads: ");
    push_decimal(&mut s, reads.len() as u64);
    push_str(&mut s, ". Rectangular writes: ");
    push_decimal(&mut s, writes.len() as u64);
    push_str(&mut s, ". The 3×4 marker case records this runtime layout:\n\n```json\n");
    let layout = marker_layout_string(reads);
    push_str(&mut s, layout.as_str());
    push_str(
        &mut s,
        "\n```\n\nThe marker traversal is preserved in `rectangular-read-observations.jsonl`; it establishes physical dimension 1 as Excel rows and dimension 2 as Excel columns for this environment.\n",
    );
    s
}

/// The unsigned integer a record holds at `path`, where it holds one.
pub open spec fn tag_of(r: Record, path: Seq<char>) -> Option<u64> {
    match find_field(r.fields@, path) {
        Some(f) => f.uint,
        None => None,
    }
}

pub open spec fn has_tag(rows: Seq<Record>, path: Seq<char>, v: u64) -> bool {
    exists|k: int| 0 <= k < rows.len() && #[trigger] tag_of(rows[k], path) == Some(v)
}

/// `tags` lists, in increasing order and once each, the unsigned integers
/// that the records hold at `path`.
pub open spec fn lists_tags(rows: Seq<Record>, path: Seq<char>, tags: Seq<u64>) -> bool {
    &&& forall|i: int, j: int| 0 <= i < j < tags.len() ==> #[trigger] tags[i] < #[trigger] tags[j]
    &&& forall|v: u64| #[trigger] tags.contains(v) <==> has_tag(rows, path, v)
}

/// The tags in decimal, separated by `, `; `none` where there are none.
pub open spec fn tags_text(tags: Seq<u64>) -> Seq<char> {
    if tags.len() == 0 {
        "none"@
    } else {
        joined(tags.map_values(|v: u64| decimal(v as nat)), ", "@)
    }
}

/// Two increasing lists of the same values are the same list.
pub proof fn lemma_increasing_lists_unique(a: Seq<u64>, b: Seq<u64>)
    requires
        forall|i: int, j: int| 0 <= i < j < a.len() ==> #[trigger] a[i] < #[trigger] a[j],
        forall|i: int, j: int| 0 <= i < j < b.len() ==> #[trigger] b[i] < #[trigger] b[j],
        forall|v: u64| #[trigger] a.contains(v) <==> b.contains(v),
    ensures
        a == b,
    decreases a.len() + b.len(),
{
    if a.len() == 0 {
        if b.len() > 0 {
            assert(b.contains(b[0]));
            assert(a.contains(b[0]));
        }
        assert(a =~= b);
    } else if b.len() == 0 {
        assert(a.contains(a[0]));
        assert(b.contains(a[0]));
    } else {
        let x = a.last();
        let y = b.last();
        assert(a.contains(x));
        assert(b.contains(x));
        assert(b.contains(y));
        assert(a.contains(y));
        let ia = choose|i: int| 0 <= i < a.len() && a[i] == y;
        let ib = choose|i: int| 0 <= i < b.len() && b[i] == x;
        assert(a[ia] <= a[a.len() - 1]) by {
            if ia < a.len() - 1 {
                assert(a[ia] < a[a.len() - 1]);
            }
        }
        assert(b[ib] <= b[b.len() - 1]) by {
            if ib < b.len() - 1 {
                assert(b[ib] < b[b.len() - 1]);
            }
        }
        assert(x == y);
        let a2 = a.drop_last();
        let b2 = b.drop_last();
        assert forall|v: u64| #[trigger] a2.contains(v) <==> b2.contains(v) by {
            if a2.contains(v) {
                let i = choose|i: int| 0 <= i < a2.len() && a2[i] == v;
                assert(a[i] < a[a.len() - 1]);
                assert(a.contains(v));
                assert(b.contains(v));
                let j = choose|j: int| 0 <= j < b.len() && b[j] == v;
                if j == b.len() - 1 {
                    assert(false);
                }
                assert(b2[j] == v);
            }
            if b2.contains(v) {
                let i = choose|i: int| 0 <= i < b2.len() && b2[i] == v;
                assert(b[i] < b[b.len() - 1]);
                assert(b.contains(v));
                assert(a.contains(v));
                let j = choose|j: int| 0 <= j < a.len() && a[j] == v;
                if j == a.len() - 1 {
                    assert(false);
                }
                assert(a2[j] == v);
            }
        }
        lemma_increasing_lists_unique(a2, b2);
        assert(a =~= a2.push(x));
        assert(b =~= b2.push(y));
    }
}

/// Two strictly increasing lists of positions holding the same positions
/// are the same list.
pub proof fn lemma_increasing_positions_unique(a: Seq<usize>, b: Seq<usize>)
    requires
        forall|i: int, j: int| 0 <= i < j < a.len() ==> #[trigger] a[i] < #[trigger] a[j],
        forall|i: int, j: int| 0 <= i < j < b.len() ==> #[trigger] b[i] < #[trigger] b[j],
        forall|v: usize| #[trigger] a.contains(v) <==> b.contains(v),
    ensures
        a == b,
{
    let a64 = a.map_values(|v: usize| v as u64);
    let b64 = b.map_values(|v: usize| v as u64);
    assert forall|v: u64| #[trigger] a64.contains(v) <==> b64.contains(v) by {
        if a64.contains(v) {
            let i = choose|i: int| 0 <= i < a64.len() && a64[i] == v;
            assert(a.contains(a[i]));
            assert(b.contains(a[i]));
            let j = choose|j: int| 0 <= j < b.len() && b[j] == a[i];
            assert(b64[j] == v);
        }
        if b64.contains(v) {
            let i = choose|i: int| 0 <= i < b64.len() && b64[i] == v;
            assert(b.contains(b[i]));
            assert(a.contains(b[i]));
            let j = choose|j: int| 0 <= j < a.len() && a[j] == b[i];
            assert(a64[j] == v);
        }
    }
    lemma_increasing_lists_unique(a64, b64);
    assert(a.len() == a64.len() && b.len() == b64.len());
    assert forall|i: int| 0 <= i < a.len() implies a[i] == b[i] by {
        assert(a64[i] == b64[i]);
        assert(a64[i] == a[i] as u64);
        assert(b64[i] == b[i] as u64);
    }
    assert(a =~= b);
}

/// Adds `v` to an increasing list unless it is there already.
fn insert_tag(tags: &mut Vec<u64>, v: u64)
    requires
        forall|i: int, j: int|
            0 <= i < j < old(tags)@.len() ==> #[trigger] old(tags)@[i] < #[trigger] old(tags)@[j],
    ensures
        forall|i: int, j: int|
            0 <= i < j < final(tags)@.len() ==> #[trigger] final(tags)@[i] < #[trigger] final(tags)@[j],
        forall|x: u64| #[trigger] final(tags)@.contains(x) <==> (old(tags)@.contains(x) || x == v),
{
    let mut i: usize = 0;
    while i < tags.len() && tags[i] < v
        invariant
            i <= tags@.len(),
            tags@ == old(tags)@,
            forall|k: int| 0 <= k < i ==> #[trigger] tags@[k] < v,
        decreases tags.len() - i,
    {
        i = i + 1;
    }
    if i < tags.len() && tags[i] == v {
        assert(tags@.contains(v));
        return;
    }
    let ghost before = tags@;
    tags.insert(i, v);
    assert(tags@ =~= before.take(i as int).push(v) + before.skip(i as int));
    assert forall|a: int, b: int| 0 <= a < b < tags@.len() implies #[trigger] tags@[a] < #[trigger] tags@[b] by {
        if a < i && b == i {
        } else if a < i && b > i {
            assert(tags@[b] == before[b - 1]);
            assert(before[a] < before[b - 1] || a == b - 1);
        } else if a == i && b > i {
            assert(tags@[b] == before[b - 1]);
            assert(before[i as int] >= v);
            assert(before[i as int] != v);
            assert(before[i as int] <= before[b - 1]) by {
                if (i as int) < b - 1 {
                    assert(before[i as int] < before[b - 1]);
                }
            }
        } else if a > i {
            assert(tags@[a] == before[a - 1]);
            assert(tags@[b] == before[b - 1]);
        }
    }
    assert forall|x: u64| #[trigger] tags@.contains(x) <==> (before.contains(x) || x == v) by {
        if tags@.contains(x) {
            let k = choose|k: int| 0 <= k < tags@.len() && tags@[k] == x;
            if k < i {
                assert(before[k] == x);
            } else if k > i {
                assert(before[k - 1] == x);
            }
        }
        if before.contains(x) {
            let k = choose|k: int| 0 <= k < before.len() && before[k] == x;
            if k < i {
                assert(tags@[k] == x);
            } else {
                assert(tags@[k + 1] == x);
            }
        }
        if x == v {
            assert(tags@[i as int] == v);
        }
    }
}

/// The unsigned integers the records hold at `path`, increasing and once
/// each.
fn collect_tags(rows: &Vec<Record>, path: &str) -> (tags: Vec<u64>)
    ensures
        lists_tags(rows@, path@, tags@),
{
    let mut tags: Vec<u64> = Vec::new();
    let mut k: usize = 0;
    while k < rows.len()
        invariant
            k <= rows@.len(),
            forall|i: int, j: int| 0 <= i < j < tags@.len() ==> #[trigger] tags@[i] < #[trigger] tags@[j],
            forall|v: u64|
                #[trigger] tags@.contains(v) <==> has_tag(rows@.take(k as int), path@, v),
        decreases rows.len() - k,
    {
        let ghost before = tags@;
        let found = match crate::evidence::field(&rows[k], path) {
            Some(f) => f.uint,
            None => None,
        };
        assert(found == tag_of(rows@[k as int], path@));
        match found {
            Some(v) => insert_tag(&mut tags, v),
            None => {},
        }
        proof {
            let taken = rows@.take(k + 1);
            assert forall|v: u64| #[trigger] tags@.contains(v) <==> has_tag(taken, path@, v) by {
                if has_tag(taken, path@, v) {
                    let j = choose|j: int| 0 <= j < taken.len() && #[trigger] tag_of(taken[j], path@) == Some(v);
                    if j < k {
                        assert(rows@.take(k as int)[j] == taken[j]);
                        assert(has_tag(rows@.take(k as int), path@, v));
                    }
                }
                if before.contains(v) {
                    assert(has_tag(rows@.take(k as int), path@, v));
                    let j = choose|j: int| 0 <= j < k && #[trigger] tag_of(rows@.take(k as int)[j], path@) == Some(v);
                    assert(taken[j] == rows@.take(k as int)[j]);
                }
                if found == Some(v) {
                    assert(tag_of(taken[k as int], path@) == Some(v));
                }
            }
        }
        k = k + 1;
    }
    assert(rows@.take(k as int) =~= rows@);
    tags
}

/// Renders the tags in decimal, separated by `, `, or `none`.
fn tags_string(tags: &Vec<u64>) -> (s: String)
    ensures
        s@ == tags_text(tags@),
{
    let mut s = String::new();
    if tags.len() == 0 {
        push_str(&mut s, "none");
        return s;
    }
    let ghost views = tags@.map_values(|v: u64| decimal(v as nat));
    let mut i: usize = 0;
    while i < tags.len()
        invariant
            i <= tags@.len(),
            views == tags@.map_values(|v: u64| decimal(v as nat)),
            s@ == joined(views.take(i as int), ", "@),
        decreases tags.len() - i,
    {
        if i > 0 {
            push_str(&mut s, ", ");
        }
        push_decimal(&mut s, tags[i]);
        let ghost prefix = views.take(i + 1);
        assert(prefix.drop_last() =~= views.take(i as int));
        i = i + 1;
        proof {
            if i == 1 {
                assert(s@ =~= joined(views.take(1), ", "@));
            }
        }
    }
    assert(views.take(i as int) =~= views);
    s
}

pub open spec fn requirements_text(
    cases: nat,
    scalar_value2: nat,
    scalar_value: nat,
    rectangles: nat,
    mixed: nat,
    precision: nat,
    strings: nat,
    scalar_tags: Seq<u64>,
    rectangular_tags: Seq<u64>,
) -> Seq<char> {
    "# Value-model requirements\n\nThis is a derived research requirements report, not a public API design. It is based on "@ + decimal(cases) + " case definitions, "@ + decimal(scalar_value2) + " `Value2` scalar rows, "@ + decimal(scalar_value)
        + " `Value` scalar rows, "@ + decimal(rectangles) + " rectangular reads, "@ + decimal(mixed) + " mixed-array rows, "@ + decimal(precision)
        + " precision rows, and "@ + decimal(strings) + " string rows.\n\n1. Scalar physical VARTYPEs observed: "@ + tags_text(scalar_tags) + ".\n2. Rectangular physical owner VARTYPEs observed: "@
        + tags_text(rectangular_tags) + ".\n3. Integer inputs must preserve their input tag in evidence; Excel normalizes accepted integer cell values to floating-point reads in the scalar data.\n4. Future policy must distinguish never-written/cleared cells, `VT_EMPTY`, `VT_NULL`, and empty BSTR input.\n5. Excel cell errors are physical `VT_ERROR` values with an exact signed `scode`; they must not be stringified in a raw value layer.\n6. Date and currency require member- and NumberFormat-aware interpretation; the evidence retains `Value` and `Value2` reads separately.\n7. Rectangular reads are observed as rank-2 `SAFEARRAY(VARIANT)` with lower bounds, upper bounds, and per-element VARTYPEs retained.\n8. Rows map to physical SAFEARRAY dimension 1 and columns to dimension 2 in the proven marker case; storage policy must remain explicit.\n9. Values at and above IEEE-754 exact-integer boundaries, non-finite values, and negative zero require explicit loss/normalization policy.\n10. BSTR UTF-16 length, embedded NUL transformation, Unicode, formula-like strings, and Excel cell-length limits require explicit policy.\n11. Unsupported or rejected writes must retain HRESULT, EXCEPINFO, `puArgErr`, and post-failure read-back.\n12. No finalized Rust enum or public API is defined here.\n"@
}

/// `text` is the value-model requirements report of the evidence: its row
/// counts and the physical VARTYPEs observed by scalar `Value2` reads and by
/// rectangular reads.
#[verifier::opaque]
pub open spec fn is_requirements_report(
    text: Seq<char>,
    cases: Seq<Record>,
    scalar_value2: Seq<Record>,
    scalar_value: Seq<Record>,
    rectangles: Seq<Record>,
    mixed: Seq<Record>,
    precision: Seq<Record>,
    strings: Seq<Record>,
) -> bool {
    exists|scalar_tags: Seq<u64>, rectangular_tags: Seq<u64>|
        lists_tags(scalar_value2, "value2_read/vartype"@, scalar_tags) && lists_tags(
            rectangles,
            "value2_read/owner/vartype"@,
            rectangular_tags,
        ) && text == requirements_text(
            cases.len(),
            scalar_value2.len(),
            scalar_value.len(),
            rectangles.len(),
            mixed.len(),
            precision.len(),
            strings.len(),
            scalar_tags,
            rectangular_tags,
        )
}

pub fn requirements_report(
    cases: &Vec<Record>,
    scalar_value2: &Vec<Record>,
    scalar_value: &Vec<Record>,
    rectangles: &Vec<Record>,
    mixed: &Vec<Record>,
    precision: &Vec<Record>,
    strings: &Vec<Record>,
) -> (s: String)
    ensures
        is_requirements_report(
            s@,
            cases@,
            scalar_value2@,
            scalar_value@,
            rectangles@,
            mixed@,
            precision@,
            strings@,
        ),
{
    let scalar_tags = collect_tags(scalar_value2, "value2_read/vartype");
    let rectangular_tags = collect_tags(rectangles, "value2_read/owner/vartype");
    let mut s = String::new();
    push_str(&mut s, "# Value-model requirements\n\nThis is a derived research requirements report, not a public API design. It is based on ");
    push_decimal(&mut s, cases.len() as u64);
    push_str(&mut s, " case definitions, ");
    push_decimal(&mut s, scalar_value2.len() as u64);
    push_str(&mut s, " `Value2` scalar rows, ");
    push_decimal(&mut s, scalar_value.len() as u64);
    push_str(&mut s, " `Value` scalar rows, ");
    push_decimal(&mut s, rectangles.len() as u64);
    push_str(&mut s, " rectangular reads, ");
    push_decimal(&mut s, mixed.len() as u64);
    push_str(&mut s, " mixed-array rows, ");
    push_decimal(&mut s, precision.len() as u64);
    push_str(&mut s, " precision rows, and ");
    push_decimal(&mut s, strings.len() as u64);
    push_str(&mut s, " string rows.\n\n1. Scalar physical VARTYPEs observed: ");
    let t = tags_string(&scalar_tags);
    push_str(&mut s, t.as_str());
    push_str(&mut s, ".\n2. Rectangular physical owner VARTYPEs observed: ");
    let t = tags_string(&rectangular_tags);
    push_str(&mut s, t.as_str());
    push_str(&mut s, ".\n3. Integer inputs must preserve their input tag in evidence; Excel normalizes accepted integer cell values to floating-point reads in the scalar data.\n4. Future policy must distinguish never-written/cleared cells, `VT_EMPTY`, `VT_NULL`, and empty BSTR input.\n5. Excel cell errors are physical `VT_ERROR` values with an exact signed `scode`; they must not be stringified in a raw value layer.\n6. Date and currency require member- and NumberFormat-aware interpretation; the evidence retains `Value` and `Value2` reads separately.\n7. Rectangular reads are observed as rank-2 `SAFEARRAY(VARIANT)` with lower bounds, upper bounds, and per-element VARTYPEs retained.\n8. Rows map to physical SAFEARRAY dimension 1 and columns to dimension 2 in the proven marker case; storage policy must remain explicit.\n9. Values at and above IEEE-754 exact-integer boundaries, non-finite values, and negative zero require explicit loss/normalization policy.\n10. BSTR UTF-16 length, embedded NUL transformation, Unicode, formula-like strings, and Excel cell-length limits require explicit policy.\n11. Unsupported or rejected writes must retain HRESULT, EXCEPINFO, `puArgErr`, and post-failure read-back.\n12. No finalized Rust enum or public API is defined here.\n");
    proof {
        reveal(is_requirements_report);
        assert(s@ =~= requirements_text(
            cases@.len(),
            scalar_value2@.len(),
            scalar_value@.len(),
            rectangles@.len(),
            mixed@.len(),
            precision@.len(),
            strings@.len(),
            scalar_tags@,
            rectangular_tags@,
        ));
    }
    s
}

/// The requirements report is determined by the evidence: two reports of
/// the same records are the same text.
pub proof fn lemma_requirements_report_unique(
    a: Seq<char>,
    b: Seq<char>,
    cases: Seq<Record>,
    scalar_value2: Seq<Record>,
    scalar_value: Seq<Record>,
    rectangles: Seq<Record>,
    mixed: Seq<Record>,
    precision: Seq<Record>,
    strings: Seq<Record>,
)
    requires
        is_requirements_report(a, cases, scalar_value2, scalar_value, rectangles, mixed, precision, strings),
        is_requirements_report(b, cases, scalar_value2, scalar_value, rectangles, mixed, precision, strings),
    ensures
        a == b,
{
    reveal(is_requirements_report);
    let (sa, ra) = choose|st: Seq<u64>, rt: Seq<u64>|
        lists_tags(scalar_value2, "value2_read/vartype"@, st) && lists_tags(
            rectangles,
            "value2_read/owner/vartype"@,
            rt,
        ) && a == requirements_text(
            cases.len(),
            scalar_value2.len(),
            scalar_value.len(),
            rectangles.len(),
            mixed.len(),
            precision.len(),
            strings.len(),
            st,
            rt,
        );
    let (sb, rb) = choose|st: Seq<u64>, rt: Seq<u64>|
        lists_tags(scalar_value2, "value2_read/vartype"@, st) && lists_tags(
            rectangles,
            "value2_read/owner/vartype"@,
            rt,
        ) && b == requirements_text(
            cases.len(),
            scalar_value2.len(),
            scalar_value.len(),
            rectangles.len(),
            mixed.len(),
            precision.len(),
            strings.len(),
            st,
            rt,
        );
    assert forall|v: u64| #[trigger] sa.contains(v) <==> sb.contains(v) by {
        assert(sa.contains(v) <==> has_tag(scalar_value2, "value2_read/vartype"@, v));
        assert(sb.contains(v) <==> has_tag(scalar_value2, "value2_read/vartype"@, v));
    }
    assert forall|v: u64| #[trigger] ra.contains(v) <==> rb.contains(v) by {
        assert(ra.contains(v) <==> has_tag(rectangles, "value2_read/owner/vartype"@, v));
        assert(rb.contains(v) <==> has_tag(rectangles, "value2_read/owner/vartype"@, v));
    }
    lemma_increasing_lists_unique(sa, sb);
    lemma_increasing_lists_unique(ra, rb);
}

/// The committed value-runtime evidence, one record set per evidence file.
#[derive(Debug)]
pub struct ValueEvidence {
    pub cases: Vec<Record>,
    pub scalar_value2: Vec<Record>,
    pub scalar_value: Vec<Record>,
    pub blank: Vec<Record>,
    pub dates: Vec<Record>,
    pub errors: Vec<Record>,
    pub formulas: Vec<Record>,
    pub rectangles_read: Vec<Record>,
    pub rectangles_write: Vec<Record>,
    pub mixed: Vec<Record>,
    pub precision: Vec<Record>,
    pub strings: Vec<Record>,
    pub dynamic: Vec<Record>,
    pub stability: Vec<Record>,
    pub unresolved: Vec<Record>,
}

/// The generated value-runtime reports, by file name in their fixed order.
pub fn value_reports(evidence: &ValueEvidence) -> (v: Vec<(&'static str, String)>)
    ensures
        v@.len() == 18,
        v@[0].0@ == "scalar-value2-matrix.md"@,
        v@[0].1@ == value_report_text("Scalar `Value2` matrix"@, evidence.scalar_value2@),
        v@[1].0@ == "scalar-value-matrix.md"@,
        v@[1].1@ == value_report_text("Scalar `Value` matrix"@, evidence.scalar_value@),
        v@[2].0@ == "value-vs-value2.md"@,
        v@[2].1@ == comparison_text(evidence.scalar_value@.len(), evidence.scalar_value2@.len()),
        v@[3].0@ == "blank-null-empty.md"@,
        v@[3].1@ == value_report_text("Blank, Empty, Null, and cleared cells"@, evidence.blank@),
        v@[4].0@ == "date-currency.md"@,
        v@[4].1@ == value_report_text("Date and currency"@, evidence.dates@),
        v@[5].0@ == "excel-errors.md"@,
        v@[5].1@ == value_report_text("Excel error values"@, evidence.errors@),
        v@[6].0@ == "formulas.md"@,
        v@[6].1@ == value_report_text("Scalar formulas"@, evidence.formulas@),
        v@[7].0@ == "formula2-dynamic-arrays.md"@,
        v@[7].1@ == value_report_text("Formula2 and dynamic arrays"@, evidence.dynamic@),
        v@[8].0@ == "safearray-layout.md"@,
        v@[8].1@ == safearray_text(evidence.rectangles_read@, evidence.rectangles_write@.len()),
        v@[9].0@ == "rectangular-read-matrix.md"@,
        v@[9].1@ == value_report_text("Rectangular Value/Value2 reads"@, evidence.rectangles_read@),
        v@[10].0@ == "rectangular-write-matrix.md"@,
        v@[10].1@ == value_report_text("Rectangular SAFEARRAY writes"@, evidence.rectangles_write@),
        v@[11].0@ == "mixed-array-coercions.md"@,
        v@[11].1@ == value_report_text("Mixed SAFEARRAY coercions"@, evidence.mixed@),
        v@[12].0@ == "numeric-precision.md"@,
        v@[12].1@ == value_report_text("Numeric precision"@, evidence.precision@),
        v@[13].0@ == "string-edge-cases.md"@,
        v@[13].1@ == value_report_text("String edge cases"@, evidence.strings@),
        v@[14].0@ == "mode-comparison.md"@,
        v@[14].1@ == value_report_text("Mode comparison"@, evidence.stability@),
        v@[15].0@ == "stability.md"@,
        v@[15].1@ == value_report_text("Stability"@, evidence.stability@),
        v@[16].0@ == "value-model-requirements.md"@,
        is_requirements_report(v@[16].1@, evidence.cases@, evidence.scalar_value2@, evidence.scalar_value@, evidence.rectangles_read@, evidence.mixed@, evidence.precision@, evidence.strings@),
        v@[17].0@ == "remaining-blockers.md"@,
        v@[17].1@ == value_report_text("Remaining blockers"@, evidence.unresolved@),
{
    let mut v: Vec<(&'static str, String)> = Vec::new();
    v.push(("scalar-value2-matrix.md", value_report("Scalar `Value2` matrix", &evidence.scalar_value2)));
    v.push(("scalar-value-matrix.md", value_report("Scalar `Value` matrix", &evidence.scalar_value)));
    v.push(("value-vs-value2.md", comparison_report(&evidence.scalar_value, &evidence.scalar_value2)));
    v.push(("blank-null-empty.md", value_report("Blank, Empty, Null, and cleared cells", &evidence.blank)));
    v.push(("date-currency.md", value_report("Date and currency", &evidence.dates)));
    v.push(("excel-errors.md", value_report("Excel error values", &evidence.errors)));
    v.push(("formulas.md", value_report("Scalar formulas", &evidence.formulas)));
    v.push(("formula2-dynamic-arrays.md", value_report("Formula2 and dynamic arrays", &evidence.dynamic)));
    v.push(("safearray-layout.md", safearray_report(&evidence.rectangles_read, &evidence.rectangles_write)));
    v.push(("rectangular-read-matrix.md", value_report("Rectangular Value/Value2 reads", &evidence.rectangles_read)));
    v.push(("rectangular-write-matrix.md", value_report("Rectangular SAFEARRAY writes", &evidence.rectangles_write)));
    v.push(("mixed-array-coercions.md", value_report("Mixed SAFEARRAY coercions", &evidence.mixed)));
    v.push(("numeric-precision.md", value_report("Numeric precision", &evidence.precision)));
    v.push(("string-edge-cases.md", value_report("String edge cases", &evidence.strings)));
    v.push(("mode-comparison.md", value_report("Mode comparison", &evidence.stability)));
    v.push(("stability.md", value_report("Stability", &evidence.stability)));
    v.push(("value-model-requirements.md", requirements_report(&evidence.cases, &evidence.scalar_value2, &evidence.scalar_value, &evidence.rectangles_read, &evidence.mixed, &evidence.precision, &evidence.strings)));
    v.push(("remaining-blockers.md", value_report("Remaining blockers", &evidence.unresolved)));
    v
}

/// Why a generated value-runtime report is refused: it could not be read,
/// or it differs from the report regenerated from the evidence.
pub open spec fn value_report_error(path: Seq<char>, expected: Seq<char>, actual: Result<String, String>) -> Option<Seq<char>> {
    match actual {
        Err(e) => Some("missing generated value-runtime report "@ + path + ": "@ + e@),
        Ok(t) => if t@ != expected {
            Some("value-runtime report "@ + path + " is stale; rerun value-matrix-refresh"@)
        } else {
            None
        },
    }
}

/// Compares a generated value-runtime report, as read, with the report
/// regenerated from the evidence.
pub fn check_value_report(path: &str, expected: &str, actual: &Result<String, String>) -> (r: Result<(), String>)
    ensures
        match value_report_error(path@, expected@, *actual) {
            None => r is Ok,
            Some(m) => r matches Err(e) && e@ == m,
        },
{
    match actual {
        Err(e) => {
            let mut m = String::new();
            push_str(&mut m, "missing generated value-runtime report ");
            push_str(&mut m, path);
            push_str(&mut m, ": ");
            push_str(&mut m, e.as_str());
            Err(m)
        },
        Ok(t) => {
            if crate::text::str_eq(t.as_str(), expected) {
                Ok(())
            } else {
                let mut m = String::new();
                push_str(&mut m, "value-runtime report ");
                push_str(&mut m, path);
                push_str(&mut m, " is stale; rerun value-matrix-refresh");
                Err(m)
            }
        },
    }
}

} // verus!
