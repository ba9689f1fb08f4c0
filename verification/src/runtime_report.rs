//! The generated runtime reports: which records each report shows, in
//! which order, and how each row renders their values.

use vstd::prelude::*;

use crate::evidence::{find_field, lex_lt, Capture, Field, FieldKind, Record, text_less};
use crate::report::{cell_escape, markdown_cell, md, report_header, report_header_text};
use crate::text::{
    contains_spec, contains_text, decimal, push_decimal, push_str, replace_spec, replace_text,
    str_eq,
};

verus! {

/// A value of a record as the reports render it: `--` where it is absent.
#[verifier::opaque]
pub open spec fn ftext(r: Record, path: Seq<char>) -> Seq<char> {
    match find_field(r.fields@, path) {
        Some(f) => f.text@,
        None => "--"@,
    }
}

/// A value's compact JSON with pipes escaped; `--` where it is absent.
#[verifier::opaque]
pub open spec fn cj(r: Record, path: Seq<char>) -> Seq<char> {
    replace_spec(
        match find_field(r.fields@, path) {
            Some(f) => f.json@,
            None => "--"@,
        },
        "|"@,
        "\\|"@,
    )
}

/// A value that is a string, as that string.
#[verifier::opaque]
pub open spec fn fstr(r: Record, path: Seq<char>) -> Option<Seq<char>> {
    match find_field(r.fields@, path) {
        Some(f) => if f.kind == FieldKind::Text {
            Some(f.text@)
        } else {
            None
        },
        None => None,
    }
}

/// The path of element `i` of the list at `base`.
pub open spec fn element_path(base: Seq<char>, i: nat) -> Seq<char> {
    base + "#"@ + decimal(i)
}

pub fn push_ftext(s: &mut String, r: &Record, path: &str)
    ensures
        final(s)@ == old(s)@ + ftext(*r, path@),
{
    reveal(ftext);
    match crate::evidence::field(r, path) {
        Some(f) => push_str(s, f.text.as_str()),
        None => push_str(s, "--"),
    }
}

pub fn ftext_string(r: &Record, path: &str) -> (t: String)
    ensures
        t@ == ftext(*r, path@),
{
    let mut t = String::new();
    push_ftext(&mut t, r, path);
    t
}

fn cj_string(r: &Record, path: &str) -> (t: String)
    ensures
        t@ == cj(*r, path@),
{
    reveal(cj);
    proof {
        reveal_strlit("|");
    }
    match crate::evidence::field(r, path) {
        Some(f) => replace_text(f.json.as_str(), "|", "\\|"),
        None => replace_text("--", "|", "\\|"),
    }
}

fn push_md_text(s: &mut String, r: &Record, path: &str)
    ensures
        final(s)@ == old(s)@ + md(ftext(*r, path@)),
{
    let t = ftext_string(r, path);
    let m = markdown_cell(t.as_str());
    push_str(s, m.as_str());
}

fn push_md_cj(s: &mut String, r: &Record, path: &str)
    ensures
        final(s)@ == old(s)@ + md(cj(*r, path@)),
{
    let t = cj_string(r, path);
    let m = markdown_cell(t.as_str());
    push_str(s, m.as_str());
}

pub fn push_cj(s: &mut String, r: &Record, path: &str)
    ensures
        final(s)@ == old(s)@ + cj(*r, path@),
{
    let t = cj_string(r, path);
    push_str(s, t.as_str());
}

pub fn fstr_of<'a>(r: &'a Record, path: &str) -> (o: Option<&'a str>)
    ensures
        match o {
            Some(t) => fstr(*r, path@) == Some(t@),
            None => fstr(*r, path@) is None,
        },
{
    reveal(fstr);
    match crate::evidence::field(r, path) {
        Some(f) => if f.kind == FieldKind::Text {
            Some(f.text.as_str())
        } else {
            None
        },
        None => None,
    }
}

fn element_path_string(base: &str, i: usize) -> (p: String)
    ensures
        p@ == element_path(base@, i as nat),
{
    let mut p = String::new();
    push_str(&mut p, base);
    push_str(&mut p, "#");
    push_decimal(&mut p, i as u64);
    p
}

/// Whether the record's `categories` list holds the string `category`.
pub open spec fn has_category(r: Record, category: Seq<char>) -> bool {
    match find_field(r.fields@, "categories"@) {
        Some(f) => f.kind == FieldKind::List && (f.len matches Some(n) && exists|i: nat|
            i < n && #[trigger] fstr(r, element_path("categories"@, i)) == Some(category)),
        None => false,
    }
}

fn in_category(r: &Record, category: &str) -> (b: bool)
    ensures
        b == has_category(*r, category@),
{
    let list = match crate::evidence::field(r, "categories") {
        Some(f) => f,
        None => {
            return false;
        },
    };
    if list.kind != FieldKind::List {
        return false;
    }
    let n = match list.len {
        Some(n) => n,
        None => {
            return false;
        },
    };
    let mut i: usize = 0;
    while i < n
        invariant
            i <= n,
            find_field(r.fields@, "categories"@) == Some(*list),
            list.kind == FieldKind::List,
            list.len == Some(n),
            forall|j: nat| j < i ==> #[trigger] fstr(*r, element_path("categories"@, j)) != Some(
                category@,
            ),
        decreases n - i,
    {
        let p = element_path_string("categories", i);
        match fstr_of(r, p.as_str()) {
            Some(t) => {
                if str_eq(t, category) {
                    assert(fstr(*r, element_path("categories"@, i as nat)) == Some(category@));
                    return true;
                }
            },
            None => {},
        }
        i = i + 1;
    }
    false
}

/// Record `a` sorts before record `b` in a stable sort by identifier: by
/// identifier, then by position.
pub open spec fn sorts_before(records: Seq<Record>, a: int, b: int) -> bool {
    lex_lt(records[a].id@, records[b].id@) || (records[a].id@ == records[b].id@ && a < b)
}

/// `sel` lists the positions of the chosen records, each once, in the order
/// of a stable sort by identifier.
pub open spec fn ordered_selection(records: Seq<Record>, chosen: Seq<bool>, sel: Seq<usize>) -> bool {
    &&& forall|a: int, b: int|
        0 <= a < b < sel.len() ==> sorts_before(records, #[trigger] sel[a] as int, #[trigger] sel[b] as int)
    &&& forall|k: int| 0 <= k < sel.len() ==> (#[trigger] sel[k]) < records.len() && chosen[sel[k] as int]
    &&& forall|i: int|
        0 <= i < records.len() && chosen[i] ==> exists|k: int| 0 <= k < sel.len() && #[trigger] sel[k] == i
}

/// The positions of the chosen records, stably sorted by identifier.
fn select_sorted(records: &Vec<Record>, chosen: &Vec<bool>) -> (sel: Vec<usize>)
    requires
        chosen@.len() == records@.len(),
    ensures
        ordered_selection(records@, chosen@, sel@),
{
    let mut sel: Vec<usize> = Vec::new();
    let mut i: usize = 0;
    while i < records.len()
        invariant
            i <= records@.len(),
            chosen@.len() == records@.len(),
            forall|a: int, b: int|
                0 <= a < b < sel@.len() ==> sorts_before(records@, #[trigger] sel@[a] as int, #[trigger] sel@[b] as int),
            forall|k: int| 0 <= k < sel@.len() ==> (#[trigger] sel@[k]) < i && chosen@[sel@[k] as int],
            forall|j: int|
                0 <= j < i && chosen@[j] ==> exists|k: int| 0 <= k < sel@.len() && #[trigger] sel@[k] == j,
        decreases records.len() - i,
    {
        if chosen[i] {
            let mut j: usize = sel.len();
            while j > 0 && text_less(records[i].id.as_str(), records[sel[j - 1]].id.as_str())
                invariant
                    j <= sel@.len(),
                    i < records@.len(),
                    forall|k: int| 0 <= k < sel@.len() ==> (#[trigger] sel@[k]) < i,
                    forall|k: int| j <= k < sel@.len() ==> lex_lt(records@[i as int].id@, #[trigger] records@[sel@[k] as int].id@),
                decreases j,
            {
                j = j - 1;
            }
            let ghost before = sel@;
            proof {
                if j > 0 {
                    assert(!lex_lt(records@[i as int].id@, records@[before[j - 1] as int].id@));
                }
            }
            sel.insert(j, i);
            proof {
                assert forall|a: int, b: int| 0 <= a < b < sel@.len() implies sorts_before(
                    records@,
                    #[trigger] sel@[a] as int,
                    #[trigger] sel@[b] as int,
                ) by {
                    let ri = records@[i as int].id@;
                    if b == j {
                        let x = before[a] as int;
                        assert(sel@[a] == before[a]);
                        // before[a] sorts no later than before[j - 1], which does not sort after i.
                        let y = before[j - 1] as int;
                        if a < j - 1 {
                            assert(sorts_before(records@, x, y));
                        }
                        crate::evidence::lemma_lex_total(records@[y].id@, ri);
                        if lex_lt(ri, records@[x].id@) {
                            if a < j - 1 {
                                if lex_lt(records@[x].id@, records@[y].id@) {
                                    crate::evidence::lemma_lex_transitive(ri, records@[x].id@, records@[y].id@);
                                }
                            }
                        }
                        crate::evidence::lemma_lex_total(records@[x].id@, ri);
                        if lex_lt(ri, records@[x].id@) && a < j - 1 && records@[x].id@ == records@[y].id@ {
                        }
                    } else if a == j {
                        assert(sel@[b] == before[b - 1]);
                    } else if a < j && b > j {
                        assert(sel@[a] == before[a]);
                        assert(sel@[b] == before[b - 1]);
                    } else if b < j {
                        assert(sel@[a] == before[a]);
                        assert(sel@[b] == before[b]);
                    } else {
                        assert(sel@[a] == before[a - 1]);
                        assert(sel@[b] == before[b - 1]);
                    }
                }
                assert forall|jj: int| 0 <= jj < i + 1 && chosen@[jj] implies exists|k: int|
                    0 <= k < sel@.len() && #[trigger] sel@[k] == jj by {
                    if jj == i {
                        assert(sel@[j as int] == i);
                    } else {
                        let k = choose|k: int| 0 <= k < before.len() && #[trigger] before[k] == jj;
                        if k < j {
                            assert(sel@[k] == jj);
                        } else {
                            assert(sel@[k + 1] == jj);
                        }
                    }
                }
            }
        }
        i = i + 1;
    }
    sel
}

/// `t` begins with `p`.
pub open spec fn starts_with(t: Seq<char>, p: Seq<char>) -> bool {
    t.len() >= p.len() && t.subrange(0, p.len() as int) == p
}

fn text_starts_with(t: &str, p: &str) -> (b: bool)
    ensures
        b == starts_with(t@, p@),
{
    let tc = crate::text::chars_of(t);
    let pc = crate::text::chars_of(p);
    if tc.len() < pc.len() {
        return false;
    }
    let mut i: usize = 0;
    while i < pc.len()
        invariant
            i <= pc@.len() <= tc@.len(),
            tc@ == t@,
            pc@ == p@,
            forall|j: int| 0 <= j < i ==> tc@[j] == pc@[j],
        decreases pc.len() - i,
    {
        if tc[i] != pc[i] {
            assert(t@.subrange(0, p@.len() as int)[i as int] != p@[i as int]);
            return false;
        }
        i = i + 1;
    }
    assert(t@.subrange(0, p@.len() as int) =~= p@);
    true
}

/// Which records a report shows.
#[derive(Debug, Clone, Copy, PartialEq, Eq, Structural)]
pub enum ReportFilter {
    /// Records whose `categories` hold the parameter.
    Category,
    /// The `Workbooks.Add` diagnostic rows and the pywin32 control row.
    WorkbooksAdd,
    /// Records classified `Control-confirmed`.
    ControlConfirmed,
    /// Records with a `control` value.
    HasControl,
    /// Records whose `parity_operation` is the parameter.
    ParityOperation,
    /// Records with a `parity_mode` value.
    HasParityMode,
}

pub open spec fn chosen_by(filter: ReportFilter, param: Seq<char>, r: Record) -> bool {
    match filter {
        ReportFilter::Category => has_category(r, param),
        ReportFilter::WorkbooksAdd => starts_with(ftext(r, "case_id"@), "workbooks."@) || ftext(
            r,
            "id"@,
        ) == "runtime.control.pywin32-dispatchex-workbooks-add"@,
        ReportFilter::ControlConfirmed => ftext(r, "classification"@) == "Control-confirmed"@,
        ReportFilter::HasControl => find_field(r.fields@, "control"@) is Some,
        ReportFilter::ParityOperation => ftext(r, "parity_operation"@) == param,
        ReportFilter::HasParityMode => find_field(r.fields@, "parity_mode"@) is Some,
    }
}

fn chooses(filter: ReportFilter, param: &str, r: &Record) -> (b: bool)
    ensures
        b == chosen_by(filter, param@, *r),
{
    match filter {
        ReportFilter::Category => in_category(r, param),
        ReportFilter::WorkbooksAdd => {
            let case_id = ftext_string(r, "case_id");
            let id = ftext_string(r, "id");
            text_starts_with(case_id.as_str(), "workbooks.") || str_eq(
                id.as_str(),
                "runtime.control.pywin32-dispatchex-workbooks-add",
            )
        },
        ReportFilter::ControlConfirmed => {
            let c = ftext_string(r, "classification");
            str_eq(c.as_str(), "Control-confirmed")
        },
        ReportFilter::HasControl => crate::evidence::field(r, "control").is_some(),
        ReportFilter::ParityOperation => {
            let o = ftext_string(r, "parity_operation");
            str_eq(o.as_str(), param)
        },
        ReportFilter::HasParityMode => crate::evidence::field(r, "parity_mode").is_some(),
    }
}

/// Which of the records a filter chooses.
pub open spec fn choices(filter: ReportFilter, param: Seq<char>, records: Seq<Record>) -> Seq<bool> {
    Seq::new(records.len(), |i: int| chosen_by(filter, param, records[i]))
}

fn choose_records(filter: ReportFilter, param: &str, records: &Vec<Record>) -> (c: Vec<bool>)
    ensures
        c@ == choices(filter, param@, records@),
{
    let mut c: Vec<bool> = Vec::new();
    let mut i: usize = 0;
    while i < records.len()
        invariant
            i <= records@.len(),
            c@.len() == i,
            forall|k: int| 0 <= k < i ==> c@[k] == chosen_by(filter, param@, #[trigger] records@[k]),
        decreases records.len() - i,
    {
        c.push(chooses(filter, param, &records[i]));
        i = i + 1;
    }
    assert(c@ =~= choices(filter, param@, records@));
    c
}

/// `x` in backticks.
pub open spec fn bt(x: Seq<char>) -> Seq<char> {
    "`"@ + x + "`"@
}

/// The shape of an array value: `{dimensions}D` and its bounds
/// `lower..upper` joined by ` × ` (`--` when there is no bounds list).
#[verifier::opaque]
pub open spec fn array_label(r: Record, base: Seq<char>) -> Seq<char> {
    let dims: nat = match find_field(r.fields@, base + "/dimensions"@) {
        Some(f) => match f.uint {
            Some(u) => u as nat,
            None => 0,
        },
        None => 0,
    };
    let bounds_path = base + "/bounds"@;
    let bounds = match find_field(r.fields@, bounds_path) {
        Some(f) => if f.kind == FieldKind::List && f.len is Some {
            crate::text::joined(
                Seq::new(
                    f.len.unwrap() as nat,
                    |i: int|
                        ftext(r, element_path(bounds_path, i as nat) + "/lower"@) + ".."@ + ftext(
                            r,
                            element_path(bounds_path, i as nat) + "/upper"@,
                        ),
                ),
                " × "@,
            )
        } else {
            "--"@
        },
        None => "--"@,
    };
    decimal(dims) + "D "@ + bt(bounds)
}

fn array_label_string(r: &Record, base: &str) -> (t: String)
    ensures
        t@ == array_label(*r, base@),
{
    reveal(array_label);
    let mut dims_path = String::new();
    push_str(&mut dims_path, base);
    push_str(&mut dims_path, "/dimensions");
    assert(dims_path@ =~= base@ + "/dimensions"@);
    let dims: u64 = match crate::evidence::field(r, dims_path.as_str()) {
        Some(f) => match f.uint {
            Some(u) => u,
            None => 0,
        },
        None => 0,
    };
    let mut bounds_path = String::new();
    push_str(&mut bounds_path, base);
    push_str(&mut bounds_path, "/bounds");
    let ghost bp = bounds_path@;
    let bounds: String = match crate::evidence::field(r, bounds_path.as_str()) {
        Some(f) => {
            if f.kind == FieldKind::List && f.len.is_some() {
                let n = f.len.unwrap();
                let ghost labels_spec = Seq::new(
                    n as nat,
                    |i: int|
                        ftext(*r, element_path(bp, i as nat) + "/lower"@) + ".."@ + ftext(
                            *r,
                            element_path(bp, i as nat) + "/upper"@,
                        ),
                );
                let mut labels: Vec<String> = Vec::new();
                let mut i: usize = 0;
                while i < n
                    invariant
                        i <= n,
                        bp == bounds_path@,
                        labels@.len() == i,
                        labels_spec.len() == n,
                        labels_spec == Seq::new(
                            n as nat,
                            |i: int|
                                ftext(*r, element_path(bp, i as nat) + "/lower"@) + ".."@ + ftext(
                                    *r,
                                    element_path(bp, i as nat) + "/upper"@,
                                ),
                        ),
                        forall|k: int| 0 <= k < i ==> (#[trigger] labels@[k])@ == labels_spec[k],
                    decreases n - i,
                {
                    let element = element_path_string(bounds_path.as_str(), i);
                    let mut lower = String::new();
                    push_str(&mut lower, element.as_str());
                    push_str(&mut lower, "/lower");
                    let mut upper = String::new();
                    push_str(&mut upper, element.as_str());
                    push_str(&mut upper, "/upper");
                    let mut label = String::new();
                    push_ftext(&mut label, r, lower.as_str());
                    push_str(&mut label, "..");
                    push_ftext(&mut label, r, upper.as_str());
                    labels.push(label);
                    i = i + 1;
                }
                let mut parts: Vec<&str> = Vec::new();
                let mut k: usize = 0;
                while k < labels.len()
                    invariant
                        k <= labels@.len(),
                        parts@.len() == k,
                        forall|j: int| 0 <= j < k ==> (#[trigger] parts@[j])@ == labels@[j]@,
                    decreases labels.len() - k,
                {
                    parts.push(labels[k].as_str());
                    k = k + 1;
                }
                assert(parts@.map_values(|p: &str| p@) =~= labels_spec);
                crate::text::join_strs(&parts, " × ")
            } else {
                String::from_str("--")
            }
        },
        None => String::from_str("--"),
    };
    assert(bounds@ == (match find_field(r.fields@, base@ + "/bounds"@) {
        Some(f) => if f.kind == FieldKind::List && f.len is Some {
            crate::text::joined(
                Seq::new(
                    f.len.unwrap() as nat,
                    |i: int|
                        ftext(*r, element_path(base@ + "/bounds"@, i as nat) + "/lower"@) + ".."@ + ftext(
                            *r,
                            element_path(base@ + "/bounds"@, i as nat) + "/upper"@,
                        ),
                ),
                " × "@,
            )
        } else {
            "--"@
        },
        None => "--"@,
    }));
    let mut t = String::new();
    push_decimal(&mut t, dims);
    push_str(&mut t, "D `");
    push_str(&mut t, bounds.as_str());
    push_str(&mut t, "`");
    proof {
        reveal_strlit("D `");
        reveal_strlit("D ");
        reveal_strlit("`");
    }
    assert(t@ =~= array_label(*r, base@));
    t
}

/// A session property of a parity environment as the matrix shows it.
#[verifier::opaque]
pub open spec fn session_property(r: Record, name: Seq<char>) -> Seq<char> {
    let base = "session_state/"@ + name;
    match find_field(r.fields@, base) {
        None => "Not tested"@,
        Some(_) => if (find_field(r.fields@, base + "/value_recorded"@) matches Some(f)
            && f.boolean == Some(false)) {
            "redacted"@
        } else if ftext(r, base + "/status"@) != "available"@ {
            ftext(r, base + "/status"@)
        } else {
            match find_field(r.fields@, base + "/value"@) {
                None => "available"@,
                Some(_) => {
                    let kind = fstr(r, base + "/value/kind"@);
                    if kind == Some("bool"@) {
                        match find_field(r.fields@, base + "/value/raw"@) {
                            Some(f) => match f.int {
                                Some(0) => "false"@,
                                Some(_) => "true"@,
                                None => "available"@,
                            },
                            None => "available"@,
                        }
                    } else if kind == Some("bstr"@) || kind == Some("i4"@) {
                        ftext(r, base + "/value/value"@)
                    } else if kind == Some("error"@) {
                        "error "@ + ftext(r, base + "/value/signed_i32"@)
                    } else {
                        md(cj(r, base + "/value"@))
                    }
                },
            }
        }
    }
}

fn path2(a: &str, b: &str) -> (p: String)
    ensures
        p@ == a@ + b@,
{
    let mut p = String::new();
    push_str(&mut p, a);
    push_str(&mut p, b);
    p
}

fn session_property_string(r: &Record, name: &str) -> (t: String)
    ensures
        t@ == session_property(*r, name@),
{
    reveal(session_property);
    let base = path2("session_state/", name);
    if crate::evidence::field(r, base.as_str()).is_none() {
        return String::from_str("Not tested");
    }
    let recorded = path2(base.as_str(), "/value_recorded");
    match crate::evidence::field(r, recorded.as_str()) {
        Some(f) => {
            if f.boolean == Some(false) {
                return String::from_str("redacted");
            }
        },
        None => {},
    }
    let status_path = path2(base.as_str(), "/status");
    let status = ftext_string(r, status_path.as_str());
    if !str_eq(status.as_str(), "available") {
        return status;
    }
    let value_path = path2(base.as_str(), "/value");
    if crate::evidence::field(r, value_path.as_str()).is_none() {
        return String::from_str("available");
    }
    let kind_path = path2(base.as_str(), "/value/kind");
    let kind = fstr_of(r, kind_path.as_str());
    let is = |k: &str| -> (b: bool)
        ensures
            b == (kind matches Some(t) && t@ == k@),
        {
            match kind {
                Some(t) => str_eq(t, k),
                None => false,
            }
        };
    if is("bool") {
        let raw_path = path2(base.as_str(), "/value/raw");
        match crate::evidence::field(r, raw_path.as_str()) {
            Some(f) => match f.int {
                Some(v) => if v == 0 {
                    String::from_str("false")
                } else {
                    String::from_str("true")
                },
                None => String::from_str("available"),
            },
            None => String::from_str("available"),
        }
    } else if is("bstr") || is("i4") {
        let p = path2(base.as_str(), "/value/value");
        ftext_string(r, p.as_str())
    } else if is("error") {
        let p = path2(base.as_str(), "/value/signed_i32");
        let mut t = String::from_str("error ");
        push_ftext(&mut t, r, p.as_str());
        t
    } else {
        let c = cj_string(r, value_path.as_str());
        markdown_cell(c.as_str())
    }
}

/// The parity mode an unresolved record belongs to: its own `parity_mode`,
/// else the first mode whose identifier its `id` contains, else `--`.
#[verifier::opaque]
pub open spec fn unresolved_mode(r: Record) -> Seq<char> {
    let explicit = ftext(r, "parity_mode"@);
    let id = ftext(r, "id"@);
    if explicit != "--"@ {
        explicit
    } else if contains_spec(id, "rust-baseline"@) {
        "rust-baseline"@
    } else if contains_spec(id, "pywin32-dynamic"@) {
        "pywin32-dynamic"@
    } else if contains_spec(id, "pywin32-generated"@) {
        "pywin32-generated"@
    } else if contains_spec(id, "comtypes-dynamic"@) {
        "comtypes-dynamic"@
    } else if contains_spec(id, "comtypes-generated"@) {
        "comtypes-generated"@
    } else {
        "--"@
    }
}

pub fn parity_mode_for_unresolved(r: &Record) -> (t: String)
    ensures
        t@ == unresolved_mode(*r),
{
    reveal(unresolved_mode);
    let explicit = ftext_string(r, "parity_mode");
    if !str_eq(explicit.as_str(), "--") {
        return explicit;
    }
    let id = ftext_string(r, "id");
    let modes = crate::parity::ParityMode::all();
    let mut k: usize = 0;
    while k < modes.len()
        invariant
            k <= 5,
            modes@ == seq![
                crate::parity::ParityMode::RustBaseline,
                crate::parity::ParityMode::Pywin32Dynamic,
                crate::parity::ParityMode::Pywin32Generated,
                crate::parity::ParityMode::ComtypesDynamic,
                crate::parity::ParityMode::ComtypesGenerated,
            ],
            explicit@ == "--"@,
            ftext(*r, "parity_mode"@) == "--"@,
            id@ == ftext(*r, "id"@),
            forall|j: int| 0 <= j < k ==> !contains_spec(id@, crate::parity::mode_id(#[trigger] modes@[j])),
        decreases 5 - k,
    {
        let name = modes[k].id();
        if contains_text(id.as_str(), name) {
            proof {
                reveal(unresolved_mode);
                assert(crate::parity::mode_id(modes@[0]) == "rust-baseline"@);
                assert(crate::parity::mode_id(modes@[1]) == "pywin32-dynamic"@);
                assert(crate::parity::mode_id(modes@[2]) == "pywin32-generated"@);
                assert(crate::parity::mode_id(modes@[3]) == "comtypes-dynamic"@);
                assert(crate::parity::mode_id(modes@[4]) == "comtypes-generated"@);
                assert(name@ == crate::parity::mode_id(modes@[k as int]));
                if k > 0 {
                    assert(!contains_spec(id@, crate::parity::mode_id(modes@[0])));
                }
                if k > 1 {
                    assert(!contains_spec(id@, crate::parity::mode_id(modes@[1])));
                }
                if k > 2 {
                    assert(!contains_spec(id@, crate::parity::mode_id(modes@[2])));
                }
                if k > 3 {
                    assert(!contains_spec(id@, crate::parity::mode_id(modes@[3])));
                }
            }
            return String::from_str(name);
        }
        k = k + 1;
    }
    String::from_str("--")
}

pub open spec fn row_observation(r: Record) -> Seq<char> {
    "| `"@
        + ftext(r, "case_id"@)
        + "` | `"@
        + ftext(r, "subject"@)
        + "` | `"@
        + ftext(r, "range"@)
        + "` | `"@
        + ftext(r, "result/hresult"@)
        + "` | `"@
        + ftext(r, "result/variant_type"@)
        + "` | "@
        + (if find_field(r.fields@, "result/array"@) is Some { array_label(r, "result/array"@) } else { "scalar"@ })
        + " | "@
        + ftext(r, "classification"@)
        + " |\n"@
}

#[verifier::rlimit(100)]
fn push_row_observation(s: &mut String, r: &Record)
    ensures
        final(s)@ == old(s)@ + row_observation(*r),
{
    let ghost start = s@;
    push_str(s, "| `");
    let ghost mut acc = "| `"@;
    assert(s@ =~= start + acc);
    push_ftext(s, r, "case_id");
    proof {
        acc = acc + ftext(*r, "case_id"@);
    }
    assert(s@ =~= start + acc);
    push_str(s, "` | `");
    proof {
        acc = acc + "` | `"@;
    }
    assert(s@ =~= start + acc);
    push_ftext(s, r, "subject");
    proof {
        acc = acc + ftext(*r, "subject"@);
    }
    assert(s@ =~= start + acc);
    push_str(s, "` | `");
    proof {
        acc = acc + "` | `"@;
    }
    assert(s@ =~= start + acc);
    push_ftext(s, r, "range");
    proof {
        acc = acc + ftext(*r, "range"@);
    }
    assert(s@ =~= start + acc);
    push_str(s, "` | `");
    proof {
        acc = acc + "` | `"@;
    }
    assert(s@ =~= start + acc);
    push_ftext(s, r, "result/hresult");
    proof {
        acc = acc + ftext(*r, "result/hresult"@);
    }
    assert(s@ =~= start + acc);
    push_str(s, "` | `");
    proof {
        acc = acc + "` | `"@;
    }
    assert(s@ =~= start + acc);
    push_ftext(s, r, "result/variant_type");
    proof {
        acc = acc + ftext(*r, "result/variant_type"@);
    }
    assert(s@ =~= start + acc);
    push_str(s, "` | ");
    proof {
        acc = acc + "` | "@;
    }
    assert(s@ =~= start + acc);
    if crate::evidence::field(r, "result/array").is_some() {
        let v = array_label_string(r, "result/array");
        push_str(s, v.as_str());
    } else {
        push_str(s, "scalar");
    }
    proof {
        acc = acc + (if find_field(r.fields@, "result/array"@) is Some { array_label(*r, "result/array"@) } else { "scalar"@ });
    }
    assert(s@ =~= start + acc);
    push_str(s, " | ");
    proof {
        acc = acc + " | "@;
    }
    assert(s@ =~= start + acc);
    push_ftext(s, r, "classification");
    proof {
        acc = acc + ftext(*r, "classification"@);
    }
    assert(s@ =~= start + acc);
    push_str(s, " |\n");
    proof {
        acc = acc + " |\n"@;
    }
    assert(s@ =~= start + acc);
    assert(acc == row_observation(*r));
}

pub open spec fn row_control(r: Record) -> Seq<char> {
    "| `"@
        + ftext(r, "case_id"@)
        + "` | `"@
        + ftext(r, "result/variant_type"@)
        + "` | `"@
        + cj(r, "control"@)
        + "` | "@
        + ftext(r, "classification"@)
        + " |\n"@
}

#[verifier::rlimit(100)]
fn push_row_control(s: &mut String, r: &Record)
    ensures
        final(s)@ == old(s)@ + row_control(*r),
{
    let ghost start = s@;
    push_str(s, "| `");
    let ghost mut acc = "| `"@;
    assert(s@ =~= start + acc);
    push_ftext(s, r, "case_id");
    proof {
        acc = acc + ftext(*r, "case_id"@);
    }
    assert(s@ =~= start + acc);
    push_str(s, "` | `");
    proof {
        acc = acc + "` | `"@;
    }
    assert(s@ =~= start + acc);
    push_ftext(s, r, "result/variant_type");
    proof {
        acc = acc + ftext(*r, "result/variant_type"@);
    }
    assert(s@ =~= start + acc);
    push_str(s, "` | `");
    proof {
        acc = acc + "` | `"@;
    }
    assert(s@ =~= start + acc);
    push_cj(s, r, "control");
    proof {
        acc = acc + cj(*r, "control"@);
    }
    assert(s@ =~= start + acc);
    push_str(s, "` | ");
    proof {
        acc = acc + "` | "@;
    }
    assert(s@ =~= start + acc);
    push_ftext(s, r, "classification");
    proof {
        acc = acc + ftext(*r, "classification"@);
    }
    assert(s@ =~= start + acc);
    push_str(s, " |\n");
    proof {
        acc = acc + " |\n"@;
    }
    assert(s@ =~= start + acc);
    assert(acc == row_control(*r));
}

pub open spec fn row_workbooks_add_control(r: Record) -> Seq<char> {
    "| `pywin32-control` | `"@
        + md(ftext(r, "activation"@))
        + "` | -- | -- | -- | -- | `"@
        + md(ftext(r, "workbooks_add"@))
        + "` | Projection only | `"@
        + md(ftext(r, "created_workbook"@))
        + "` |\n"@
}

#[verifier::rlimit(100)]
fn push_row_workbooks_add_control(s: &mut String, r: &Record)
    ensures
        final(s)@ == old(s)@ + row_workbooks_add_control(*r),
{
    let ghost start = s@;
    push_str(s, "| `pywin32-control` | `");
    let ghost mut acc = "| `pywin32-control` | `"@;
    assert(s@ =~= start + acc);
    push_md_text(s, r, "activation");
    proof {
        acc = acc + md(ftext(*r, "activation"@));
    }
    assert(s@ =~= start + acc);
    push_str(s, "` | -- | -- | -- | -- | `");
    proof {
        acc = acc + "` | -- | -- | -- | -- | `"@;
    }
    assert(s@ =~= start + acc);
    push_md_text(s, r, "workbooks_add");
    proof {
        acc = acc + md(ftext(*r, "workbooks_add"@));
    }
    assert(s@ =~= start + acc);
    push_str(s, "` | Projection only | `");
    proof {
        acc = acc + "` | Projection only | `"@;
    }
    assert(s@ =~= start + acc);
    push_md_text(s, r, "created_workbook");
    proof {
        acc = acc + md(ftext(*r, "created_workbook"@));
    }
    assert(s@ =~= start + acc);
    push_str(s, "` |\n");
    proof {
        acc = acc + "` |\n"@;
    }
    assert(s@ =~= start + acc);
    assert(acc == row_workbooks_add_control(*r));
}

pub open spec fn row_workbooks_add_frame(r: Record) -> Seq<char> {
    "| `"@
        + md(ftext(r, "case_id"@))
        + "` | `"@
        + md(ftext(r, "canonical_owner"@))
        + "` | "@
        + ftext(r, "audited_dispid"@)
        + "/"@
        + ftext(r, "runtime_resolved_dispid"@)
        + " | `"@
        + md(ftext(r, "invoke_flags"@))
        + "` | `"@
        + ftext(r, "lcid"@)
        + "` | "@
        + ftext(r, "frame/c_args"@)
        + "/"@
        + ftext(r, "frame/c_named_args"@)
        + " | `"@
        + (match fstr(r, "returned_hresult/hex"@) { Some(t) => t, None => "--"@ })
        + "` | `"@
        + md(ftext(r, "result_vartype_after_call"@))
        + "` | "@
        + md(cj(r, "cleanup_result"@))
        + " |\n"@
}

#[verifier::rlimit(100)]
fn push_row_workbooks_add_frame(s: &mut String, r: &Record)
    ensures
        final(s)@ == old(s)@ + row_workbooks_add_frame(*r),
{
    let ghost start = s@;
    push_str(s, "| `");
    let ghost mut acc = "| `"@;
    assert(s@ =~= start + acc);
    push_md_text(s, r, "case_id");
    proof {
        acc = acc + md(ftext(*r, "case_id"@));
    }
    assert(s@ =~= start + acc);
    push_str(s, "` | `");
    proof {
        acc = acc + "` | `"@;
    }
    assert(s@ =~= start + acc);
    push_md_text(s, r, "canonical_owner");
    proof {
        acc = acc + md(ftext(*r, "canonical_owner"@));
    }
    assert(s@ =~= start + acc);
    push_str(s, "` | ");
    proof {
        acc = acc + "` | "@;
    }
    assert(s@ =~= start + acc);
    push_ftext(s, r, "audited_dispid");
    proof {
        acc = acc + ftext(*r, "audited_dispid"@);
    }
    assert(s@ =~= start + acc);
    push_str(s, "/");
    proof {
        acc = acc + "/"@;
    }
    assert(s@ =~= start + acc);
    push_ftext(s, r, "runtime_resolved_dispid");
    proof {
        acc = acc + ftext(*r, "runtime_resolved_dispid"@);
    }
    assert(s@ =~= start + acc);
    push_str(s, " | `");
    proof {
        acc = acc + " | `"@;
    }
    assert(s@ =~= start + acc);
    push_md_text(s, r, "invoke_flags");
    proof {
        acc = acc + md(ftext(*r, "invoke_flags"@));
    }
    assert(s@ =~= start + acc);
    push_str(s, "` | `");
    proof {
        acc = acc + "` | `"@;
    }
    assert(s@ =~= start + acc);
    push_ftext(s, r, "lcid");
    proof {
        acc = acc + ftext(*r, "lcid"@);
    }
    assert(s@ =~= start + acc);
    push_str(s, "` | ");
    proof {
        acc = acc + "` | "@;
    }
    assert(s@ =~= start + acc);
    push_ftext(s, r, "frame/c_args");
    proof {
        acc = acc + ftext(*r, "frame/c_args"@);
    }
    assert(s@ =~= start + acc);
    push_str(s, "/");
    proof {
        acc = acc + "/"@;
    }
    assert(s@ =~= start + acc);
    push_ftext(s, r, "frame/c_named_args");
    proof {
        acc = acc + ftext(*r, "frame/c_named_args"@);
    }
    assert(s@ =~= start + acc);
    push_str(s, " | `");
    proof {
        acc = acc + " | `"@;
    }
    assert(s@ =~= start + acc);
    match fstr_of(r, "returned_hresult/hex") {
        Some(t) => push_str(s, t),
        None => push_str(s, "--"),
    }
    proof {
        acc = acc + (match fstr(*r, "returned_hresult/hex"@) { Some(t) => t, None => "--"@ });
    }
    assert(s@ =~= start + acc);
    push_str(s, "` | `");
    proof {
        acc = acc + "` | `"@;
    }
    assert(s@ =~= start + acc);
    push_md_text(s, r, "result_vartype_after_call");
    proof {
        acc = acc + md(ftext(*r, "result_vartype_after_call"@));
    }
    assert(s@ =~= start + acc);
    push_str(s, "` | ");
    proof {
        acc = acc + "` | "@;
    }
    assert(s@ =~= start + acc);
    push_md_cj(s, r, "cleanup_result");
    proof {
        acc = acc + md(cj(*r, "cleanup_result"@));
    }
    assert(s@ =~= start + acc);
    push_str(s, " |\n");
    proof {
        acc = acc + " |\n"@;
    }
    assert(s@ =~= start + acc);
    assert(acc == row_workbooks_add_frame(*r));
}

pub open spec fn row_invocation(r: Record) -> Seq<char> {
    "| `"@
        + md(ftext(r, "case_id"@))
        + "` | `"@
        + md(ftext(r, "member_name"@))
        + "` | `"@
        + ftext(r, "runtime_resolved_dispid"@)
        + "` | "@
        + md(cj(r, "frame"@))
        + " | "@
        + md(cj(r, "excepinfo"@))
        + " | "@
        + md(cj(r, "pu_arg_err"@))
        + " | "@
        + md(ftext(r, "result_ownership_state"@))
        + " |\n"@
}

#[verifier::rlimit(100)]
fn push_row_invocation(s: &mut String, r: &Record)
    ensures
        final(s)@ == old(s)@ + row_invocation(*r),
{
    let ghost start = s@;
    push_str(s, "| `");
    let ghost mut acc = "| `"@;
    assert(s@ =~= start + acc);
    push_md_text(s, r, "case_id");
    proof {
        acc = acc + md(ftext(*r, "case_id"@));
    }
    assert(s@ =~= start + acc);
    push_str(s, "` | `");
    proof {
        acc = acc + "` | `"@;
    }
    assert(s@ =~= start + acc);
    push_md_text(s, r, "member_name");
    proof {
        acc = acc + md(ftext(*r, "member_name"@));
    }
    assert(s@ =~= start + acc);
    push_str(s, "` | `");
    proof {
        acc = acc + "` | `"@;
    }
    assert(s@ =~= start + acc);
    push_ftext(s, r, "runtime_resolved_dispid");
    proof {
        acc = acc + ftext(*r, "runtime_resolved_dispid"@);
    }
    assert(s@ =~= start + acc);
    push_str(s, "` | ");
    proof {
        acc = acc + "` | "@;
    }
    assert(s@ =~= start + acc);
    push_md_cj(s, r, "frame");
    proof {
        acc = acc + md(cj(*r, "frame"@));
    }
    assert(s@ =~= start + acc);
    push_str(s, " | ");
    proof {
        acc = acc + " | "@;
    }
    assert(s@ =~= start + acc);
    push_md_cj(s, r, "excepinfo");
    proof {
        acc = acc + md(cj(*r, "excepinfo"@));
    }
    assert(s@ =~= start + acc);
    push_str(s, " | ");
    proof {
        acc = acc + " | "@;
    }
    assert(s@ =~= start + acc);
    push_md_cj(s, r, "pu_arg_err");
    proof {
        acc = acc + md(cj(*r, "pu_arg_err"@));
    }
    assert(s@ =~= start + acc);
    push_str(s, " | ");
    proof {
        acc = acc + " | "@;
    }
    assert(s@ =~= start + acc);
    push_md_text(s, r, "result_ownership_state");
    proof {
        acc = acc + md(ftext(*r, "result_ownership_state"@));
    }
    assert(s@ =~= start + acc);
    push_str(s, " |\n");
    proof {
        acc = acc + " |\n"@;
    }
    assert(s@ =~= start + acc);
    assert(acc == row_invocation(*r));
}

pub open spec fn row_control_comparison(r: Record) -> Seq<char> {
    "| `"@
        + md(ftext(r, "client"@))
        + "` | `"@
        + md(ftext(r, "activation"@))
        + "` | Workbooks.Add: `"@
        + md(ftext(r, "workbooks_add"@))
        + "`; workbook: `"@
        + md(ftext(r, "created_workbook"@))
        + "` | No raw VARIANT or SAFEARRAY inference. |\n"@
}

#[verifier::rlimit(100)]
fn push_row_control_comparison(s: &mut String, r: &Record)
    ensures
        final(s)@ == old(s)@ + row_control_comparison(*r),
{
    let ghost start = s@;
    push_str(s, "| `");
    let ghost mut acc = "| `"@;
    assert(s@ =~= start + acc);
    push_md_text(s, r, "client");
    proof {
        acc = acc + md(ftext(*r, "client"@));
    }
    assert(s@ =~= start + acc);
    push_str(s, "` | `");
    proof {
        acc = acc + "` | `"@;
    }
    assert(s@ =~= start + acc);
    push_md_text(s, r, "activation");
    proof {
        acc = acc + md(ftext(*r, "activation"@));
    }
    assert(s@ =~= start + acc);
    push_str(s, "` | Workbooks.Add: `");
    proof {
        acc = acc + "` | Workbooks.Add: `"@;
    }
    assert(s@ =~= start + acc);
    push_md_text(s, r, "workbooks_add");
    proof {
        acc = acc + md(ftext(*r, "workbooks_add"@));
    }
    assert(s@ =~= start + acc);
    push_str(s, "`; workbook: `");
    proof {
        acc = acc + "`; workbook: `"@;
    }
    assert(s@ =~= start + acc);
    push_md_text(s, r, "created_workbook");
    proof {
        acc = acc + md(ftext(*r, "created_workbook"@));
    }
    assert(s@ =~= start + acc);
    push_str(s, "` | No raw VARIANT or SAFEARRAY inference. |\n");
    proof {
        acc = acc + "` | No raw VARIANT or SAFEARRAY inference. |\n"@;
    }
    assert(s@ =~= start + acc);
    assert(acc == row_control_comparison(*r));
}

pub open spec fn row_unresolved(r: Record) -> Seq<char> {
    "| `"@
        + md(ftext(r, "target"@))
        + "` | "@
        + md(ftext(r, "classification"@))
        + " | "@
        + md(ftext(r, "detail"@))
        + " |\n"@
}

#[verifier::rlimit(100)]
fn push_row_unresolved(s: &mut String, r: &Record)
    ensures
        final(s)@ == old(s)@ + row_unresolved(*r),
{
    let ghost start = s@;
    push_str(s, "| `");
    let ghost mut acc = "| `"@;
    assert(s@ =~= start + acc);
    push_md_text(s, r, "target");
    proof {
        acc = acc + md(ftext(*r, "target"@));
    }
    assert(s@ =~= start + acc);
    push_str(s, "` | ");
    proof {
        acc = acc + "` | "@;
    }
    assert(s@ =~= start + acc);
    push_md_text(s, r, "classification");
    proof {
        acc = acc + md(ftext(*r, "classification"@));
    }
    assert(s@ =~= start + acc);
    push_str(s, " | ");
    proof {
        acc = acc + " | "@;
    }
    assert(s@ =~= start + acc);
    push_md_text(s, r, "detail");
    proof {
        acc = acc + md(ftext(*r, "detail"@));
    }
    assert(s@ =~= start + acc);
    push_str(s, " |\n");
    proof {
        acc = acc + " |\n"@;
    }
    assert(s@ =~= start + acc);
    assert(acc == row_unresolved(*r));
}

pub open spec fn row_environment(r: Record) -> Seq<char> {
    "| `"@
        + ftext(r, "parity_mode"@)
        + "` | `"@
        + ftext(r, "parity_operation"@)
        + "` | `"@
        + session_property(r, "application_version"@)
        + "` / `"@
        + session_property(r, "workbooks_count"@)
        + "` | `"@
        + session_property(r, "visible"@)
        + "` / `"@
        + session_property(r, "user_control"@)
        + "` / `"@
        + session_property(r, "interactive"@)
        + "` / `"@
        + session_property(r, "ready"@)
        + "` | `"@
        + session_property(r, "calculation"@)
        + "` / `"@
        + session_property(r, "automation_security"@)
        + "` / `"@
        + session_property(r, "display_alerts"@)
        + "` | `startup "@
        + session_property(r, "startup_path"@)
        + "; default "@
        + session_property(r, "default_file_path"@)
        + "` | `"@
        + (if ftext(r, "session_state/owned_process/status"@) == "available"@ { "recorded"@ } else { "Not tested"@ })
        + "` | `"@
        + ftext(r, "classification"@)
        + "` |\n"@
}

#[verifier::rlimit(100)]
fn push_row_environment(s: &mut String, r: &Record)
    ensures
        final(s)@ == old(s)@ + row_environment(*r),
{
    let ghost start = s@;
    push_str(s, "| `");
    let ghost mut acc = "| `"@;
    assert(s@ =~= start + acc);
    push_ftext(s, r, "parity_mode");
    proof {
        acc = acc + ftext(*r, "parity_mode"@);
    }
    assert(s@ =~= start + acc);
    push_str(s, "` | `");
    proof {
        acc = acc + "` | `"@;
    }
    assert(s@ =~= start + acc);
    push_ftext(s, r, "parity_operation");
    proof {
        acc = acc + ftext(*r, "parity_operation"@);
    }
    assert(s@ =~= start + acc);
    push_str(s, "` | `");
    proof {
        acc = acc + "` | `"@;
    }
    assert(s@ =~= start + acc);
    {
        let v = session_property_string(r, "application_version");
        push_str(s, v.as_str());
    }
    proof {
        acc = acc + session_property(*r, "application_version"@);
    }
    assert(s@ =~= start + acc);
    push_str(s, "` / `");
    proof {
        acc = acc + "` / `"@;
    }
    assert(s@ =~= start + acc);
    {
        let v = session_property_string(r, "workbooks_count");
        push_str(s, v.as_str());
    }
    proof {
        acc = acc + session_property(*r, "workbooks_count"@);
    }
    assert(s@ =~= start + acc);
    push_str(s, "` | `");
    proof {
        acc = acc + "` | `"@;
    }
    assert(s@ =~= start + acc);
    {
        let v = session_property_string(r, "visible");
        push_str(s, v.as_str());
    }
    proof {
        acc = acc + session_property(*r, "visible"@);
    }
    assert(s@ =~= start + acc);
    push_str(s, "` / `");
    proof {
        acc = acc + "` / `"@;
    }
    assert(s@ =~= start + acc);
    {
        let v = session_property_string(r, "user_control");
        push_str(s, v.as_str());
    }
    proof {
        acc = acc + session_property(*r, "user_control"@);
    }
    assert(s@ =~= start + acc);
    push_str(s, "` / `");
    proof {
        acc = acc + "` / `"@;
    }
    assert(s@ =~= start + acc);
    {
        let v = session_property_string(r, "interactive");
        push_str(s, v.as_str());
    }
    proof {
        acc = acc + session_property(*r, "interactive"@);
    }
    assert(s@ =~= start + acc);
    push_str(s, "` / `");
    proof {
        acc = acc + "` / `"@;
    }
    assert(s@ =~= start + acc);
    {
        let v = session_property_string(r, "ready");
        push_str(s, v.as_str());
    }
    proof {
        acc = acc + session_property(*r, "ready"@);
    }
    assert(s@ =~= start + acc);
    push_str(s, "` | `");
    proof {
        acc = acc + "` | `"@;
    }
    assert(s@ =~= start + acc);
    {
        let v = session_property_string(r, "calculation");
        push_str(s, v.as_str());
    }
    proof {
        acc = acc + session_property(*r, "calculation"@);
    }
    assert(s@ =~= start + acc);
    push_str(s, "` / `");
    proof {
        acc = acc + "` / `"@;
    }
    assert(s@ =~= start + acc);
    {
        let v = session_property_string(r, "automation_security");
        push_str(s, v.as_str());
    }
    proof {
        acc = acc + session_property(*r, "automation_security"@);
    }
    assert(s@ =~= start + acc);
    push_str(s, "` / `");
    proof {
        acc = acc + "` / `"@;
    }
    assert(s@ =~= start + acc);
    {
        let v = session_property_string(r, "display_alerts");
        push_str(s, v.as_str());
    }
    proof {
        acc = acc + session_property(*r, "display_alerts"@);
    }
    assert(s@ =~= start + acc);
    push_str(s, "` | `startup ");
    proof {
        acc = acc + "` | `startup "@;
    }
    assert(s@ =~= start + acc);
    {
        let v = session_property_string(r, "startup_path");
        push_str(s, v.as_str());
    }
    proof {
        acc = acc + session_property(*r, "startup_path"@);
    }
    assert(s@ =~= start + acc);
    push_str(s, "; default ");
    proof {
        acc = acc + "; default "@;
    }
    assert(s@ =~= start + acc);
    {
        let v = session_property_string(r, "default_file_path");
        push_str(s, v.as_str());
    }
    proof {
        acc = acc + session_property(*r, "default_file_path"@);
    }
    assert(s@ =~= start + acc);
    push_str(s, "` | `");
    proof {
        acc = acc + "` | `"@;
    }
    assert(s@ =~= start + acc);
    {
        let status = ftext_string(r, "session_state/owned_process/status");
        if str_eq(status.as_str(), "available") {
            push_str(s, "recorded");
        } else {
            push_str(s, "Not tested");
        }
    }
    proof {
        acc = acc + (if ftext(*r, "session_state/owned_process/status"@) == "available"@ { "recorded"@ } else { "Not tested"@ });
    }
    assert(s@ =~= start + acc);
    push_str(s, "` | `");
    proof {
        acc = acc + "` | `"@;
    }
    assert(s@ =~= start + acc);
    push_ftext(s, r, "classification");
    proof {
        acc = acc + ftext(*r, "classification"@);
    }
    assert(s@ =~= start + acc);
    push_str(s, "` |\n");
    proof {
        acc = acc + "` |\n"@;
    }
    assert(s@ =~= start + acc);
    assert(acc == row_environment(*r));
}

pub open spec fn row_parity_operation(r: Record) -> Seq<char> {
    "| `"@
        + ftext(r, "parity_mode"@)
        + "` | `"@
        + md(ftext(r, "configuration/activation_api"@))
        + "` / `"@
        + md(ftext(r, "configuration/clsctx"@))
        + "` | `"@
        + ftext(r, "configuration/invoke_lcid"@)
        + "` | `"@
        + md(ftext(r, "configuration/invoke_strategy"@))
        + "` / `"@
        + ftext(r, "frame/c_args"@)
        + "` args | `"@
        + ftext(r, "returned_hresult/hex"@)
        + "` | `"@
        + ftext(r, "workbook_created"@)
        + "` | `"@
        + md(cj(r, "cleanup"@))
        + "` | `"@
        + ftext(r, "classification"@)
        + "` |\n"@
}

#[verifier::rlimit(100)]
fn push_row_parity_operation(s: &mut String, r: &Record)
    ensures
        final(s)@ == old(s)@ + row_parity_operation(*r),
{
    let ghost start = s@;
    push_str(s, "| `");
    let ghost mut acc = "| `"@;
    assert(s@ =~= start + acc);
    push_ftext(s, r, "parity_mode");
    proof {
        acc = acc + ftext(*r, "parity_mode"@);
    }
    assert(s@ =~= start + acc);
    push_str(s, "` | `");
    proof {
        acc = acc + "` | `"@;
    }
    assert(s@ =~= start + acc);
    push_md_text(s, r, "configuration/activation_api");
    proof {
        acc = acc + md(ftext(*r, "configuration/activation_api"@));
    }
    assert(s@ =~= start + acc);
    push_str(s, "` / `");
    proof {
        acc = acc + "` / `"@;
    }
    assert(s@ =~= start + acc);
    push_md_text(s, r, "configuration/clsctx");
    proof {
        acc = acc + md(ftext(*r, "configuration/clsctx"@));
    }
    assert(s@ =~= start + acc);
    push_str(s, "` | `");
    proof {
        acc = acc + "` | `"@;
    }
    assert(s@ =~= start + acc);
    push_ftext(s, r, "configuration/invoke_lcid");
    proof {
        acc = acc + ftext(*r, "configuration/invoke_lcid"@);
    }
    assert(s@ =~= start + acc);
    push_str(s, "` | `");
    proof {
        acc = acc + "` | `"@;
    }
    assert(s@ =~= start + acc);
    push_md_text(s, r, "configuration/invoke_strategy");
    proof {
        acc = acc + md(ftext(*r, "configuration/invoke_strategy"@));
    }
    assert(s@ =~= start + acc);
    push_str(s, "` / `");
    proof {
        acc = acc + "` / `"@;
    }
    assert(s@ =~= start + acc);
    push_ftext(s, r, "frame/c_args");
    proof {
        acc = acc + ftext(*r, "frame/c_args"@);
    }
    assert(s@ =~= start + acc);
    push_str(s, "` args | `");
    proof {
        acc = acc + "` args | `"@;
    }
    assert(s@ =~= start + acc);
    push_ftext(s, r, "returned_hresult/hex");
    proof {
        acc = acc + ftext(*r, "returned_hresult/hex"@);
    }
    assert(s@ =~= start + acc);
    push_str(s, "` | `");
    proof {
        acc = acc + "` | `"@;
    }
    assert(s@ =~= start + acc);
    push_ftext(s, r, "workbook_created");
    proof {
        acc = acc + ftext(*r, "workbook_created"@);
    }
    assert(s@ =~= start + acc);
    push_str(s, "` | `");
    proof {
        acc = acc + "` | `"@;
    }
    assert(s@ =~= start + acc);
    push_md_cj(s, r, "cleanup");
    proof {
        acc = acc + md(cj(*r, "cleanup"@));
    }
    assert(s@ =~= start + acc);
    push_str(s, "` | `");
    proof {
        acc = acc + "` | `"@;
    }
    assert(s@ =~= start + acc);
    push_ftext(s, r, "classification");
    proof {
        acc = acc + ftext(*r, "classification"@);
    }
    assert(s@ =~= start + acc);
    push_str(s, "` |\n");
    proof {
        acc = acc + "` |\n"@;
    }
    assert(s@ =~= start + acc);
    assert(acc == row_parity_operation(*r));
}

pub open spec fn row_smoke(r: Record) -> Seq<char> {
    "| `"@
        + ftext(r, "parity_mode"@)
        + "` | `"@
        + ftext(r, "workbook_access"@)
        + "` | `"@
        + ftext(r, "write_hresult"@)
        + "` | `"@
        + ftext(r, "read_vartype"@)
        + "` / `"@
        + md(cj(r, "read_value"@))
        + "` | `"@
        + ftext(r, "clear_hresult"@)
        + "` | `"@
        + ftext(r, "classification"@)
        + "` |\n"@
}

#[verifier::rlimit(100)]
fn push_row_smoke(s: &mut String, r: &Record)
    ensures
        final(s)@ == old(s)@ + row_smoke(*r),
{
    let ghost start = s@;
    push_str(s, "| `");
    let ghost mut acc = "| `"@;
    assert(s@ =~= start + acc);
    push_ftext(s, r, "parity_mode");
    proof {
        acc = acc + ftext(*r, "parity_mode"@);
    }
    assert(s@ =~= start + acc);
    push_str(s, "` | `");
    proof {
        acc = acc + "` | `"@;
    }
    assert(s@ =~= start + acc);
    push_ftext(s, r, "workbook_access");
    proof {
        acc = acc + ftext(*r, "workbook_access"@);
    }
    assert(s@ =~= start + acc);
    push_str(s, "` | `");
    proof {
        acc = acc + "` | `"@;
    }
    assert(s@ =~= start + acc);
    push_ftext(s, r, "write_hresult");
    proof {
        acc = acc + ftext(*r, "write_hresult"@);
    }
    assert(s@ =~= start + acc);
    push_str(s, "` | `");
    proof {
        acc = acc + "` | `"@;
    }
    assert(s@ =~= start + acc);
    push_ftext(s, r, "read_vartype");
    proof {
        acc = acc + ftext(*r, "read_vartype"@);
    }
    assert(s@ =~= start + acc);
    push_str(s, "` / `");
    proof {
        acc = acc + "` / `"@;
    }
    assert(s@ =~= start + acc);
    push_md_cj(s, r, "read_value");
    proof {
        acc = acc + md(cj(*r, "read_value"@));
    }
    assert(s@ =~= start + acc);
    push_str(s, "` | `");
    proof {
        acc = acc + "` | `"@;
    }
    assert(s@ =~= start + acc);
    push_ftext(s, r, "clear_hresult");
    proof {
        acc = acc + ftext(*r, "clear_hresult"@);
    }
    assert(s@ =~= start + acc);
    push_str(s, "` | `");
    proof {
        acc = acc + "` | `"@;
    }
    assert(s@ =~= start + acc);
    push_ftext(s, r, "classification");
    proof {
        acc = acc + ftext(*r, "classification"@);
    }
    assert(s@ =~= start + acc);
    push_str(s, "` |\n");
    proof {
        acc = acc + "` |\n"@;
    }
    assert(s@ =~= start + acc);
    assert(acc == row_smoke(*r));
}

pub open spec fn row_cleanup(r: Record) -> Seq<char> {
    "| `"@
        + ftext(r, "parity_mode"@)
        + "` | `"@
        + ftext(r, "cleanup/workbook_closed"@)
        + "` | `"@
        + ftext(r, "cleanup/excel_quit_requested"@)
        + "` | `"@
        + ftext(r, "cleanup/process_exited"@)
        + "` | `"@
        + ftext(r, "cleanup/forced_termination"@)
        + "` | `"@
        + ftext(r, "classification"@)
        + "` |\n"@
}

#[verifier::rlimit(100)]
fn push_row_cleanup(s: &mut String, r: &Record)
    ensures
        final(s)@ == old(s)@ + row_cleanup(*r),
{
    let ghost start = s@;
    push_str(s, "| `");
    let ghost mut acc = "| `"@;
    assert(s@ =~= start + acc);
    push_ftext(s, r, "parity_mode");
    proof {
        acc = acc + ftext(*r, "parity_mode"@);
    }
    assert(s@ =~= start + acc);
    push_str(s, "` | `");
    proof {
        acc = acc + "` | `"@;
    }
    assert(s@ =~= start + acc);
    push_ftext(s, r, "cleanup/workbook_closed");
    proof {
        acc = acc + ftext(*r, "cleanup/workbook_closed"@);
    }
    assert(s@ =~= start + acc);
    push_str(s, "` | `");
    proof {
        acc = acc + "` | `"@;
    }
    assert(s@ =~= start + acc);
    push_ftext(s, r, "cleanup/excel_quit_requested");
    proof {
        acc = acc + ftext(*r, "cleanup/excel_quit_requested"@);
    }
    assert(s@ =~= start + acc);
    push_str(s, "` | `");
    proof {
        acc = acc + "` | `"@;
    }
    assert(s@ =~= start + acc);
    push_ftext(s, r, "cleanup/process_exited");
    proof {
        acc = acc + ftext(*r, "cleanup/process_exited"@);
    }
    assert(s@ =~= start + acc);
    push_str(s, "` | `");
    proof {
        acc = acc + "` | `"@;
    }
    assert(s@ =~= start + acc);
    push_ftext(s, r, "cleanup/forced_termination");
    proof {
        acc = acc + ftext(*r, "cleanup/forced_termination"@);
    }
    assert(s@ =~= start + acc);
    push_str(s, "` | `");
    proof {
        acc = acc + "` | `"@;
    }
    assert(s@ =~= start + acc);
    push_ftext(s, r, "classification");
    proof {
        acc = acc + ftext(*r, "classification"@);
    }
    assert(s@ =~= start + acc);
    push_str(s, "` |\n");
    proof {
        acc = acc + "` |\n"@;
    }
    assert(s@ =~= start + acc);
    assert(acc == row_cleanup(*r));
}

pub open spec fn row_blocker(r: Record) -> Seq<char> {
    "| `"@
        + md(unresolved_mode(r))
        + "` | `"@
        + md(ftext(r, "target"@))
        + "` | `"@
        + md(ftext(r, "difference_classification"@))
        + "` | "@
        + md(ftext(r, "detail"@))
        + " |\n"@
}

#[verifier::rlimit(100)]
fn push_row_blocker(s: &mut String, r: &Record)
    ensures
        final(s)@ == old(s)@ + row_blocker(*r),
{
    let ghost start = s@;
    push_str(s, "| `");
    let ghost mut acc = "| `"@;
    assert(s@ =~= start + acc);
    {
        let m = parity_mode_for_unresolved(r);
        let c = markdown_cell(m.as_str());
        push_str(s, c.as_str());
    }
    proof {
        acc = acc + md(unresolved_mode(*r));
    }
    assert(s@ =~= start + acc);
    push_str(s, "` | `");
    proof {
        acc = acc + "` | `"@;
    }
    assert(s@ =~= start + acc);
    push_md_text(s, r, "target");
    proof {
        acc = acc + md(ftext(*r, "target"@));
    }
    assert(s@ =~= start + acc);
    push_str(s, "` | `");
    proof {
        acc = acc + "` | `"@;
    }
    assert(s@ =~= start + acc);
    push_md_text(s, r, "difference_classification");
    proof {
        acc = acc + md(ftext(*r, "difference_classification"@));
    }
    assert(s@ =~= start + acc);
    push_str(s, "` | ");
    proof {
        acc = acc + "` | "@;
    }
    assert(s@ =~= start + acc);
    push_md_text(s, r, "detail");
    proof {
        acc = acc + md(ftext(*r, "detail"@));
    }
    assert(s@ =~= start + acc);
    push_str(s, " |\n");
    proof {
        acc = acc + " |\n"@;
    }
    assert(s@ =~= start + acc);
    assert(acc == row_blocker(*r));
}


/// `Workbooks.Add` rows: the control projection, or one dispatch frame.
pub open spec fn row_workbooks_add(r: Record) -> Seq<char> {
    if ftext(r, "classification"@) == "Control-confirmed"@ {
        row_workbooks_add_control(r)
    } else {
        row_workbooks_add_frame(r)
    }
}

/// How a report renders one record.
#[derive(Debug, Clone, Copy, PartialEq, Eq, Structural)]
pub enum RowFormat {
    Observation,
    Control,
    WorkbooksAdd,
    Invocation,
    ControlComparison,
    Unresolved,
    Environment,
    ParityOperation,
    Smoke,
    Cleanup,
    Blocker,
}

pub open spec fn row_text(format: RowFormat, r: Record) -> Seq<char> {
    match format {
        RowFormat::Observation => row_observation(r),
        RowFormat::Control => row_control(r),
        RowFormat::WorkbooksAdd => row_workbooks_add(r),
        RowFormat::Invocation => row_invocation(r),
        RowFormat::ControlComparison => row_control_comparison(r),
        RowFormat::Unresolved => row_unresolved(r),
        RowFormat::Environment => row_environment(r),
        RowFormat::ParityOperation => row_parity_operation(r),
        RowFormat::Smoke => row_smoke(r),
        RowFormat::Cleanup => row_cleanup(r),
        RowFormat::Blocker => row_blocker(r),
    }
}

fn push_row(s: &mut String, format: RowFormat, r: &Record)
    ensures
        final(s)@ == old(s)@ + row_text(format, *r),
{
    match format {
        RowFormat::Observation => push_row_observation(s, r),
        RowFormat::Control => push_row_control(s, r),
        RowFormat::WorkbooksAdd => {
            let c = ftext_string(r, "classification");
            if str_eq(c.as_str(), "Control-confirmed") {
                push_row_workbooks_add_control(s, r);
            } else {
                push_row_workbooks_add_frame(s, r);
            }
        },
        RowFormat::Invocation => push_row_invocation(s, r),
        RowFormat::ControlComparison => push_row_control_comparison(s, r),
        RowFormat::Unresolved => push_row_unresolved(s, r),
        RowFormat::Environment => push_row_environment(s, r),
        RowFormat::ParityOperation => push_row_parity_operation(s, r),
        RowFormat::Smoke => push_row_smoke(s, r),
        RowFormat::Cleanup => push_row_cleanup(s, r),
        RowFormat::Blocker => push_row_blocker(s, r),
    }
}

/// The rows of the selected records, in the order of `sel`.
pub open spec fn rows_text(records: Seq<Record>, sel: Seq<usize>, format: RowFormat) -> Seq<char>
    decreases sel.len(),
{
    if sel.len() == 0 {
        Seq::empty()
    } else {
        rows_text(records, sel.drop_last(), format) + row_text(format, records[sel.last() as int])
    }
}

/// A report: the header, the table head, then the rows, or the empty row
/// when no record is selected.
pub open spec fn report_text(
    title: Seq<char>,
    subtitle: Seq<char>,
    head: Seq<char>,
    empty: Seq<char>,
    records: Seq<Record>,
    sel: Seq<usize>,
    format: RowFormat,
) -> Seq<char> {
    report_header_text(title, subtitle) + head + if sel.len() == 0 {
        empty
    } else {
        rows_text(records, sel, format)
    }
}

fn render(
    title: &str,
    subtitle: &str,
    head: &str,
    empty: &str,
    records: &Vec<Record>,
    sel: &Vec<usize>,
    format: RowFormat,
) -> (s: String)
    requires
        forall|k: int| 0 <= k < sel@.len() ==> (#[trigger] sel@[k]) < records@.len(),
    ensures
        s@ == report_text(title@, subtitle@, head@, empty@, records@, sel@, format),
{
    let mut s = report_header(title, subtitle);
    push_str(&mut s, head);
    if sel.len() == 0 {
        push_str(&mut s, empty);
        return s;
    }
    let ghost start = s@;
    let mut k: usize = 0;
    while k < sel.len()
        invariant
            k <= sel@.len(),
            forall|j: int| 0 <= j < sel@.len() ==> (#[trigger] sel@[j]) < records@.len(),
            s@ == start + rows_text(records@, sel@.take(k as int), format),
        decreases sel.len() - k,
    {
        assert(sel@.take(k + 1).drop_last() =~= sel@.take(k as int));
        push_row(&mut s, format, &records[sel[k]]);
        k = k + 1;
        assert(s@ =~= start + rows_text(records@, sel@.take(k as int), format));
    }
    assert(sel@.take(k as int) =~= sel@);
    s
}

/// `text` is a report of the records that `filter` chooses, stably sorted
/// by identifier.
#[verifier::opaque]
pub open spec fn is_sorted_report(
    text: Seq<char>,
    title: Seq<char>,
    subtitle: Seq<char>,
    head: Seq<char>,
    empty: Seq<char>,
    records: Seq<Record>,
    filter: ReportFilter,
    param: Seq<char>,
    format: RowFormat,
) -> bool {
    exists|sel: Seq<usize>|
        ordered_selection(records, choices(filter, param, records), sel) && text == report_text(
            title,
            subtitle,
            head,
            empty,
            records,
            sel,
            format,
        )
}

/// A report of the chosen records, stably sorted by identifier.
pub fn sorted_report(
    title: &str,
    subtitle: &str,
    head: &str,
    empty: &str,
    records: &Vec<Record>,
    filter: ReportFilter,
    param: &str,
    format: RowFormat,
) -> (s: String)
    ensures
        is_sorted_report(s@, title@, subtitle@, head@, empty@, records@, filter, param@, format),
{
    let chosen = choose_records(filter, param, records);
    let sel = select_sorted(records, &chosen);
    let s = render(title, subtitle, head, empty, records, &sel, format);
    assert(ordered_selection(records@, choices(filter, param@, records@), sel@));
    proof {
        reveal(is_sorted_report);
    }
    s
}

/// `sel` lists, in their order, exactly the positions of the chosen records.
pub open spec fn in_order_selection(records: Seq<Record>, chosen: Seq<bool>, sel: Seq<usize>) -> bool {
    &&& forall|a: int, b: int| 0 <= a < b < sel.len() ==> #[trigger] sel[a] < #[trigger] sel[b]
    &&& forall|k: int| 0 <= k < sel.len() ==> (#[trigger] sel[k]) < records.len() && chosen[sel[k] as int]
    &&& forall|i: int|
        0 <= i < records.len() && chosen[i] ==> exists|k: int| 0 <= k < sel.len() && #[trigger] sel[k] == i
}

fn select_in_order(records: &Vec<Record>, chosen: &Vec<bool>) -> (sel: Vec<usize>)
    requires
        chosen@.len() == records@.len(),
    ensures
        in_order_selection(records@, chosen@, sel@),
{
    let mut sel: Vec<usize> = Vec::new();
    let mut i: usize = 0;
    while i < records.len()
        invariant
            i <= records@.len(),
            chosen@.len() == records@.len(),
            forall|a: int, b: int| 0 <= a < b < sel@.len() ==> #[trigger] sel@[a] < #[trigger] sel@[b],
            forall|k: int| 0 <= k < sel@.len() ==> (#[trigger] sel@[k]) < i && chosen@[sel@[k] as int],
            forall|j: int|
                0 <= j < i && chosen@[j] ==> exists|k: int| 0 <= k < sel@.len() && #[trigger] sel@[k] == j,
        decreases records.len() - i,
    {
        if chosen[i] {
            let ghost before = sel@;
            sel.push(i);
            proof {
                assert forall|j: int| 0 <= j < i + 1 && chosen@[j] implies exists|k: int|
                    0 <= k < sel@.len() && #[trigger] sel@[k] == j by {
                    if j == i {
                        assert(sel@[before.len() as int] == i);
                    } else {
                        let k = choose|k: int| 0 <= k < before.len() && #[trigger] before[k] == j;
                        assert(sel@[k] == j);
                    }
                }
            }
        }
        i = i + 1;
    }
    sel
}

/// Whether an unresolved record belongs to the parity runs (its
/// identifier contains `05d`).
pub open spec fn is_parity_blocker(r: Record) -> bool {
    contains_spec(ftext(r, "id"@), "05d"@)
}

/// `text` is a report of the records in their given order that `chosen`
/// marks.
#[verifier::opaque]
pub open spec fn is_in_order_report(
    text: Seq<char>,
    title: Seq<char>,
    subtitle: Seq<char>,
    head: Seq<char>,
    empty: Seq<char>,
    records: Seq<Record>,
    chosen: Seq<bool>,
    format: RowFormat,
) -> bool {
    exists|sel: Seq<usize>|
        in_order_selection(records, chosen, sel) && text == report_text(
            title,
            subtitle,
            head,
            empty,
            records,
            sel,
            format,
        )
}

pub open spec fn all_chosen(records: Seq<Record>) -> Seq<bool> {
    Seq::new(records.len(), |i: int| true)
}

pub open spec fn blockers_chosen(records: Seq<Record>) -> Seq<bool> {
    Seq::new(records.len(), |i: int| is_parity_blocker(records[i]))
}

/// The unresolved runtime questions, in their committed order.
pub open spec fn is_unresolved_report(text: Seq<char>, unresolved: Seq<Record>) -> bool {
    is_in_order_report(
        text,
        "Unresolved runtime questions"@,
        "Not-tested and inconclusive entries remain explicit rather than inferred from documentation, a typelib, or a control projection."@,
        "| Target | Classification | Detail |\n| --- | --- | --- |\n"@,
        "| -- | -- | No unresolved entry was emitted. |\n"@,
        unresolved,
        all_chosen(unresolved),
        RowFormat::Unresolved,
    )
}

pub open spec fn is_blockers_report(text: Seq<char>, unresolved: Seq<Record>) -> bool {
    is_in_order_report(
        text,
        "Remaining Prompt 05D blockers"@,
        "Classifications distinguish the client implementation from session and host state rather than assigning intermittent failures to Rust by default."@,
        "| Mode | Target | Difference classification | Detail |\n| --- | --- | --- | --- |\n"@,
        "| -- | -- | -- | No remaining Prompt 05D blocker was emitted. |\n"@,
        unresolved,
        blockers_chosen(unresolved),
        RowFormat::Blocker,
    )
}

pub fn unresolved_report(unresolved: &Vec<Record>) -> (s: String)
    ensures
        is_unresolved_report(s@, unresolved@),
        is_in_order_report(
            s@,
            "Unresolved runtime questions"@,
            "Not-tested and inconclusive entries remain explicit rather than inferred from documentation, a typelib, or a control projection."@,
            "| Target | Classification | Detail |\n| --- | --- | --- |\n"@,
            "| -- | -- | No unresolved entry was emitted. |\n"@,
            unresolved@,
            all_chosen(unresolved@),
            RowFormat::Unresolved,
        ),
{
    let mut chosen: Vec<bool> = Vec::new();
    let mut i: usize = 0;
    while i < unresolved.len()
        invariant
            i <= unresolved@.len(),
            chosen@.len() == i,
            forall|k: int| 0 <= k < i ==> #[trigger] chosen@[k],
        decreases unresolved.len() - i,
    {
        chosen.push(true);
        i = i + 1;
    }
    assert(chosen@ =~= all_chosen(unresolved@));
    let sel = select_in_order(unresolved, &chosen);
    proof {
        reveal(is_in_order_report);
    }
    render(
        "Unresolved runtime questions",
        "Not-tested and inconclusive entries remain explicit rather than inferred from documentation, a typelib, or a control projection.",
        "| Target | Classification | Detail |\n| --- | --- | --- |\n",
        "| -- | -- | No unresolved entry was emitted. |\n",
        unresolved,
        &sel,
        RowFormat::Unresolved,
    )
}

/// The unresolved records of the parity runs, in their committed order.
pub fn parity_blockers_report(unresolved: &Vec<Record>) -> (s: String)
    ensures
        is_blockers_report(s@, unresolved@),
        is_in_order_report(
            s@,
            "Remaining Prompt 05D blockers"@,
            "Classifications distinguish the client implementation from session and host state rather than assigning intermittent failures to Rust by default."@,
            "| Mode | Target | Difference classification | Detail |\n| --- | --- | --- | --- |\n"@,
            "| -- | -- | -- | No remaining Prompt 05D blocker was emitted. |\n"@,
            unresolved@,
            blockers_chosen(unresolved@),
            RowFormat::Blocker,
        ),
{
    let mut chosen: Vec<bool> = Vec::new();
    let mut i: usize = 0;
    while i < unresolved.len()
        invariant
            i <= unresolved@.len(),
            chosen@.len() == i,
            forall|k: int| 0 <= k < i ==> chosen@[k] == is_parity_blocker(#[trigger] unresolved@[k]),
        decreases unresolved.len() - i,
    {
        let id = ftext_string(&unresolved[i], "id");
        chosen.push(contains_text(id.as_str(), "05d"));
        i = i + 1;
    }
    assert(chosen@ =~= blockers_chosen(unresolved@));
    let sel = select_in_order(unresolved, &chosen);
    proof {
        reveal(is_in_order_report);
    }
    render(
        "Remaining Prompt 05D blockers",
        "Classifications distinguish the client implementation from session and host state rather than assigning intermittent failures to Rust by default.",
        "| Mode | Target | Difference classification | Detail |\n| --- | --- | --- | --- |\n",
        "| -- | -- | -- | No remaining Prompt 05D blocker was emitted. |\n",
        unresolved,
        &sel,
        RowFormat::Blocker,
    )
}

/// The file names of the generated runtime reports, in name order.
pub open spec fn runtime_report_names() -> Seq<Seq<char>> {
    seq![
        "control-comparison.md"@,
        "controls.md"@,
        "environment-stability-matrix.md"@,
        "excel-errors.md"@,
        "formulas.md"@,
        "invocation-frames.md"@,
        "optional-arguments.md"@,
        "parity-cleanup.md"@,
        "range-shapes.md"@,
        "range-smoke-test.md"@,
        "rectangular-values.md"@,
        "remaining-blockers.md"@,
        "scalar-values.md"@,
        "unresolved.md"@,
        "value-vs-value2.md"@,
        "workbook-open-parity-matrix.md"@,
        "workbooks-add-diagnostic.md"@,
        "workbooks-add-parity-matrix.md"@,
        "writes.md"@,
    ]
}

/// A report of the observations in `category`, sorted by identifier.
pub fn observation_report(capture: &Capture, title: &str, category: &str) -> (s: String)
    ensures
        is_sorted_report(s@, title@, "Rows preserve copied raw observation metadata from the owned live Excel instance."@, "| Case | Member | Range | HRESULT | Returned VARTYPE | Array shape / bounds | Classification |\n| --- | --- | --- | --- | --- | --- | --- |\n"@, "| -- | -- | -- | -- | No observation captured. | -- | Not tested |\n"@, capture.observations@, ReportFilter::Category, category@, RowFormat::Observation),
{
    sorted_report(title, "Rows preserve copied raw observation metadata from the owned live Excel instance.", "| Case | Member | Range | HRESULT | Returned VARTYPE | Array shape / bounds | Classification |\n| --- | --- | --- | --- | --- | --- | --- |\n", "| -- | -- | -- | -- | No observation captured. | -- | Not tested |\n", &capture.observations, ReportFilter::Category, category, RowFormat::Observation)
}

/// The observations that carry a control projection, sorted by identifier.
pub fn controls_report(capture: &Capture) -> (s: String)
    ensures
        is_sorted_report(s@, "Control-client comparison"@, "Control projections are recorded separately and never replace raw COM evidence."@, "| Case | Raw result | Control result | Classification |\n| --- | --- | --- | --- |\n"@, "| -- | No control result captured. | -- | Inconclusive |\n"@, capture.observations@, ReportFilter::HasControl, ""@, RowFormat::Control),
{
    sorted_report("Control-client comparison", "Control projections are recorded separately and never replace raw COM evidence.", "| Case | Raw result | Control result | Classification |\n| --- | --- | --- | --- |\n", "| -- | No control result captured. | -- | Inconclusive |\n", &capture.observations, ReportFilter::HasControl, "", RowFormat::Control)
}

/// The explicit `Workbooks.Add` dispatch frames and the control that confirms them, sorted by identifier.
pub fn workbooks_add_diagnostic_report(capture: &Capture) -> (s: String)
    ensures
        is_sorted_report(s@, "Workbooks.Add diagnostic"@, "This report compares only the explicit Prompt 05B dispatch frames; it does not turn a control projection into raw ABI evidence."@, "| Case | Target | Audited/runtime DISPID | Flags | LCID | Args/named | HRESULT | Result VARTYPE | Workbook/cleanup |\n| --- | --- | --- | --- | --- | --- | --- | --- | --- |\n"@, "| -- | -- | -- | -- | -- | -- | No diagnostic captured. | -- | -- |\n"@, capture.observations@, ReportFilter::WorkbooksAdd, ""@, RowFormat::WorkbooksAdd),
{
    sorted_report("Workbooks.Add diagnostic", "This report compares only the explicit Prompt 05B dispatch frames; it does not turn a control projection into raw ABI evidence.", "| Case | Target | Audited/runtime DISPID | Flags | LCID | Args/named | HRESULT | Result VARTYPE | Workbook/cleanup |\n| --- | --- | --- | --- | --- | --- | --- | --- | --- |\n", "| -- | -- | -- | -- | -- | -- | No diagnostic captured. | -- | -- |\n", &capture.observations, ReportFilter::WorkbooksAdd, "", RowFormat::WorkbooksAdd)
}

/// The observations in the `invocation` category, sorted by identifier.
pub fn invocation_frames_report(capture: &Capture) -> (s: String)
    ensures
        is_sorted_report(s@, "Raw invocation frames"@, "All values below are copied diagnostics: nullness is recorded, but raw pointer addresses are never persisted."@, "| Case | Member | GetIDsOfNames DISPID | Frame | EXCEPINFO | puArgErr | Result ownership |\n| --- | --- | --- | --- | --- | --- | --- |\n"@, "| -- | -- | -- | No invocation diagnostic captured. | -- | -- | -- |\n"@, capture.observations@, ReportFilter::Category, "invocation"@, RowFormat::Invocation),
{
    sorted_report("Raw invocation frames", "All values below are copied diagnostics: nullness is recorded, but raw pointer addresses are never persisted.", "| Case | Member | GetIDsOfNames DISPID | Frame | EXCEPINFO | puArgErr | Result ownership |\n| --- | --- | --- | --- | --- | --- | --- |\n", "| -- | -- | -- | No invocation diagnostic captured. | -- | -- | -- |\n", &capture.observations, ReportFilter::Category, "invocation", RowFormat::Invocation)
}

/// The rows of `text` are those of `sel`, which holds, each once, exactly
/// the records whose `classification` value reads `Control-confirmed`.
pub open spec fn lists_exactly_confirmed(
    text: Seq<char>,
    title: Seq<char>,
    subtitle: Seq<char>,
    head: Seq<char>,
    empty: Seq<char>,
    records: Seq<Record>,
    format: RowFormat,
    sel: Seq<usize>,
) -> bool {
    &&& text == report_text(title, subtitle, head, empty, records, sel, format)
    &&& forall|k: int| 0 <= k < sel.len() ==> (#[trigger] sel[k]) < records.len()
    &&& forall|i: int|
        0 <= i < records.len() ==> ((exists|k: int| 0 <= k < sel.len() && #[trigger] sel[k] == i)
            <==> ftext(records[i], "classification"@) == "Control-confirmed"@)
    &&& forall|a: int, b: int| 0 <= a < b < sel.len() ==> #[trigger] sel[a] != #[trigger] sel[b]
}

/// Law: a report under the `Control-confirmed` filter lists every record
/// whose `classification` value reads exactly `Control-confirmed`, each once,
/// and no other record; with no such record it shows its placeholder row.
pub proof fn lemma_confirmed_report_lists_exactly_controls(
    text: Seq<char>,
    title: Seq<char>,
    subtitle: Seq<char>,
    head: Seq<char>,
    empty: Seq<char>,
    records: Seq<Record>,
    param: Seq<char>,
    format: RowFormat,
)
    requires
        is_sorted_report(text, title, subtitle, head, empty, records, ReportFilter::ControlConfirmed, param, format),
    ensures
        exists|sel: Seq<usize>| lists_exactly_confirmed(text, title, subtitle, head, empty, records, format, sel),
        (forall|i: int| 0 <= i < records.len() ==> ftext(#[trigger] records[i], "classification"@) != "Control-confirmed"@)
            ==> text == report_header_text(title, subtitle) + head + empty,
{
    reveal(is_sorted_report);
    let chosen = choices(ReportFilter::ControlConfirmed, param, records);
    let sel = choose|sel: Seq<usize>|
        ordered_selection(records, choices(ReportFilter::ControlConfirmed, param, records), sel) && text
            == report_text(title, subtitle, head, empty, records, sel, format);
    assert(ordered_selection(records, chosen, sel));
    assert(text == report_text(title, subtitle, head, empty, records, sel, format));
    assert forall|i: int| 0 <= i < records.len() implies ((exists|k: int| 0 <= k < sel.len() && #[trigger] sel[k] == i)
        <==> ftext(records[i], "classification"@) == "Control-confirmed"@) by {
        assert(chosen[i] == chosen_by(ReportFilter::ControlConfirmed, param, records[i]));
        if exists|k: int| 0 <= k < sel.len() && #[trigger] sel[k] == i {
            let k = choose|k: int| 0 <= k < sel.len() && #[trigger] sel[k] == i;
            assert(chosen[sel[k] as int]);
        }
    }
    assert forall|a: int, b: int| 0 <= a < b < sel.len() implies #[trigger] sel[a] != #[trigger] sel[b] by {
        assert(sorts_before(records, sel[a] as int, sel[b] as int));
        lemma_sorts_before_irreflexive(records, sel[a] as int);
    }
    assert(lists_exactly_confirmed(text, title, subtitle, head, empty, records, format, sel));
    if forall|i: int| 0 <= i < records.len() ==> ftext(#[trigger] records[i], "classification"@) != "Control-confirmed"@ {
        if sel.len() > 0 {
            assert(chosen[sel[0] as int]);
            assert(ftext(records[sel[0] as int], "classification"@) != "Control-confirmed"@);
        }
    }
}

/// The control-confirmed observations, sorted by identifier.
pub fn control_comparison_report(capture: &Capture) -> (s: String)
    ensures
        is_sorted_report(s@, "Control comparison"@, "Independent controls establish only their own projection-level result; raw VARIANT and SAFEARRAY claims remain limited to the owned raw probe."@, "| Control | Activation | Result | Boundary |\n| --- | --- | --- | --- |\n"@, "| -- | -- | No independent control captured. | -- |\n"@, capture.observations@, ReportFilter::ControlConfirmed, ""@, RowFormat::ControlComparison),
        exists|sel: Seq<usize>| lists_exactly_confirmed(s@, "Control comparison"@, "Independent controls establish only their own projection-level result; raw VARIANT and SAFEARRAY claims remain limited to the owned raw probe."@, "| Control | Activation | Result | Boundary |\n| --- | --- | --- | --- |\n"@, "| -- | -- | No independent control captured. | -- |\n"@, capture.observations@, RowFormat::ControlComparison, sel),
{
    let s = sorted_report("Control comparison", "Independent controls establish only their own projection-level result; raw VARIANT and SAFEARRAY claims remain limited to the owned raw probe.", "| Control | Activation | Result | Boundary |\n| --- | --- | --- | --- |\n", "| -- | -- | No independent control captured. | -- |\n", &capture.observations, ReportFilter::ControlConfirmed, "", RowFormat::ControlComparison);
    proof {
        lemma_confirmed_report_lists_exactly_controls(s@, "Control comparison"@, "Independent controls establish only their own projection-level result; raw VARIANT and SAFEARRAY claims remain limited to the owned raw probe."@, "| Control | Activation | Result | Boundary |\n| --- | --- | --- | --- |\n"@, "| -- | -- | No independent control captured. | -- |\n"@, capture.observations@, ""@, RowFormat::ControlComparison);
    }
    s
}

/// The environments recorded under a parity mode, sorted by identifier.
pub fn parity_environment_report(capture: &Capture) -> (s: String)
    ensures
        is_sorted_report(s@, "Environment stability matrix"@, "Only normalized Prompt 05D owned-session state is shown; HWNDs and paths are never persisted."@, "| Mode | Operation | Excel / Workbooks before | Visible / user control / interactive / ready | Calculation / security / alerts | Paths | Owned process | Classification |\n| --- | --- | --- | --- | --- | --- | --- | --- |\n"@, "| -- | -- | -- | -- | -- | No Prompt 05D session recorded. | Not tested |\n"@, capture.environments@, ReportFilter::HasParityMode, ""@, RowFormat::Environment),
{
    sorted_report("Environment stability matrix", "Only normalized Prompt 05D owned-session state is shown; HWNDs and paths are never persisted.", "| Mode | Operation | Excel / Workbooks before | Visible / user control / interactive / ready | Calculation / security / alerts | Paths | Owned process | Classification |\n| --- | --- | --- | --- | --- | --- | --- | --- |\n", "| -- | -- | -- | -- | -- | No Prompt 05D session recorded. | Not tested |\n", &capture.environments, ReportFilter::HasParityMode, "", RowFormat::Environment)
}

/// The parity range smoke tests, sorted by identifier.
pub fn parity_smoke_report(capture: &Capture) -> (s: String)
    ensures
        is_sorted_report(s@, "Range smoke test"@, "The smoke test is entered only after the same Rust configuration creates or opens a workbook."@, "| Mode | Workbook access | `A1.Value2 = 42` | Read VARTYPE / value | ClearContents | Classification |\n| --- | --- | --- | --- | --- | --- |\n"@, "| -- | -- | Not entered. | -- | -- | Not tested |\n"@, capture.observations@, ReportFilter::ParityOperation, "range-smoke"@, RowFormat::Smoke),
{
    sorted_report("Range smoke test", "The smoke test is entered only after the same Rust configuration creates or opens a workbook.", "| Mode | Workbook access | `A1.Value2 = 42` | Read VARTYPE / value | ClearContents | Classification |\n| --- | --- | --- | --- | --- | --- |\n", "| -- | -- | Not entered. | -- | -- | Not tested |\n", &capture.observations, ReportFilter::ParityOperation, "range-smoke", RowFormat::Smoke)
}

/// The cleanup records of the parity runs, sorted by identifier.
pub fn parity_cleanup_report(capture: &Capture) -> (s: String)
    ensures
        is_sorted_report(s@, "Parity cleanup"@, "Only owned Excel instances are closed; no process is forcibly terminated by this probe."@, "| Mode | Workbook close | Excel Quit | Owned process exit | Forced termination | Classification |\n| --- | --- | --- | --- | --- | --- |\n"@, "| -- | -- | -- | No Prompt 05D cleanup recorded. | -- | Not tested |\n"@, capture.observations@, ReportFilter::ParityOperation, "cleanup"@, RowFormat::Cleanup),
{
    sorted_report("Parity cleanup", "Only owned Excel instances are closed; no process is forcibly terminated by this probe.", "| Mode | Workbook close | Excel Quit | Owned process exit | Forced termination | Classification |\n| --- | --- | --- | --- | --- | --- |\n", "| -- | -- | -- | No Prompt 05D cleanup recorded. | -- | Not tested |\n", &capture.observations, ReportFilter::ParityOperation, "cleanup", RowFormat::Cleanup)
}

/// The observations of one parity operation, sorted by identifier.
pub fn parity_operation_report(capture: &Capture, title: &str, operation: &str) -> (s: String)
    ensures
        is_sorted_report(s@, title@, "Each row is a separately owned, freshly activated Excel session under one explicit Rust configuration; no retry loop is used."@, "| Mode | Activation / CLSCTX | LCID | Invoke / frame | HRESULT | Workbook | Cleanup | Classification |\n| --- | --- | ---: | --- | --- | --- | --- | --- |\n"@, "| -- | -- | -- | No Prompt 05D observation captured. | -- | -- | -- | Not tested |\n"@, capture.observations@, ReportFilter::ParityOperation, operation@, RowFormat::ParityOperation),
{
    sorted_report(title, "Each row is a separately owned, freshly activated Excel session under one explicit Rust configuration; no retry loop is used.", "| Mode | Activation / CLSCTX | LCID | Invoke / frame | HRESULT | Workbook | Cleanup | Classification |\n| --- | --- | ---: | --- | --- | --- | --- | --- |\n", "| -- | -- | -- | No Prompt 05D observation captured. | -- | -- | -- | Not tested |\n", &capture.observations, ReportFilter::ParityOperation, operation, RowFormat::ParityOperation)
}

/// The generated runtime reports of a capture, by file name in name order.
pub fn reports(capture: &Capture) -> (v: Vec<(&'static str, String)>)
    ensures
        v@.len() == 19,
        forall|k: int| 0 <= k < 19 ==> #[trigger] v@[k].0@ == runtime_report_names()[k],
        v@[0].0@ == "control-comparison.md"@,
        is_sorted_report(v@[0].1@, "Control comparison"@, "Independent controls establish only their own projection-level result; raw VARIANT and SAFEARRAY claims remain limited to the owned raw probe."@, "| Control | Activation | Result | Boundary |\n| --- | --- | --- | --- |\n"@, "| -- | -- | No independent control captured. | -- |\n"@, capture.observations@, ReportFilter::ControlConfirmed, ""@, RowFormat::ControlComparison),
        v@[1].0@ == "controls.md"@,
        is_sorted_report(v@[1].1@, "Control-client comparison"@, "Control projections are recorded separately and never replace raw COM evidence."@, "| Case | Raw result | Control result | Classification |\n| --- | --- | --- | --- |\n"@, "| -- | No control result captured. | -- | Inconclusive |\n"@, capture.observations@, ReportFilter::HasControl, ""@, RowFormat::Control),
        v@[2].0@ == "environment-stability-matrix.md"@,
        is_sorted_report(v@[2].1@, "Environment stability matrix"@, "Only normalized Prompt 05D owned-session state is shown; HWNDs and paths are never persisted."@, "| Mode | Operation | Excel / Workbooks before | Visible / user control / interactive / ready | Calculation / security / alerts | Paths | Owned process | Classification |\n| --- | --- | --- | --- | --- | --- | --- | --- |\n"@, "| -- | -- | -- | -- | -- | No Prompt 05D session recorded. | Not tested |\n"@, capture.environments@, ReportFilter::HasParityMode, ""@, RowFormat::Environment),
        v@[3].0@ == "excel-errors.md"@,
        is_sorted_report(v@[3].1@, "Excel error cells"@, "Rows preserve copied raw observation metadata from the owned live Excel instance."@, "| Case | Member | Range | HRESULT | Returned VARTYPE | Array shape / bounds | Classification |\n| --- | --- | --- | --- | --- | --- | --- |\n"@, "| -- | -- | -- | -- | No observation captured. | -- | Not tested |\n"@, capture.observations@, ReportFilter::Category, "error"@, RowFormat::Observation),
        v@[4].0@ == "formulas.md"@,
        is_sorted_report(v@[4].1@, "Formula and Formula2"@, "Rows preserve copied raw observation metadata from the owned live Excel instance."@, "| Case | Member | Range | HRESULT | Returned VARTYPE | Array shape / bounds | Classification |\n| --- | --- | --- | --- | --- | --- | --- |\n"@, "| -- | -- | -- | -- | No observation captured. | -- | Not tested |\n"@, capture.observations@, ReportFilter::Category, "formula"@, RowFormat::Observation),
        v@[5].0@ == "invocation-frames.md"@,
        is_sorted_report(v@[5].1@, "Raw invocation frames"@, "All values below are copied diagnostics: nullness is recorded, but raw pointer addresses are never persisted."@, "| Case | Member | GetIDsOfNames DISPID | Frame | EXCEPINFO | puArgErr | Result ownership |\n| --- | --- | --- | --- | --- | --- | --- |\n"@, "| -- | -- | -- | No invocation diagnostic captured. | -- | -- | -- |\n"@, capture.observations@, ReportFilter::Category, "invocation"@, RowFormat::Invocation),
        v@[6].0@ == "optional-arguments.md"@,
        is_sorted_report(v@[6].1@, "Optional Range arguments"@, "Rows preserve copied raw observation metadata from the owned live Excel instance."@, "| Case | Member | Range | HRESULT | Returned VARTYPE | Array shape / bounds | Classification |\n| --- | --- | --- | --- | --- | --- | --- |\n"@, "| -- | -- | -- | -- | No observation captured. | -- | Not tested |\n"@, capture.observations@, ReportFilter::Category, "optional"@, RowFormat::Observation),
        v@[7].0@ == "parity-cleanup.md"@,
        is_sorted_report(v@[7].1@, "Parity cleanup"@, "Only owned Excel instances are closed; no process is forcibly terminated by this probe."@, "| Mode | Workbook close | Excel Quit | Owned process exit | Forced termination | Classification |\n| --- | --- | --- | --- | --- | --- |\n"@, "| -- | -- | -- | No Prompt 05D cleanup recorded. | -- | Not tested |\n"@, capture.observations@, ReportFilter::ParityOperation, "cleanup"@, RowFormat::Cleanup),
        v@[8].0@ == "range-shapes.md"@,
        is_sorted_report(v@[8].1@, "Range shapes"@, "Rows preserve copied raw observation metadata from the owned live Excel instance."@, "| Case | Member | Range | HRESULT | Returned VARTYPE | Array shape / bounds | Classification |\n| --- | --- | --- | --- | --- | --- | --- |\n"@, "| -- | -- | -- | -- | No observation captured. | -- | Not tested |\n"@, capture.observations@, ReportFilter::Category, "array"@, RowFormat::Observation),
        v@[9].0@ == "range-smoke-test.md"@,
        is_sorted_report(v@[9].1@, "Range smoke test"@, "The smoke test is entered only after the same Rust configuration creates or opens a workbook."@, "| Mode | Workbook access | `A1.Value2 = 42` | Read VARTYPE / value | ClearContents | Classification |\n| --- | --- | --- | --- | --- | --- |\n"@, "| -- | -- | Not entered. | -- | -- | Not tested |\n"@, capture.observations@, ReportFilter::ParityOperation, "range-smoke"@, RowFormat::Smoke),
        v@[10].0@ == "rectangular-values.md"@,
        is_sorted_report(v@[10].1@, "Rectangular range values"@, "Rows preserve copied raw observation metadata from the owned live Excel instance."@, "| Case | Member | Range | HRESULT | Returned VARTYPE | Array shape / bounds | Classification |\n| --- | --- | --- | --- | --- | --- | --- |\n"@, "| -- | -- | -- | -- | No observation captured. | -- | Not tested |\n"@, capture.observations@, ReportFilter::Category, "rectangular"@, RowFormat::Observation),
        v@[11].0@ == "remaining-blockers.md"@,
        is_blockers_report(v@[11].1@, capture.unresolved@),
        v@[12].0@ == "scalar-values.md"@,
        is_sorted_report(v@[12].1@, "Scalar Value and Value2"@, "Rows preserve copied raw observation metadata from the owned live Excel instance."@, "| Case | Member | Range | HRESULT | Returned VARTYPE | Array shape / bounds | Classification |\n| --- | --- | --- | --- | --- | --- | --- |\n"@, "| -- | -- | -- | -- | No observation captured. | -- | Not tested |\n"@, capture.observations@, ReportFilter::Category, "scalar"@, RowFormat::Observation),
        v@[13].0@ == "unresolved.md"@,
        is_unresolved_report(v@[13].1@, capture.unresolved@),
        v@[14].0@ == "value-vs-value2.md"@,
        is_sorted_report(v@[14].1@, "Value versus Value2"@, "Rows preserve copied raw observation metadata from the owned live Excel instance."@, "| Case | Member | Range | HRESULT | Returned VARTYPE | Array shape / bounds | Classification |\n| --- | --- | --- | --- | --- | --- | --- |\n"@, "| -- | -- | -- | -- | No observation captured. | -- | Not tested |\n"@, capture.observations@, ReportFilter::Category, "value-vs-value2"@, RowFormat::Observation),
        v@[15].0@ == "workbook-open-parity-matrix.md"@,
        is_sorted_report(v@[15].1@, "Workbooks.Open parity matrix"@, "Each row is a separately owned, freshly activated Excel session under one explicit Rust configuration; no retry loop is used."@, "| Mode | Activation / CLSCTX | LCID | Invoke / frame | HRESULT | Workbook | Cleanup | Classification |\n| --- | --- | ---: | --- | --- | --- | --- | --- |\n"@, "| -- | -- | -- | No Prompt 05D observation captured. | -- | -- | -- | Not tested |\n"@, capture.observations@, ReportFilter::ParityOperation, "workbooks-open"@, RowFormat::ParityOperation),
        v@[16].0@ == "workbooks-add-diagnostic.md"@,
        is_sorted_report(v@[16].1@, "Workbooks.Add diagnostic"@, "This report compares only the explicit Prompt 05B dispatch frames; it does not turn a control projection into raw ABI evidence."@, "| Case | Target | Audited/runtime DISPID | Flags | LCID | Args/named | HRESULT | Result VARTYPE | Workbook/cleanup |\n| --- | --- | --- | --- | --- | --- | --- | --- | --- |\n"@, "| -- | -- | -- | -- | -- | -- | No diagnostic captured. | -- | -- |\n"@, capture.observations@, ReportFilter::WorkbooksAdd, ""@, RowFormat::WorkbooksAdd),
        v@[17].0@ == "workbooks-add-parity-matrix.md"@,
        is_sorted_report(v@[17].1@, "Workbooks.Add parity matrix"@, "Each row is a separately owned, freshly activated Excel session under one explicit Rust configuration; no retry loop is used."@, "| Mode | Activation / CLSCTX | LCID | Invoke / frame | HRESULT | Workbook | Cleanup | Classification |\n| --- | --- | ---: | --- | --- | --- | --- | --- |\n"@, "| -- | -- | -- | No Prompt 05D observation captured. | -- | -- | -- | Not tested |\n"@, capture.observations@, ReportFilter::ParityOperation, "workbooks-add"@, RowFormat::ParityOperation),
        v@[18].0@ == "writes.md"@,
        is_sorted_report(v@[18].1@, "Scalar and rectangular writes"@, "Rows preserve copied raw observation metadata from the owned live Excel instance."@, "| Case | Member | Range | HRESULT | Returned VARTYPE | Array shape / bounds | Classification |\n| --- | --- | --- | --- | --- | --- | --- |\n"@, "| -- | -- | -- | -- | No observation captured. | -- | Not tested |\n"@, capture.observations@, ReportFilter::Category, "write"@, RowFormat::Observation),
{
    let mut v: Vec<(&'static str, String)> = Vec::new();
    v.push(("control-comparison.md", control_comparison_report(capture)));
    v.push(("controls.md", controls_report(capture)));
    v.push(("environment-stability-matrix.md", parity_environment_report(capture)));
    v.push(("excel-errors.md", observation_report(capture, "Excel error cells", "error")));
    v.push(("formulas.md", observation_report(capture, "Formula and Formula2", "formula")));
    v.push(("invocation-frames.md", invocation_frames_report(capture)));
    v.push(("optional-arguments.md", observation_report(capture, "Optional Range arguments", "optional")));
    v.push(("parity-cleanup.md", parity_cleanup_report(capture)));
    v.push(("range-shapes.md", observation_report(capture, "Range shapes", "array")));
    v.push(("range-smoke-test.md", parity_smoke_report(capture)));
    v.push(("rectangular-values.md", observation_report(capture, "Rectangular range values", "rectangular")));
    v.push(("remaining-blockers.md", parity_blockers_report(&capture.unresolved)));
    v.push(("scalar-values.md", observation_report(capture, "Scalar Value and Value2", "scalar")));
    v.push(("unresolved.md", unresolved_report(&capture.unresolved)));
    v.push(("value-vs-value2.md", observation_report(capture, "Value versus Value2", "value-vs-value2")));
    v.push(("workbook-open-parity-matrix.md", parity_operation_report(capture, "Workbooks.Open parity matrix", "workbooks-open")));
    v.push(("workbooks-add-diagnostic.md", workbooks_add_diagnostic_report(capture)));
    v.push(("workbooks-add-parity-matrix.md", parity_operation_report(capture, "Workbooks.Add parity matrix", "workbooks-add")));
    v.push(("writes.md", observation_report(capture, "Scalar and rectangular writes", "write")));
    v
}

/// The JSON Lines of the selected records, in the order of `sel`.
pub open spec fn selected_lines(records: Seq<Record>, sel: Seq<usize>) -> Seq<char>
    decreases sel.len(),
{
    if sel.len() == 0 {
        Seq::empty()
    } else {
        selected_lines(records, sel.drop_last()) + records[sel.last() as int].json@ + "\n"@
    }
}

/// `text` is the JSON Lines file of `records`, stably sorted by identifier.
#[verifier::opaque]
pub open spec fn is_jsonl_of(text: Seq<char>, records: Seq<Record>) -> bool {
    exists|sel: Seq<usize>|
        ordered_selection(records, all_chosen(records), sel) && text == if sel.len() == 0 {
            "\n"@
        } else {
            selected_lines(records, sel)
        }
}

/// The records as JSON Lines, stably sorted by identifier; an empty file is
/// one line feed.
pub fn jsonl_of(records: &Vec<Record>) -> (s: String)
    ensures
        is_jsonl_of(s@, records@),
{
    let mut chosen: Vec<bool> = Vec::new();
    let mut i: usize = 0;
    while i < records.len()
        invariant
            i <= records@.len(),
            chosen@.len() == i,
            forall|k: int| 0 <= k < i ==> #[trigger] chosen@[k],
        decreases records.len() - i,
    {
        chosen.push(true);
        i = i + 1;
    }
    assert(chosen@ =~= all_chosen(records@));
    let sel = select_sorted(records, &chosen);
    let mut s = String::new();
    let mut k: usize = 0;
    while k < sel.len()
        invariant
            k <= sel@.len(),
            ordered_selection(records@, all_chosen(records@), sel@),
            s@ == selected_lines(records@, sel@.take(k as int)),
        decreases sel.len() - k,
    {
        assert(sel@.take(k + 1).drop_last() =~= sel@.take(k as int));
        assert(sel@[k as int] < records@.len());
        push_str(&mut s, records[sel[k]].json.as_str());
        push_str(&mut s, "\n");
        k = k + 1;
    }
    assert(sel@.take(k as int) =~= sel@);
    if sel.len() == 0 {
        push_str(&mut s, "\n");
    }
    proof {
        reveal(is_jsonl_of);
    }
    s
}

/// A copy of a text.
fn copy_text(t: &String) -> (c: String)
    ensures
        c@ == t@,
{
    crate::text::string_of(&crate::text::chars_of(t.as_str()))
}

proof fn lemma_sorts_before_irreflexive(records: Seq<Record>, a: int)
    ensures
        !sorts_before(records, a, a),
{
    crate::evidence::lemma_lex_irreflexive(records[a].id@);
}

proof fn lemma_sorts_before_transitive(records: Seq<Record>, a: int, b: int, c: int)
    requires
        sorts_before(records, a, b),
        sorts_before(records, b, c),
    ensures
        sorts_before(records, a, c),
{
    let x = records[a].id@;
    let y = records[b].id@;
    let z = records[c].id@;
    if lex_lt(x, y) && lex_lt(y, z) {
        crate::evidence::lemma_lex_transitive(x, y, z);
    }
}

/// Two lists of positions, each strictly ordered as a stable sort by
/// identifier orders them, that hold the same positions are the same list.
proof fn lemma_sorted_positions_unique(records: Seq<Record>, s1: Seq<usize>, s2: Seq<usize>)
    requires
        forall|a: int, b: int|
            0 <= a < b < s1.len() ==> sorts_before(records, #[trigger] s1[a] as int, #[trigger] s1[b] as int),
        forall|a: int, b: int|
            0 <= a < b < s2.len() ==> sorts_before(records, #[trigger] s2[a] as int, #[trigger] s2[b] as int),
        forall|v: usize| #[trigger] s1.contains(v) <==> s2.contains(v),
    ensures
        s1 == s2,
    decreases s1.len() + s2.len(),
{
    if s1.len() == 0 {
        if s2.len() > 0 {
            assert(s2.contains(s2[0]));
            assert(s1.contains(s2[0]));
        }
        assert(s1 =~= s2);
    } else if s2.len() == 0 {
        assert(s1.contains(s1[0]));
        assert(s2.contains(s1[0]));
    } else {
        let x = s1.last();
        let y = s2.last();
        assert(s1.contains(x));
        assert(s2.contains(x));
        assert(s2.contains(y));
        assert(s1.contains(y));
        let ia = choose|i: int| 0 <= i < s1.len() && s1[i] == y;
        let ib = choose|i: int| 0 <= i < s2.len() && s2[i] == x;
        if x != y {
            assert(ia != s1.len() - 1);
            assert(ib != s2.len() - 1);
            assert(sorts_before(records, s1[ia] as int, s1[s1.len() - 1] as int));
            assert(sorts_before(records, s2[ib] as int, s2[s2.len() - 1] as int));
            lemma_sorts_before_transitive(records, x as int, y as int, x as int);
            lemma_sorts_before_irreflexive(records, x as int);
        }
        let t1 = s1.drop_last();
        let t2 = s2.drop_last();
        assert forall|v: usize| #[trigger] t1.contains(v) <==> t2.contains(v) by {
            if t1.contains(v) {
                let i = choose|i: int| 0 <= i < t1.len() && t1[i] == v;
                assert(sorts_before(records, s1[i] as int, s1[s1.len() - 1] as int));
                lemma_sorts_before_irreflexive(records, v as int);
                assert(s1.contains(v));
                assert(s2.contains(v));
                let j = choose|j: int| 0 <= j < s2.len() && s2[j] == v;
                assert(j != s2.len() - 1);
                assert(t2[j] == v);
            }
            if t2.contains(v) {
                let i = choose|i: int| 0 <= i < t2.len() && t2[i] == v;
                assert(sorts_before(records, s2[i] as int, s2[s2.len() - 1] as int));
                lemma_sorts_before_irreflexive(records, v as int);
                assert(s2.contains(v));
                assert(s1.contains(v));
                let j = choose|j: int| 0 <= j < s1.len() && s1[j] == v;
                assert(j != s1.len() - 1);
                assert(t1[j] == v);
            }
        }
        lemma_sorted_positions_unique(records, t1, t2);
        assert(s1 =~= t1.push(x));
        assert(s2 =~= t2.push(y));
    }
}

/// Exactly one list of positions is the ordered selection of the chosen
/// records.
proof fn lemma_ordered_selection_unique(records: Seq<Record>, chosen: Seq<bool>, s1: Seq<usize>, s2: Seq<usize>)
    requires
        ordered_selection(records, chosen, s1),
        ordered_selection(records, chosen, s2),
    ensures
        s1 == s2,
{
    assert forall|v: usize| #[trigger] s1.contains(v) <==> s2.contains(v) by {
        if s1.contains(v) {
            let k = choose|k: int| 0 <= k < s1.len() && s1[k] == v;
            assert(s1[k] < records.len() && chosen[s1[k] as int]);
            let j = choose|j: int| 0 <= j < s2.len() && #[trigger] s2[j] == v as int;
            assert(s2[j] == v);
        }
        if s2.contains(v) {
            let k = choose|k: int| 0 <= k < s2.len() && s2[k] == v;
            assert(s2[k] < records.len() && chosen[s2[k] as int]);
            let j = choose|j: int| 0 <= j < s1.len() && #[trigger] s1[j] == v as int;
            assert(s1[j] == v);
        }
    }
    lemma_sorted_positions_unique(records, s1, s2);
}

/// Exactly one list of positions is the in-order selection of the chosen
/// records.
proof fn lemma_in_order_selection_unique(records: Seq<Record>, chosen: Seq<bool>, s1: Seq<usize>, s2: Seq<usize>)
    requires
        in_order_selection(records, chosen, s1),
        in_order_selection(records, chosen, s2),
    ensures
        s1 == s2,
    decreases s1.len() + s2.len(),
{
    assert forall|v: usize| #[trigger] s1.contains(v) <==> s2.contains(v) by {
        if s1.contains(v) {
            let k = choose|k: int| 0 <= k < s1.len() && s1[k] == v;
            assert(s1[k] < records.len() && chosen[s1[k] as int]);
            let j = choose|j: int| 0 <= j < s2.len() && #[trigger] s2[j] == v as int;
            assert(s2[j] == v);
        }
        if s2.contains(v) {
            let k = choose|k: int| 0 <= k < s2.len() && s2[k] == v;
            assert(s2[k] < records.len() && chosen[s2[k] as int]);
            let j = choose|j: int| 0 <= j < s1.len() && #[trigger] s1[j] == v as int;
            assert(s1[j] == v);
        }
    }
    crate::value_runtime::lemma_increasing_positions_unique(s1, s2);
}

/// A sorted report is determined by its records, filter and format.
pub proof fn lemma_sorted_report_unique(
    a: Seq<char>,
    b: Seq<char>,
    title: Seq<char>,
    subtitle: Seq<char>,
    head: Seq<char>,
    empty: Seq<char>,
    records: Seq<Record>,
    filter: ReportFilter,
    param: Seq<char>,
    format: RowFormat,
)
    requires
        is_sorted_report(a, title, subtitle, head, empty, records, filter, param, format),
        is_sorted_report(b, title, subtitle, head, empty, records, filter, param, format),
    ensures
        a == b,
{
    reveal(is_sorted_report);
    let chosen = choices(filter, param, records);
    let s1 = choose|sel: Seq<usize>|
        ordered_selection(records, chosen, sel) && a == report_text(title, subtitle, head, empty, records, sel, format);
    let s2 = choose|sel: Seq<usize>|
        ordered_selection(records, chosen, sel) && b == report_text(title, subtitle, head, empty, records, sel, format);
    lemma_ordered_selection_unique(records, chosen, s1, s2);
}

/// A report of the records in their given order is determined by them.
pub proof fn lemma_in_order_report_unique(
    a: Seq<char>,
    b: Seq<char>,
    title: Seq<char>,
    subtitle: Seq<char>,
    head: Seq<char>,
    empty: Seq<char>,
    records: Seq<Record>,
    chosen: Seq<bool>,
    format: RowFormat,
)
    requires
        is_in_order_report(a, title, subtitle, head, empty, records, chosen, format),
        is_in_order_report(b, title, subtitle, head, empty, records, chosen, format),
    ensures
        a == b,
{
    reveal(is_in_order_report);
    let s1 = choose|sel: Seq<usize>|
        in_order_selection(records, chosen, sel) && a == report_text(title, subtitle, head, empty, records, sel, format);
    let s2 = choose|sel: Seq<usize>|
        in_order_selection(records, chosen, sel) && b == report_text(title, subtitle, head, empty, records, sel, format);
    lemma_in_order_selection_unique(records, chosen, s1, s2);
}

/// The JSON Lines file of a record set is determined by the records.
pub proof fn lemma_jsonl_unique(a: Seq<char>, b: Seq<char>, records: Seq<Record>)
    requires
        is_jsonl_of(a, records),
        is_jsonl_of(b, records),
    ensures
        a == b,
{
    reveal(is_jsonl_of);
    let chosen = all_chosen(records);
    let s1 = choose|sel: Seq<usize>|
        ordered_selection(records, chosen, sel) && a == if sel.len() == 0 {
            "\n"@
        } else {
            selected_lines(records, sel)
        };
    let s2 = choose|sel: Seq<usize>|
        ordered_selection(records, chosen, sel) && b == if sel.len() == 0 {
            "\n"@
        } else {
            selected_lines(records, sel)
        };
    lemma_ordered_selection_unique(records, chosen, s1, s2);
}

/// The JSON Lines of records listed in the order of `sel` are the selected
/// lines.
proof fn lemma_lines_of_selection(records: Seq<Record>, sel: Seq<usize>)
    requires
        forall|k: int| 0 <= k < sel.len() ==> (#[trigger] sel[k]) < records.len(),
    ensures
        crate::evidence::lines_text(sel.map_values(|k: usize| records[k as int])) == selected_lines(records, sel),
    decreases sel.len(),
{
    let listed = sel.map_values(|k: usize| records[k as int]);
    if sel.len() > 0 {
        lemma_lines_of_selection(records, sel.drop_last());
        assert(listed.drop_last() =~= sel.drop_last().map_values(|k: usize| records[k as int]));
    } else {
        assert(listed.len() == 0);
    }
}

/// Records listed in the order of their ordered selection, framed as JSON
/// Lines, are the JSON Lines file of the records.
pub proof fn lemma_jsonl_of_sorted(text: Seq<char>, records: Seq<Record>, ordered: Seq<Record>)
    requires
        exists|sel: Seq<usize>|
            ordered_selection(records, all_chosen(records), sel) && ordered == sel.map_values(
                |k: usize| records[k as int],
            ),
        text == crate::evidence::jsonl_text(ordered),
    ensures
        is_jsonl_of(text, records),
{
    reveal(is_jsonl_of);
    let sel = choose|sel: Seq<usize>|
        ordered_selection(records, all_chosen(records), sel) && ordered == sel.map_values(
            |k: usize| records[k as int],
        );
    lemma_lines_of_selection(records, sel);
    assert(ordered.len() == sel.len());
}

/// `v` holds the runtime artifacts of `capture`, by path in path order.
pub open spec fn is_artifacts(capture: Capture, v: Seq<(String, String)>) -> bool {
    &&& v.len() == 24
    &&& forall|k: int| 0 <= k < 19 ==> #[trigger] v[k].0@ == "generated/runtime/"@ + runtime_report_names()[k]
    &&& v[19].0@ == "runtime/SOURCE_MANIFEST.toml"@
    &&& v[19].1@ == capture.manifest@
    &&& v[20].0@ == "runtime/cases.jsonl"@
    &&& is_jsonl_of(v[20].1@, capture.cases@)
    &&& v[21].0@ == "runtime/environments.jsonl"@
    &&& is_jsonl_of(v[21].1@, capture.environments@)
    &&& v[22].0@ == "runtime/observations.jsonl"@
    &&& is_jsonl_of(v[22].1@, capture.observations@)
    &&& v[23].0@ == "runtime/unresolved.jsonl"@
    &&& is_jsonl_of(v[23].1@, capture.unresolved@)
    &&& is_sorted_report(v[0].1@, "Control comparison"@, "Independent controls establish only their own projection-level result; raw VARIANT and SAFEARRAY claims remain limited to the owned raw probe."@, "| Control | Activation | Result | Boundary |\n| --- | --- | --- | --- |\n"@, "| -- | -- | No independent control captured. | -- |\n"@, capture.observations@, ReportFilter::ControlConfirmed, ""@, RowFormat::ControlComparison)
    &&& is_sorted_report(v[1].1@, "Control-client comparison"@, "Control projections are recorded separately and never replace raw COM evidence."@, "| Case | Raw result | Control result | Classification |\n| --- | --- | --- | --- |\n"@, "| -- | No control result captured. | -- | Inconclusive |\n"@, capture.observations@, ReportFilter::HasControl, ""@, RowFormat::Control)
    &&& is_sorted_report(v[2].1@, "Environment stability matrix"@, "Only normalized Prompt 05D owned-session state is shown; HWNDs and paths are never persisted."@, "| Mode | Operation | Excel / Workbooks before | Visible / user control / interactive / ready | Calculation / security / alerts | Paths | Owned process | Classification |\n| --- | --- | --- | --- | --- | --- | --- | --- |\n"@, "| -- | -- | -- | -- | -- | No Prompt 05D session recorded. | Not tested |\n"@, capture.environments@, ReportFilter::HasParityMode, ""@, RowFormat::Environment)
    &&& is_sorted_report(v[3].1@, "Excel error cells"@, "Rows preserve copied raw observation metadata from the owned live Excel instance."@, "| Case | Member | Range | HRESULT | Returned VARTYPE | Array shape / bounds | Classification |\n| --- | --- | --- | --- | --- | --- | --- |\n"@, "| -- | -- | -- | -- | No observation captured. | -- | Not tested |\n"@, capture.observations@, ReportFilter::Category, "error"@, RowFormat::Observation)
    &&& is_sorted_report(v[4].1@, "Formula and Formula2"@, "Rows preserve copied raw observation metadata from the owned live Excel instance."@, "| Case | Member | Range | HRESULT | Returned VARTYPE | Array shape / bounds | Classification |\n| --- | --- | --- | --- | --- | --- | --- |\n"@, "| -- | -- | -- | -- | No observation captured. | -- | Not tested |\n"@, capture.observations@, ReportFilter::Category, "formula"@, RowFormat::Observation)
    &&& is_sorted_report(v[5].1@, "Raw invocation frames"@, "All values below are copied diagnostics: nullness is recorded, but raw pointer addresses are never persisted."@, "| Case | Member | GetIDsOfNames DISPID | Frame | EXCEPINFO | puArgErr | Result ownership |\n| --- | --- | --- | --- | --- | --- | --- |\n"@, "| -- | -- | -- | No invocation diagnostic captured. | -- | -- | -- |\n"@, capture.observations@, ReportFilter::Category, "invocation"@, RowFormat::Invocation)
    &&& is_sorted_report(v[6].1@, "Optional Range arguments"@, "Rows preserve copied raw observation metadata from the owned live Excel instance."@, "| Case | Member | Range | HRESULT | Returned VARTYPE | Array shape / bounds | Classification |\n| --- | --- | --- | --- | --- | --- | --- |\n"@, "| -- | -- | -- | -- | No observation captured. | -- | Not tested |\n"@, capture.observations@, ReportFilter::Category, "optional"@, RowFormat::Observation)
    &&& is_sorted_report(v[7].1@, "Parity cleanup"@, "Only owned Excel instances are closed; no process is forcibly terminated by this probe."@, "| Mode | Workbook close | Excel Quit | Owned process exit | Forced termination | Classification |\n| --- | --- | --- | --- | --- | --- |\n"@, "| -- | -- | -- | No Prompt 05D cleanup recorded. | -- | Not tested |\n"@, capture.observations@, ReportFilter::ParityOperation, "cleanup"@, RowFormat::Cleanup)
    &&& is_sorted_report(v[8].1@, "Range shapes"@, "Rows preserve copied raw observation metadata from the owned live Excel instance."@, "| Case | Member | Range | HRESULT | Returned VARTYPE | Array shape / bounds | Classification |\n| --- | --- | --- | --- | --- | --- | --- |\n"@, "| -- | -- | -- | -- | No observation captured. | -- | Not tested |\n"@, capture.observations@, ReportFilter::Category, "array"@, RowFormat::Observation)
    &&& is_sorted_report(v[9].1@, "Range smoke test"@, "The smoke test is entered only after the same Rust configuration creates or opens a workbook."@, "| Mode | Workbook access | `A1.Value2 = 42` | Read VARTYPE / value | ClearContents | Classification |\n| --- | --- | --- | --- | --- | --- |\n"@, "| -- | -- | Not entered. | -- | -- | Not tested |\n"@, capture.observations@, ReportFilter::ParityOperation, "range-smoke"@, RowFormat::Smoke)
    &&& is_sorted_report(v[10].1@, "Rectangular range values"@, "Rows preserve copied raw observation metadata from the owned live Excel instance."@, "| Case | Member | Range | HRESULT | Returned VARTYPE | Array shape / bounds | Classification |\n| --- | --- | --- | --- | --- | --- | --- |\n"@, "| -- | -- | -- | -- | No observation captured. | -- | Not tested |\n"@, capture.observations@, ReportFilter::Category, "rectangular"@, RowFormat::Observation)
    &&& is_blockers_report(v[11].1@, capture.unresolved@)
    &&& is_sorted_report(v[12].1@, "Scalar Value and Value2"@, "Rows preserve copied raw observation metadata from the owned live Excel instance."@, "| Case | Member | Range | HRESULT | Returned VARTYPE | Array shape / bounds | Classification |\n| --- | --- | --- | --- | --- | --- | --- |\n"@, "| -- | -- | -- | -- | No observation captured. | -- | Not tested |\n"@, capture.observations@, ReportFilter::Category, "scalar"@, RowFormat::Observation)
    &&& is_unresolved_report(v[13].1@, capture.unresolved@)
    &&& is_sorted_report(v[14].1@, "Value versus Value2"@, "Rows preserve copied raw observation metadata from the owned live Excel instance."@, "| Case | Member | Range | HRESULT | Returned VARTYPE | Array shape / bounds | Classification |\n| --- | --- | --- | --- | --- | --- | --- |\n"@, "| -- | -- | -- | -- | No observation captured. | -- | Not tested |\n"@, capture.observations@, ReportFilter::Category, "value-vs-value2"@, RowFormat::Observation)
    &&& is_sorted_report(v[15].1@, "Workbooks.Open parity matrix"@, "Each row is a separately owned, freshly activated Excel session under one explicit Rust configuration; no retry loop is used."@, "| Mode | Activation / CLSCTX | LCID | Invoke / frame | HRESULT | Workbook | Cleanup | Classification |\n| --- | --- | ---: | --- | --- | --- | --- | --- |\n"@, "| -- | -- | -- | No Prompt 05D observation captured. | -- | -- | -- | Not tested |\n"@, capture.observations@, ReportFilter::ParityOperation, "workbooks-open"@, RowFormat::ParityOperation)
    &&& is_sorted_report(v[16].1@, "Workbooks.Add diagnostic"@, "This report compares only the explicit Prompt 05B dispatch frames; it does not turn a control projection into raw ABI evidence."@, "| Case | Target | Audited/runtime DISPID | Flags | LCID | Args/named | HRESULT | Result VARTYPE | Workbook/cleanup |\n| --- | --- | --- | --- | --- | --- | --- | --- | --- |\n"@, "| -- | -- | -- | -- | -- | -- | No diagnostic captured. | -- | -- |\n"@, capture.observations@, ReportFilter::WorkbooksAdd, ""@, RowFormat::WorkbooksAdd)
    &&& is_sorted_report(v[17].1@, "Workbooks.Add parity matrix"@, "Each row is a separately owned, freshly activated Excel session under one explicit Rust configuration; no retry loop is used."@, "| Mode | Activation / CLSCTX | LCID | Invoke / frame | HRESULT | Workbook | Cleanup | Classification |\n| --- | --- | ---: | --- | --- | --- | --- | --- |\n"@, "| -- | -- | -- | No Prompt 05D observation captured. | -- | -- | -- | Not tested |\n"@, capture.observations@, ReportFilter::ParityOperation, "workbooks-add"@, RowFormat::ParityOperation)
    &&& is_sorted_report(v[18].1@, "Scalar and rectangular writes"@, "Rows preserve copied raw observation metadata from the owned live Excel instance."@, "| Case | Member | Range | HRESULT | Returned VARTYPE | Array shape / bounds | Classification |\n| --- | --- | --- | --- | --- | --- | --- |\n"@, "| -- | -- | -- | -- | No observation captured. | -- | Not tested |\n"@, capture.observations@, ReportFilter::Category, "write"@, RowFormat::Observation)
}

/// Refreshing is deterministic: any two artifact sets of the same capture
/// agree path by path and text by text.
pub proof fn lemma_artifacts_deterministic(capture: Capture, a: Seq<(String, String)>, b: Seq<(String, String)>)
    requires
        is_artifacts(capture, a),
        is_artifacts(capture, b),
    ensures
        a.len() == b.len(),
        forall|k: int| 0 <= k < a.len() ==> (#[trigger] a[k]).0@ == b[k].0@ && a[k].1@ == b[k].1@,
{
    lemma_jsonl_unique(a[20].1@, b[20].1@, capture.cases@);
    lemma_jsonl_unique(a[21].1@, b[21].1@, capture.environments@);
    lemma_jsonl_unique(a[22].1@, b[22].1@, capture.observations@);
    lemma_jsonl_unique(a[23].1@, b[23].1@, capture.unresolved@);
    lemma_sorted_report_unique(a[0].1@, b[0].1@, "Control comparison"@, "Independent controls establish only their own projection-level result; raw VARIANT and SAFEARRAY claims remain limited to the owned raw probe."@, "| Control | Activation | Result | Boundary |\n| --- | --- | --- | --- |\n"@, "| -- | -- | No independent control captured. | -- |\n"@, capture.observations@, ReportFilter::ControlConfirmed, ""@, RowFormat::ControlComparison);
    lemma_sorted_report_unique(a[1].1@, b[1].1@, "Control-client comparison"@, "Control projections are recorded separately and never replace raw COM evidence."@, "| Case | Raw result | Control result | Classification |\n| --- | --- | --- | --- |\n"@, "| -- | No control result captured. | -- | Inconclusive |\n"@, capture.observations@, ReportFilter::HasControl, ""@, RowFormat::Control);
    lemma_sorted_report_unique(a[2].1@, b[2].1@, "Environment stability matrix"@, "Only normalized Prompt 05D owned-session state is shown; HWNDs and paths are never persisted."@, "| Mode | Operation | Excel / Workbooks before | Visible / user control / interactive / ready | Calculation / security / alerts | Paths | Owned process | Classification |\n| --- | --- | --- | --- | --- | --- | --- | --- |\n"@, "| -- | -- | -- | -- | -- | No Prompt 05D session recorded. | Not tested |\n"@, capture.environments@, ReportFilter::HasParityMode, ""@, RowFormat::Environment);
    lemma_sorted_report_unique(a[3].1@, b[3].1@, "Excel error cells"@, "Rows preserve copied raw observation metadata from the owned live Excel instance."@, "| Case | Member | Range | HRESULT | Returned VARTYPE | Array shape / bounds | Classification |\n| --- | --- | --- | --- | --- | --- | --- |\n"@, "| -- | -- | -- | -- | No observation captured. | -- | Not tested |\n"@, capture.observations@, ReportFilter::Category, "error"@, RowFormat::Observation);
    lemma_sorted_report_unique(a[4].1@, b[4].1@, "Formula and Formula2"@, "Rows preserve copied raw observation metadata from the owned live Excel instance."@, "| Case | Member | Range | HRESULT | Returned VARTYPE | Array shape / bounds | Classification |\n| --- | --- | --- | --- | --- | --- | --- |\n"@, "| -- | -- | -- | -- | No observation captured. | -- | Not tested |\n"@, capture.observations@, ReportFilter::Category, "formula"@, RowFormat::Observation);
    lemma_sorted_report_unique(a[5].1@, b[5].1@, "Raw invocation frames"@, "All values below are copied diagnostics: nullness is recorded, but raw pointer addresses are never persisted."@, "| Case | Member | GetIDsOfNames DISPID | Frame | EXCEPINFO | puArgErr | Result ownership |\n| --- | --- | --- | --- | --- | --- | --- |\n"@, "| -- | -- | -- | No invocation diagnostic captured. | -- | -- | -- |\n"@, capture.observations@, ReportFilter::Category, "invocation"@, RowFormat::Invocation);
    lemma_sorted_report_unique(a[6].1@, b[6].1@, "Optional Range arguments"@, "Rows preserve copied raw observation metadata from the owned live Excel instance."@, "| Case | Member | Range | HRESULT | Returned VARTYPE | Array shape / bounds | Classification |\n| --- | --- | --- | --- | --- | --- | --- |\n"@, "| -- | -- | -- | -- | No observation captured. | -- | Not tested |\n"@, capture.observations@, ReportFilter::Category, "optional"@, RowFormat::Observation);
    lemma_sorted_report_unique(a[7].1@, b[7].1@, "Parity cleanup"@, "Only owned Excel instances are closed; no process is forcibly terminated by this probe."@, "| Mode | Workbook close | Excel Quit | Owned process exit | Forced termination | Classification |\n| --- | --- | --- | --- | --- | --- |\n"@, "| -- | -- | -- | No Prompt 05D cleanup recorded. | -- | Not tested |\n"@, capture.observations@, ReportFilter::ParityOperation, "cleanup"@, RowFormat::Cleanup);
    lemma_sorted_report_unique(a[8].1@, b[8].1@, "Range shapes"@, "Rows preserve copied raw observation metadata from the owned live Excel instance."@, "| Case | Member | Range | HRESULT | Returned VARTYPE | Array shape / bounds | Classification |\n| --- | --- | --- | --- | --- | --- | --- |\n"@, "| -- | -- | -- | -- | No observation captured. | -- | Not tested |\n"@, capture.observations@, ReportFilter::Category, "array"@, RowFormat::Observation);
    lemma_sorted_report_unique(a[9].1@, b[9].1@, "Range smoke test"@, "The smoke test is entered only after the same Rust configuration creates or opens a workbook."@, "| Mode | Workbook access | `A1.Value2 = 42` | Read VARTYPE / value | ClearContents | Classification |\n| --- | --- | --- | --- | --- | --- |\n"@, "| -- | -- | Not entered. | -- | -- | Not tested |\n"@, capture.observations@, ReportFilter::ParityOperation, "range-smoke"@, RowFormat::Smoke);
    lemma_sorted_report_unique(a[10].1@, b[10].1@, "Rectangular range values"@, "Rows preserve copied raw observation metadata from the owned live Excel instance."@, "| Case | Member | Range | HRESULT | Returned VARTYPE | Array shape / bounds | Classification |\n| --- | --- | --- | --- | --- | --- | --- |\n"@, "| -- | -- | -- | -- | No observation captured. | -- | Not tested |\n"@, capture.observations@, ReportFilter::Category, "rectangular"@, RowFormat::Observation);
    lemma_sorted_report_unique(a[12].1@, b[12].1@, "Scalar Value and Value2"@, "Rows preserve copied raw observation metadata from the owned live Excel instance."@, "| Case | Member | Range | HRESULT | Returned VARTYPE | Array shape / bounds | Classification |\n| --- | --- | --- | --- | --- | --- | --- |\n"@, "| -- | -- | -- | -- | No observation captured. | -- | Not tested |\n"@, capture.observations@, ReportFilter::Category, "scalar"@, RowFormat::Observation);
    lemma_sorted_report_unique(a[14].1@, b[14].1@, "Value versus Value2"@, "Rows preserve copied raw observation metadata from the owned live Excel instance."@, "| Case | Member | Range | HRESULT | Returned VARTYPE | Array shape / bounds | Classification |\n| --- | --- | --- | --- | --- | --- | --- |\n"@, "| -- | -- | -- | -- | No observation captured. | -- | Not tested |\n"@, capture.observations@, ReportFilter::Category, "value-vs-value2"@, RowFormat::Observation);
    lemma_sorted_report_unique(a[15].1@, b[15].1@, "Workbooks.Open parity matrix"@, "Each row is a separately owned, freshly activated Excel session under one explicit Rust configuration; no retry loop is used."@, "| Mode | Activation / CLSCTX | LCID | Invoke / frame | HRESULT | Workbook | Cleanup | Classification |\n| --- | --- | ---: | --- | --- | --- | --- | --- |\n"@, "| -- | -- | -- | No Prompt 05D observation captured. | -- | -- | -- | Not tested |\n"@, capture.observations@, ReportFilter::ParityOperation, "workbooks-open"@, RowFormat::ParityOperation);
    lemma_sorted_report_unique(a[16].1@, b[16].1@, "Workbooks.Add diagnostic"@, "This report compares only the explicit Prompt 05B dispatch frames; it does not turn a control projection into raw ABI evidence."@, "| Case | Target | Audited/runtime DISPID | Flags | LCID | Args/named | HRESULT | Result VARTYPE | Workbook/cleanup |\n| --- | --- | --- | --- | --- | --- | --- | --- | --- |\n"@, "| -- | -- | -- | -- | -- | -- | No diagnostic captured. | -- | -- |\n"@, capture.observations@, ReportFilter::WorkbooksAdd, ""@, RowFormat::WorkbooksAdd);
    lemma_sorted_report_unique(a[17].1@, b[17].1@, "Workbooks.Add parity matrix"@, "Each row is a separately owned, freshly activated Excel session under one explicit Rust configuration; no retry loop is used."@, "| Mode | Activation / CLSCTX | LCID | Invoke / frame | HRESULT | Workbook | Cleanup | Classification |\n| --- | --- | ---: | --- | --- | --- | --- | --- |\n"@, "| -- | -- | -- | No Prompt 05D observation captured. | -- | -- | -- | Not tested |\n"@, capture.observations@, ReportFilter::ParityOperation, "workbooks-add"@, RowFormat::ParityOperation);
    lemma_sorted_report_unique(a[18].1@, b[18].1@, "Scalar and rectangular writes"@, "Rows preserve copied raw observation metadata from the owned live Excel instance."@, "| Case | Member | Range | HRESULT | Returned VARTYPE | Array shape / bounds | Classification |\n| --- | --- | --- | --- | --- | --- | --- |\n"@, "| -- | -- | -- | -- | No observation captured. | -- | Not tested |\n"@, capture.observations@, ReportFilter::Category, "write"@, RowFormat::Observation);
    lemma_in_order_report_unique(
        a[11].1@,
        b[11].1@,
        "Remaining Prompt 05D blockers"@,
        "Classifications distinguish the client implementation from session and host state rather than assigning intermittent failures to Rust by default."@,
        "| Mode | Target | Difference classification | Detail |\n| --- | --- | --- | --- |\n"@,
        "| -- | -- | -- | No remaining Prompt 05D blocker was emitted. |\n"@,
        capture.unresolved@,
        blockers_chosen(capture.unresolved@),
        RowFormat::Blocker,
    );
    lemma_in_order_report_unique(
        a[13].1@,
        b[13].1@,
        "Unresolved runtime questions"@,
        "Not-tested and inconclusive entries remain explicit rather than inferred from documentation, a typelib, or a control projection."@,
        "| Target | Classification | Detail |\n| --- | --- | --- |\n"@,
        "| -- | -- | No unresolved entry was emitted. |\n"@,
        capture.unresolved@,
        all_chosen(capture.unresolved@),
        RowFormat::Unresolved,
    );
    assert forall|k: int| 0 <= k < a.len() implies (#[trigger] a[k]).0@ == b[k].0@ && a[k].1@ == b[k].1@ by {
        if k < 19 {
            assert(a[k].0@ == "generated/runtime/"@ + runtime_report_names()[k]);
            assert(b[k].0@ == "generated/runtime/"@ + runtime_report_names()[k]);
        }
    }
}

/// Every runtime artifact of a capture, by path in path order: the
/// generated reports, the source manifest, and the four JSON Lines files.
pub fn artifacts(capture: &Capture) -> (v: Vec<(String, String)>)
    ensures
        is_artifacts(*capture, v@),
{
    let reports = reports(capture);
    let mut v: Vec<(String, String)> = Vec::new();
    let mut k: usize = 0;
    while k < reports.len()
        invariant
            k <= 19,
            reports@.len() == 19,
            v@.len() == k,
            forall|j: int| 0 <= j < 19 ==> (#[trigger] reports@[j]).0@ == runtime_report_names()[j],
            forall|j: int| 0 <= j < k ==> (#[trigger] v@[j]).0@ == "generated/runtime/"@ + runtime_report_names()[j],
            forall|j: int| 0 <= j < k ==> (#[trigger] v@[j]).1@ == reports@[j].1@,
        decreases 19 - k,
    {
        let mut path = String::from_str("generated/runtime/");
        push_str(&mut path, reports[k].0);
        v.push((path, copy_text(&reports[k].1)));
        k = k + 1;
    }
    v.push((String::from_str("runtime/SOURCE_MANIFEST.toml"), copy_text(&capture.manifest)));
    v.push((String::from_str("runtime/cases.jsonl"), jsonl_of(&capture.cases)));
    v.push((String::from_str("runtime/environments.jsonl"), jsonl_of(&capture.environments)));
    v.push((String::from_str("runtime/observations.jsonl"), jsonl_of(&capture.observations)));
    v.push((String::from_str("runtime/unresolved.jsonl"), jsonl_of(&capture.unresolved)));
    v
}

/// Rebuilds the deterministic runtime artifacts from committed evidence:
/// the texts to write, by path, without changing the evidence records.
pub fn refresh(capture: &Capture) -> (v: Vec<(String, String)>)
    ensures
        is_artifacts(*capture, v@),
        v@[0].0@ == "generated/runtime/control-comparison.md"@,
        exists|sel: Seq<usize>| lists_exactly_confirmed(v@[0].1@, "Control comparison"@, "Independent controls establish only their own projection-level result; raw VARIANT and SAFEARRAY claims remain limited to the owned raw probe."@, "| Control | Activation | Result | Boundary |\n| --- | --- | --- | --- |\n"@, "| -- | -- | No independent control captured. | -- |\n"@, capture.observations@, RowFormat::ControlComparison, sel),
{
    let v = artifacts(capture);
    proof {
        lemma_refresh_lists_exactly_confirmed_controls(*capture, v@);
    }
    v
}

/// Law: the control comparison that a refresh writes lists every observation
/// classified `Control-confirmed`, each once, and no other observation.
pub proof fn lemma_refresh_lists_exactly_confirmed_controls(capture: Capture, v: Seq<(String, String)>)
    requires
        is_artifacts(capture, v),
    ensures
        v[0].0@ == "generated/runtime/control-comparison.md"@,
        exists|sel: Seq<usize>| lists_exactly_confirmed(v[0].1@, "Control comparison"@, "Independent controls establish only their own projection-level result; raw VARIANT and SAFEARRAY claims remain limited to the owned raw probe."@, "| Control | Activation | Result | Boundary |\n| --- | --- | --- | --- |\n"@, "| -- | -- | No independent control captured. | -- |\n"@, capture.observations@, RowFormat::ControlComparison, sel),
{
    assert(v[0].0@ == "generated/runtime/"@ + runtime_report_names()[0]);
    reveal_strlit("generated/runtime/control-comparison.md");
    reveal_strlit("generated/runtime/");
    reveal_strlit("control-comparison.md");
    assert("generated/runtime/"@ + "control-comparison.md"@ =~= "generated/runtime/control-comparison.md"@);
    lemma_confirmed_report_lists_exactly_controls(v[0].1@, "Control comparison"@, "Independent controls establish only their own projection-level result; raw VARIANT and SAFEARRAY claims remain limited to the owned raw probe."@, "| Control | Activation | Result | Boundary |\n| --- | --- | --- | --- |\n"@, "| -- | -- | No independent control captured. | -- |\n"@, capture.observations@, ""@, RowFormat::ControlComparison);
}

/// A text that ends with a line feed.
pub open spec fn ends_with_newline(t: Seq<char>) -> bool {
    t.len() > 0 && t.last() == '\n'
}

proof fn lemma_ends_with(l: Seq<char>)
    requires
        ends_with_newline(l),
    ensures
        forall|x: Seq<char>| #[trigger] ends_with_newline(x + l),
{
    assert forall|x: Seq<char>| #[trigger] ends_with_newline(x + l) by {
        assert((x + l).last() == l[l.len() - 1]);
    }
}

proof fn lemma_rows_end_with_newline(format: RowFormat, r: Record)
    ensures
        ends_with_newline(row_text(format, r)),
{
    reveal_strlit(" |\n");
    reveal_strlit("` |\n");
    lemma_ends_with(" |\n"@);
    lemma_ends_with("` |\n"@);
    match format {
        RowFormat::Observation => assert(ends_with_newline(row_observation(r))),
        RowFormat::Control => assert(ends_with_newline(row_control(r))),
        RowFormat::WorkbooksAdd => {
            assert(ends_with_newline(row_workbooks_add_control(r)));
            assert(ends_with_newline(row_workbooks_add_frame(r)));
        },
        RowFormat::Invocation => assert(ends_with_newline(row_invocation(r))),
        RowFormat::ControlComparison => {
            reveal_strlit("` | No raw VARIANT or SAFEARRAY inference. |\n");
            lemma_ends_with("` | No raw VARIANT or SAFEARRAY inference. |\n"@);
            assert(ends_with_newline(row_control_comparison(r)));
        },
        RowFormat::Unresolved => assert(ends_with_newline(row_unresolved(r))),
        RowFormat::Environment => assert(ends_with_newline(row_environment(r))),
        RowFormat::ParityOperation => assert(ends_with_newline(row_parity_operation(r))),
        RowFormat::Smoke => assert(ends_with_newline(row_smoke(r))),
        RowFormat::Cleanup => assert(ends_with_newline(row_cleanup(r))),
        RowFormat::Blocker => assert(ends_with_newline(row_blocker(r))),
    }
}

proof fn lemma_report_ends_with_newline(
    title: Seq<char>,
    subtitle: Seq<char>,
    head: Seq<char>,
    empty: Seq<char>,
    records: Seq<Record>,
    sel: Seq<usize>,
    format: RowFormat,
)
    requires
        ends_with_newline(empty),
    ensures
        ends_with_newline(report_text(title, subtitle, head, empty, records, sel, format)),
{
    lemma_ends_with(empty);
    if sel.len() > 0 {
        lemma_rows_end_with_newline(format, records[sel.last() as int]);
        lemma_ends_with(row_text(format, records[sel.last() as int]));
        assert(ends_with_newline(rows_text(records, sel, format)));
        lemma_ends_with(rows_text(records, sel, format));
    }
    assert(report_text(title, subtitle, head, empty, records, sel, format) == (
    report_header_text(title, subtitle) + head) + if sel.len() == 0 {
        empty
    } else {
        rows_text(records, sel, format)
    });
}

proof fn lemma_sorted_report_ends(
    text: Seq<char>,
    title: Seq<char>,
    subtitle: Seq<char>,
    head: Seq<char>,
    empty: Seq<char>,
    records: Seq<Record>,
    filter: ReportFilter,
    param: Seq<char>,
    format: RowFormat,
)
    requires
        is_sorted_report(text, title, subtitle, head, empty, records, filter, param, format),
        ends_with_newline(empty),
    ensures
        ends_with_newline(text),
{
    reveal(is_sorted_report);
    let sel = choose|sel: Seq<usize>|
        ordered_selection(records, choices(filter, param, records), sel) && text == report_text(
            title,
            subtitle,
            head,
            empty,
            records,
            sel,
            format,
        );
    lemma_report_ends_with_newline(title, subtitle, head, empty, records, sel, format);
}

proof fn lemma_in_order_report_ends(
    text: Seq<char>,
    title: Seq<char>,
    subtitle: Seq<char>,
    head: Seq<char>,
    empty: Seq<char>,
    records: Seq<Record>,
    chosen: Seq<bool>,
    format: RowFormat,
)
    requires
        is_in_order_report(text, title, subtitle, head, empty, records, chosen, format),
        ends_with_newline(empty),
    ensures
        ends_with_newline(text),
{
    reveal(is_in_order_report);
    let sel = choose|sel: Seq<usize>|
        in_order_selection(records, chosen, sel) && text == report_text(
            title,
            subtitle,
            head,
            empty,
            records,
            sel,
            format,
        );
    lemma_report_ends_with_newline(title, subtitle, head, empty, records, sel, format);
}

proof fn lemma_jsonl_ends(text: Seq<char>, records: Seq<Record>)
    requires
        is_jsonl_of(text, records),
    ensures
        ends_with_newline(text),
{
    reveal(is_jsonl_of);
    reveal_strlit("\n");
    let sel = choose|sel: Seq<usize>|
        ordered_selection(records, all_chosen(records), sel) && text == if sel.len() == 0 {
            "\n"@
        } else {
            selected_lines(records, sel)
        };
    if sel.len() > 0 {
        lemma_ends_with("\n"@);
        assert(selected_lines(records, sel) == (selected_lines(records, sel.drop_last())
            + records[sel.last() as int].json@) + "\n"@);
    }
}

/// Law: every generated runtime report and every JSON Lines artifact ends
/// with a line feed, whatever the capture holds; only the committed source
/// manifest is copied as it is.
pub proof fn lemma_artifacts_end_with_newline(capture: Capture, v: Seq<(String, String)>)
    requires
        is_artifacts(capture, v),
    ensures
        forall|k: int| 0 <= k < v.len() && k != 19 ==> ends_with_newline(#[trigger] v[k].1@),
{
    reveal_strlit("| -- | -- | -- | -- | -- | -- | No diagnostic captured. | -- | -- |\n");
    reveal_strlit("| -- | -- | -- | -- | -- | No Prompt 05D session recorded. | Not tested |\n");
    reveal_strlit("| -- | -- | -- | -- | No observation captured. | -- | Not tested |\n");
    reveal_strlit("| -- | -- | -- | No Prompt 05D cleanup recorded. | -- | Not tested |\n");
    reveal_strlit("| -- | -- | -- | No Prompt 05D observation captured. | -- | -- | -- | Not tested |\n");
    reveal_strlit("| -- | -- | -- | No invocation diagnostic captured. | -- | -- | -- |\n");
    reveal_strlit("| -- | -- | -- | No remaining Prompt 05D blocker was emitted. |\n");
    reveal_strlit("| -- | -- | No independent control captured. | -- |\n");
    reveal_strlit("| -- | -- | No unresolved entry was emitted. |\n");
    reveal_strlit("| -- | -- | Not entered. | -- | -- | Not tested |\n");
    reveal_strlit("| -- | No control result captured. | -- | Inconclusive |\n");
    lemma_sorted_report_ends(v[0].1@, "Control comparison"@, "Independent controls establish only their own projection-level result; raw VARIANT and SAFEARRAY claims remain limited to the owned raw probe."@, "| Control | Activation | Result | Boundary |\n| --- | --- | --- | --- |\n"@, "| -- | -- | No independent control captured. | -- |\n"@, capture.observations@, ReportFilter::ControlConfirmed, ""@, RowFormat::ControlComparison);
    lemma_sorted_report_ends(v[1].1@, "Control-client comparison"@, "Control projections are recorded separately and never replace raw COM evidence."@, "| Case | Raw result | Control result | Classification |\n| --- | --- | --- | --- |\n"@, "| -- | No control result captured. | -- | Inconclusive |\n"@, capture.observations@, ReportFilter::HasControl, ""@, RowFormat::Control);
    lemma_sorted_report_ends(v[2].1@, "Environment stability matrix"@, "Only normalized Prompt 05D owned-session state is shown; HWNDs and paths are never persisted."@, "| Mode | Operation | Excel / Workbooks before | Visible / user control / interactive / ready | Calculation / security / alerts | Paths | Owned process | Classification |\n| --- | --- | --- | --- | --- | --- | --- | --- |\n"@, "| -- | -- | -- | -- | -- | No Prompt 05D session recorded. | Not tested |\n"@, capture.environments@, ReportFilter::HasParityMode, ""@, RowFormat::Environment);
    lemma_sorted_report_ends(v[3].1@, "Excel error cells"@, "Rows preserve copied raw observation metadata from the owned live Excel instance."@, "| Case | Member | Range | HRESULT | Returned VARTYPE | Array shape / bounds | Classification |\n| --- | --- | --- | --- | --- | --- | --- |\n"@, "| -- | -- | -- | -- | No observation captured. | -- | Not tested |\n"@, capture.observations@, ReportFilter::Category, "error"@, RowFormat::Observation);
    lemma_sorted_report_ends(v[4].1@, "Formula and Formula2"@, "Rows preserve copied raw observation metadata from the owned live Excel instance."@, "| Case | Member | Range | HRESULT | Returned VARTYPE | Array shape / bounds | Classification |\n| --- | --- | --- | --- | --- | --- | --- |\n"@, "| -- | -- | -- | -- | No observation captured. | -- | Not tested |\n"@, capture.observations@, ReportFilter::Category, "formula"@, RowFormat::Observation);
    lemma_sorted_report_ends(v[5].1@, "Raw invocation frames"@, "All values below are copied diagnostics: nullness is recorded, but raw pointer addresses are never persisted."@, "| Case | Member | GetIDsOfNames DISPID | Frame | EXCEPINFO | puArgErr | Result ownership |\n| --- | --- | --- | --- | --- | --- | --- |\n"@, "| -- | -- | -- | No invocation diagnostic captured. | -- | -- | -- |\n"@, capture.observations@, ReportFilter::Category, "invocation"@, RowFormat::Invocation);
    lemma_sorted_report_ends(v[6].1@, "Optional Range arguments"@, "Rows preserve copied raw observation metadata from the owned live Excel instance."@, "| Case | Member | Range | HRESULT | Returned VARTYPE | Array shape / bounds | Classification |\n| --- | --- | --- | --- | --- | --- | --- |\n"@, "| -- | -- | -- | -- | No observation captured. | -- | Not tested |\n"@, capture.observations@, ReportFilter::Category, "optional"@, RowFormat::Observation);
    lemma_sorted_report_ends(v[7].1@, "Parity cleanup"@, "Only owned Excel instances are closed; no process is forcibly terminated by this probe."@, "| Mode | Workbook close | Excel Quit | Owned process exit | Forced termination | Classification |\n| --- | --- | --- | --- | --- | --- |\n"@, "| -- | -- | -- | No Prompt 05D cleanup recorded. | -- | Not tested |\n"@, capture.observations@, ReportFilter::ParityOperation, "cleanup"@, RowFormat::Cleanup);
    lemma_sorted_report_ends(v[8].1@, "Range shapes"@, "Rows preserve copied raw observation metadata from the owned live Excel instance."@, "| Case | Member | Range | HRESULT | Returned VARTYPE | Array shape / bounds | Classification |\n| --- | --- | --- | --- | --- | --- | --- |\n"@, "| -- | -- | -- | -- | No observation captured. | -- | Not tested |\n"@, capture.observations@, ReportFilter::Category, "array"@, RowFormat::Observation);
    lemma_sorted_report_ends(v[9].1@, "Range smoke test"@, "The smoke test is entered only after the same Rust configuration creates or opens a workbook."@, "| Mode | Workbook access | `A1.Value2 = 42` | Read VARTYPE / value | ClearContents | Classification |\n| --- | --- | --- | --- | --- | --- |\n"@, "| -- | -- | Not entered. | -- | -- | Not tested |\n"@, capture.observations@, ReportFilter::ParityOperation, "range-smoke"@, RowFormat::Smoke);
    lemma_sorted_report_ends(v[10].1@, "Rectangular range values"@, "Rows preserve copied raw observation metadata from the owned live Excel instance."@, "| Case | Member | Range | HRESULT | Returned VARTYPE | Array shape / bounds | Classification |\n| --- | --- | --- | --- | --- | --- | --- |\n"@, "| -- | -- | -- | -- | No observation captured. | -- | Not tested |\n"@, capture.observations@, ReportFilter::Category, "rectangular"@, RowFormat::Observation);
    lemma_in_order_report_ends(v[11].1@, "Remaining Prompt 05D blockers"@, "Classifications distinguish the client implementation from session and host state rather than assigning intermittent failures to Rust by default."@, "| Mode | Target | Difference classification | Detail |\n| --- | --- | --- | --- |\n"@, "| -- | -- | -- | No remaining Prompt 05D blocker was emitted. |\n"@, capture.unresolved@, blockers_chosen(capture.unresolved@), RowFormat::Blocker);
    lemma_sorted_report_ends(v[12].1@, "Scalar Value and Value2"@, "Rows preserve copied raw observation metadata from the owned live Excel instance."@, "| Case | Member | Range | HRESULT | Returned VARTYPE | Array shape / bounds | Classification |\n| --- | --- | --- | --- | --- | --- | --- |\n"@, "| -- | -- | -- | -- | No observation captured. | -- | Not tested |\n"@, capture.observations@, ReportFilter::Category, "scalar"@, RowFormat::Observation);
    lemma_in_order_report_ends(v[13].1@, "Unresolved runtime questions"@, "Not-tested and inconclusive entries remain explicit rather than inferred from documentation, a typelib, or a control projection."@, "| Target | Classification | Detail |\n| --- | --- | --- |\n"@, "| -- | -- | No unresolved entry was emitted. |\n"@, capture.unresolved@, all_chosen(capture.unresolved@), RowFormat::Unresolved);
    lemma_sorted_report_ends(v[14].1@, "Value versus Value2"@, "Rows preserve copied raw observation metadata from the owned live Excel instance."@, "| Case | Member | Range | HRESULT | Returned VARTYPE | Array shape / bounds | Classification |\n| --- | --- | --- | --- | --- | --- | --- |\n"@, "| -- | -- | -- | -- | No observation captured. | -- | Not tested |\n"@, capture.observations@, ReportFilter::Category, "value-vs-value2"@, RowFormat::Observation);
    lemma_sorted_report_ends(v[15].1@, "Workbooks.Open parity matrix"@, "Each row is a separately owned, freshly activated Excel session under one explicit Rust configuration; no retry loop is used."@, "| Mode | Activation / CLSCTX | LCID | Invoke / frame | HRESULT | Workbook | Cleanup | Classification |\n| --- | --- | ---: | --- | --- | --- | --- | --- |\n"@, "| -- | -- | -- | No Prompt 05D observation captured. | -- | -- | -- | Not tested |\n"@, capture.observations@, ReportFilter::ParityOperation, "workbooks-open"@, RowFormat::ParityOperation);
    lemma_sorted_report_ends(v[16].1@, "Workbooks.Add diagnostic"@, "This report compares only the explicit Prompt 05B dispatch frames; it does not turn a control projection into raw ABI evidence."@, "| Case | Target | Audited/runtime DISPID | Flags | LCID | Args/named | HRESULT | Result VARTYPE | Workbook/cleanup |\n| --- | --- | --- | --- | --- | --- | --- | --- | --- |\n"@, "| -- | -- | -- | -- | -- | -- | No diagnostic captured. | -- | -- |\n"@, capture.observations@, ReportFilter::WorkbooksAdd, ""@, RowFormat::WorkbooksAdd);
    lemma_sorted_report_ends(v[17].1@, "Workbooks.Add parity matrix"@, "Each row is a separately owned, freshly activated Excel session under one explicit Rust configuration; no retry loop is used."@, "| Mode | Activation / CLSCTX | LCID | Invoke / frame | HRESULT | Workbook | Cleanup | Classification |\n| --- | --- | ---: | --- | --- | --- | --- | --- |\n"@, "| -- | -- | -- | No Prompt 05D observation captured. | -- | -- | -- | Not tested |\n"@, capture.observations@, ReportFilter::ParityOperation, "workbooks-add"@, RowFormat::ParityOperation);
    lemma_sorted_report_ends(v[18].1@, "Scalar and rectangular writes"@, "Rows preserve copied raw observation metadata from the owned live Excel instance."@, "| Case | Member | Range | HRESULT | Returned VARTYPE | Array shape / bounds | Classification |\n| --- | --- | --- | --- | --- | --- | --- |\n"@, "| -- | -- | -- | -- | No observation captured. | -- | Not tested |\n"@, capture.observations@, ReportFilter::Category, "write"@, RowFormat::Observation);
    lemma_jsonl_ends(v[20].1@, capture.cases@);
    lemma_jsonl_ends(v[21].1@, capture.environments@);
    lemma_jsonl_ends(v[22].1@, capture.observations@);
    lemma_jsonl_ends(v[23].1@, capture.unresolved@);
}

} // verus!
