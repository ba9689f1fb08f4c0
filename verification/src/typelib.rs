//! Names, flags and identifiers of the Excel type-library audit, and the
//! summary of one audit.

use sha2::Digest;
use vstd::prelude::*;

use crate::evidence::Record;
use crate::report::{escape_toml, toml_escaped};
use crate::text::{
    chars_of, hex_digits, push_char, push_chars, push_hex, push_str, replace_spec, slice_chars,
    str_eq, string_of,
};

verus! {

/// What the audit is told about the installation it inspects.
#[derive(Debug, Clone, PartialEq, Eq)]
pub struct AuditInput {
    pub typelib_path: Option<String>,
    pub windows_version: String,
    pub excel_file_version: String,
    pub office_bitness: String,
}

/// The number of records of each kind that one audit produced.
#[derive(Debug, Clone, Copy, PartialEq, Eq, Structural)]
pub struct AuditSummary {
    pub coclasses: usize,
    pub interfaces: usize,
    pub members: usize,
    pub parameters: usize,
    pub enums: usize,
}

/// The records that one inspection of the type library produced, the
/// documentation members they are compared with (one per identifier, in
/// identifier order), and the source manifest of the inspection.
#[derive(Debug)]
pub struct AuditData {
    pub library: Record,
    pub coclasses: Vec<Record>,
    pub interfaces: Vec<Record>,
    pub members: Vec<Record>,
    pub parameters: Vec<Record>,
    pub enums: Vec<Record>,
    pub aliases: Vec<Record>,
    pub unresolved: Vec<Record>,
    pub documentation: Vec<Record>,
    pub source_manifest: String,
}

/// The summary of an audit: how many coclasses, interfaces, members,
/// parameters and enums it recorded.
pub fn audit(data: &AuditData) -> (s: AuditSummary)
    ensures
        s.coclasses == data.coclasses@.len(),
        s.interfaces == data.interfaces@.len(),
        s.members == data.members@.len(),
        s.parameters == data.parameters@.len(),
        s.enums == data.enums@.len(),
{
    AuditSummary {
        coclasses: data.coclasses.len(),
        interfaces: data.interfaces.len(),
        members: data.members.len(),
        parameters: data.parameters.len(),
        enums: data.enums.len(),
    }
}

pub open spec fn candidate_list() -> Seq<Seq<char>> {
    seq![
        "Excel.Application.Visible"@,
        "Excel.Application.Version"@,
        "Excel.Application.Workbooks"@,
        "Excel.Application.ActiveWorkbook"@,
        "Excel.Application.ActiveSheet"@,
        "Excel.Application.Calculation"@,
        "Excel.Application.DisplayAlerts"@,
        "Excel.Application.ScreenUpdating"@,
        "Excel.Application.EnableEvents"@,
        "Excel.Application.Run"@,
        "Excel.Application.Quit"@,
        "Excel.Workbooks.Count"@,
        "Excel.Workbooks.Item"@,
        "Excel.Workbooks.Add"@,
        "Excel.Workbooks.Open"@,
        "Excel.Workbooks.Close"@,
        "Excel.Workbook.Name"@,
        "Excel.Workbook.FullName"@,
        "Excel.Workbook.Path"@,
        "Excel.Workbook.Worksheets"@,
        "Excel.Workbook.Save"@,
        "Excel.Workbook.SaveAs"@,
        "Excel.Workbook.Close"@,
        "Excel.Workbook.Saved"@,
        "Excel.Worksheets.Count"@,
        "Excel.Worksheets.Item"@,
        "Excel.Worksheets.Add"@,
        "Excel.Worksheet.Name"@,
        "Excel.Worksheet.Range"@,
        "Excel.Worksheet.Cells"@,
        "Excel.Worksheet.UsedRange"@,
        "Excel.Worksheet.Activate#method"@,
        "Excel.Range.Address"@,
        "Excel.Range.Value"@,
        "Excel.Range.Value2"@,
        "Excel.Range.Formula"@,
        "Excel.Range.Formula2"@,
        "Excel.Range.Rows"@,
        "Excel.Range.Columns"@,
        "Excel.Range.Offset"@,
        "Excel.Range.Resize"@,
        "Excel.Range.ClearContents"@,
        "Excel.Range.Clear"@,
        "Excel.Range.Delete"@,
        "Excel.Range.Copy"@,
        "Excel.Range.PasteSpecial"@,
        "Excel.Range.Select"@,
        "Excel.Range.Activate"@,
        "Excel.Range.Find"@,
        "Excel.Range.Sort"@,
    ]
}

/// The members audited as candidates, in their fixed order.
pub fn candidate_ids() -> (v: Vec<&'static str>)
    ensures
        v@.map_values(|s: &str| s@) == candidate_list(),
{
    let mut v: Vec<&'static str> = Vec::new();
    v.push("Excel.Application.Visible");
    v.push("Excel.Application.Version");
    v.push("Excel.Application.Workbooks");
    v.push("Excel.Application.ActiveWorkbook");
    v.push("Excel.Application.ActiveSheet");
    v.push("Excel.Application.Calculation");
    v.push("Excel.Application.DisplayAlerts");
    v.push("Excel.Application.ScreenUpdating");
    v.push("Excel.Application.EnableEvents");
    v.push("Excel.Application.Run");
    v.push("Excel.Application.Quit");
    v.push("Excel.Workbooks.Count");
    v.push("Excel.Workbooks.Item");
    v.push("Excel.Workbooks.Add");
    v.push("Excel.Workbooks.Open");
    v.push("Excel.Workbooks.Close");
    v.push("Excel.Workbook.Name");
    v.push("Excel.Workbook.FullName");
    v.push("Excel.Workbook.Path");
    v.push("Excel.Workbook.Worksheets");
    v.push("Excel.Workbook.Save");
    v.push("Excel.Workbook.SaveAs");
    v.push("Excel.Workbook.Close");
    v.push("Excel.Workbook.Saved");
    v.push("Excel.Worksheets.Count");
    v.push("Excel.Worksheets.Item");
    v.push("Excel.Worksheets.Add");
    v.push("Excel.Worksheet.Name");
    v.push("Excel.Worksheet.Range");
    v.push("Excel.Worksheet.Cells");
    v.push("Excel.Worksheet.UsedRange");
    v.push("Excel.Worksheet.Activate#method");
    v.push("Excel.Range.Address");
    v.push("Excel.Range.Value");
    v.push("Excel.Range.Value2");
    v.push("Excel.Range.Formula");
    v.push("Excel.Range.Formula2");
    v.push("Excel.Range.Rows");
    v.push("Excel.Range.Columns");
    v.push("Excel.Range.Offset");
    v.push("Excel.Range.Resize");
    v.push("Excel.Range.ClearContents");
    v.push("Excel.Range.Clear");
    v.push("Excel.Range.Delete");
    v.push("Excel.Range.Copy");
    v.push("Excel.Range.PasteSpecial");
    v.push("Excel.Range.Select");
    v.push("Excel.Range.Activate");
    v.push("Excel.Range.Find");
    v.push("Excel.Range.Sort");
    assert(v@.map_values(|s: &str| s@) =~= candidate_list());
    v
}

pub open spec fn optional_member_list() -> Seq<Seq<char>> {
    seq![
        "Excel.Workbooks.Open"@,
        "Excel.Workbook.SaveAs"@,
        "Excel.Workbook.Close"@,
        "Excel.Worksheets.Add"@,
        "Excel.Range.Find"@,
        "Excel.Range.Sort"@,
        "Excel.Application.Run"@,
        "Excel.Workbook.ExportAsFixedFormat"@,
        "Excel.Range.ExportAsFixedFormat"@,
    ]
}

/// The members whose optional arguments are audited.
pub fn optional_member_ids() -> (v: Vec<&'static str>)
    ensures
        v@.map_values(|s: &str| s@) == optional_member_list(),
{
    let mut v: Vec<&'static str> = Vec::new();
    v.push("Excel.Workbooks.Open");
    v.push("Excel.Workbook.SaveAs");
    v.push("Excel.Workbook.Close");
    v.push("Excel.Worksheets.Add");
    v.push("Excel.Range.Find");
    v.push("Excel.Range.Sort");
    v.push("Excel.Application.Run");
    v.push("Excel.Workbook.ExportAsFixedFormat");
    v.push("Excel.Range.ExportAsFixedFormat");
    assert(v@.map_values(|s: &str| s@) =~= optional_member_list());
    v
}

pub open spec fn range_member_list() -> Seq<Seq<char>> {
    seq![
        "Excel.Range.Value"@,
        "Excel.Range.Value2"@,
        "Excel.Range.Formula"@,
        "Excel.Range.Formula2"@,
        "Excel.Range.Text"@,
        "Excel.Range.HasFormula"@,
        "Excel.Range.Item"@,
        "Excel.Range.Cells"@,
        "Excel.Range.Rows"@,
        "Excel.Range.Columns"@,
        "Excel.Range.Offset"@,
        "Excel.Range.Resize"@,
        "Excel.Range.Address"@,
        "Excel.Range.ClearContents"@,
        "Excel.Range.Find"@,
        "Excel.Range.Sort"@,
        "Excel.Worksheet.Range"@,
        "Excel.Worksheet.Cells"@,
        "Excel.Worksheet.UsedRange"@,
    ]
}

/// The Range members whose transport is audited.
pub fn range_member_ids() -> (v: Vec<&'static str>)
    ensures
        v@.map_values(|s: &str| s@) == range_member_list(),
{
    let mut v: Vec<&'static str> = Vec::new();
    v.push("Excel.Range.Value");
    v.push("Excel.Range.Value2");
    v.push("Excel.Range.Formula");
    v.push("Excel.Range.Formula2");
    v.push("Excel.Range.Text");
    v.push("Excel.Range.HasFormula");
    v.push("Excel.Range.Item");
    v.push("Excel.Range.Cells");
    v.push("Excel.Range.Rows");
    v.push("Excel.Range.Columns");
    v.push("Excel.Range.Offset");
    v.push("Excel.Range.Resize");
    v.push("Excel.Range.Address");
    v.push("Excel.Range.ClearContents");
    v.push("Excel.Range.Find");
    v.push("Excel.Range.Sort");
    v.push("Excel.Worksheet.Range");
    v.push("Excel.Worksheet.Cells");
    v.push("Excel.Worksheet.UsedRange");
    assert(v@.map_values(|s: &str| s@) =~= range_member_list());
    v
}

/// The index of the last occurrence of `c` in `s`.
pub open spec fn last_index_of(s: Seq<char>, c: char) -> Option<int>
    decreases s.len(),
{
    if s.len() == 0 {
        None
    } else if s.last() == c {
        Some(s.len() - 1)
    } else {
        last_index_of(s.drop_last(), c)
    }
}

/// `s` with every trailing repetition of `suffix` removed
/// (`trim_end_matches`).
pub open spec fn trim_suffixes(s: Seq<char>, suffix: Seq<char>) -> Seq<char>
    decreases s.len(),
{
    if suffix.len() > 0 && s.len() >= suffix.len() && s.subrange(
        s.len() - suffix.len(),
        s.len() as int,
    ) == suffix {
        trim_suffixes(s.subrange(0, s.len() - suffix.len()), suffix)
    } else {
        s
    }
}

/// The owner of a candidate id: what precedes its last dot, without
/// trailing `#method`; empty when it has no dot.
pub open spec fn candidate_owner_spec(id: Seq<char>) -> Seq<char> {
    match last_index_of(id, '.') {
        None => Seq::empty(),
        Some(i) => trim_suffixes(id.subrange(0, i), "#method"@),
    }
}

/// The member of a candidate id: what follows its last dot (the whole id
/// when it has none), without trailing `#method`.
pub open spec fn candidate_member_spec(id: Seq<char>) -> Seq<char> {
    match last_index_of(id, '.') {
        None => trim_suffixes(id, "#method"@),
        Some(i) => trim_suffixes(id.subrange(i + 1, id.len() as int), "#method"@),
    }
}

fn last_dot(s: &Vec<char>) -> (r: Option<usize>)
    ensures
        match r {
            None => last_index_of(s@, '.') is None,
            Some(i) => last_index_of(s@, '.') == Some(i as int) && i < s@.len(),
        },
{
    let mut k: usize = s.len();
    assert(s@.take(k as int) =~= s@);
    while k > 0
        invariant
            k <= s@.len(),
            last_index_of(s@, '.') == last_index_of(s@.take(k as int), '.'),
        decreases k,
    {
        let ghost t = s@.take(k as int);
        assert(t.drop_last() =~= s@.take(k - 1));
        if s[k - 1] == '.' {
            return Some(k - 1);
        }
        k = k - 1;
    }
    None
}

fn trim_method_suffix(s: Vec<char>) -> (r: Vec<char>)
    ensures
        r@ == trim_suffixes(s@, "#method"@),
{
    proof {
        reveal_strlit("#method");
    }
    let suffix = chars_of("#method");
    assert(suffix@.len() == 7);
    let mut cur = s;
    loop
        invariant
            suffix@ == "#method"@,
            suffix@.len() == 7,
            trim_suffixes(cur@, suffix@) == trim_suffixes(s@, suffix@),
        decreases cur@.len(),
    {
        let n = cur.len();
        if n < 7 {
            return cur;
        }
        let mut same = true;
        let mut j: usize = 0;
        while j < 7
            invariant
                j <= 7,
                n == cur@.len(),
                n >= 7,
                suffix@.len() == 7,
                same == (forall|t: int| 0 <= t < j ==> cur@[n - 7 + t] == suffix@[t]),
            decreases 7 - j,
        {
            if cur[n - 7 + j] != suffix[j] {
                same = false;
            }
            j = j + 1;
        }
        if !same {
            proof {
                if cur@.subrange(n - 7, n as int) == suffix@ {
                    let t = choose|t: int| 0 <= t < 7 && cur@[n - 7 + t] != suffix@[t];
                    assert(cur@.subrange(n - 7, n as int)[t] == cur@[n - 7 + t]);
                }
            }
            return cur;
        }
        assert(cur@.subrange(n - 7, n as int) =~= suffix@);
        cur = slice_chars(&cur, 0, n - 7);
    }
}

pub fn candidate_owner(id: &str) -> (r: String)
    ensures
        r@ == candidate_owner_spec(id@),
{
    let chars = chars_of(id);
    match last_dot(&chars) {
        None => String::new(),
        Some(i) => string_of(&trim_method_suffix(slice_chars(&chars, 0, i))),
    }
}

pub fn candidate_member_name(id: &str) -> (r: String)
    ensures
        r@ == candidate_member_spec(id@),
{
    let chars = chars_of(id);
    match last_dot(&chars) {
        None => string_of(&trim_method_suffix(chars)),
        Some(i) => string_of(&trim_method_suffix(slice_chars(&chars, i + 1, chars.len()))),
    }
}

/// The first candidate, from position `k` on, with the given owner and member.
pub open spec fn first_candidate(
    candidates: Seq<Seq<char>>,
    owner: Seq<char>,
    name: Seq<char>,
    k: int,
) -> Option<Seq<char>>
    decreases candidates.len() - k,
{
    if k < 0 || k >= candidates.len() {
        None
    } else if candidate_member_spec(candidates[k]) == name && candidate_owner_spec(candidates[k])
        == owner {
        Some(candidates[k])
    } else {
        first_candidate(candidates, owner, name, k + 1)
    }
}

/// The candidate id of `owner`'s member `name`, if it is a candidate.
pub fn canonical_member_id(owner: &str, name: &str) -> (r: Option<String>)
    ensures
        match r {
            None => first_candidate(candidate_list(), owner@, name@, 0) is None,
            Some(id) => first_candidate(candidate_list(), owner@, name@, 0) == Some(id@),
        },
{
    let candidates = candidate_ids();
    let mut k: usize = 0;
    while k < candidates.len()
        invariant
            k <= candidates@.len(),
            candidates@.map_values(|s: &str| s@) == candidate_list(),
            first_candidate(candidate_list(), owner@, name@, 0) == first_candidate(
                candidate_list(),
                owner@,
                name@,
                k as int,
            ),
        decreases candidates.len() - k,
    {
        let c = candidates[k];
        assert(candidate_list()[k as int] == c@);
        let member = candidate_member_name(c);
        let candidate_owner_text = candidate_owner(c);
        if str_eq(member.as_str(), name) && str_eq(candidate_owner_text.as_str(), owner) {
            return Some(String::from_str(c));
        }
        k = k + 1;
    }
    None
}

/// Whether `value` is one of `items`.
fn listed(items: &Vec<&'static str>, value: &str) -> (b: bool)
    ensures
        b == items@.map_values(|s: &str| s@).contains(value@),
{
    let ghost texts = items@.map_values(|s: &str| s@);
    let mut k: usize = 0;
    while k < items.len()
        invariant
            k <= items@.len(),
            texts == items@.map_values(|s: &str| s@),
            forall|j: int| 0 <= j < k ==> texts[j] != value@,
        decreases items.len() - k,
    {
        if str_eq(items[k], value) {
            assert(texts[k as int] == value@);
            return true;
        }
        k = k + 1;
    }
    false
}

/// The member names that are audited on every interface.
pub open spec fn generic_member_names() -> Seq<Seq<char>> {
    seq!["Count"@, "Item"@, "_Default"@, "_NewEnum"@, "Add"@, "Delete"@, "Remove"@]
}

/// Whether `owner`'s member `name` is in the audit's scope.
pub open spec fn audited_member_spec(owner: Seq<char>, name: Seq<char>) -> bool {
    let qualified = owner + "."@ + name;
    first_candidate(candidate_list(), owner, name, 0) is Some || range_member_list().contains(
        qualified,
    ) || optional_member_list().contains(qualified) || generic_member_names().contains(name)
}

pub fn audited_member(owner: &str, name: &str) -> (b: bool)
    ensures
        b == audited_member_spec(owner@, name@),
{
    let mut qualified = String::new();
    push_str(&mut qualified, owner);
    push_str(&mut qualified, ".");
    push_str(&mut qualified, name);
    let mut generic: Vec<&'static str> = Vec::new();
    generic.push("Count");
    generic.push("Item");
    generic.push("_Default");
    generic.push("_NewEnum");
    generic.push("Add");
    generic.push("Delete");
    generic.push("Remove");
    assert(generic@.map_values(|s: &str| s@) =~= generic_member_names());
    canonical_member_id(owner, name).is_some() || listed(&range_member_ids(), qualified.as_str())
        || listed(&optional_member_ids(), qualified.as_str()) || listed(&generic, name)
}

/// The canonical owner of an interface name.
pub open spec fn canonical_owner_spec(interface: Seq<char>) -> Seq<char> {
    if interface == "Application"@ || interface == "_Application"@ {
        "Excel.Application"@
    } else if interface == "Workbooks"@ {
        "Excel.Workbooks"@
    } else if interface == "Workbook"@ || interface == "_Workbook"@ {
        "Excel.Workbook"@
    } else if interface == "Worksheets"@ {
        "Excel.Worksheets"@
    } else if interface == "Worksheet"@ || interface == "_Worksheet"@ {
        "Excel.Worksheet"@
    } else if interface == "Range"@ {
        "Excel.Range"@
    } else if interface == "Sheets"@ {
        "Excel.Sheets"@
    } else if interface == "Windows"@ {
        "Excel.Windows"@
    } else if interface == "Names"@ {
        "Excel.Names"@
    } else if interface == "ListObjects"@ {
        "Excel.ListObjects"@
    } else if interface == "ChartObjects"@ {
        "Excel.ChartObjects"@
    } else if interface == "Shapes"@ {
        "Excel.Shapes"@
    } else {
        "Excel.Unknown"@
    }
}

pub fn canonical_owner(interface: &str) -> (s: &'static str)
    ensures
        s@ == canonical_owner_spec(interface@),
{
    if str_eq(interface, "Application") || str_eq(interface, "_Application") {
        "Excel.Application"
    } else if str_eq(interface, "Workbooks") {
        "Excel.Workbooks"
    } else if str_eq(interface, "Workbook") || str_eq(interface, "_Workbook") {
        "Excel.Workbook"
    } else if str_eq(interface, "Worksheets") {
        "Excel.Worksheets"
    } else if str_eq(interface, "Worksheet") || str_eq(interface, "_Worksheet") {
        "Excel.Worksheet"
    } else if str_eq(interface, "Range") {
        "Excel.Range"
    } else if str_eq(interface, "Sheets") {
        "Excel.Sheets"
    } else if str_eq(interface, "Windows") {
        "Excel.Windows"
    } else if str_eq(interface, "Names") {
        "Excel.Names"
    } else if str_eq(interface, "ListObjects") {
        "Excel.ListObjects"
    } else if str_eq(interface, "ChartObjects") {
        "Excel.ChartObjects"
    } else if str_eq(interface, "Shapes") {
        "Excel.Shapes"
    } else {
        "Excel.Unknown"
    }
}

pub const TKIND_ENUM: i32 = 0i32;

pub const TKIND_INTERFACE: i32 = 3i32;

pub const TKIND_DISPATCH: i32 = 4i32;

pub const TKIND_COCLASS: i32 = 5i32;

pub const TKIND_ALIAS: i32 = 6i32;

/// The interfaces whose members are recorded.
pub open spec fn targeted_names() -> Seq<Seq<char>> {
    seq![
        "_Application"@,
        "Workbooks"@,
        "_Workbook"@,
        "Worksheets"@,
        "_Worksheet"@,
        "Range"@,
        "Sheets"@,
        "Windows"@,
        "Names"@,
        "ListObjects"@,
        "ChartObjects"@,
        "Shapes"@,
    ]
}

/// Whether a type-library entry is an interface whose members are recorded.
pub fn targeted_interface(kind: i32, name: &str) -> (b: bool)
    ensures
        b == ((kind == TKIND_INTERFACE || kind == TKIND_DISPATCH) && targeted_names().contains(
            name@,
        )),
{
    let mut names: Vec<&'static str> = Vec::new();
    names.push("_Application");
    names.push("Workbooks");
    names.push("_Workbook");
    names.push("Worksheets");
    names.push("_Worksheet");
    names.push("Range");
    names.push("Sheets");
    names.push("Windows");
    names.push("Names");
    names.push("ListObjects");
    names.push("ChartObjects");
    names.push("Shapes");
    assert(names@.map_values(|s: &str| s@) =~= targeted_names());
    (kind == TKIND_INTERFACE || kind == TKIND_DISPATCH) && listed(&names, name)
}

/// `Excel.TypeLib.{kind}.{identity}` with `#` and spaces in the identity
/// replaced by dots.
pub open spec fn stable_id_spec(kind: Seq<char>, identity: Seq<char>) -> Seq<char> {
    "Excel.TypeLib."@ + kind + "."@ + identity.map_values(
        |c: char|
            if c == '#' || c == ' ' {
                '.'
            } else {
                c
            },
    )
}

pub fn stable_id(kind: &str, identity: &str) -> (s: String)
    ensures
        s@ == stable_id_spec(kind@, identity@),
{
    let chars = chars_of(identity);
    let mut mapped: Vec<char> = Vec::new();
    let mut i: usize = 0;
    while i < chars.len()
        invariant
            i <= chars@.len(),
            mapped@ == chars@.take(i as int).map_values(
                |c: char|
                    if c == '#' || c == ' ' {
                        '.'
                    } else {
                        c
                    },
            ),
        decreases chars.len() - i,
    {
        let c = chars[i];
        mapped.push(
            if c == '#' || c == ' ' {
                '.'
            } else {
                c
            },
        );
        assert(chars@.take(i + 1) =~= chars@.take(i as int).push(c));
        i = i + 1;
    }
    assert(chars@.take(i as int) =~= chars@);
    let mut s = String::new();
    push_str(&mut s, "Excel.TypeLib.");
    push_str(&mut s, kind);
    push_str(&mut s, ".");
    push_chars(&mut s, &mapped);
    s
}

/// A GUID's 32 lower-case hexadecimal digits grouped 8-4-4-4-12 in braces.
pub open spec fn guid_text(raw: u128) -> Seq<char> {
    let d = hex_digits(raw as nat, 32, false);
    "{"@ + d.subrange(0, 8) + "-"@ + d.subrange(8, 12) + "-"@ + d.subrange(12, 16) + "-"@
        + d.subrange(16, 20) + "-"@ + d.subrange(20, 32) + "}"@
}

proof fn lemma_hex_digits_len(n: nat, width: nat, upper: bool)
    ensures
        hex_digits(n, width, upper).len() == width,
    decreases width,
{
    if width > 0 {
        lemma_hex_digits_len(n / 16, (width - 1) as nat, upper);
    }
}

pub fn guid_string(raw: u128) -> (s: String)
    ensures
        s@ == guid_text(raw),
{
    let mut digits_text = String::new();
    push_hex(&mut digits_text, raw, 32, false);
    let d = chars_of(digits_text.as_str());
    proof {
        lemma_hex_digits_len(raw as nat, 32, false);
    }
    let mut s = String::new();
    push_str(&mut s, "{");
    push_chars(&mut s, &slice_chars(&d, 0, 8));
    push_str(&mut s, "-");
    push_chars(&mut s, &slice_chars(&d, 8, 12));
    push_str(&mut s, "-");
    push_chars(&mut s, &slice_chars(&d, 12, 16));
    push_str(&mut s, "-");
    push_chars(&mut s, &slice_chars(&d, 16, 20));
    push_str(&mut s, "-");
    push_chars(&mut s, &slice_chars(&d, 20, 32));
    push_str(&mut s, "}");
    s
}

pub open spec fn invkind_text(kind: i32) -> Seq<char> {
    if kind == 1 {
        "INVOKE_FUNC"@
    } else if kind == 2 {
        "INVOKE_PROPERTYGET"@
    } else if kind == 4 {
        "INVOKE_PROPERTYPUT"@
    } else if kind == 8 {
        "INVOKE_PROPERTYPUTREF"@
    } else {
        "INVOKE_UNKNOWN"@
    }
}

/// The name of an `INVOKEKIND`.
pub fn invkind_name(kind: i32) -> (s: &'static str)
    ensures
        s@ == invkind_text(kind),
{
    if kind == 1 {
        "INVOKE_FUNC"
    } else if kind == 2 {
        "INVOKE_PROPERTYGET"
    } else if kind == 4 {
        "INVOKE_PROPERTYPUT"
    } else if kind == 8 {
        "INVOKE_PROPERTYPUTREF"
    } else {
        "INVOKE_UNKNOWN"
    }
}

/// The name of a calling convention; only `CC_STDCALL` (4) is named.
pub fn calling_convention(value: i32) -> (s: &'static str)
    ensures
        s@ == (if value == 4 {
            "CC_STDCALL"@
        } else {
            "CALLCONV_UNKNOWN"@
        }),
{
    if value == 4 {
        "CC_STDCALL"
    } else {
        "CALLCONV_UNKNOWN"
    }
}

pub open spec fn typekind_text(kind: i32) -> Seq<char> {
    if kind == TKIND_ENUM {
        "TKIND_ENUM"@
    } else if kind == TKIND_INTERFACE {
        "TKIND_INTERFACE"@
    } else if kind == TKIND_DISPATCH {
        "TKIND_DISPATCH"@
    } else if kind == TKIND_COCLASS {
        "TKIND_COCLASS"@
    } else if kind == TKIND_ALIAS {
        "TKIND_ALIAS"@
    } else {
        "TKIND_OTHER"@
    }
}

/// The name of a `TYPEKIND`.
pub fn typekind_name(kind: i32) -> (s: &'static str)
    ensures
        s@ == typekind_text(kind),
{
    if kind == TKIND_ENUM {
        "TKIND_ENUM"
    } else if kind == TKIND_INTERFACE {
        "TKIND_INTERFACE"
    } else if kind == TKIND_DISPATCH {
        "TKIND_DISPATCH"
    } else if kind == TKIND_COCLASS {
        "TKIND_COCLASS"
    } else if kind == TKIND_ALIAS {
        "TKIND_ALIAS"
    } else {
        "TKIND_OTHER"
    }
}

/// The name of a `SYSKIND`.
pub fn syskind_name(value: i32) -> (s: &'static str)
    ensures
        s@ == (if value == 1 {
            "SYS_WIN32"@
        } else if value == 3 {
            "SYS_WIN64"@
        } else {
            "SYSKIND_OTHER"@
        }),
{
    if value == 1 {
        "SYS_WIN32"
    } else if value == 3 {
        "SYS_WIN64"
    } else {
        "SYSKIND_OTHER"
    }
}

/// The names of the `PARAMFLAG_*` bits set in `flags`: FIN, FOUT, FRETVAL,
/// FOPT, FHASDEFAULT, in this order.
pub open spec fn parameter_flag_names(flags: u16) -> Seq<Seq<char>> {
    (if flags & 0x1 != 0 {
        seq!["PARAMFLAG_FIN"@]
    } else {
        Seq::empty()
    }) + (if flags & 0x2 != 0 {
        seq!["PARAMFLAG_FOUT"@]
    } else {
        Seq::empty()
    }) + (if flags & 0x8 != 0 {
        seq!["PARAMFLAG_FRETVAL"@]
    } else {
        Seq::empty()
    }) + (if flags & 0x10 != 0 {
        seq!["PARAMFLAG_FOPT"@]
    } else {
        Seq::empty()
    }) + (if flags & 0x20 != 0 {
        seq!["PARAMFLAG_FHASDEFAULT"@]
    } else {
        Seq::empty()
    })
}

pub fn parameter_flags(flags: u16) -> (v: Vec<&'static str>)
    ensures
        v@.map_values(|s: &str| s@) == parameter_flag_names(flags),
{
    let mut v: Vec<&'static str> = Vec::new();
    if flags & 0x1 != 0 {
        v.push("PARAMFLAG_FIN");
    }
    if flags & 0x2 != 0 {
        v.push("PARAMFLAG_FOUT");
    }
    if flags & 0x8 != 0 {
        v.push("PARAMFLAG_FRETVAL");
    }
    if flags & 0x10 != 0 {
        v.push("PARAMFLAG_FOPT");
    }
    if flags & 0x20 != 0 {
        v.push("PARAMFLAG_FHASDEFAULT");
    }
    assert(v@.map_values(|s: &str| s@) =~= parameter_flag_names(flags));
    v
}

/// The names of the `FUNCFLAG_*` bits set in `flags`: FDEFAULTBIND,
/// FDEFAULTCOLLELEM, FHIDDEN, FRESTRICTED, FNONBROWSABLE, in this order.
pub open spec fn function_flag_names(flags: u16) -> Seq<Seq<char>> {
    (if flags & 0x20 != 0 {
        seq!["FUNCFLAG_FDEFAULTBIND"@]
    } else {
        Seq::empty()
    }) + (if flags & 0x100 != 0 {
        seq!["FUNCFLAG_FDEFAULTCOLLELEM"@]
    } else {
        Seq::empty()
    }) + (if flags & 0x40 != 0 {
        seq!["FUNCFLAG_FHIDDEN"@]
    } else {
        Seq::empty()
    }) + (if flags & 0x1 != 0 {
        seq!["FUNCFLAG_FRESTRICTED"@]
    } else {
        Seq::empty()
    }) + (if flags & 0x400 != 0 {
        seq!["FUNCFLAG_FNONBROWSABLE"@]
    } else {
        Seq::empty()
    })
}

pub fn function_flags(flags: u16) -> (v: Vec<&'static str>)
    ensures
        v@.map_values(|s: &str| s@) == function_flag_names(flags),
{
    let mut v: Vec<&'static str> = Vec::new();
    if flags & 0x20 != 0 {
        v.push("FUNCFLAG_FDEFAULTBIND");
    }
    if flags & 0x100 != 0 {
        v.push("FUNCFLAG_FDEFAULTCOLLELEM");
    }
    if flags & 0x40 != 0 {
        v.push("FUNCFLAG_FHIDDEN");
    }
    if flags & 0x1 != 0 {
        v.push("FUNCFLAG_FRESTRICTED");
    }
    if flags & 0x400 != 0 {
        v.push("FUNCFLAG_FNONBROWSABLE");
    }
    assert(v@.map_values(|s: &str| s@) =~= function_flag_names(flags));
    v
}

/// What SHA-256 gives for `data`.
pub uninterp spec fn sha256(data: Seq<u8>) -> Seq<u8>;

/// `sha2::Sha256::digest`: the SHA-256 digest of `data`, a function of the
/// bytes alone, 32 bytes long (its output type is a 32-byte array).
#[verifier::external_body]
fn sha256_digest(data: &[u8]) -> (r: Vec<u8>)
    ensures
        r@ == sha256(data@),
        r@.len() == 32,
{
    sha2::Sha256::digest(data).to_vec()
}

/// Two lower-case hexadecimal digits per byte.
pub open spec fn lower_hex_bytes(bytes: Seq<u8>) -> Seq<char>
    decreases bytes.len(),
{
    if bytes.len() == 0 {
        Seq::empty()
    } else {
        lower_hex_bytes(bytes.drop_last()) + hex_digits(bytes.last() as nat, 2, false)
    }
}

pub fn lower_hex(bytes: &Vec<u8>) -> (s: String)
    ensures
        s@ == lower_hex_bytes(bytes@),
{
    let mut s = String::new();
    let mut i: usize = 0;
    while i < bytes.len()
        invariant
            i <= bytes@.len(),
            s@ == lower_hex_bytes(bytes@.take(i as int)),
        decreases bytes.len() - i,
    {
        assert(bytes@.take(i + 1).drop_last() =~= bytes@.take(i as int));
        push_hex(&mut s, bytes[i] as u128, 2, false);
        i = i + 1;
    }
    assert(bytes@.take(i as int) =~= bytes@);
    s
}

/// The copied facts about the loaded type-library file.
#[derive(Debug, Clone, PartialEq, Eq)]
pub struct FileEvidence {
    pub basename: String,
    pub sha256: String,
    pub registration_category: String,
}

pub open spec fn registration_category_text() -> Seq<char> {
    "HKCR\\TypeLib\\{00020813-0000-0000-C000-000000000046}\\1.9\\0\\Win64"@
}

/// The evidence of a type-library file with the given basename and bytes:
/// its SHA-256 digest in lower-case hexadecimal.
pub fn file_evidence(basename: String, bytes: &Vec<u8>) -> (e: FileEvidence)
    ensures
        e.basename == basename,
        e.sha256@ == lower_hex_bytes(sha256(bytes@)),
        e.registration_category@ == registration_category_text(),
{
    let digest = sha256_digest(bytes.as_slice());
    FileEvidence {
        basename,
        sha256: lower_hex(&digest),
        registration_category: String::from_str(
            "HKCR\\TypeLib\\{00020813-0000-0000-C000-000000000046}\\1.9\\0\\Win64",
        ),
    }
}

/// The structured evidence of a declared primitive type: its kind, its
/// VARTYPE name and the raw VARTYPE.
#[derive(Debug, Clone, Copy, PartialEq, Eq)]
pub struct PrimitiveType {
    pub kind: &'static str,
    pub vartype: &'static str,
    pub vartype_raw: u16,
}

/// The kind and VARTYPE name of a primitive VARTYPE; `unknown` and
/// `unrecognized VARENUM` for the others.
pub open spec fn primitive_type_names(vartype: u16) -> (Seq<char>, Seq<char>) {
    match vartype {
        24u16 => ("void"@, "VT_VOID"@),
        0u16 => ("empty"@, "VT_EMPTY"@),
        1u16 => ("null"@, "VT_NULL"@),
        16u16 => ("primitive"@, "VT_I1"@),
        2u16 => ("primitive"@, "VT_I2"@),
        3u16 => ("primitive"@, "VT_I4"@),
        20u16 => ("primitive"@, "VT_I8"@),
        17u16 => ("primitive"@, "VT_UI1"@),
        18u16 => ("primitive"@, "VT_UI2"@),
        19u16 => ("primitive"@, "VT_UI4"@),
        21u16 => ("primitive"@, "VT_UI8"@),
        22u16 => ("primitive"@, "VT_INT"@),
        23u16 => ("primitive"@, "VT_UINT"@),
        4u16 => ("primitive"@, "VT_R4"@),
        5u16 => ("primitive"@, "VT_R8"@),
        6u16 => ("primitive"@, "VT_CY"@),
        7u16 => ("primitive"@, "VT_DATE"@),
        8u16 => ("bstr"@, "VT_BSTR"@),
        12u16 => ("variant"@, "VT_VARIANT"@),
        9u16 => ("idispatch"@, "VT_DISPATCH"@),
        13u16 => ("iunknown"@, "VT_UNKNOWN"@),
        11u16 => ("primitive"@, "VT_BOOL"@),
        10u16 => ("primitive"@, "VT_ERROR"@),
        25u16 => ("hresult"@, "VT_HRESULT"@),
        _ => ("unknown"@, "unrecognized VARENUM"@),
    }
}

pub fn primitive_type(vartype: u16) -> (t: PrimitiveType)
    ensures
        (t.kind@, t.vartype@) == primitive_type_names(vartype),
        t.vartype_raw == vartype,
{
    let (kind, name) = match vartype {
        24u16 => ("void", "VT_VOID"),
        0u16 => ("empty", "VT_EMPTY"),
        1u16 => ("null", "VT_NULL"),
        16u16 => ("primitive", "VT_I1"),
        2u16 => ("primitive", "VT_I2"),
        3u16 => ("primitive", "VT_I4"),
        20u16 => ("primitive", "VT_I8"),
        17u16 => ("primitive", "VT_UI1"),
        18u16 => ("primitive", "VT_UI2"),
        19u16 => ("primitive", "VT_UI4"),
        21u16 => ("primitive", "VT_UI8"),
        22u16 => ("primitive", "VT_INT"),
        23u16 => ("primitive", "VT_UINT"),
        4u16 => ("primitive", "VT_R4"),
        5u16 => ("primitive", "VT_R8"),
        6u16 => ("primitive", "VT_CY"),
        7u16 => ("primitive", "VT_DATE"),
        8u16 => ("bstr", "VT_BSTR"),
        12u16 => ("variant", "VT_VARIANT"),
        9u16 => ("idispatch", "VT_DISPATCH"),
        13u16 => ("iunknown", "VT_UNKNOWN"),
        11u16 => ("primitive", "VT_BOOL"),
        10u16 => ("primitive", "VT_ERROR"),
        25u16 => ("hresult", "VT_HRESULT"),
        _ => ("unknown", "unrecognized VARENUM"),
    };
    PrimitiveType { kind, vartype: name, vartype_raw: vartype }
}

} // verus!
