//! The Automation value layer's committed evidence check and its bounded
//! live compatibility suite: the cases, their selection, and how their
//! outcomes are judged.

use vstd::prelude::*;

use crate::scode::{ExcelError, SCODE_DIV0, SCODE_NOT_AVAILABLE, SCODE_NULL, SCODE_VALUE};
use crate::text::{chars_of, push_str, str_eq, string_of};
use crate::value::{AutomationArray, AutomationValue, Currency, DateWritePolicy, OaDate};

verus! {

/// The committed source files of the value layer, in the order checked.
pub open spec fn automation_source_list() -> Seq<Seq<char>> {
    seq![
        "SOURCE_MANIFEST.toml"@,
        "design-decisions.jsonl"@,
        "conversion-policies.jsonl"@,
        "codec-cases.jsonl"@,
        "live-compatibility-observations.jsonl"@,
        "unresolved.jsonl"@,
    ]
}

pub fn automation_source_files() -> (v: Vec<&'static str>)
    ensures
        v@.map_values(|s: &str| s@) == automation_source_list(),
{
    let mut v: Vec<&'static str> = Vec::new();
    v.push("SOURCE_MANIFEST.toml");
    v.push("design-decisions.jsonl");
    v.push("conversion-policies.jsonl");
    v.push("codec-cases.jsonl");
    v.push("live-compatibility-observations.jsonl");
    v.push("unresolved.jsonl");
    assert(v@.map_values(|s: &str| s@) =~= automation_source_list());
    v
}

/// The generated reports of the value layer, in the order checked.
pub open spec fn automation_report_list() -> Seq<Seq<char>> {
    seq![
        "value-model.md"@,
        "excel-errors.md"@,
        "dates.md"@,
        "currency.md"@,
        "arrays.md"@,
        "conversion-policies.md"@,
        "conversion-errors.md"@,
        "codec-test-matrix.md"@,
        "live-compatibility.md"@,
        "remaining-blockers.md"@,
    ]
}

pub fn automation_report_files() -> (v: Vec<&'static str>)
    ensures
        v@.map_values(|s: &str| s@) == automation_report_list(),
{
    let mut v: Vec<&'static str> = Vec::new();
    v.push("value-model.md");
    v.push("excel-errors.md");
    v.push("dates.md");
    v.push("currency.md");
    v.push("arrays.md");
    v.push("conversion-policies.md");
    v.push("conversion-errors.md");
    v.push("codec-test-matrix.md");
    v.push("live-compatibility.md");
    v.push("remaining-blockers.md");
    assert(v@.map_values(|s: &str| s@) =~= automation_report_list());
    v
}

/// What `serde_json` reports for a text that is not one JSON value.
pub uninterp spec fn json_syntax_error(text: Seq<char>) -> Option<Seq<char>>;

/// `serde_json::from_str::<serde_json::Value>`: whether `text` parses as one
/// JSON value, and if not, the error's message.  Which texts parse, and the
/// message, depend on the text alone; they are left to the named result.
#[verifier::external_body]
fn json_syntax_check(text: &str) -> (r: Option<String>)
    ensures
        match r {
            None => json_syntax_error(text@) is None,
            Some(m) => json_syntax_error(text@) == Some(m@),
        },
{
    match serde_json::from_str::<serde_json::Value>(text) {
        Ok(_) => None,
        Err(error) => Some(error.to_string()),
    }
}

/// The lines of `s` split at each line feed; the text after the last line
/// feed is the last line.
pub open spec fn split_lines(s: Seq<char>) -> Seq<Seq<char>>
    decreases s.len(),
{
    if s.len() == 0 {
        seq![Seq::empty()]
    } else {
        let rest = split_lines(s.drop_last());
        if s.last() == '\n' {
            rest.push(Seq::empty())
        } else {
            rest.update(rest.len() - 1, rest.last().push(s.last()))
        }
    }
}

proof fn lemma_split_lines_nonempty(s: Seq<char>)
    ensures
        split_lines(s).len() >= 1,
    decreases s.len(),
{
    if s.len() > 0 {
        lemma_split_lines_nonempty(s.drop_last());
    }
}

/// The lines of a text that ends with a line feed, as `str::lines` gives
/// them for a text without carriage returns.
pub open spec fn text_lines(s: Seq<char>) -> Seq<Seq<char>> {
    split_lines(s.drop_last())
}

fn lines_of(chars: &Vec<char>, end: usize) -> (r: Vec<String>)
    requires
        end <= chars@.len(),
    ensures
        r@.map_values(|l: String| l@) == split_lines(chars@.take(end as int)),
{
    let mut lines: Vec<String> = Vec::new();
    let mut current: Vec<char> = Vec::new();
    let mut i: usize = 0;
    while i < end
        invariant
            i <= end <= chars@.len(),
            lines@.map_values(|l: String| l@).push(current@) == split_lines(chars@.take(i as int)),
        decreases end - i,
    {
        let ghost before = chars@.take(i as int);
        let c = chars[i];
        assert(chars@.take(i + 1).drop_last() =~= before);
        proof {
            lemma_split_lines_nonempty(before);
        }
        if c == '\n' {
            let line = string_of(&current);
            lines.push(line);
            current = Vec::new();
            assert(lines@.map_values(|l: String| l@).push(current@) =~= split_lines(
                chars@.take(i + 1),
            ));
        } else {
            let ghost prior = lines@.map_values(|l: String| l@);
            current.push(c);
            assert(prior.push(current@) =~= split_lines(chars@.take(i + 1)));
        }
        i = i + 1;
    }
    lines.push(string_of(&current));
    assert(lines@.map_values(|l: String| l@) =~= split_lines(chars@.take(end as int)));
    lines
}

/// The first line of `lines` that is not a JSON value, with its error.
pub open spec fn first_json_error(lines: Seq<Seq<char>>, k: int) -> Option<Seq<char>>
    decreases lines.len() - k,
{
    if k < 0 || k >= lines.len() {
        None
    } else {
        match json_syntax_error(lines[k]) {
            Some(e) => Some(e),
            None => first_json_error(lines, k + 1),
        }
    }
}

/// Why a committed source file is refused: a carriage return, a missing
/// final newline, or (for JSON Lines) a line that is not JSON.
pub open spec fn source_error(name: Seq<char>, text: Seq<char>) -> Option<Seq<char>> {
    if text.contains('\r') || text.len() == 0 || text.last() != '\n' {
        Some("automation-value-layer/"@ + name + " must use LF and a final newline"@)
    } else if ends_with_jsonl_spec(name) {
        match first_json_error(text_lines(text), 0) {
            Some(e) => Some("automation-value-layer/"@ + name + ": "@ + e),
            None => None,
        }
    } else {
        None
    }
}

/// Why a generated report is refused: a carriage return, a missing final
/// newline, or no leading `# ` heading.
pub open spec fn report_error(name: Seq<char>, text: Seq<char>) -> Option<Seq<char>> {
    if text.contains('\r') || text.len() == 0 || text.last() != '\n' || !(text.len() >= 2
        && text[0] == '#' && text[1] == ' ') {
        Some(
            "generated/automation-value-layer/"@ + name
                + " is not a valid deterministic report"@,
        )
    } else {
        None
    }
}

fn has_carriage_return(chars: &Vec<char>) -> (b: bool)
    ensures
        b == chars@.contains('\r'),
{
    let mut i: usize = 0;
    while i < chars.len()
        invariant
            i <= chars@.len(),
            forall|j: int| 0 <= j < i ==> chars@[j] != '\r',
        decreases chars.len() - i,
    {
        if chars[i] == '\r' {
            assert(chars@[i as int] == '\r');
            return true;
        }
        i = i + 1;
    }
    false
}

pub open spec fn ends_with_jsonl_spec(name: Seq<char>) -> bool {
    name.len() >= 6 && name.subrange(name.len() - 6, name.len() as int) == ".jsonl"@
}

fn ends_with_jsonl(name: &str) -> (b: bool)
    ensures
        b == ends_with_jsonl_spec(name@),
{
    proof {
        reveal_strlit(".jsonl");
    }
    let chars = chars_of(name);
    let n = chars.len();
    if n < 6 {
        return false;
    }
    let tail = crate::text::slice_chars(&chars, n - 6, n);
    assert(tail@ == name@.subrange(n - 6, n as int));
    let expected = chars_of(".jsonl");
    assert(expected@.len() == 6);
    let mut i: usize = 0;
    while i < 6
        invariant
            i <= 6,
            tail@.len() == 6,
            n == name@.len(),
            tail@ == name@.subrange(n - 6, n as int),
            expected@.len() == 6,
            expected@ == ".jsonl"@,
            forall|j: int| 0 <= j < i ==> tail@[j] == expected@[j],
        decreases 6 - i,
    {
        if tail[i] != expected[i] {
            assert(tail@[i as int] != ".jsonl"@[i as int]);
            assert(tail@ != ".jsonl"@);
            return false;
        }
        i = i + 1;
    }
    assert(tail@ =~= ".jsonl"@);
    true
}

/// Checks one committed source file of the value layer.
pub fn check_source_file(name: &str, text: &str) -> (r: Result<(), String>)
    ensures
        match source_error(name@, text@) {
            None => r is Ok,
            Some(m) => r matches Err(e) && e@ == m,
        },
{
    let chars = chars_of(text);
    if has_carriage_return(&chars) || chars.len() == 0 || chars[chars.len() - 1] != '\n' {
        let mut m = String::new();
        push_str(&mut m, "automation-value-layer/");
        push_str(&mut m, name);
        push_str(&mut m, " must use LF and a final newline");
        return Err(m);
    }
    if !ends_with_jsonl(name) {
        return Ok(());
    }
    let lines = lines_of(&chars, chars.len() - 1);
    assert(chars@.take(chars@.len() - 1) =~= chars@.drop_last());
    let ghost texts = lines@.map_values(|l: String| l@);
    let mut k: usize = 0;
    while k < lines.len()
        invariant
            k <= lines@.len(),
            texts == lines@.map_values(|l: String| l@),
            texts == text_lines(text@),
            ends_with_jsonl_spec(name@),
            !text@.contains('\r'),
            text@.len() > 0,
            text@.last() == '\n',
            first_json_error(texts, 0) == first_json_error(texts, k as int),
        decreases lines.len() - k,
    {
        assert(texts[k as int] == lines@[k as int]@);
        match json_syntax_check(lines[k].as_str()) {
            Some(e) => {
                assert(first_json_error(texts, k as int) == Some(e@));
                let mut m = String::new();
                push_str(&mut m, "automation-value-layer/");
                push_str(&mut m, name);
                push_str(&mut m, ": ");
                push_str(&mut m, e.as_str());
                assert(ends_with_jsonl_spec(name@));
                assert(source_error(name@, text@) == Some("automation-value-layer/"@ + name@ + ": "@ + e@));
                return Err(m);
            },
            None => {},
        }
        k = k + 1;
    }
    Ok(())
}

/// Checks one generated report of the value layer.
pub fn check_report_file(name: &str, text: &str) -> (r: Result<(), String>)
    ensures
        match report_error(name@, text@) {
            None => r is Ok,
            Some(m) => r matches Err(e) && e@ == m,
        },
{
    let chars = chars_of(text);
    if has_carriage_return(&chars) || chars.len() == 0 || chars[chars.len() - 1] != '\n' || !(
    chars.len() >= 2 && chars[0] == '#' && chars[1] == ' ') {
        let mut m = String::new();
        push_str(&mut m, "generated/automation-value-layer/");
        push_str(&mut m, name);
        push_str(&mut m, " is not a valid deterministic report");
        return Err(m);
    }
    Ok(())
}

/// The outcome of checking the files in order, each given as its read
/// outcome (the text, or the reason it could not be read).
pub open spec fn files_outcome(
    names: Seq<Seq<char>>,
    reads: Seq<Result<String, String>>,
    reports: bool,
    k: int,
) -> Option<Seq<char>>
    decreases names.len() - k,
{
    if k < 0 || k >= names.len() || k >= reads.len() {
        None
    } else {
        match reads[k] {
            Err(e) => Some(e@),
            Ok(t) => match (if reports {
                report_error(names[k], t@)
            } else {
                source_error(names[k], t@)
            }) {
                Some(m) => Some(m),
                None => files_outcome(names, reads, reports, k + 1),
            },
        }
    }
}

/// Validates the value layer's committed evidence without opening Excel:
/// every source file, then every report, in their fixed order; the first
/// unreadable or invalid file ends the check with its error.
pub fn automation_value_check(
    sources: &Vec<Result<String, String>>,
    reports: &Vec<Result<String, String>>,
) -> (r: Result<(), String>)
    requires
        sources@.len() == automation_source_list().len(),
        reports@.len() == automation_report_list().len(),
    ensures
        match files_outcome(automation_source_list(), sources@, false, 0) {
            Some(m) => r matches Err(e) && e@ == m,
            None => match files_outcome(automation_report_list(), reports@, true, 0) {
                Some(m) => r matches Err(e) && e@ == m,
                None => r is Ok,
            },
        },
{
    let names = automation_source_files();
    let mut k: usize = 0;
    while k < sources.len()
        invariant
            k <= sources@.len(),
            sources@.len() == names@.len(),
            names@.map_values(|s: &str| s@) == automation_source_list(),
            files_outcome(automation_source_list(), sources@, false, 0) == files_outcome(
                automation_source_list(),
                sources@,
                false,
                k as int,
            ),
        decreases sources.len() - k,
    {
        assert(automation_source_list()[k as int] == names[k as int]@);
        match &sources[k] {
            Err(e) => {
                return Err(string_of(&chars_of(e.as_str())));
            },
            Ok(t) => match check_source_file(names[k], t.as_str()) {
                Err(m) => {
                    return Err(m);
                },
                Ok(()) => {},
            },
        }
        k = k + 1;
    }
    let names = automation_report_files();
    let mut k: usize = 0;
    while k < reports.len()
        invariant
            k <= reports@.len(),
            reports@.len() == names@.len(),
            names@.map_values(|s: &str| s@) == automation_report_list(),
            files_outcome(automation_source_list(), sources@, false, 0) is None,
            files_outcome(automation_report_list(), reports@, true, 0) == files_outcome(
                automation_report_list(),
                reports@,
                true,
                k as int,
            ),
        decreases reports.len() - k,
    {
        assert(automation_report_list()[k as int] == names[k as int]@);
        match &reports[k] {
            Err(e) => {
                return Err(string_of(&chars_of(e.as_str())));
            },
            Ok(t) => match check_report_file(names[k], t.as_str()) {
                Err(m) => {
                    return Err(m);
                },
                Ok(()) => {},
            },
        }
        k = k + 1;
    }
    Ok(())
}

/// One case of the live compatibility suite: a value written through
/// `member` to the cells at `address`, read back, and compared with
/// `expected`.
#[derive(Debug, PartialEq)]
pub struct LiveCase {
    pub id: &'static str,
    pub member: &'static str,
    pub address: &'static str,
    pub input: AutomationValue,
    pub expected: AutomationValue,
    pub date_write: DateWritePolicy,
    pub optional: bool,
}

/// The identifiers, members, addresses and policies of the suite, in order.
pub open spec fn live_case_table() -> Seq<(Seq<char>, Seq<char>, Seq<char>, DateWritePolicy, bool)> {
    seq![
        ("live.scalar-number"@, "Value2"@, "A1"@, DateWritePolicy::Value2Serial, false),
        ("live.scalar-unicode"@, "Value2"@, "A1"@, DateWritePolicy::Value2Serial, false),
        ("live.scalar-na"@, "Value2"@, "A1"@, DateWritePolicy::Value2Serial, false),
        ("live.scalar-unknown-error"@, "Value2"@, "A1"@, DateWritePolicy::Value2Serial, true),
        ("live.scalar-date-value2"@, "Value2"@, "A1"@, DateWritePolicy::Value2Serial, false),
        ("live.scalar-date-value"@, "Value"@, "A1"@, DateWritePolicy::DateVariant, false),
        ("live.scalar-currency"@, "Value"@, "A1"@, DateWritePolicy::DateVariant, false),
        ("live.array-mixed-2x3"@, "Value2"@, "A1:C2"@, DateWritePolicy::Value2Serial, false),
        ("live.array-errors-2x2"@, "Value2"@, "A1:B2"@, DateWritePolicy::Value2Serial, false),
        ("live.array-row-1x3"@, "Value2"@, "A1:C1"@, DateWritePolicy::Value2Serial, false),
        ("live.array-column-3x1"@, "Value2"@, "A1:A3"@, DateWritePolicy::Value2Serial, false),
    ]
}

/// `42.0`, `1.0`, `2.0`, `3.0` and the date serial `45292.5` as binary64.
pub const FORTY_TWO: u64 = 0x4045_0000_0000_0000u64;

pub const ONE: u64 = 0x3FF0_0000_0000_0000u64;

pub const TWO: u64 = 0x4000_0000_0000_0000u64;

pub const THREE: u64 = 0x4008_0000_0000_0000u64;

pub const NOON_2024_01_01: u64 = 0x40E6_1D90_0000_0000u64;

/// An SCODE that names no standard Excel error (`0x81234567`).
pub const UNKNOWN_SCODE: i32 = -2128394905i32;

/// The values each case writes and expects, where they are scalars.
pub open spec fn live_case_values(k: int, c: LiveCase) -> bool {
    if k == 0 {
        c.input == AutomationValue::Number(FORTY_TWO) && c.expected == c.input
    } else if k == 1 {
        (c.input matches AutomationValue::Text(t) && t@ == "Grüße Ω 😀"@) && (c.expected matches AutomationValue::Text(u) && u@ == "Grüße Ω 😀"@)
    } else if k == 2 {
        c.input == AutomationValue::Error(ExcelError(SCODE_NOT_AVAILABLE)) && c.expected == c.input
    } else if k == 3 {
        c.input == AutomationValue::Error(ExcelError(UNKNOWN_SCODE)) && c.expected
            == c.input
    } else if k == 4 {
        c.input == AutomationValue::Date(OaDate(NOON_2024_01_01)) && c.expected
            == AutomationValue::Number(NOON_2024_01_01)
    } else if k == 5 {
        c.input == AutomationValue::Date(OaDate(NOON_2024_01_01)) && c.expected == c.input
    } else if k == 6 {
        c.input == AutomationValue::Currency(Currency(1_234_500)) && c.expected == c.input
    } else if k == 7 {
        (c.input matches AutomationValue::Array(a) && a.rows == 2 && a.columns == 3)
            && (c.expected matches AutomationValue::Array(b) && b.rows == 2 && b.columns == 3)
    } else if k == 8 {
        c.input matches AutomationValue::Array(a) && a.rows == 2 && a.columns == 2 && a.values@
            == seq![
            AutomationValue::Error(ExcelError(SCODE_NULL)),
            AutomationValue::Error(ExcelError(SCODE_DIV0)),
            AutomationValue::Error(ExcelError(SCODE_VALUE)),
            AutomationValue::Error(ExcelError(SCODE_NOT_AVAILABLE)),
        ] && (c.expected matches AutomationValue::Array(b) && b.rows == a.rows && b.columns == a.columns
            && b.values@ == a.values@)
    } else if k == 9 {
        c.input matches AutomationValue::Array(a) && a.rows == 1 && a.columns == 3 && a.values@
            == seq![
            AutomationValue::Number(ONE),
            AutomationValue::Number(TWO),
            AutomationValue::Number(THREE),
        ] && (c.expected matches AutomationValue::Array(b) && b.rows == a.rows && b.columns == a.columns
            && b.values@ == a.values@)
    } else {
        c.input matches AutomationValue::Array(a) && a.rows == 3 && a.columns == 1 && a.values@
            == seq![
            AutomationValue::Number(ONE),
            AutomationValue::Number(TWO),
            AutomationValue::Number(THREE),
        ] && (c.expected matches AutomationValue::Array(b) && b.rows == a.rows && b.columns == a.columns
            && b.values@ == a.values@)
    }
}

pub open spec fn is_live_case(k: int, c: LiveCase) -> bool {
    let row = live_case_table()[k];
    &&& c.id@ == row.0
    &&& c.member@ == row.1
    &&& c.address@ == row.2
    &&& c.date_write == row.3
    &&& c.optional == row.4
    &&& live_case_values(k, c)
}

fn case(
    id: &'static str,
    member: &'static str,
    address: &'static str,
    input: AutomationValue,
    expected: AutomationValue,
    date_write: DateWritePolicy,
    optional: bool,
) -> (c: LiveCase)
    ensures
        c == (LiveCase { id, member, address, input, expected, date_write, optional }),
{
    LiveCase { id, member, address, input, expected, date_write, optional }
}

fn numbers_1_2_3() -> (v: Vec<AutomationValue>)
    ensures
        v@ == seq![
            AutomationValue::Number(ONE),
            AutomationValue::Number(TWO),
            AutomationValue::Number(THREE),
        ],
{
    let mut v = Vec::new();
    v.push(AutomationValue::Number(ONE));
    v.push(AutomationValue::Number(TWO));
    v.push(AutomationValue::Number(THREE));
    assert(v@ =~= seq![
        AutomationValue::Number(ONE),
        AutomationValue::Number(TWO),
        AutomationValue::Number(THREE),
    ]);
    v
}

fn mixed_rectangle() -> (a: AutomationArray)
    ensures
        a.rows == 2 && a.columns == 3,
{
    let mut v = Vec::new();
    v.push(AutomationValue::Number(FORTY_TWO));
    v.push(AutomationValue::Text(String::from_str("Grüße Ω")));
    v.push(AutomationValue::Bool(true));
    v.push(AutomationValue::Empty);
    v.push(AutomationValue::Error(ExcelError(SCODE_NOT_AVAILABLE)));
    v.push(AutomationValue::Currency(Currency(12_345)));
    AutomationArray { rows: 2, columns: 3, values: v }
}

fn error_rectangle() -> (a: AutomationArray)
    ensures
        a.rows == 2 && a.columns == 2 && a.values@ == seq![
            AutomationValue::Error(ExcelError(SCODE_NULL)),
            AutomationValue::Error(ExcelError(SCODE_DIV0)),
            AutomationValue::Error(ExcelError(SCODE_VALUE)),
            AutomationValue::Error(ExcelError(SCODE_NOT_AVAILABLE)),
        ],
{
    let mut v = Vec::new();
    v.push(AutomationValue::Error(ExcelError(SCODE_NULL)));
    v.push(AutomationValue::Error(ExcelError(SCODE_DIV0)));
    v.push(AutomationValue::Error(ExcelError(SCODE_VALUE)));
    v.push(AutomationValue::Error(ExcelError(SCODE_NOT_AVAILABLE)));
    let a = AutomationArray { rows: 2, columns: 2, values: v };
    assert(a.values@ =~= seq![
        AutomationValue::Error(ExcelError(SCODE_NULL)),
        AutomationValue::Error(ExcelError(SCODE_DIV0)),
        AutomationValue::Error(ExcelError(SCODE_VALUE)),
        AutomationValue::Error(ExcelError(SCODE_NOT_AVAILABLE)),
    ]);
    a
}

/// The live compatibility suite, in its fixed order.
pub fn live_cases() -> (v: Vec<LiveCase>)
    ensures
        v@.len() == live_case_table().len(),
        forall|k: int| 0 <= k < v@.len() ==> is_live_case(k, #[trigger] v@[k]),
{
    let mut v: Vec<LiveCase> = Vec::new();
    v.push(case("live.scalar-number", "Value2", "A1", AutomationValue::Number(FORTY_TWO), AutomationValue::Number(FORTY_TWO), DateWritePolicy::Value2Serial, false));
    v.push(case("live.scalar-unicode", "Value2", "A1", AutomationValue::Text(String::from_str("Grüße Ω 😀")), AutomationValue::Text(String::from_str("Grüße Ω 😀")), DateWritePolicy::Value2Serial, false));
    v.push(case("live.scalar-na", "Value2", "A1", AutomationValue::Error(ExcelError(SCODE_NOT_AVAILABLE)), AutomationValue::Error(ExcelError(SCODE_NOT_AVAILABLE)), DateWritePolicy::Value2Serial, false));
    v.push(case("live.scalar-unknown-error", "Value2", "A1", AutomationValue::Error(ExcelError(UNKNOWN_SCODE)), AutomationValue::Error(ExcelError(UNKNOWN_SCODE)), DateWritePolicy::Value2Serial, true));
    v.push(case("live.scalar-date-value2", "Value2", "A1", AutomationValue::Date(OaDate(NOON_2024_01_01)), AutomationValue::Number(NOON_2024_01_01), DateWritePolicy::Value2Serial, false));
    v.push(case("live.scalar-date-value", "Value", "A1", AutomationValue::Date(OaDate(NOON_2024_01_01)), AutomationValue::Date(OaDate(NOON_2024_01_01)), DateWritePolicy::DateVariant, false));
    v.push(case("live.scalar-currency", "Value", "A1", AutomationValue::Currency(Currency(1_234_500)), AutomationValue::Currency(Currency(1_234_500)), DateWritePolicy::DateVariant, false));
    v.push(case("live.array-mixed-2x3", "Value2", "A1:C2", AutomationValue::Array(mixed_rectangle()), AutomationValue::Array(mixed_rectangle()), DateWritePolicy::Value2Serial, false));
    v.push(case("live.array-errors-2x2", "Value2", "A1:B2", AutomationValue::Array(error_rectangle()), AutomationValue::Array(error_rectangle()), DateWritePolicy::Value2Serial, false));
    v.push(case("live.array-row-1x3", "Value2", "A1:C1", AutomationValue::Array(AutomationArray { rows: 1, columns: 3, values: numbers_1_2_3() }), AutomationValue::Array(AutomationArray { rows: 1, columns: 3, values: numbers_1_2_3() }), DateWritePolicy::Value2Serial, false));
    v.push(case("live.array-column-3x1", "Value2", "A1:A3", AutomationValue::Array(AutomationArray { rows: 3, columns: 1, values: numbers_1_2_3() }), AutomationValue::Array(AutomationArray { rows: 3, columns: 1, values: numbers_1_2_3() }), DateWritePolicy::Value2Serial, false));
    assert(is_live_case(0, v@[0]));
    assert(is_live_case(1, v@[1]));
    assert(is_live_case(2, v@[2]));
    assert(is_live_case(3, v@[3]));
    assert(is_live_case(4, v@[4]));
    assert(is_live_case(5, v@[5]));
    assert(is_live_case(6, v@[6]));
    assert(is_live_case(7, v@[7]));
    assert(is_live_case(8, v@[8]));
    assert(is_live_case(9, v@[9]));
    assert(is_live_case(10, v@[10]));
    assert forall|k: int| 0 <= k < v@.len() implies is_live_case(k, #[trigger] v@[k]) by {
        assert(0 <= k <= 10);
    }
    v
}

/// Selects the cases of a run: every case, or the case whose identifier is
/// `only_case`; an unknown identifier is refused.
pub fn select_live_cases(only_case: Option<&str>) -> (r: Result<Vec<LiveCase>, String>)
    ensures
        match r {
            Ok(v) => v@.len() > 0 && match only_case {
                None => v@.len() == live_case_table().len() && forall|k: int|
                    0 <= k < v@.len() ==> is_live_case(k, #[trigger] v@[k]),
                Some(id) => v@.len() == 1 && v@[0].id@ == id@ && exists|k: int|
                    0 <= k < live_case_table().len() && #[trigger] is_live_case(k, v@[0]),
            },
            Err(e) => only_case matches Some(id) && (forall|k: int|
                0 <= k < live_case_table().len() ==> #[trigger] live_case_table()[k].0 != id@) && e@
                == "unknown live compatibility case: "@ + id@,
        },
{
    let all = live_cases();
    match only_case {
        None => Ok(all),
        Some(id) => {
            let mut rest = all;
            let ghost original = rest@;
            let mut k: usize = rest.len();
            while k > 0
                invariant
                    only_case == Some(id),
                    k <= rest@.len(),
                    rest@.len() <= original.len(),
                    original.len() == live_case_table().len(),
                    forall|j: int| 0 <= j < original.len() ==> is_live_case(j, #[trigger] original[j]),
                    rest@ == original.take(rest@.len() as int),
                    rest@.len() == k,
                    forall|j: int| k <= j < original.len() ==> #[trigger] live_case_table()[j].0 != id@,
                decreases k,
            {
                let c = rest.pop().unwrap();
                assert(c == original[k - 1]);
                if str_eq(c.id, id) {
                    let ghost j = k - 1;
                    assert(is_live_case(j, original[j]));
                    let mut v = Vec::new();
                    v.push(c);
                    assert(v@[0] == original[j]);
                    assert(live_case_table()[j].0 == id@ && is_live_case(j, v@[0]));
                    return Ok(v);
                }
                k = k - 1;
                assert(rest@ =~= original.take(k as int));
            }
            let mut e = String::new();
            push_str(&mut e, "unknown live compatibility case: ");
            push_str(&mut e, id);
            Err(e)
        },
    }
}

/// How one live case ended.
#[derive(Debug, Clone, Copy, PartialEq, Eq, Structural)]
pub enum LiveClassification {
    RuntimeObserved,
    RuntimeFailed,
    OptionalNotAccepted,
    ConversionFailed,
}

impl LiveClassification {
    pub open spec fn text_spec(self) -> Seq<char> {
        match self {
            LiveClassification::RuntimeObserved => "Runtime-observed"@,
            LiveClassification::RuntimeFailed => "Runtime-failed"@,
            LiveClassification::OptionalNotAccepted => "Optional-not-accepted"@,
            LiveClassification::ConversionFailed => "Conversion-failed"@,
        }
    }

    pub fn text(self) -> (s: &'static str)
        ensures
            s@ == self.text_spec(),
    {
        match self {
            LiveClassification::RuntimeObserved => "Runtime-observed",
            LiveClassification::RuntimeFailed => "Runtime-failed",
            LiveClassification::OptionalNotAccepted => "Optional-not-accepted",
            LiveClassification::ConversionFailed => "Conversion-failed",
        }
    }
}

/// What the transport reported for one case that was written and read.
#[derive(Debug, Clone, Copy, PartialEq, Eq, Structural)]
pub struct LiveTransport {
    pub write_hresult: i32,
    pub read_hresult: i32,
    pub clear_hresult: i32,
    pub owned_process_exit_verified: bool,
}

/// A case is compatible when the write, read and clear succeeded, the owned
/// process exited, and the decoded value matched the expected one.
pub open spec fn compatible(t: LiveTransport, decoded_matches: bool) -> bool {
    t.write_hresult == 0 && t.read_hresult == 0 && t.clear_hresult == 0
        && t.owned_process_exit_verified && decoded_matches
}

/// Law: a transported case is observed only when the write, the read and
/// the clear all returned `S_OK` (0), the owned process was seen to exit and
/// the decoded value matched, and then it is observed; any failing HRESULT
/// (the clear's included), an unverified exit or a mismatch fails a required
/// case and leaves an optional one not accepted.  A classification is never
/// `Conversion-failed` once the value reached the transport.
pub proof fn lemma_observed_needs_clean_transport(
    optional: bool,
    t: LiveTransport,
    decoded_matches: bool,
    c: LiveClassification,
)
    requires
        c == (if compatible(t, decoded_matches) {
            LiveClassification::RuntimeObserved
        } else if optional {
            LiveClassification::OptionalNotAccepted
        } else {
            LiveClassification::RuntimeFailed
        }),
    ensures
        c == LiveClassification::RuntimeObserved <==> (t.write_hresult == 0 && t.read_hresult == 0
            && t.clear_hresult == 0 && t.owned_process_exit_verified && decoded_matches),
        t.write_hresult != 0 || t.read_hresult != 0 || t.clear_hresult != 0
            || !t.owned_process_exit_verified || !decoded_matches ==> c == (if optional {
            LiveClassification::OptionalNotAccepted
        } else {
            LiveClassification::RuntimeFailed
        }),
        c != LiveClassification::ConversionFailed,
{
}

/// The classification of a case that reached the transport; a failure of an
/// optional case is recorded as not accepted.
pub fn classify_transported(optional: bool, transport: LiveTransport, decoded_matches: bool) -> (c:
    LiveClassification)
    ensures
        c == (if compatible(transport, decoded_matches) {
            LiveClassification::RuntimeObserved
        } else if optional {
            LiveClassification::OptionalNotAccepted
        } else {
            LiveClassification::RuntimeFailed
        }),
        c == LiveClassification::RuntimeObserved <==> (transport.write_hresult == 0
            && transport.read_hresult == 0 && transport.clear_hresult == 0
            && transport.owned_process_exit_verified && decoded_matches),
        transport.clear_hresult != 0 ==> c == (if optional {
            LiveClassification::OptionalNotAccepted
        } else {
            LiveClassification::RuntimeFailed
        }),
{
    if transport.write_hresult == 0 && transport.read_hresult == 0 && transport.clear_hresult == 0
        && transport.owned_process_exit_verified && decoded_matches {
        LiveClassification::RuntimeObserved
    } else if optional {
        LiveClassification::OptionalNotAccepted
    } else {
        LiveClassification::RuntimeFailed
    }
}

/// The classification of a case whose transport call itself failed.
pub fn classify_transport_failure(optional: bool) -> (c: LiveClassification)
    ensures
        c == (if optional {
            LiveClassification::OptionalNotAccepted
        } else {
            LiveClassification::RuntimeFailed
        }),
{
    if optional {
        LiveClassification::OptionalNotAccepted
    } else {
        LiveClassification::RuntimeFailed
    }
}

/// The outcome of one executed case.
#[derive(Debug, Clone, PartialEq, Eq)]
pub struct LiveOutcome {
    pub id: String,
    pub optional: bool,
    pub classification: LiveClassification,
}

/// The identifiers of the required cases that were not observed, in order.
pub open spec fn required_failures(outcomes: Seq<LiveOutcome>) -> Seq<Seq<char>>
    decreases outcomes.len(),
{
    if outcomes.len() == 0 {
        Seq::empty()
    } else {
        let o = outcomes.last();
        let rest = required_failures(outcomes.drop_last());
        if !o.optional && o.classification != LiveClassification::RuntimeObserved {
            rest.push(o.id@)
        } else {
            rest
        }
    }
}

/// The number of outcomes that are not optional-not-accepted.
pub open spec fn accepted_count(outcomes: Seq<LiveOutcome>) -> nat
    decreases outcomes.len(),
{
    if outcomes.len() == 0 {
        0
    } else {
        accepted_count(outcomes.drop_last()) + if outcomes.last().classification
            == LiveClassification::OptionalNotAccepted {
            0nat
        } else {
            1nat
        }
    }
}

/// The verdict of a live compatibility run: every required case must have
/// been observed; otherwise the failed required cases are listed.
pub fn automation_value_live(outcomes: &Vec<LiveOutcome>) -> (r: Result<String, String>)
    ensures
        required_failures(outcomes@).len() == 0 ==> (r matches Ok(m) && m@ == "completed "@
            + crate::text::decimal(accepted_count(outcomes@))
            + " required live compatibility cases; optional unknown-SCODE result recorded"@),
        required_failures(outcomes@).len() > 0 ==> (r matches Err(e) && e@
            == "live compatibility required failures: "@ + crate::text::joined(
            required_failures(outcomes@),
            ", "@,
        )),
{
    let mut failures: Vec<&str> = Vec::new();
    let mut accepted: usize = 0;
    let mut i: usize = 0;
    while i < outcomes.len()
        invariant
            i <= outcomes@.len(),
            failures@.map_values(|s: &str| s@) == required_failures(outcomes@.take(i as int)),
            accepted == accepted_count(outcomes@.take(i as int)),
            accepted <= i,
        decreases outcomes.len() - i,
    {
        assert(outcomes@.take(i + 1).drop_last() =~= outcomes@.take(i as int));
        let o = &outcomes[i];
        if !o.optional && o.classification != LiveClassification::RuntimeObserved {
            let ghost before = failures@;
            failures.push(o.id.as_str());
            assert(failures@.map_values(|s: &str| s@) =~= before.map_values(|s: &str| s@).push(
                o.id@,
            ));
        }
        if o.classification != LiveClassification::OptionalNotAccepted {
            accepted = accepted + 1;
        }
        i = i + 1;
    }
    assert(outcomes@.take(i as int) =~= outcomes@);
    if failures.len() == 0 {
        let mut m = String::new();
        push_str(&mut m, "completed ");
        crate::text::push_decimal(&mut m, accepted as u64);
        push_str(&mut m, " required live compatibility cases; optional unknown-SCODE result recorded");
        Ok(m)
    } else {
        let mut e = String::new();
        push_str(&mut e, "live compatibility required failures: ");
        let joined = crate::text::join_strs(&failures, ", ");
        push_str(&mut e, joined.as_str());
        Err(e)
    }
}

} // verus!
