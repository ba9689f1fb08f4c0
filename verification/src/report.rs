//! Text of the generated runtime reports and of the runtime source manifest,
//! and the checks that committed artifacts must pass.

use vstd::prelude::*;

use crate::text::{
    chars_of, contains_spec, contains_text, is_white_space, push_char, push_decimal, push_str,
    replace_spec, replace_text, slice_chars, string_of, trim_bounds, trimmed,
};

verus! {

/// The version of the probe recorded in the runtime source manifest.
pub const PROBE_VERSION: u32 = 2u32;

/// The standard header of a generated report.
pub open spec fn report_header_text(title: Seq<char>, subtitle: Seq<char>) -> Seq<char> {
    "# "@ + title + "\n\nGenerated by `excel-com-range-probe`; do not edit by hand. "@ + subtitle
        + "\n\nRuntime observations are version-specific and do not define a public API.\n\n"@
}

pub fn report_header(title: &str, subtitle: &str) -> (s: String)
    ensures
        s@ == report_header_text(title@, subtitle@),
{
    let mut s = String::new();
    push_str(&mut s, "# ");
    push_str(&mut s, title);
    push_str(&mut s, "\n\nGenerated by `excel-com-range-probe`; do not edit by hand. ");
    push_str(&mut s, subtitle);
    push_str(
        &mut s,
        "\n\nRuntime observations are version-specific and do not define a public API.\n\n",
    );
    s
}

/// Line breaks become `<br>` and pipes are escaped, so the text stays in
/// one Markdown table cell.
pub open spec fn cell_escape(t: Seq<char>) -> Seq<char> {
    replace_spec(replace_spec(replace_spec(t, "\r\n"@, "<br>"@), "\n"@, "<br>"@), "|"@, "\\|"@)
}

/// `t` without its leading white space.
pub open spec fn trim_start(t: Seq<char>) -> Seq<char>
    decreases t.len(),
{
    if t.len() > 0 && is_white_space(t[0]) {
        trim_start(t.drop_first())
    } else {
        t
    }
}

/// `t` without its trailing white space.
pub open spec fn trim_end(t: Seq<char>) -> Seq<char>
    decreases t.len(),
{
    if t.len() > 0 && is_white_space(t.last()) {
        trim_end(t.drop_last())
    } else {
        t
    }
}

/// `t` without leading and trailing white space (`str::trim`).
pub open spec fn trim_chars(t: Seq<char>) -> Seq<char> {
    trim_end(trim_start(t))
}

proof fn lemma_trim_start(s: Seq<char>, lo: int)
    requires
        0 <= lo <= s.len(),
        forall|j: int| 0 <= j < lo ==> is_white_space(#[trigger] s[j]),
        lo < s.len() ==> !is_white_space(s[lo]),
    ensures
        trim_start(s) == s.skip(lo),
    decreases lo,
{
    if lo == 0 {
        assert(s.skip(0) =~= s);
    } else {
        assert(is_white_space(s[0]));
        let t = s.drop_first();
        assert forall|j: int| 0 <= j < lo - 1 implies is_white_space(#[trigger] t[j]) by {
            assert(t[j] == s[j + 1]);
        }
        if lo - 1 < t.len() {
            assert(t[lo - 1] == s[lo]);
        }
        lemma_trim_start(t, lo - 1);
        assert(t.skip(lo - 1) =~= s.skip(lo));
    }
}

proof fn lemma_trim_end(t: Seq<char>, n: int)
    requires
        0 <= n <= t.len(),
        forall|j: int| n <= j < t.len() ==> is_white_space(#[trigger] t[j]),
        n > 0 ==> !is_white_space(t[n - 1]),
    ensures
        trim_end(t) == t.take(n),
    decreases t.len(),
{
    if t.len() == n {
        assert(t.take(n) =~= t);
    } else {
        let u = t.drop_last();
        assert forall|j: int| n <= j < u.len() implies is_white_space(#[trigger] u[j]) by {
            assert(u[j] == t[j]);
        }
        if n > 0 {
            assert(u[n - 1] == t[n - 1]);
        }
        lemma_trim_end(u, n);
        assert(u.take(n) =~= t.take(n));
    }
}

/// The bounds that `trim_bounds` finds give exactly `str::trim`.
proof fn lemma_trimmed_is_trim(s: Seq<char>, lo: int, hi: int)
    requires
        trimmed(s, lo, hi),
    ensures
        s.subrange(lo, hi) == trim_chars(s),
{
    if lo < hi {
        lemma_trim_start(s, lo);
        let t = s.skip(lo);
        assert forall|j: int| hi - lo <= j < t.len() implies is_white_space(#[trigger] t[j]) by {
            assert(t[j] == s[j + lo]);
        }
        assert(t[hi - lo - 1] == s[hi - 1]);
        lemma_trim_end(t, hi - lo);
        assert(t.take(hi - lo) =~= s.subrange(lo, hi));
    } else {
        assert forall|j: int| 0 <= j < s.len() implies is_white_space(#[trigger] s[j]) by {
            if j >= lo {
                assert(j >= hi);
            }
        }
        lemma_trim_start(s, s.len() as int);
        assert(s.skip(s.len() as int) =~= Seq::<char>::empty());
        assert(s.subrange(lo, hi) =~= Seq::<char>::empty());
    }
}

/// `markdown_cell` of a text: trimmed, then escaped.
#[verifier::opaque]
pub open spec fn md(t: Seq<char>) -> Seq<char> {
    cell_escape(trim_chars(t))
}

/// A value as one Markdown table cell: trimmed, then escaped.
pub fn markdown_cell(value: &str) -> (r: String)
    ensures
        r@ == md(value@),
{
    proof {
        reveal_strlit("\r\n");
        reveal_strlit("\n");
        reveal_strlit("|");
    }
    let chars = chars_of(value);
    let (lo, hi) = trim_bounds(&chars);
    let inner = string_of(&slice_chars(&chars, lo, hi));
    let a = replace_text(inner.as_str(), "\r\n", "<br>");
    let b = replace_text(a.as_str(), "\n", "<br>");
    let r = replace_text(b.as_str(), "|", "\\|");
    proof {
        lemma_trimmed_is_trim(value@, lo as int, hi as int);
        reveal(md);
    }
    r
}

/// Backslashes and double quotes escaped for a TOML basic string.
pub open spec fn toml_escaped(t: Seq<char>) -> Seq<char> {
    replace_spec(replace_spec(t, "\\"@, "\\\\"@), "\""@, "\\\""@)
}

pub fn escape_toml(value: &str) -> (r: String)
    ensures
        r@ == toml_escaped(value@),
{
    proof {
        reveal_strlit("\\");
        reveal_strlit("\"");
    }
    let a = replace_text(value, "\\", "\\\\");
    replace_text(a.as_str(), "\"", "\\\"")
}

pub open spec fn manifest_head() -> Seq<char> {
    "schema_version = 1\nprobe_version = 2\nprompt_05_start_origin_master_commit = \"2ac52effadafe6cd5b95b448f356a62389fa54f2\"\nprompt_05b_start_origin_master_commit = \"dbbc9600af2628b45e3f05431ce168102ad9e6ae\"\ndocumentation_source_pin = \"b2cda886ea91e36c62eb1cb177133ad024ecd345\"\ntypelib_guid = \"{00020813-0000-0000-C000-000000000046}\"\ntypelib_version = \"1.9\"\nexcel_file_version = \"16.0.20131.20154\"\noffice_bitness = \"64-bit\"\nwindows_version = \"Windows 10 Enterprise 25H2 build 26200.8875\"\nlocale = \"LOCALE_USER_DEFAULT (0x0400) for Prompt 05B raw calls\"\nlist_separator = \"not-recorded-by-raw-probe\"\ndecimal_separator = \"not-recorded-by-raw-probe\"\ndate_system = \"not-recorded-by-raw-probe\"\ncalculation_mode_before = \"not-recorded-by-raw-probe\"\ncalculation_mode_after = \"not-recorded-by-raw-probe\"\nexecution_date = \"2026-07-21\"\ncontrol_version = \""@
}

pub open spec fn manifest_tail() -> Seq<char> {
    "\"\nprocess_isolation = \"CoCreateInstance local server; require Hwnd-to-PID/start-time identity before Range work; close only created workbooks; record bounded cleanup exactly\"\n"@
}

/// The runtime source manifest naming the control client's version.
pub open spec fn runtime_manifest_text(control_version: Seq<char>) -> Seq<char> {
    manifest_head() + toml_escaped(control_version) + manifest_tail()
}

pub fn runtime_manifest(control_version: &str) -> (s: String)
    ensures
        s@ == runtime_manifest_text(control_version@),
{
    let mut s = String::new();
    push_str(
        &mut s,
        "schema_version = 1\nprobe_version = 2\nprompt_05_start_origin_master_commit = \"2ac52effadafe6cd5b95b448f356a62389fa54f2\"\nprompt_05b_start_origin_master_commit = \"dbbc9600af2628b45e3f05431ce168102ad9e6ae\"\ndocumentation_source_pin = \"b2cda886ea91e36c62eb1cb177133ad024ecd345\"\ntypelib_guid = \"{00020813-0000-0000-C000-000000000046}\"\ntypelib_version = \"1.9\"\nexcel_file_version = \"16.0.20131.20154\"\noffice_bitness = \"64-bit\"\nwindows_version = \"Windows 10 Enterprise 25H2 build 26200.8875\"\nlocale = \"LOCALE_USER_DEFAULT (0x0400) for Prompt 05B raw calls\"\nlist_separator = \"not-recorded-by-raw-probe\"\ndecimal_separator = \"not-recorded-by-raw-probe\"\ndate_system = \"not-recorded-by-raw-probe\"\ncalculation_mode_before = \"not-recorded-by-raw-probe\"\ncalculation_mode_after = \"not-recorded-by-raw-probe\"\nexecution_date = \"2026-07-21\"\ncontrol_version = \"",
    );
    let escaped = escape_toml(control_version);
    push_str(&mut s, escaped.as_str());
    push_str(
        &mut s,
        "\"\nprocess_isolation = \"CoCreateInstance local server; require Hwnd-to-PID/start-time identity before Range work; close only created workbooks; record bounded cleanup exactly\"\n",
    );
    s
}

/// The first mojibake pattern that `text` contains.
pub open spec fn first_mojibake(text: Seq<char>) -> Option<Seq<char>> {
    if contains_spec(text, "â"@) {
        Some("â"@)
    } else if contains_spec(text, "ï¿½"@) {
        Some("ï¿½"@)
    } else if contains_spec(text, "\u{FFFD}"@) {
        Some("\u{FFFD}"@)
    } else {
        None
    }
}

pub open spec fn mojibake_message(path: Seq<char>, pattern: Seq<char>) -> Seq<char> {
    "runtime artifact "@ + path + " contains mojibake pattern \""@ + pattern + "\""@
}

/// Refuses an artifact text that contains a known mojibake pattern; the
/// error names the artifact (as displayed) and the pattern.
pub fn reject_mojibake(text: &str, path: &str) -> (r: Result<(), String>)
    ensures
        match first_mojibake(text@) {
            None => r is Ok,
            Some(p) => r matches Err(m) && m@ == mojibake_message(path@, p),
        },
{
    let pattern: &str = if contains_text(text, "â") {
        "â"
    } else if contains_text(text, "ï¿½") {
        "ï¿½"
    } else if contains_text(text, "\u{FFFD}") {
        "\u{FFFD}"
    } else {
        return Ok(());
    };
    let mut m = String::new();
    push_str(&mut m, "runtime artifact ");
    push_str(&mut m, path);
    push_str(&mut m, " contains mojibake pattern \"");
    push_str(&mut m, pattern);
    push_str(&mut m, "\"");
    Err(m)
}

/// Whether a text uses LF line endings only and ends with a newline.
pub open spec fn lf_terminated(t: Seq<char>) -> bool {
    !contains_spec(t, "\r\n"@) && t.len() > 0 && t.last() == '\n'
}

pub fn is_lf_terminated(text: &str) -> (b: bool)
    ensures
        b == lf_terminated(text@),
{
    let chars = chars_of(text);
    !contains_text(text, "\r\n") && chars.len() > 0 && chars[chars.len() - 1] == '\n'
}

/// Why a committed artifact does not match the text regenerated for it:
/// the regenerated text carries mojibake (named by its relative path), the
/// committed file could not be read, differs, or is not LF-terminated
/// (named by its full path).
pub open spec fn artifact_error(
    relative: Seq<char>,
    path: Seq<char>,
    expected: Seq<char>,
    actual: Result<String, String>,
) -> Option<Seq<char>> {
    match first_mojibake(expected) {
        Some(p) => Some(mojibake_message(relative, p)),
        None => match actual {
            Err(e) => Some("cannot read "@ + path + ": "@ + e@),
            Ok(a) => if a@ != expected {
                Some("runtime artifact "@ + path + " is stale; rerun the explicit live probe"@)
            } else if !lf_terminated(a@) {
                Some("runtime artifact "@ + path + " must have LF endings and a final newline"@)
            } else {
                None
            },
        },
    }
}

/// Checks one committed artifact against the text regenerated for it.
pub fn check_artifact(relative: &str, path: &str, expected: &str, actual: &Result<String, String>) -> (r:
    Result<(), String>)
    ensures
        match artifact_error(relative@, path@, expected@, *actual) {
            None => r is Ok,
            Some(m) => r matches Err(e) && e@ == m,
        },
{
    match reject_mojibake(expected, relative) {
        Err(e) => {
            return Err(e);
        },
        Ok(()) => {},
    }
    let text = match actual {
        Err(e) => {
            let mut m = String::new();
            push_str(&mut m, "cannot read ");
            push_str(&mut m, path);
            push_str(&mut m, ": ");
            push_str(&mut m, e.as_str());
            return Err(m);
        },
        Ok(a) => a,
    };
    if !crate::text::str_eq(text.as_str(), expected) {
        let mut m = String::new();
        push_str(&mut m, "runtime artifact ");
        push_str(&mut m, path);
        push_str(&mut m, " is stale; rerun the explicit live probe");
        return Err(m);
    }
    if !is_lf_terminated(text.as_str()) {
        let mut m = String::new();
        push_str(&mut m, "runtime artifact ");
        push_str(&mut m, path);
        push_str(&mut m, " must have LF endings and a final newline");
        return Err(m);
    }
    Ok(())
}

} // verus!
