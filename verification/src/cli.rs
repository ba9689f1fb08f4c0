//! Command-line options of the probe and the audit: `--key value` pairs,
//! each key at most once.

use vstd::prelude::*;

use crate::text::{chars_of, push_str, slice_chars, str_eq, string_of};

verus! {

/// The usage line of the range probe.
pub open spec fn probe_usage_text() -> Seq<char> {
    "usage: excel-com-range-probe <live|diagnose|parity|refresh|check|kernel-init|kernel|kernel-check> --root <knowledge-root> [--control-script <path>] [--mode <rust-baseline|pywin32-dynamic|pywin32-generated|comtypes-dynamic|comtypes-generated|L|S|X|all>] [--backend <raw-windows-sys|high-level-windows>] [--action <single|repeatability|compare|retry>] [--fixture <controlled-fixture>] [--run-id <id>]"@
}

pub fn probe_usage() -> (s: String)
    ensures
        s@ == probe_usage_text(),
{
    String::from_str(
        "usage: excel-com-range-probe <live|diagnose|parity|refresh|check|kernel-init|kernel|kernel-check> --root <knowledge-root> [--control-script <path>] [--mode <rust-baseline|pywin32-dynamic|pywin32-generated|comtypes-dynamic|comtypes-generated|L|S|X|all>] [--backend <raw-windows-sys|high-level-windows>] [--action <single|repeatability|compare|retry>] [--fixture <controlled-fixture>] [--run-id <id>]",
    )
}

/// The usage line of the type-library audit.
pub open spec fn audit_usage_text() -> Seq<char> {
    "usage: excel-com-typelib-audit <audit|check|check-historical> --root <knowledge-root> [--typelib <path>] [--windows-version <value>] [--excel-file-version <value>] [--office-bitness <value>]"@
}

pub fn audit_usage() -> (s: String)
    ensures
        s@ == audit_usage_text(),
{
    String::from_str(
        "usage: excel-com-typelib-audit <audit|check|check-historical> --root <knowledge-root> [--typelib <path>] [--windows-version <value>] [--excel-file-version <value>] [--office-bitness <value>]",
    )
}

/// Whether `t` begins with `--`.
pub open spec fn is_flag(t: Seq<char>) -> bool {
    t.len() >= 2 && t[0] == '-' && t[1] == '-'
}

/// Whether the key `key` occurs among the first `n` option pairs.
pub open spec fn key_among(arguments: Seq<String>, n: int, key: Seq<char>) -> bool {
    exists|j: int| 0 <= j < n && #[trigger] arguments[2 * j]@.skip(2) == key
}

/// The outcome of reading `--key value` pairs: the pairs in order, or the
/// usage line for a key without `--` or a key without a value, or
/// `duplicate option --key` for a repeated key, whichever comes first.
pub open spec fn options_outcome(arguments: Seq<String>, usage: Seq<char>, k: int) -> Result<
    Seq<(Seq<char>, Seq<char>)>,
    Seq<char>,
>
    decreases arguments.len() - 2 * k,
{
    if k < 0 || 2 * k >= arguments.len() {
        Ok(Seq::empty())
    } else if !is_flag(arguments[2 * k]@) || 2 * k + 1 >= arguments.len() {
        Err(usage)
    } else if key_among(arguments, k, arguments[2 * k]@.skip(2)) {
        Err("duplicate option --"@ + arguments[2 * k]@.skip(2))
    } else {
        match options_outcome(arguments, usage, k + 1) {
            Ok(rest) => Ok(seq![(arguments[2 * k]@.skip(2), arguments[2 * k + 1]@)] + rest),
            Err(e) => Err(e),
        }
    }
}

/// Reads `--key value` pairs in order; `usage` is the error for a malformed
/// argument list.
pub fn parse_options(arguments: &Vec<String>, usage: &str) -> (r: Result<Vec<(String, String)>, String>)
    ensures
        match options_outcome(arguments@, usage@, 0) {
            Ok(pairs) => r matches Ok(v) && v@.map_values(|p: (String, String)| (p.0@, p.1@))
                == pairs,
            Err(e) => r matches Err(m) && m@ == e,
        },
{
    let mut keys: Vec<String> = Vec::new();
    let mut values: Vec<String> = Vec::new();
    let mut k: usize = 0;
    while k < arguments.len() / 2 + arguments.len() % 2
        invariant
            2 * k <= arguments@.len(),
            keys@.len() == k,
            values@.len() == k,
            forall|j: int| 0 <= j < k ==> (#[trigger] keys@[j])@ == arguments@[2 * j]@.skip(2),
            forall|j: int| 0 <= j < k ==> (#[trigger] values@[j])@ == arguments@[2 * j + 1]@,
            forall|j: int| 0 <= j < k ==> is_flag(#[trigger] arguments@[2 * j]@),
            forall|j: int, i: int|
                0 <= i < j < k ==> #[trigger] arguments@[2 * i]@.skip(2) != #[trigger] arguments@[2
                    * j]@.skip(2),
        decreases arguments.len() - 2 * k,
    {
        assert(2 * k < arguments@.len());
        let text = chars_of(arguments[2 * k].as_str());
        if !(text.len() >= 2 && text[0] == '-' && text[1] == '-') || 2 * k + 1 >= arguments.len() {
            proof {
                lemma_outcome_prefix(arguments@, usage@, k as int);
            }
            return Err(String::from_str(usage));
        }
        let key = string_of(&slice_chars(&text, 2, text.len()));
        assert(key@ =~= arguments@[2 * k as int]@.skip(2));
        assert(is_flag(arguments@[2 * k as int]@));
        let mut i: usize = 0;
        while i < keys.len()
            invariant
                i <= keys@.len(),
                keys@.len() == k,
                forall|j: int| 0 <= j < k ==> (#[trigger] keys@[j])@ == arguments@[2 * j]@.skip(2),
                forall|j: int| 0 <= j < i ==> (#[trigger] keys@[j])@ != key@,
                key@ == arguments@[2 * k as int]@.skip(2),
                2 * k + 1 < arguments@.len(),
                is_flag(arguments@[2 * k as int]@),
                forall|j: int| 0 <= j < k ==> is_flag(#[trigger] arguments@[2 * j]@),
                forall|j: int, i: int|
                    0 <= i < j < k ==> #[trigger] arguments@[2 * i]@.skip(2) != #[trigger] arguments@[2
                        * j]@.skip(2),
            decreases keys.len() - i,
        {
            if str_eq(keys[i].as_str(), key.as_str()) {
                proof {
                    assert(keys@[i as int]@ == arguments@[2 * (i as int)]@.skip(2));
                    assert(arguments@[2 * (i as int)]@.skip(2) == arguments@[2 * (k as int)]@.skip(2));
                    assert(key_among(arguments@, k as int, arguments@[2 * (k as int)]@.skip(2)));
                    lemma_outcome_prefix(arguments@, usage@, k as int);
                }
                let mut m = String::new();
                push_str(&mut m, "duplicate option --");
                push_str(&mut m, key.as_str());
                return Err(m);
            }
            i = i + 1;
        }
        proof {
            assert forall|j: int, ii: int|
                0 <= ii < j < k + 1 implies #[trigger] arguments@[2 * ii]@.skip(2) != #[trigger] arguments@[2
                    * j]@.skip(2) by {
                if j == k {
                    assert(keys@[ii]@ != key@);
                }
            }
        }
        keys.push(key);
        values.push(string_of(&chars_of(arguments[2 * k + 1].as_str())));
        k = k + 1;
    }
    proof {
        lemma_outcome_all(arguments@, usage@, k as int);
    }
    let mut pairs: Vec<(String, String)> = Vec::new();
    let mut rk = keys;
    let mut rv = values;
    // The pairs in order: taken from the back, then reversed.
    let mut backwards: Vec<(String, String)> = Vec::new();
    while rk.len() > 0
        invariant
            rk@.len() == rv@.len(),
            rk@.len() + backwards@.len() == k,
            forall|j: int| 0 <= j < rk@.len() ==> (#[trigger] rk@[j])@ == arguments@[2 * j]@.skip(2),
            forall|j: int| 0 <= j < rk@.len() ==> (#[trigger] rv@[j])@ == arguments@[2 * j + 1]@,
            forall|t: int|
                0 <= t < backwards@.len() ==> (#[trigger] backwards@[t]).0@ == arguments@[2 * (k - 1
                    - t)]@.skip(2) && backwards@[t].1@ == arguments@[2 * (k - 1 - t) + 1]@,
        decreases rk.len(),
    {
        let a = rk.pop().unwrap();
        let b = rv.pop().unwrap();
        backwards.push((a, b));
    }
    while backwards.len() > 0
        invariant
            pairs@.len() + backwards@.len() == k,
            forall|t: int|
                0 <= t < backwards@.len() ==> (#[trigger] backwards@[t]).0@ == arguments@[2 * (k - 1
                    - t)]@.skip(2) && backwards@[t].1@ == arguments@[2 * (k - 1 - t) + 1]@,
            forall|t: int|
                0 <= t < pairs@.len() ==> (#[trigger] pairs@[t]).0@ == arguments@[2 * t]@.skip(2)
                    && pairs@[t].1@ == arguments@[2 * t + 1]@,
        decreases backwards.len(),
    {
        let p = backwards.pop().unwrap();
        pairs.push(p);
    }
    proof {
        lemma_pairs_are_outcome(arguments@, usage@, k as int, pairs@);
    }
    Ok(pairs)
}

/// Before the first malformed or repeated key, the outcome is that of the
/// key's position.
proof fn lemma_outcome_prefix(arguments: Seq<String>, usage: Seq<char>, k: int)
    requires
        0 <= k,
        2 * k < arguments.len(),
        2 * k <= arguments.len(),
        forall|j: int| 0 <= j < k ==> is_flag(#[trigger] arguments[2 * j]@),
        forall|j: int, i: int|
            0 <= i < j < k ==> #[trigger] arguments[2 * i]@.skip(2) != #[trigger] arguments[2
                * j]@.skip(2),
        options_outcome(arguments, usage, k) is Err,
    ensures
        options_outcome(arguments, usage, 0) == options_outcome(arguments, usage, k),
    decreases k,
{
    if k > 0 {
        assert forall|j: int| 0 <= j < k - 1 implies #[trigger] arguments[2 * j]@.skip(2)
            != arguments[2 * (k - 1)]@.skip(2) by {}
        assert(!key_among(arguments, k - 1, arguments[2 * (k - 1)]@.skip(2)));
        lemma_outcome_prefix(arguments, usage, k - 1);
    }
}

proof fn lemma_outcome_all(arguments: Seq<String>, usage: Seq<char>, k: int)
    requires
        0 <= k,
        2 * k >= arguments.len(),
        2 * k <= arguments.len(),
        forall|j: int| 0 <= j < k ==> is_flag(#[trigger] arguments[2 * j]@),
        forall|j: int, i: int|
            0 <= i < j < k ==> #[trigger] arguments[2 * i]@.skip(2) != #[trigger] arguments[2
                * j]@.skip(2),
    ensures
        options_outcome(arguments, usage, 0) is Ok,
{
    lemma_outcome_suffix_ok(arguments, usage, k, 0);
}

proof fn lemma_outcome_suffix_ok(arguments: Seq<String>, usage: Seq<char>, k: int, m: int)
    requires
        0 <= m <= k,
        2 * k >= arguments.len(),
        2 * k <= arguments.len(),
        forall|j: int| 0 <= j < k ==> is_flag(#[trigger] arguments[2 * j]@),
        forall|j: int, i: int|
            0 <= i < j < k ==> #[trigger] arguments[2 * i]@.skip(2) != #[trigger] arguments[2
                * j]@.skip(2),
    ensures
        options_outcome(arguments, usage, m) matches Ok(rest) && rest.len() == k - m && forall|t: int|
            0 <= t < k - m ==> #[trigger] rest[t] == (arguments[2 * (m + t)]@.skip(2), arguments[2
                * (m + t) + 1]@),
    decreases k - m,
{
    if m < k {
        assert forall|j: int| 0 <= j < m implies #[trigger] arguments[2 * j]@.skip(2)
            != arguments[2 * m]@.skip(2) by {}
        assert(!key_among(arguments, m, arguments[2 * m]@.skip(2)));
        lemma_outcome_suffix_ok(arguments, usage, k, m + 1);
        let rest = options_outcome(arguments, usage, m + 1)->Ok_0;
        let whole = seq![(arguments[2 * m]@.skip(2), arguments[2 * m + 1]@)] + rest;
        assert forall|t: int| 0 <= t < k - m implies #[trigger] whole[t] == (arguments[2 * (m
            + t)]@.skip(2), arguments[2 * (m + t) + 1]@) by {
            if t > 0 {
                assert(whole[t] == rest[t - 1]);
            }
        }
    }
}

proof fn lemma_pairs_are_outcome(
    arguments: Seq<String>,
    usage: Seq<char>,
    k: int,
    pairs: Seq<(String, String)>,
)
    requires
        0 <= k,
        2 * k >= arguments.len(),
        pairs.len() == k,
        2 * k <= arguments.len(),
        forall|j: int| 0 <= j < k ==> is_flag(#[trigger] arguments[2 * j]@),
        forall|j: int, i: int|
            0 <= i < j < k ==> #[trigger] arguments[2 * i]@.skip(2) != #[trigger] arguments[2
                * j]@.skip(2),
        forall|t: int|
            0 <= t < k ==> (#[trigger] pairs[t]).0@ == arguments[2 * t]@.skip(2) && pairs[t].1@
                == arguments[2 * t + 1]@,
    ensures
        options_outcome(arguments, usage, 0) == Ok::<Seq<(Seq<char>, Seq<char>)>, Seq<char>>(
            pairs.map_values(|p: (String, String)| (p.0@, p.1@)),
        ),
{
    lemma_outcome_suffix_ok(arguments, usage, k, 0);
    let rest = options_outcome(arguments, usage, 0)->Ok_0;
    assert(rest =~= pairs.map_values(|p: (String, String)| (p.0@, p.1@)));
}

/// The value of option `name`, if given: that of its first pair.
pub fn option_value<'a>(options: &'a Vec<(String, String)>, name: &str) -> (r: Option<&'a str>)
    ensures
        match r {
            Some(v) => exists|j: int|
                0 <= j < options@.len() && (#[trigger] options@[j]).0@ == name@ && options@[j].1@
                    == v@ && forall|i: int| 0 <= i < j ==> (#[trigger] options@[i]).0@ != name@,
            None => forall|j: int| 0 <= j < options@.len() ==> (#[trigger] options@[j]).0@ != name@,
        },
{
    let mut j: usize = 0;
    while j < options.len()
        invariant
            j <= options@.len(),
            forall|i: int| 0 <= i < j ==> (#[trigger] options@[i]).0@ != name@,
        decreases options.len() - j,
    {
        if str_eq(options[j].0.as_str(), name) {
            return Some(options[j].1.as_str());
        }
        j = j + 1;
    }
    None
}

} // verus!
