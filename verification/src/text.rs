//! Character-level text building blocks shared by the evidence writers:
//! literal replacement, substring search, trimming, and decimal and
//! hexadecimal rendering, each stated over character sequences.

use vstd::prelude::*;

verus! {

broadcast use vstd::string::group_string_axioms;

/// Appends one character; `String::push` keeps every earlier character and
/// adds `c` at the end (std documentation of `String::push`).
#[verifier::external_body]
pub(crate) fn push_char(s: &mut String, c: char)
    ensures
        final(s)@ == old(s)@.push(c),
{
    s.push(c);
}

/// The characters of `s`, in order.
pub fn chars_of(s: &str) -> (r: Vec<char>)
    ensures
        r@ == s@,
{
    let mut r: Vec<char> = Vec::new();
    for c in it: s.chars()
        invariant
            it.seq() == s@,
            r@ == s@.take(it.index() as int),
    {
        r.push(c);
    }
    assert(r@ =~= s@);
    r
}

/// Appends every character of `chars` to `s`.
pub fn push_chars(s: &mut String, chars: &Vec<char>)
    ensures
        final(s)@ == old(s)@ + chars@,
{
    let ghost start = s@;
    let mut i: usize = 0;
    while i < chars.len()
        invariant
            i <= chars.len(),
            s@ == start + chars@.take(i as int),
        decreases chars.len() - i,
    {
        push_char(s, chars[i]);
        i = i + 1;
        assert(s@ =~= start + chars@.take(i as int));
    }
    assert(chars@.take(i as int) =~= chars@);
}

/// A string holding exactly `chars`.
pub fn string_of(chars: &Vec<char>) -> (s: String)
    ensures
        s@ == chars@,
{
    let mut s = String::new();
    push_chars(&mut s, chars);
    assert(s@ =~= chars@);
    s
}

/// Appends the characters of `t` to `s`.
pub fn push_str(s: &mut String, t: &str)
    ensures
        final(s)@ == old(s)@ + t@,
{
    s.append(t);
}

/// `pattern` occurs in `s` at position `i`.
pub open spec fn occurs_at(s: Seq<char>, pattern: Seq<char>, i: int) -> bool {
    0 <= i && i + pattern.len() <= s.len() && s.subrange(i, i + pattern.len()) == pattern
}

/// `pattern` occurs somewhere in `s` (the empty pattern occurs everywhere).
pub open spec fn contains_spec(s: Seq<char>, pattern: Seq<char>) -> bool {
    exists|i: int| #[trigger] occurs_at(s, pattern, i)
}

/// Left-to-right, non-overlapping replacement of every occurrence of a
/// non-empty `pattern` by `replacement`, as `str::replace` performs it.
pub open spec fn replace_spec(s: Seq<char>, pattern: Seq<char>, replacement: Seq<char>) -> Seq<
    char,
>
    decreases s.len(),
{
    if s.len() == 0 || pattern.len() == 0 {
        s
    } else if pattern.len() <= s.len() && s.take(pattern.len() as int) == pattern {
        replacement + replace_spec(s.skip(pattern.len() as int), pattern, replacement)
    } else {
        seq![s[0]] + replace_spec(s.skip(1), pattern, replacement)
    }
}

/// Whether `pattern` occurs in `s` at position `i`.
pub fn matches_at(s: &Vec<char>, pattern: &Vec<char>, i: usize) -> (b: bool)
    ensures
        b == occurs_at(s@, pattern@, i as int),
{
    if i > s.len() || pattern.len() > s.len() - i {
        return false;
    }
    let mut k: usize = 0;
    while k < pattern.len()
        invariant
            i + pattern.len() <= s.len(),
            k <= pattern.len(),
            forall|j: int| 0 <= j < k ==> s@[i + j] == pattern@[j],
        decreases pattern.len() - k,
    {
        if s[i + k] != pattern[k] {
            assert(s@.subrange(i as int, i + pattern.len())[k as int] != pattern@[k as int]);
            return false;
        }
        k = k + 1;
    }
    assert(s@.subrange(i as int, i + pattern.len()) =~= pattern@);
    true
}

/// Whether `pattern` occurs anywhere in `s`.
pub fn contains_chars(s: &Vec<char>, pattern: &Vec<char>) -> (b: bool)
    ensures
        b == contains_spec(s@, pattern@),
{
    if pattern.len() == 0 {
        assert(s@.subrange(0, 0) =~= pattern@);
        assert(occurs_at(s@, pattern@, 0));
        return true;
    }
    let mut i: usize = 0;
    while i < s.len()
        invariant
            i <= s.len(),
            pattern.len() > 0,
            forall|j: int| 0 <= j < i ==> !occurs_at(s@, pattern@, j),
        decreases s.len() - i,
    {
        if matches_at(s, pattern, i) {
            return true;
        }
        i = i + 1;
    }
    assert forall|j: int| !#[trigger] occurs_at(s@, pattern@, j) by {
        if 0 <= j < i {
        } else {
        }
    }
    false
}

/// Whether `pattern` occurs anywhere in `text`.
pub fn contains_text(text: &str, pattern: &str) -> (b: bool)
    ensures
        b == contains_spec(text@, pattern@),
{
    let s = chars_of(text);
    let p = chars_of(pattern);
    contains_chars(&s, &p)
}

/// Replaces every non-overlapping occurrence of `pattern`, scanning left to
/// right.
pub fn replace_chars(s: &Vec<char>, pattern: &Vec<char>, replacement: &Vec<char>) -> (r: Vec<char>)
    requires
        pattern.len() > 0,
    ensures
        r@ == replace_spec(s@, pattern@, replacement@),
{
    let mut out: Vec<char> = Vec::new();
    let mut i: usize = 0;
    assert(s@.skip(0) =~= s@);
    while i < s.len()
        invariant
            i <= s.len(),
            pattern.len() > 0,
            out@ + replace_spec(s@.skip(i as int), pattern@, replacement@) == replace_spec(
                s@,
                pattern@,
                replacement@,
            ),
        decreases s.len() - i,
    {
        let ghost rest = s@.skip(i as int);
        if matches_at(s, pattern, i) {
            assert(rest.take(pattern.len() as int) =~= s@.subrange(i as int, i + pattern.len()));
            assert(rest.skip(pattern.len() as int) =~= s@.skip(i + pattern.len()));
            let ghost before = out@;
            let mut k: usize = 0;
            while k < replacement.len()
                invariant
                    k <= replacement.len(),
                    out@ == before + replacement@.take(k as int),
                decreases replacement.len() - k,
            {
                out.push(replacement[k]);
                k = k + 1;
                assert(out@ =~= before + replacement@.take(k as int));
            }
            assert(replacement@.take(k as int) =~= replacement@);
            i = i + pattern.len();
            assert(out@ + replace_spec(s@.skip(i as int), pattern@, replacement@) =~= before + (
            replacement@ + replace_spec(rest.skip(pattern.len() as int), pattern@, replacement@)));
        } else {
            proof {
                if pattern.len() <= rest.len() {
                    assert(rest.take(pattern.len() as int) =~= s@.subrange(
                        i as int,
                        i + pattern.len(),
                    ));
                }
            }
            assert(rest.skip(1) =~= s@.skip(i + 1));
            let ghost before = out@;
            out.push(s[i]);
            i = i + 1;
            assert(out@ + replace_spec(s@.skip(i as int), pattern@, replacement@) =~= before + (seq![
                rest[0],
            ] + replace_spec(rest.skip(1), pattern@, replacement@)));
        }
    }
    assert(s@.skip(i as int) =~= Seq::<char>::empty());
    assert(out@ + Seq::<char>::empty() =~= out@);
    out
}

/// Replaces every non-overlapping occurrence of a non-empty `pattern`.
pub fn replace_text(text: &str, pattern: &str, replacement: &str) -> (r: String)
    requires
        pattern@.len() > 0,
    ensures
        r@ == replace_spec(text@, pattern@, replacement@),
{
    let s = chars_of(text);
    let p = chars_of(pattern);
    let q = chars_of(replacement);
    let out = replace_chars(&s, &p, &q);
    string_of(&out)
}

/// Unicode `White_Space`, the property behind `char::is_whitespace`.
pub open spec fn is_white_space(c: char) -> bool {
    let v = c as u32;
    (0x09 <= v <= 0x0d) || v == 0x20 || v == 0x85 || v == 0xa0 || v == 0x1680 || (0x2000 <= v
        <= 0x200a) || v == 0x2028 || v == 0x2029 || v == 0x202f || v == 0x205f || v == 0x3000
}

pub fn is_white_space_char(c: char) -> (b: bool)
    ensures
        b == is_white_space(c),
{
    let v = c as u32;
    (0x09 <= v && v <= 0x0d) || v == 0x20 || v == 0x85 || v == 0xa0 || v == 0x1680 || (0x2000 <= v
        && v <= 0x200a) || v == 0x2028 || v == 0x2029 || v == 0x202f || v == 0x205f || v == 0x3000
}

/// `s` with leading and trailing white space removed, as `str::trim` does:
/// the characters between the first and the last non-white-space character.
pub open spec fn trimmed(s: Seq<char>, lo: int, hi: int) -> bool {
    &&& 0 <= lo <= hi <= s.len()
    &&& forall|j: int| 0 <= j < lo ==> is_white_space(#[trigger] s[j])
    &&& forall|j: int| hi <= j < s.len() ==> is_white_space(#[trigger] s[j])
    &&& lo < hi ==> !is_white_space(s[lo]) && !is_white_space(s[hi - 1])
}

/// The bounds of the trimmed part of `s`.
pub fn trim_bounds(s: &Vec<char>) -> (r: (usize, usize))
    ensures
        trimmed(s@, r.0 as int, r.1 as int),
{
    let mut lo: usize = 0;
    while lo < s.len() && is_white_space_char(s[lo])
        invariant
            lo <= s.len(),
            forall|j: int| 0 <= j < lo ==> is_white_space(#[trigger] s@[j]),
        decreases s.len() - lo,
    {
        lo = lo + 1;
    }
    let mut hi: usize = s.len();
    while hi > lo && is_white_space_char(s[hi - 1])
        invariant
            lo <= hi <= s.len(),
            lo < s.len() ==> !is_white_space(s@[lo as int]),
            forall|j: int| hi <= j < s.len() ==> is_white_space(#[trigger] s@[j]),
        decreases hi,
    {
        hi = hi - 1;
    }
    (lo, hi)
}

/// The characters of `s` between `lo` and `hi`.
pub fn slice_chars(s: &Vec<char>, lo: usize, hi: usize) -> (r: Vec<char>)
    requires
        lo <= hi <= s.len(),
    ensures
        r@ == s@.subrange(lo as int, hi as int),
{
    let mut r: Vec<char> = Vec::new();
    let mut i = lo;
    while i < hi
        invariant
            lo <= i <= hi <= s.len(),
            r@ == s@.subrange(lo as int, i as int),
        decreases hi - i,
    {
        r.push(s[i]);
        i = i + 1;
        assert(r@ =~= s@.subrange(lo as int, i as int));
    }
    r
}

/// Decimal digits of `n`, most significant first, without leading zeros.
pub open spec fn decimal(n: nat) -> Seq<char>
    decreases n,
{
    if n < 10 {
        seq![(48 + n) as char]
    } else {
        decimal(n / 10).push((48 + n % 10) as char)
    }
}

/// Appends the decimal digits of `n`.
pub fn push_decimal(s: &mut String, n: u64)
    ensures
        final(s)@ == old(s)@ + decimal(n as nat),
    decreases n,
{
    if n >= 10 {
        push_decimal(s, n / 10);
    }
    let d: u8 = (n % 10) as u8;
    push_char(s, (48 + d) as char);
    assert(final(s)@ =~= old(s)@ + decimal(n as nat)) by {
        if n >= 10 {
            assert(decimal(n as nat) == decimal((n / 10) as nat).push((48 + n % 10) as char));
        }
    }
}

pub open spec fn hex_digit(d: nat, upper: bool) -> char {
    if d < 10 {
        (48 + d) as char
    } else if upper {
        (55 + d) as char
    } else {
        (87 + d) as char
    }
}

/// The lowest `width` hexadecimal digits of `n`, most significant first;
/// for `n < 16^width` this is `{:0width$X}` (or `x` when not `upper`).
pub open spec fn hex_digits(n: nat, width: nat, upper: bool) -> Seq<char>
    decreases width,
{
    if width == 0 {
        Seq::empty()
    } else {
        hex_digits(n / 16, (width - 1) as nat, upper).push(hex_digit(n % 16, upper))
    }
}

pub fn hex_digit_char(d: u128, upper: bool) -> (c: char)
    requires
        d < 16,
    ensures
        c == hex_digit(d as nat, upper),
{
    let b: u8 = if d < 10 {
        48 + d as u8
    } else if upper {
        55 + d as u8
    } else {
        87 + d as u8
    };
    b as char
}

/// Appends the lowest `width` hexadecimal digits of `n`.
pub fn push_hex(s: &mut String, n: u128, width: u32, upper: bool)
    ensures
        final(s)@ == old(s)@ + hex_digits(n as nat, width as nat, upper),
    decreases width,
{
    if width > 0 {
        push_hex(s, n / 16, width - 1, upper);
        push_char(s, hex_digit_char(n % 16, upper));
        assert(final(s)@ =~= old(s)@ + hex_digits(n as nat, width as nat, upper));
    }
}

/// `0x` followed by eight upper-case digits: `format!("0x{:08X}", value as u32)`.
pub open spec fn hex32(value: u32) -> Seq<char> {
    seq!['0', 'x'] + hex_digits(value as nat, 8, true)
}

pub fn hex32_string(value: u32) -> (s: String)
    ensures
        s@ == hex32(value),
{
    let mut s = String::new();
    push_char(&mut s, '0');
    push_char(&mut s, 'x');
    push_hex(&mut s, value as u128, 8, true);
    assert(s@ =~= hex32(value));
    s
}

/// Whether two texts hold the same characters.
pub fn str_eq(a: &str, b: &str) -> (r: bool)
    ensures
        r == (a@ == b@),
{
    let x = chars_of(a);
    let y = chars_of(b);
    if x.len() != y.len() {
        assert(x@.len() != y@.len());
        return false;
    }
    let mut i: usize = 0;
    while i < x.len()
        invariant
            i <= x@.len(),
            x@.len() == y@.len(),
            x@ == a@,
            y@ == b@,
            forall|j: int| 0 <= j < i ==> x@[j] == y@[j],
        decreases x.len() - i,
    {
        if x[i] != y[i] {
            assert(x@[i as int] != y@[i as int]);
            return false;
        }
        i = i + 1;
    }
    assert(x@ =~= y@);
    true
}

/// The parts with `separator` between consecutive parts (`[..].join(sep)`).
pub open spec fn joined(parts: Seq<Seq<char>>, separator: Seq<char>) -> Seq<char>
    decreases parts.len(),
{
    if parts.len() == 0 {
        Seq::empty()
    } else if parts.len() == 1 {
        parts[0]
    } else {
        joined(parts.drop_last(), separator) + separator + parts.last()
    }
}

/// Joins texts with a separator.
pub fn join_strs(parts: &Vec<&str>, separator: &str) -> (s: String)
    ensures
        s@ == joined(parts@.map_values(|p: &str| p@), separator@),
{
    let ghost views = parts@.map_values(|p: &str| p@);
    let mut s = String::new();
    let mut i: usize = 0;
    while i < parts.len()
        invariant
            i <= parts@.len(),
            views == parts@.map_values(|p: &str| p@),
            s@ == joined(views.take(i as int), separator@),
        decreases parts.len() - i,
    {
        if i > 0 {
            push_str(&mut s, separator);
        }
        push_str(&mut s, parts[i]);
        let ghost prefix = views.take(i + 1);
        assert(prefix.drop_last() =~= views.take(i as int));
        i = i + 1;
        proof {
            if i == 1 {
                assert(s@ =~= joined(views.take(1), separator@));
            }
        }
    }
    assert(views.take(i as int) =~= views);
    s
}

} // verus!
