//! UTF-16 encoding and strict decoding of BSTR contents.

use vstd::prelude::*;

use crate::text::{push_char, string_of};

verus! {

/// `char::from_u32`: a `char` exactly for the Unicode scalar values, that is
/// every code point up to `0x10FFFF` outside the surrogate range (std
/// documentation of `char::from_u32`).
pub assume_specification[ core::char::from_u32 ](i: u32) -> (r: Option<char>)
    ensures
        r == (if i <= 0xD7FF || (0xE000 <= i && i <= 0x10FFFF) {
            Some(i as char)
        } else {
            None::<char>
        }),
;

/// The UTF-16 code units of one character.
pub open spec fn utf16_of_char(c: char) -> Seq<u16> {
    let v = c as u32 as int;
    if v < 0x10000 {
        seq![v as u16]
    } else {
        let w = v - 0x10000;
        seq![(0xD800 + w / 1024) as u16, (0xDC00 + w % 1024) as u16]
    }
}

/// The UTF-16 code units of a character sequence (`str::encode_utf16`).
pub open spec fn utf16_of(s: Seq<char>) -> Seq<u16>
    decreases s.len(),
{
    if s.len() == 0 {
        Seq::empty()
    } else {
        utf16_of_char(s[0]) + utf16_of(s.skip(1))
    }
}

pub open spec fn is_high_surrogate(u: u16) -> bool {
    0xD800 <= u <= 0xDBFF
}

pub open spec fn is_low_surrogate(u: u16) -> bool {
    0xDC00 <= u <= 0xDFFF
}

/// The code point of a surrogate pair.
pub open spec fn pair_code_point(hi: u16, lo: u16) -> int {
    (hi - 0xD800) * 1024 + (lo - 0xDC00) + 0x10000
}

/// Strict UTF-16 decoding (`String::from_utf16`): `None` when a surrogate is
/// unpaired.
pub open spec fn decode_utf16(u: Seq<u16>) -> Option<Seq<char>>
    decreases u.len(),
{
    if u.len() == 0 {
        Some(Seq::empty())
    } else if !(0xD800 <= u[0] <= 0xDFFF) {
        match decode_utf16(u.skip(1)) {
            Some(rest) => Some(seq![u[0] as char] + rest),
            None => None,
        }
    } else if is_high_surrogate(u[0]) && u.len() >= 2 && is_low_surrogate(u[1]) {
        match decode_utf16(u.skip(2)) {
            Some(rest) => Some(seq![pair_code_point(u[0], u[1]) as char] + rest),
            None => None,
        }
    } else {
        None
    }
}

/// A character is a Unicode scalar value.
pub proof fn lemma_char_is_scalar(c: char)
    ensures
        (c as u32) <= 0xD7FF || (0xE000 <= (c as u32) <= 0x10FFFF),
        ((c as u32) as char) == c,
{
}

/// Law: decoding the UTF-16 encoding of any text gives the text back.
pub proof fn lemma_utf16_round_trip(s: Seq<char>)
    ensures
        decode_utf16(utf16_of(s)) == Some(s),
    decreases s.len(),
{
    if s.len() > 0 {
        lemma_utf16_round_trip(s.skip(1));
        let c = s[0];
        lemma_char_is_scalar(c);
        let head = utf16_of_char(c);
        let tail = utf16_of(s.skip(1));
        let u = head + tail;
        assert(utf16_of(s) == u);
        let v = c as u32 as int;
        if v < 0x10000 {
            assert(u[0] == v as u16);
            assert(u.skip(1) =~= tail);
            assert((u[0] as u32) == c as u32);
            assert(seq![u[0] as char] + s.skip(1) =~= s);
        } else {
            assert(u.len() >= 2);
            assert(u.skip(2) =~= tail);
            assert(pair_code_point(u[0], u[1]) == v);
            assert(seq![pair_code_point(u[0], u[1]) as char] + s.skip(1) =~= s);
        }
    }
}

/// The UTF-16 code units of `chars`.
pub fn encode_utf16(chars: &Vec<char>) -> (units: Vec<u16>)
    ensures
        units@ == utf16_of(chars@),
{
    let mut out: Vec<u16> = Vec::new();
    let mut i: usize = 0;
    assert(chars@.skip(0) =~= chars@);
    while i < chars.len()
        invariant
            i <= chars.len(),
            out@ + utf16_of(chars@.skip(i as int)) == utf16_of(chars@),
        decreases chars.len() - i,
    {
        let ghost rest = chars@.skip(i as int);
        let ghost before = out@;
        let c = chars[i];
        proof {
            lemma_char_is_scalar(c);
        }
        let v = c as u32;
        if v < 0x10000 {
            out.push(v as u16);
        } else {
            let w = v - 0x10000;
            out.push((0xD800 + w / 1024) as u16);
            out.push((0xDC00 + w % 1024) as u16);
        }
        assert(out@ =~= before + utf16_of_char(c));
        assert(rest.skip(1) =~= chars@.skip(i + 1));
        i = i + 1;
        assert(out@ + utf16_of(chars@.skip(i as int)) =~= before + utf16_of(rest));
    }
    assert(chars@.skip(i as int) =~= Seq::<char>::empty());
    assert(out@ + Seq::<u16>::empty() =~= out@);
    out
}

/// Strictly decodes UTF-16 code units into text.
pub fn decode_utf16_units(units: &Vec<u16>) -> (r: Option<String>)
    ensures
        match r {
            Some(s) => decode_utf16(units@) == Some(s@),
            None => decode_utf16(units@) is None,
        },
{
    let mut out: Vec<char> = Vec::new();
    let mut i: usize = 0;
    assert(units@.skip(0) =~= units@);
    while i < units.len()
        invariant
            i <= units.len(),
            decode_utf16(units@.skip(i as int)) matches Some(rest) ==> decode_utf16(units@)
                == Some(out@ + rest),
            decode_utf16(units@.skip(i as int)) is None ==> decode_utf16(units@) is None,
        decreases units.len() - i,
    {
        let ghost rest = units@.skip(i as int);
        let ghost before = out@;
        let u = units[i];
        if u < 0xD800 || u > 0xDFFF {
            match core::char::from_u32(u as u32) {
                Some(c) => {
                    out.push(c);
                },
                None => {
                    return None;
                },
            }
            assert(rest.skip(1) =~= units@.skip(i + 1));
            i = i + 1;
            proof {
                if let Some(tail) = decode_utf16(units@.skip(i as int)) {
                    assert(before + (seq![u as char] + tail) =~= out@ + tail);
                }
            }
        } else if u <= 0xDBFF && i + 1 < units.len() && units[i + 1] >= 0xDC00 && units[i + 1]
            <= 0xDFFF {
            let lo = units[i + 1];
            let code: u32 = ((u - 0xD800) as u32) * 1024 + ((lo - 0xDC00) as u32) + 0x10000;
            match core::char::from_u32(code) {
                Some(c) => {
                    out.push(c);
                },
                None => {
                    return None;
                },
            }
            assert(rest[1] == lo);
            assert(rest.skip(2) =~= units@.skip(i + 2));
            i = i + 2;
            proof {
                if let Some(tail) = decode_utf16(units@.skip(i as int)) {
                    assert(before + (seq![pair_code_point(u, lo) as char] + tail) =~= out@
                        + tail);
                }
            }
        } else {
            proof {
                if i + 1 < units.len() {
                    assert(rest[1] == units@[i + 1]);
                }
            }
            return None;
        }
    }
    assert(units@.skip(i as int) =~= Seq::<u16>::empty());
    assert(out@ + Seq::<char>::empty() =~= out@);
    Some(string_of(&out))
}

} // verus!
