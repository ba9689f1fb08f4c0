//! IEEE 754 binary64 values held as their bit patterns.
//!
//! Automation numbers and OLE dates are doubles.  The library keeps them as
//! the 64-bit pattern of the double, and states the few floating-point facts
//! that the value codec decides on (finiteness, sign, equality, and the
//! conversion of a 64-bit integer or a binary32 value to binary64) over the
//! fields of that pattern.

use vstd::arithmetic::power2::*;
use vstd::prelude::*;

verus! {

pub open spec fn f64_sign(b: u64) -> nat {
    (b / 0x8000_0000_0000_0000u64) as nat
}

pub open spec fn f64_exponent_field(b: u64) -> nat {
    ((b / 0x10_0000_0000_0000u64) % 2048) as nat
}

pub open spec fn f64_fraction_field(b: u64) -> nat {
    (b % 0x10_0000_0000_0000u64) as nat
}

/// Neither an infinity nor a NaN.
pub open spec fn f64_is_finite(b: u64) -> bool {
    f64_exponent_field(b) != 2047
}

pub open spec fn f64_is_nan(b: u64) -> bool {
    f64_exponent_field(b) == 2047 && f64_fraction_field(b) != 0
}

/// `+0.0` or `-0.0`.
pub open spec fn f64_is_zero(b: u64) -> bool {
    f64_exponent_field(b) == 0 && f64_fraction_field(b) == 0
}

/// The comparison `x < 0.0`: false for NaN and for both zeros.
pub open spec fn f64_below_zero(b: u64) -> bool {
    !f64_is_nan(b) && f64_sign(b) == 1 && !f64_is_zero(b)
}

pub fn f64_is_finite_bits(b: u64) -> (r: bool)
    ensures
        r == f64_is_finite(b),
{
    assert(((b >> 52u64) & 0x7ffu64) == (b / 0x10_0000_0000_0000u64) % 2048) by (bit_vector);
    ((b >> 52u64) & 0x7ffu64) != 0x7ffu64
}

pub fn f64_is_nan_bits(b: u64) -> (r: bool)
    ensures
        r == f64_is_nan(b),
{
    assert(((b >> 52u64) & 0x7ffu64) == (b / 0x10_0000_0000_0000u64) % 2048) by (bit_vector);
    assert((b & 0xf_ffff_ffff_ffffu64) == b % 0x10_0000_0000_0000u64) by (bit_vector);
    ((b >> 52u64) & 0x7ffu64) == 0x7ffu64 && (b & 0xf_ffff_ffff_ffffu64) != 0
}

pub fn f64_is_zero_bits(b: u64) -> (r: bool)
    ensures
        r == f64_is_zero(b),
{
    assert(((b & 0x7fff_ffff_ffff_ffffu64) == 0) == ((b / 0x10_0000_0000_0000u64) % 2048 == 0 && b
        % 0x10_0000_0000_0000u64 == 0)) by (bit_vector);
    (b & 0x7fff_ffff_ffff_ffffu64) == 0
}

pub fn f64_below_zero_bits(b: u64) -> (r: bool)
    ensures
        r == f64_below_zero(b),
{
    assert((b >> 63u64) == b / 0x8000_0000_0000_0000u64) by (bit_vector);
    !f64_is_nan_bits(b) && (b >> 63u64) == 1 && !f64_is_zero_bits(b)
}

/// `floor(log2(n))` for positive `n`.
pub open spec fn log2_floor(n: nat) -> nat
    decreases n,
{
    if n < 2 {
        0
    } else {
        1 + log2_floor(n / 2)
    }
}

pub proof fn lemma_log2_floor_bounds(n: nat)
    requires
        n >= 1,
    ensures
        pow2(log2_floor(n)) <= n < pow2(log2_floor(n) + 1),
    decreases n,
{
    lemma2_to64();
    if n >= 2 {
        lemma_log2_floor_bounds(n / 2);
        let k = log2_floor(n / 2);
        lemma_pow2_unfold(k + 1);
        lemma_pow2_unfold(k + 2);
    }
}

pub proof fn lemma_log2_floor_unique(n: nat, p: nat)
    requires
        pow2(p) <= n < pow2(p + 1),
    ensures
        log2_floor(n) == p,
{
    lemma_pow2_pos(p);
    lemma_log2_floor_bounds(n);
    let q = log2_floor(n);
    if q < p {
        if q + 1 < p {
            lemma_pow2_strictly_increases(q + 1, p);
        }
    } else if q > p {
        if p + 1 < q {
            lemma_pow2_strictly_increases(p + 1, q);
        }
    }
}

/// Round half to even of `mag / 2^s` (for `s >= 1`).
pub open spec fn round_half_even(mag: nat, s: nat) -> nat {
    let q = mag / pow2(s);
    let r = mag % pow2(s);
    let h = pow2((s - 1) as nat);
    if r > h || (r == h && q % 2 == 1) {
        q + 1
    } else {
        q
    }
}

/// The 53-bit significand and the binary exponent of the double nearest to
/// the positive integer `mag` (ties to even).
pub open spec fn nearest_double(mag: nat) -> (nat, nat) {
    let p = log2_floor(mag);
    if p <= 52 {
        (mag * pow2((52 - p) as nat), p)
    } else {
        let q = round_half_even(mag, (p - 52) as nat);
        if q == pow2(53) {
            (pow2(52), p + 1)
        } else {
            (q, p)
        }
    }
}

/// The bit pattern of `v as f64`: the double nearest to `v`, ties to even.
pub open spec fn binary64_of_int(v: int) -> u64 {
    let mag: nat = if v < 0 { (-v) as nat } else { v as nat };
    if mag == 0 {
        0
    } else {
        let (m, e) = nearest_double(mag);
        ((if v < 0 { pow2(63) } else { 0 }) + (e + 1023) * pow2(52) + (m - pow2(52))) as u64
    }
}

/// Every integer of magnitude below `2^53`, and every multiple of a power of
/// two whose odd part fits in 53 bits, is a double.
pub open spec fn int_fits_binary64(v: int) -> bool {
    let mag: nat = if v < 0 { (-v) as nat } else { v as nat };
    mag == 0 || log2_floor(mag) <= 52 || mag % pow2((log2_floor(mag) - 52) as nat) == 0
}

/// The powers of two that the binary64 layout uses.
pub proof fn lemma_binary64_powers()
    ensures
        pow2(0) == 1,
        pow2(1) == 2,
        pow2(29) == 0x2000_0000,
        pow2(52) == 0x10_0000_0000_0000,
        pow2(53) == 0x20_0000_0000_0000,
        pow2(63) == 0x8000_0000_0000_0000,
        pow2(64) == 0x1_0000_0000_0000_0000,
{
    lemma2_to64();
    lemma_pow2_adds(32, 20);
    lemma_pow2_adds(32, 21);
    lemma_pow2_adds(32, 31);
}

/// `2^k` for small `k`.
pub fn pow2_u128(k: u32) -> (r: u128)
    requires
        k <= 64,
    ensures
        r == pow2(k as nat),
{
    proof {
        lemma2_to64();
    }
    let mut r: u128 = 1;
    let mut i: u32 = 0;
    while i < k
        invariant
            i <= k <= 64,
            r == pow2(i as nat),
            r <= 0x1_0000_0000_0000_0000u128,
        decreases k - i,
    {
        proof {
            lemma_binary64_powers();
            lemma_pow2_unfold((i + 1) as nat);
            if i + 1 < 64 {
                lemma_pow2_strictly_increases((i + 1) as nat, 64);
            }
        }
        r = r * 2;
        i = i + 1;
    }
    r
}

/// `v as f64`, as a bit pattern, together with whether the conversion was
/// exact.
pub fn i64_to_f64_bits(v: i64) -> (r: (u64, bool))
    ensures
        r.0 == binary64_of_int(v as int),
        r.1 == int_fits_binary64(v as int),
{
    let mag: u128 = if v < 0 {
        (0i128 - v as i128) as u128
    } else {
        v as u128
    };
    if mag == 0 {
        return (0, true);
    }
    proof {
        lemma2_to64();
    }
    let mut p: u32 = 0;
    let mut pw: u128 = 1;
    while pw * 2 <= mag
        invariant
            1 <= pw <= mag <= 0x8000_0000_0000_0000u128,
            pw == pow2(p as nat),
            p <= 63,
        decreases mag - pw,
    {
        proof {
            lemma_binary64_powers();
            lemma_pow2_unfold((p + 1) as nat);
            if p + 1 >= 64 {
                if p + 1 > 64 {
                    lemma_pow2_strictly_increases(64, (p + 1) as nat);
                }
            }
        }
        pw = pw * 2;
        p = p + 1;
    }
    proof {
        lemma_binary64_powers();
        lemma_pow2_unfold((p + 1) as nat);
        lemma_log2_floor_unique(mag as nat, p as nat);
    }
    let two52: u128 = 0x10_0000_0000_0000u128;
    let sign_part: u128 = if v < 0 { 0x8000_0000_0000_0000u128 } else { 0 };
    let m: u128;
    let e: u128;
    let exact: bool;
    if p <= 52 {
        let scale = pow2_u128(52 - p);
        proof {
            lemma_pow2_adds(p as nat, (52 - p) as nat);
            assert(pw * scale == two52);
            assert(pw <= mag < 2 * pw);
            assert(two52 <= mag * scale < 2 * two52) by (nonlinear_arith)
                requires
                    pw <= mag < 2 * pw,
                    scale > 0,
                    pw * scale == two52,
            ;
        }
        m = mag * scale;
        e = p as u128;
        exact = true;
    } else {
        let s: u32 = p - 52;
        let div = pow2_u128(s);
        let half = pow2_u128(s - 1);
        proof {
            lemma_pow2_adds(52, s as nat);
            lemma_pow2_unfold(s as nat);
            assert(pw == two52 * div);
            assert(two52 <= mag / div < 2 * two52) by (nonlinear_arith)
                requires
                    two52 * div <= mag < 2 * (two52 * div),
                    div > 0,
            ;
        }
        let q = mag / div;
        let rem = mag % div;
        let up = rem > half || (rem == half && q % 2 == 1);
        let q2 = if up { q + 1 } else { q };
        exact = rem == 0;
        if q2 == 2 * two52 {
            m = two52;
            e = p as u128 + 1;
        } else {
            m = q2;
            e = p as u128;
        }
        assert(q2 <= 2 * two52);
    }
    assert(two52 <= m < 2 * two52);
    assert(e <= 64);
    let bits: u128 = sign_part + (e + 1023) * two52 + (m - two52);
    assert(bits < 0x1_0000_0000_0000_0000u128) by {
        assert(e <= 64);
        assert(m - two52 < two52);
    }
    (bits as u64, exact)
}

} // verus!

verus! {

/// The binary64 pattern of a binary32 value (`x as f64`): the sign is kept,
/// normal values are re-biased, subnormal values are normalised, and an
/// infinity stays an infinity.  A NaN keeps its payload with the quiet bit
/// set.
pub open spec fn widen_binary32(b: u32) -> u64 {
    let s: nat = (b / 0x8000_0000u32) as nat;
    let e: nat = ((b / 0x80_0000u32) % 256) as nat;
    let f: nat = (b % 0x80_0000u32) as nat;
    let sign: nat = s * pow2(63);
    if e == 255 {
        let payload: nat = if f == 0 || f >= 0x40_0000 { f } else { f + 0x40_0000 };
        (sign + 2047 * pow2(52) + payload * pow2(29)) as u64
    } else if e == 0 && f == 0 {
        sign as u64
    } else if e == 0 {
        let p = log2_floor(f);
        (sign + (p + 874) * pow2(52) + (f * pow2((52 - p) as nat) - pow2(52))) as u64
    } else {
        (sign + (e + 896) * pow2(52) + f * pow2(29)) as u64
    }
}

pub open spec fn f32_sign(b: u32) -> nat {
    (b / 0x8000_0000u32) as nat
}

pub open spec fn f32_exponent_field(b: u32) -> nat {
    ((b / 0x80_0000u32) % 256) as nat
}

pub open spec fn f32_fraction_field(b: u32) -> nat {
    (b % 0x80_0000u32) as nat
}

/// Neither an infinity nor a NaN.
pub open spec fn f32_is_finite(b: u32) -> bool {
    f32_exponent_field(b) != 255
}

pub open spec fn f32_is_nan(b: u32) -> bool {
    f32_exponent_field(b) == 255 && f32_fraction_field(b) != 0
}

/// The magnitude of a finite binary32 value, times `2^1074`: the
/// significand scaled by its power of two, an exact integer.
pub open spec fn f32_magnitude(b: u32) -> nat {
    let e = f32_exponent_field(b);
    let f = f32_fraction_field(b);
    if e == 0 {
        f * pow2(925)
    } else {
        (pow2(23) + f) * pow2((e + 924) as nat)
    }
}

/// The magnitude of a finite binary64 value, times `2^1074`: the
/// significand scaled by its power of two, an exact integer.
pub open spec fn f64_magnitude(b: u64) -> nat {
    let e = f64_exponent_field(b);
    let f = f64_fraction_field(b);
    if e == 0 {
        f
    } else {
        (pow2(52) + f) * pow2((e - 1) as nat)
    }
}

/// The fields of the binary64 pattern with sign `s`, exponent field `e` and
/// fraction field `f`.
proof fn lemma_binary64_fields(s: nat, e: nat, f: nat)
    requires
        s <= 1,
        e < 2048,
        f < 0x10_0000_0000_0000,
    ensures
        ({
            let w = (s * 0x8000_0000_0000_0000 + e * 0x10_0000_0000_0000 + f) as u64;
            &&& f64_sign(w) == s
            &&& f64_exponent_field(w) == e
            &&& f64_fraction_field(w) == f
        }),
{
    let x: int = (s * 0x8000_0000_0000_0000 + e * 0x10_0000_0000_0000 + f) as int;
    assert(0 <= x < 0x1_0000_0000_0000_0000);
    let w = x as u64;
    assert(w as int == x);
    vstd::arithmetic::div_mod::lemma_fundamental_div_mod_converse(
        x,
        0x8000_0000_0000_0000,
        s as int,
        (e * 0x10_0000_0000_0000 + f) as int,
    );
    vstd::arithmetic::div_mod::lemma_fundamental_div_mod_converse(
        x,
        0x10_0000_0000_0000,
        (s * 2048 + e) as int,
        f as int,
    );
    vstd::arithmetic::div_mod::lemma_fundamental_div_mod_converse(
        (s * 2048 + e) as int,
        2048,
        s as int,
        e as int,
    );
}

/// Law: widening a binary32 value to binary64 is exact.  A finite value
/// stays finite with the same sign and the same magnitude (so the same real
/// number: the fraction bits are all kept); an infinity stays an infinity of
/// the same sign, and a NaN stays a NaN.
pub proof fn lemma_widen_binary32_exact(b: u32)
    ensures
        f64_sign(widen_binary32(b)) == f32_sign(b),
        f64_is_finite(widen_binary32(b)) == f32_is_finite(b),
        f64_is_nan(widen_binary32(b)) == f32_is_nan(b),
        f32_is_finite(b) ==> f64_magnitude(widen_binary32(b)) == f32_magnitude(b),
{
    lemma_binary64_powers();
    let s: nat = f32_sign(b);
    let e: nat = f32_exponent_field(b);
    let f: nat = f32_fraction_field(b);
    assert(s <= 1);
    assert(e < 256);
    assert(f < 0x80_0000);
    assert(pow2(23) == 0x80_0000) by {
        lemma2_to64();
    }
    let w = widen_binary32(b);
    if e == 255 {
        let payload: nat = if f == 0 || f >= 0x40_0000 { f } else { f + 0x40_0000 };
        lemma_binary64_fields(s, 2047, payload * 0x2000_0000);
    } else if e == 0 && f == 0 {
        lemma_binary64_fields(s, 0, 0);
    } else if e == 0 {
        let p = log2_floor(f);
        lemma_log2_floor_bounds(f);
        if p > 23 {
            lemma_pow2_strictly_increases(23, p);
        }
        lemma_pow2_pos((52 - p) as nat);
        lemma_pow2_adds(p, (52 - p) as nat);
        lemma_pow2_adds(p + 1, (52 - p) as nat);
        lemma_pow2_unfold(53);
        let m: nat = f * pow2((52 - p) as nat);
        assert(pow2(p) * pow2((52 - p) as nat) <= m) by (nonlinear_arith)
            requires
                pow2(p) <= f,
                m == f * pow2((52 - p) as nat),
        ;
        assert(m < pow2(p + 1) * pow2((52 - p) as nat)) by (nonlinear_arith)
            requires
                f < pow2(p + 1),
                pow2((52 - p) as nat) > 0,
                m == f * pow2((52 - p) as nat),
        ;
        assert((p + 1 + (52 - p)) as nat == 53);
        lemma_binary64_fields(s, p + 874, (m - 0x10_0000_0000_0000) as nat);
        lemma_pow2_adds((52 - p) as nat, p + 873);
        assert((52 - p) as nat + (p + 873) == 925);
        assert(f64_magnitude(w) == m * pow2(p + 873));
        assert(m * pow2(p + 873) == f * pow2(925)) by (nonlinear_arith)
            requires
                m == f * pow2((52 - p) as nat),
                pow2((52 - p) as nat) * pow2(p + 873) == pow2(925),
        ;
    } else {
        lemma_binary64_fields(s, e + 896, f * 0x2000_0000);
        lemma_pow2_adds(29, e + 895);
        lemma_pow2_adds(23, 29);
        assert((29 + (e + 895)) as nat == e + 924);
        assert(f64_magnitude(w) == (pow2(52) + f * pow2(29)) * pow2(e + 895));
        assert((pow2(52) + f * pow2(29)) * pow2(e + 895) == (pow2(23) + f) * pow2(e + 924))
            by (nonlinear_arith)
            requires
                pow2(52) == pow2(23) * pow2(29),
                pow2(29) * pow2(e + 895) == pow2(e + 924),
        ;
    }
}

/// `x as f64` for the binary32 value with bit pattern `b`: the same real
/// number, sign, infinity or NaN.
pub fn f32_to_f64_bits(b: u32) -> (r: u64)
    ensures
        r == widen_binary32(b),
        f64_sign(r) == f32_sign(b),
        f64_is_finite(r) == f32_is_finite(b),
        f64_is_nan(r) == f32_is_nan(b),
        f32_is_finite(b) ==> f64_magnitude(r) == f32_magnitude(b),
{
    proof {
        lemma_widen_binary32_exact(b);
    }
    proof {
        lemma_binary64_powers();
        lemma_pow2_adds(32, 19);
    }
    assert((b >> 31u32) == b / 0x8000_0000u32) by (bit_vector);
    assert(((b >> 23u32) & 0xffu32) == (b / 0x80_0000u32) % 256) by (bit_vector);
    assert((b & 0x7f_ffffu32) == b % 0x80_0000u32) by (bit_vector);
    let s: u128 = (b >> 31u32) as u128;
    let e: u128 = ((b >> 23u32) & 0xffu32) as u128;
    let f: u128 = (b & 0x7f_ffffu32) as u128;
    let two52: u128 = 0x10_0000_0000_0000u128;
    let sign: u128 = s * 0x8000_0000_0000_0000u128;
    assert(s <= 1);
    let bits: u128;
    if e == 255 {
        let payload: u128 = if f == 0 || f >= 0x40_0000 { f } else { f + 0x40_0000 };
        bits = sign + 2047 * two52 + payload * 0x2000_0000u128;
        assert(bits < 0x1_0000_0000_0000_0000u128);
    } else if e == 0 && f == 0 {
        bits = sign;
    } else if e == 0 {
        let mut p: u32 = 0;
        let mut pw: u128 = 1;
        while pw * 2 <= f
            invariant
                1 <= pw <= f < 0x80_0000u128,
                pw == pow2(p as nat),
                p <= 22,
            decreases f - pw,
        {
            proof {
                lemma_binary64_powers();
                lemma_pow2_unfold((p + 1) as nat);
                lemma2_to64();
                if p + 1 > 23 {
                    lemma_pow2_strictly_increases(23, (p + 1) as nat);
                }
            }
            pw = pw * 2;
            p = p + 1;
        }
        proof {
            lemma_pow2_unfold((p + 1) as nat);
            lemma_log2_floor_unique(f as nat, p as nat);
        }
        let scale = pow2_u128(52 - p);
        proof {
            lemma_pow2_pos((52 - p) as nat);
            lemma_pow2_adds(p as nat, (52 - p) as nat);
            assert(two52 <= f * scale < 2 * two52) by (nonlinear_arith)
                requires
                    pw <= f < 2 * pw,
                    scale > 0,
                    pw * scale == two52,
            ;
        }
        bits = sign + (p as u128 + 874) * two52 + (f * scale - two52);
        assert(bits < 0x1_0000_0000_0000_0000u128);
    } else {
        assert(e <= 254);
        bits = sign + (e + 896) * two52 + f * 0x2000_0000u128;
        assert(bits < 0x1_0000_0000_0000_0000u128);
    }
    assert(bits < 0x1_0000_0000_0000_0000u128);
    bits as u64
}

} // verus!
