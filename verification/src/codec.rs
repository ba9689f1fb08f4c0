//! The Automation value codec: semantic values to `VARIANT` images and back.
//!
//! Decoding accepts `VT_EMPTY`, `VT_NULL`, `VT_BOOL`, the integer and
//! floating VARTYPEs, `VT_BSTR`, `VT_ERROR`, `VT_DATE`, `VT_CY` and a rank-two
//! `SAFEARRAY(VARIANT)`, whose physical dimension one becomes the rows and
//! dimension two the columns; lower bounds are normalised away.  Encoding
//! produces the deterministic one-based rank-two `SAFEARRAY(VARIANT)`.

use vstd::prelude::*;

use crate::floatbits::{
    binary64_of_int, f32_to_f64_bits, f64_below_zero, f64_below_zero_bits, f64_is_finite,
    f64_is_finite_bits, i64_to_f64_bits, int_fits_binary64, widen_binary32,
};
use crate::scode::{ExcelError, DISP_E_PARAMNOTFOUND};
use crate::text::chars_of;
use crate::utf16::{
    decode_utf16, decode_utf16_units, encode_utf16, lemma_utf16_round_trip, utf16_of,
};
use crate::value::{
    same_value, well_formed_value, AutomationArray, AutomationValue, ConversionError,
    ConversionPolicy, Currency, DateWritePolicy, OaDate,
};
use crate::variant::{
    RawSafeArray, RawVariant, SafeArrayDimension, VT_ARRAY_VARIANT, VT_BOOL, VT_BSTR, VT_CY,
    VT_DATE, VT_EMPTY, VT_ERROR, VT_I2, VT_I4, VT_I8, VT_NULL, VT_R4, VT_R8, VT_VARIANT,
};

verus! {

/// The longest text an Excel cell holds, in characters.
pub const EXCEL_CELL_STRING_LIMIT: usize = 32_767usize;

/// An integer read from the union becomes the double nearest to it; under
/// the exact-integer policy an integer that no double equals is refused.
pub open spec fn integer_outcome(v: int, p: ConversionPolicy) -> Result<AutomationValue, ConversionError> {
    if p.require_exact_integer_conversion && !int_fits_binary64(v) {
        Err(ConversionError::NumericPrecisionLoss)
    } else {
        Ok(AutomationValue::Number(binary64_of_int(v)))
    }
}

/// A double is kept unless the policy refuses non-finite numbers.
pub open spec fn number_outcome(b: u64, p: ConversionPolicy) -> Result<AutomationValue, ConversionError> {
    if p.reject_non_finite_numbers && !f64_is_finite(b) {
        Err(ConversionError::NonFiniteNumber)
    } else {
        Ok(AutomationValue::Number(b))
    }
}

/// The meaning of a scalar VARTYPE whose payload lives in the data union.
pub open spec fn scalar_decode(vt: u16, bits: u64, p: ConversionPolicy) -> Result<
    AutomationValue,
    ConversionError,
> {
    if vt == VT_EMPTY {
        Ok(AutomationValue::Empty)
    } else if vt == VT_NULL {
        Ok(AutomationValue::Null)
    } else if vt == VT_BOOL {
        Ok(AutomationValue::Bool(bits as u16 != 0))
    } else if vt == VT_I2 {
        integer_outcome(bits as u16 as i16 as int, p)
    } else if vt == VT_I4 {
        integer_outcome(bits as u32 as i32 as int, p)
    } else if vt == VT_I8 {
        integer_outcome(bits as i64 as int, p)
    } else if vt == VT_R4 {
        number_outcome(widen_binary32(bits as u32), p)
    } else if vt == VT_R8 {
        number_outcome(bits, p)
    } else if vt == VT_ERROR {
        Ok(AutomationValue::Error(ExcelError(bits as u32 as i32)))
    } else if vt == VT_DATE {
        if f64_is_finite(bits) {
            Ok(AutomationValue::Date(OaDate(bits)))
        } else {
            Err(ConversionError::NonFiniteNumber)
        }
    } else if vt == VT_CY {
        Ok(AutomationValue::Currency(Currency(bits as i64)))
    } else {
        Err(ConversionError::UnsupportedVariantType { vartype: vt })
    }
}

/// The number of logical rows and columns of a rank-two image.
pub open spec fn grid_rows(a: RawSafeArray) -> nat {
    a.dimensions@[0].element_count as nat
}

pub open spec fn grid_columns(a: RawSafeArray) -> nat {
    a.dimensions@[1].element_count as nat
}

/// Why decoding fails, or `None` when it succeeds.
pub open spec fn decode_error(raw: RawVariant, p: ConversionPolicy) -> Option<ConversionError>
    decreases raw, 0int,
{
    if raw.vt == VT_ARRAY_VARIANT {
        match raw.array {
            None => Some(ConversionError::SafeArrayConstructionFailed),
            Some(a) => if a.rank != 2 {
                Some(ConversionError::UnsupportedSafeArrayRank { rank: a.rank })
            } else if a.element_vartype != Some(VT_VARIANT) {
                Some(
                    ConversionError::UnsupportedSafeArrayElementType {
                        vartype: match a.element_vartype {
                            Some(t) => t,
                            None => 0u16,
                        },
                    },
                )
            } else if a.dimensions@.len() != 2 {
                Some(ConversionError::UnsupportedSafeArrayRank { rank: a.rank })
            } else if grid_rows(a) * grid_columns(a) > usize::MAX {
                Some(ConversionError::InvalidElementCount)
            } else {
                first_element_error(a, a.elements@, 0, p)
            },
        }
    } else if raw.vt == VT_BSTR {
        if decode_utf16(raw.text@) is None {
            Some(ConversionError::InvalidUtf16String)
        } else {
            None
        }
    } else {
        match scalar_decode(raw.vt, raw.bits, p) {
            Ok(_) => None,
            Err(e) => Some(e),
        }
    }
}

/// The first element, in row-major order from `k`, whose index or decoding
/// fails, and why.
pub open spec fn first_element_error(
    a: RawSafeArray,
    elements: Seq<RawVariant>,
    k: nat,
    p: ConversionPolicy,
) -> Option<ConversionError>
    decreases elements, grid_rows(a) * grid_columns(a) - k,
{
    let n = grid_rows(a) * grid_columns(a);
    if k >= n {
        None
    } else {
        let row = k / grid_columns(a);
        let column = k % grid_columns(a);
        if a.dimensions@[0].lower_bound + row > i32::MAX || a.dimensions@[1].lower_bound + column
            > i32::MAX {
            Some(ConversionError::InvalidElementCount)
        } else if k >= elements.len() || decode_error(elements[k as int], p) is Some {
            Some(ConversionError::SafeArrayElementFailed { row: row as usize, column: column as usize })
        } else {
            first_element_error(a, elements, k + 1, p)
        }
    }
}

/// `v` is what a successful decoding of `raw` yields.
pub open spec fn decoded(raw: RawVariant, p: ConversionPolicy, v: AutomationValue) -> bool
    decreases raw,
{
    if raw.vt == VT_ARRAY_VARIANT {
        match raw.array {
            Some(a) => match v {
                AutomationValue::Array(arr) => {
                    &&& arr.rows == grid_rows(a)
                    &&& arr.columns == grid_columns(a)
                    &&& arr.values@.len() == grid_rows(a) * grid_columns(a)
                    &&& a.elements@.len() >= arr.values@.len()
                    &&& forall|k: int|
                        0 <= k < arr.values@.len() ==> decoded(
                            #[trigger] a.elements@[k],
                            p,
                            arr.values@[k],
                        )
                },
                _ => false,
            },
            None => false,
        }
    } else if raw.vt == VT_BSTR {
        v matches AutomationValue::Text(t) && decode_utf16(raw.text@) == Some(t@)
    } else {
        scalar_decode(raw.vt, raw.bits, p) == Ok::<AutomationValue, ConversionError>(v)
    }
}

/// The outcome contract shared by the decoders.
pub open spec fn decode_outcome(
    raw: RawVariant,
    p: ConversionPolicy,
    r: Result<AutomationValue, ConversionError>,
) -> bool {
    match r {
        Ok(v) => decode_error(raw, p) is None && decoded(raw, p, v),
        Err(e) => decode_error(raw, p) == Some(e),
    }
}

/// Converts an integer from the data union to a number under `policy`.
pub fn decode_integer(value: i64, policy: &ConversionPolicy) -> (r: Result<
    AutomationValue,
    ConversionError,
>)
    ensures
        r == integer_outcome(value as int, *policy),
{
    let (bits, exact) = i64_to_f64_bits(value);
    if policy.require_exact_integer_conversion && !exact {
        Err(ConversionError::NumericPrecisionLoss)
    } else {
        Ok(AutomationValue::Number(bits))
    }
}

/// Refuses a non-finite double when the policy says so.
pub fn require_finite(bits: u64, policy: &ConversionPolicy) -> (r: Result<(), ConversionError>)
    ensures
        r == (if policy.reject_non_finite_numbers && !f64_is_finite(bits) {
            Err::<(), ConversionError>(ConversionError::NonFiniteNumber)
        } else {
            Ok(())
        }),
{
    if policy.reject_non_finite_numbers && !f64_is_finite_bits(bits) {
        Err(ConversionError::NonFiniteNumber)
    } else {
        Ok(())
    }
}

pub fn decode_number(bits: u64, policy: &ConversionPolicy) -> (r: Result<
    AutomationValue,
    ConversionError,
>)
    ensures
        r == number_outcome(bits, *policy),
{
    require_finite(bits, policy)?;
    Ok(AutomationValue::Number(bits))
}

/// Decodes a scalar VARTYPE from its data union.
pub fn decode_scalar(vt: u16, bits: u64, policy: &ConversionPolicy) -> (r: Result<
    AutomationValue,
    ConversionError,
>)
    ensures
        r == scalar_decode(vt, bits, *policy),
{
    if vt == VT_EMPTY {
        Ok(AutomationValue::Empty)
    } else if vt == VT_NULL {
        Ok(AutomationValue::Null)
    } else if vt == VT_BOOL {
        Ok(AutomationValue::Bool(bits as u16 != 0))
    } else if vt == VT_I2 {
        decode_integer(bits as u16 as i16 as i64, policy)
    } else if vt == VT_I4 {
        decode_integer(bits as u32 as i32 as i64, policy)
    } else if vt == VT_I8 {
        decode_integer(bits as i64, policy)
    } else if vt == VT_R4 {
        decode_number(f32_to_f64_bits(bits as u32), policy)
    } else if vt == VT_R8 {
        decode_number(bits, policy)
    } else if vt == VT_ERROR {
        Ok(AutomationValue::Error(ExcelError::from_scode(bits as u32 as i32)))
    } else if vt == VT_DATE {
        match OaDate::new(bits) {
            Ok(d) => Ok(AutomationValue::Date(d)),
            Err(e) => Err(e),
        }
    } else if vt == VT_CY {
        Ok(AutomationValue::Currency(Currency::from_scaled(bits as i64)))
    } else {
        Err(ConversionError::UnsupportedVariantType { vartype: vt })
    }
}

/// Decodes a `VARIANT` image into a pointer-free semantic value.
pub fn decode_variant(raw: &RawVariant, policy: &ConversionPolicy) -> (r: Result<
    AutomationValue,
    ConversionError,
>)
    ensures
        decode_outcome(*raw, *policy, r),
    decreases raw, 1int,
{
    if raw.vt == VT_ARRAY_VARIANT {
        match decode_safearray(raw, policy) {
            Ok(a) => Ok(AutomationValue::Array(a)),
            Err(e) => Err(e),
        }
    } else if raw.vt == VT_BSTR {
        match decode_utf16_units(&raw.text) {
            Some(s) => Ok(AutomationValue::Text(s)),
            None => Err(ConversionError::InvalidUtf16String),
        }
    } else {
        decode_scalar(raw.vt, raw.bits, policy)
    }
}

/// Decodes only a rank-two `SAFEARRAY(VARIANT)`, row by row.
pub fn decode_safearray(raw: &RawVariant, policy: &ConversionPolicy) -> (r: Result<
    AutomationArray,
    ConversionError,
>)
    ensures
        raw.vt != VT_ARRAY_VARIANT ==> r == Err::<AutomationArray, ConversionError>(
            ConversionError::UnsupportedVariantType { vartype: raw.vt },
        ),
        raw.vt == VT_ARRAY_VARIANT ==> match r {
            Ok(a) => decode_error(*raw, *policy) is None && decoded(
                *raw,
                *policy,
                AutomationValue::Array(a),
            ),
            Err(e) => decode_error(*raw, *policy) == Some(e),
        },
    decreases raw, 0int,
{
    if raw.vt != VT_ARRAY_VARIANT {
        return Err(ConversionError::UnsupportedVariantType { vartype: raw.vt });
    }
    let a = match &raw.array {
        Some(a) => a,
        None => {
            return Err(ConversionError::SafeArrayConstructionFailed);
        },
    };
    if a.rank != 2 {
        return Err(ConversionError::UnsupportedSafeArrayRank { rank: a.rank });
    }
    match a.element_vartype {
        Some(t) => {
            if t != VT_VARIANT {
                return Err(ConversionError::UnsupportedSafeArrayElementType { vartype: t });
            }
        },
        None => {
            return Err(ConversionError::UnsupportedSafeArrayElementType { vartype: 0 });
        },
    }
    if a.dimensions.len() != 2 {
        return Err(ConversionError::UnsupportedSafeArrayRank { rank: a.rank });
    }
    let rows = a.dimensions[0].element_count as usize;
    let columns = a.dimensions[1].element_count as usize;
    let count = match rows.checked_mul(columns) {
        Some(c) => c,
        None => {
            return Err(ConversionError::InvalidElementCount);
        },
    };
    let row_lower = a.dimensions[0].lower_bound;
    let column_lower = a.dimensions[1].lower_bound;
    let mut values: Vec<AutomationValue> = Vec::new();
    let mut k: usize = 0;
    let ghost ga = *a;
    while k < count
        invariant
            ga == *a,
            raw.array == Some(ga),
            raw.vt == VT_ARRAY_VARIANT,
            ga.rank == 2,
            ga.element_vartype == Some(VT_VARIANT),
            ga.dimensions@.len() == 2,
            rows == grid_rows(ga),
            columns == grid_columns(ga),
            count == rows * columns,
            row_lower == ga.dimensions@[0].lower_bound,
            column_lower == ga.dimensions@[1].lower_bound,
            k <= count,
            values@.len() == k,
            k <= ga.elements@.len(),
            forall|j: int| 0 <= j < k ==> decoded(#[trigger] ga.elements@[j], *policy, values@[j]),
            first_element_error(ga, ga.elements@, 0, *policy) == first_element_error(
                ga,
                ga.elements@,
                k as nat,
                *policy,
            ),
        decreases count - k,
    {
        let row = k / columns;
        let column = k % columns;
        if (row_lower as i128) + (row as i128) > i32::MAX as i128 || (column_lower as i128) + (
        column as i128) > i32::MAX as i128 {
            return Err(ConversionError::InvalidElementCount);
        }
        if k >= a.elements.len() {
            return Err(ConversionError::SafeArrayElementFailed { row, column });
        }
        proof {
            assert(decreases_to!(*raw => ga.elements@[k as int]));
        }
        match decode_variant(&a.elements[k], policy) {
            Ok(v) => {
                values.push(v);
            },
            Err(e) => {
                assert(decode_error(ga.elements@[k as int], *policy) == Some(e));
                assert(first_element_error(ga, ga.elements@, k as nat, *policy) == Some(
                    ConversionError::SafeArrayElementFailed { row, column },
                ));
                return Err(ConversionError::SafeArrayElementFailed { row, column });
            },
        }
        k = k + 1;
    }
    Ok(AutomationArray { rows, columns, values })
}

/// The VARTYPE and data-union bits of a scalar value, or why it cannot be
/// written.
pub open spec fn scalar_encode(v: AutomationValue, p: ConversionPolicy) -> Result<
    (u16, u64),
    ConversionError,
> {
    match v {
        AutomationValue::Empty => Ok((VT_EMPTY, 0u64)),
        AutomationValue::Null => Ok((VT_NULL, 0u64)),
        AutomationValue::Bool(b) => Ok((VT_BOOL, if b { 0xffffu64 } else { 0u64 })),
        AutomationValue::Number(b) => if p.reject_non_finite_numbers && !f64_is_finite(b) {
            Err(ConversionError::NonFiniteNumber)
        } else {
            Ok((VT_R8, b))
        },
        AutomationValue::Error(e) => if e.0 < 0 {
            Ok((VT_ERROR, e.0 as u32 as u64))
        } else {
            Err(ConversionError::InvalidExcelErrorScode)
        },
        AutomationValue::Date(d) => match p.date_write {
            DateWritePolicy::DateVariant => if f64_below_zero(d.0) {
                Err(ConversionError::InvalidDateForPolicy)
            } else {
                Ok((VT_DATE, d.0))
            },
            DateWritePolicy::Value2Serial => Ok((VT_R8, d.0)),
        },
        AutomationValue::Currency(c) => Ok((VT_CY, c.0 as u64)),
        _ => Err(ConversionError::UnsupportedVariantType { vartype: VT_ARRAY_VARIANT }),
    }
}

/// Why a text cannot be written as a BSTR, if it cannot.
pub open spec fn text_error(t: Seq<char>) -> Option<ConversionError> {
    if t.len() > EXCEL_CELL_STRING_LIMIT {
        Some(ConversionError::StringTooLong)
    } else if t.contains('\0') {
        Some(ConversionError::EmbeddedNul)
    } else {
        None
    }
}

/// Why encoding fails, or `None` when it succeeds.
pub open spec fn encode_error(v: AutomationValue, p: ConversionPolicy) -> Option<ConversionError>
    decreases v, 0int,
{
    match v {
        AutomationValue::Text(t) => text_error(t@),
        AutomationValue::Array(a) => if a.rows > u32::MAX || a.columns > u32::MAX || a.rows == 0
            || a.columns == 0 {
            Some(ConversionError::InvalidElementCount)
        } else {
            first_encode_error(a, a.values@, 0, p)
        },
        _ => match scalar_encode(v, p) {
            Ok(_) => None,
            Err(e) => Some(e),
        },
    }
}

/// The first cell, in row-major order from `k`, that cannot be written, and
/// why.
pub open spec fn first_encode_error(
    a: AutomationArray,
    values: Seq<AutomationValue>,
    k: nat,
    p: ConversionPolicy,
) -> Option<ConversionError>
    decreases values, a.rows * a.columns - k,
{
    if k >= a.rows * a.columns {
        None
    } else {
        let row = k / (a.columns as nat);
        let column = k % (a.columns as nat);
        if k >= values.len() {
            Some(ConversionError::InvalidElementCount)
        } else if values[k as int] is Array || encode_error(values[k as int], p) is Some {
            Some(ConversionError::SafeArrayElementFailed { row: row as usize, column: column as usize })
        } else if row + 1 > i32::MAX || column + 1 > i32::MAX {
            Some(ConversionError::InvalidElementCount)
        } else {
            first_encode_error(a, values, k + 1, p)
        }
    }
}

/// A one-based dimension of `count` elements.
pub open spec fn one_based_dimension(physical: u32, count: nat) -> SafeArrayDimension {
    SafeArrayDimension {
        physical_dimension: physical,
        lower_bound: 1,
        upper_bound: if count <= i32::MAX { count as i32 } else { i32::MAX },
        element_count: count as u32,
    }
}

/// `raw` is what a successful encoding of `v` yields.
pub open spec fn encoded(v: AutomationValue, p: ConversionPolicy, raw: RawVariant) -> bool
    decreases v,
{
    match v {
        AutomationValue::Text(t) => {
            &&& raw.vt == VT_BSTR
            &&& raw.bits == 0
            &&& raw.text@ == utf16_of(t@)
            &&& raw.array is None
        },
        AutomationValue::Array(a) => {
            &&& raw.vt == VT_ARRAY_VARIANT
            &&& raw.bits == 0
            &&& raw.text@.len() == 0
            &&& match raw.array {
                Some(arr) => {
                    &&& arr.rank == 2
                    &&& arr.element_vartype == Some(VT_VARIANT)
                    &&& arr.dimensions@ == seq![
                        one_based_dimension(1, a.rows as nat),
                        one_based_dimension(2, a.columns as nat),
                    ]
                    &&& arr.elements@.len() == a.rows * a.columns
                    &&& a.values@.len() >= arr.elements@.len()
                    &&& forall|k: int|
                        0 <= k < arr.elements@.len() ==> encoded(
                            #[trigger] a.values@[k],
                            p,
                            arr.elements@[k],
                        )
                },
                None => false,
            }
        },
        _ => match scalar_encode(v, p) {
            Ok(t) => raw.vt == t.0 && raw.bits == t.1 && raw.text@.len() == 0 && raw.array is None,
            Err(_) => false,
        },
    }
}

pub open spec fn encode_outcome(
    v: AutomationValue,
    p: ConversionPolicy,
    r: Result<RawVariant, ConversionError>,
) -> bool {
    match r {
        Ok(raw) => encode_error(v, p) is None && encoded(v, p, raw),
        Err(e) => encode_error(v, p) == Some(e),
    }
}

/// Encodes text as a BSTR, refusing text longer than an Excel cell holds
/// and any embedded NUL.
pub fn encode_text(value: &String, policy: &ConversionPolicy) -> (r: Result<
    RawVariant,
    ConversionError,
>)
    ensures
        match r {
            Ok(raw) => text_error(value@) is None && raw.vt == VT_BSTR && raw.bits == 0
                && raw.text@ == utf16_of(value@) && raw.array is None,
            Err(e) => text_error(value@) == Some(e),
        },
{
    let chars = chars_of(value.as_str());
    if chars.len() > EXCEL_CELL_STRING_LIMIT {
        return Err(ConversionError::StringTooLong);
    }
    let mut i: usize = 0;
    while i < chars.len()
        invariant
            i <= chars@.len(),
            chars@ == value@,
            chars@.len() <= EXCEL_CELL_STRING_LIMIT,
            forall|j: int| 0 <= j < i ==> chars@[j] != '\0',
        decreases chars.len() - i,
    {
        if chars[i] == '\0' {
            assert(value@.contains('\0')) by {
                assert(value@[i as int] == '\0');
            }
            return Err(ConversionError::EmbeddedNul);
        }
        i = i + 1;
    }
    assert(!value@.contains('\0'));
    Ok(RawVariant::bstr(encode_utf16(&chars)))
}

/// Encodes one semantic value as a `VARIANT` image.
pub fn encode_variant(value: &AutomationValue, policy: &ConversionPolicy) -> (r: Result<
    RawVariant,
    ConversionError,
>)
    ensures
        encode_outcome(*value, *policy, r),
    decreases value, 1int,
{
    match value {
        AutomationValue::Empty => Ok(RawVariant::scalar(VT_EMPTY, 0)),
        AutomationValue::Null => Ok(RawVariant::scalar(VT_NULL, 0)),
        AutomationValue::Bool(b) => Ok(RawVariant::scalar(VT_BOOL, if *b { 0xffff } else { 0 })),
        AutomationValue::Number(b) => {
            require_finite(*b, policy)?;
            Ok(RawVariant::scalar(VT_R8, *b))
        },
        AutomationValue::Text(t) => encode_text(t, policy),
        AutomationValue::Error(e) => {
            if e.valid_for_direct_write() {
                Ok(RawVariant::error(e.scode()))
            } else {
                Err(ConversionError::InvalidExcelErrorScode)
            }
        },
        AutomationValue::Date(d) => match policy.date_write {
            DateWritePolicy::DateVariant => {
                if f64_below_zero_bits(d.serial()) {
                    Err(ConversionError::InvalidDateForPolicy)
                } else {
                    Ok(RawVariant::scalar(VT_DATE, d.serial()))
                }
            },
            DateWritePolicy::Value2Serial => Ok(RawVariant::scalar(VT_R8, d.serial())),
        },
        AutomationValue::Currency(c) => Ok(RawVariant::scalar(VT_CY, c.scaled() as u64)),
        AutomationValue::Array(a) => encode_safearray(a, policy),
    }
}

/// Encodes a cell value; a nested array is not a cell value.
pub fn encode_scalar(value: &AutomationValue, policy: &ConversionPolicy) -> (r: Result<
    RawVariant,
    ConversionError,
>)
    ensures
        value is Array ==> r == Err::<RawVariant, ConversionError>(
            ConversionError::UnsupportedVariantType { vartype: VT_ARRAY_VARIANT },
        ),
        !(value is Array) ==> encode_outcome(*value, *policy, r),
    decreases value, 2int,
{
    if let AutomationValue::Array(_) = value {
        return Err(ConversionError::UnsupportedVariantType { vartype: VT_ARRAY_VARIANT });
    }
    encode_variant(value, policy)
}

/// Encodes a rectangle as a one-based rank-two `SAFEARRAY(VARIANT)` in
/// row-major order.
pub fn encode_safearray(array: &AutomationArray, policy: &ConversionPolicy) -> (r: Result<
    RawVariant,
    ConversionError,
>)
    ensures
        encode_outcome(AutomationValue::Array(*array), *policy, r),
    decreases array, 0int,
{
    if array.rows > u32::MAX as usize || array.columns > u32::MAX as usize {
        return Err(ConversionError::InvalidElementCount);
    }
    if array.rows == 0 || array.columns == 0 {
        return Err(ConversionError::InvalidElementCount);
    }
    let rows = array.rows;
    let columns = array.columns;
    let mut elements: Vec<RawVariant> = Vec::new();
    let mut row: usize = 0;
    let ghost ga = *array;
    let ghost gv = AutomationValue::Array(*array);
    while row < rows
        invariant
            ga == *array,
            gv == AutomationValue::Array(ga),
            rows == ga.rows,
            columns == ga.columns,
            1 <= rows <= u32::MAX,
            1 <= columns <= u32::MAX,
            row <= rows,
            elements@.len() == row * columns,
            ga.values@.len() >= elements@.len(),
            forall|k: int|
                0 <= k < elements@.len() ==> encoded(#[trigger] ga.values@[k], *policy, elements@[k]),
            first_encode_error(ga, ga.values@, 0, *policy) == first_encode_error(
                ga,
                ga.values@,
                (row * columns) as nat,
                *policy,
            ),
        decreases rows - row,
    {
        let mut column: usize = 0;
        while column < columns
            invariant
                ga == *array,
                gv == AutomationValue::Array(ga),
                rows == ga.rows,
                columns == ga.columns,
                1 <= rows <= u32::MAX,
                1 <= columns <= u32::MAX,
                row < rows,
                column <= columns,
                elements@.len() == row * columns + column,
                ga.values@.len() >= elements@.len(),
                forall|k: int|
                    0 <= k < elements@.len() ==> encoded(
                        #[trigger] ga.values@[k],
                        *policy,
                        elements@[k],
                    ),
                first_encode_error(ga, ga.values@, 0, *policy) == first_encode_error(
                    ga,
                    ga.values@,
                    (row * columns + column) as nat,
                    *policy,
                ),
            decreases columns - column,
        {
            let ghost k: nat = (row * columns + column) as nat;
            proof {
                assert(row * columns + column < rows * columns) by (nonlinear_arith)
                    requires
                        row < rows,
                        column < columns,
                ;
                assert(k / (columns as nat) == row && k % (columns as nat) == column) by (
                nonlinear_arith)
                    requires
                        k == row * columns + column,
                        column < columns,
                ;
            }
            let value = match array.get(row, column) {
                Some(v) => v,
                None => {
                    return Err(ConversionError::InvalidElementCount);
                },
            };
            proof {
                assert(decreases_to!(*array => ga.values@[k as int]));
            }
            let encoded_value = match encode_scalar(value, policy) {
                Ok(e) => e,
                Err(_) => {
                    return Err(ConversionError::SafeArrayElementFailed { row, column });
                },
            };
            if row >= i32::MAX as usize || column >= i32::MAX as usize {
                return Err(ConversionError::InvalidElementCount);
            }
            elements.push(encoded_value);
            column = column + 1;
        }
        assert(row * columns + columns == (row + 1) * columns) by (nonlinear_arith);
        row = row + 1;
    }
    let dims = vec![
        SafeArrayDimension {
            physical_dimension: 1,
            lower_bound: 1,
            upper_bound: if rows <= i32::MAX as usize { rows as i32 } else { i32::MAX },
            element_count: rows as u32,
        },
        SafeArrayDimension {
            physical_dimension: 2,
            lower_bound: 1,
            upper_bound: if columns <= i32::MAX as usize { columns as i32 } else { i32::MAX },
            element_count: columns as u32,
        },
    ];
    let arr = RawSafeArray {
        rank: 2,
        dimensions: dims,
        element_vartype: Some(VT_VARIANT),
        elements,
    };
    Ok(RawVariant { vt: VT_ARRAY_VARIANT, bits: 0, text: Vec::new(), array: Some(arr) })
}

/// An invocation argument: a worksheet value, or an omitted argument.
#[derive(Debug, PartialEq)]
pub enum AutomationArgument {
    Value(AutomationValue),
    Missing,
}

/// A missing argument is `VT_ERROR` with `DISP_E_PARAMNOTFOUND`, never an
/// Excel error value.
pub fn encode_argument(argument: &AutomationArgument, policy: &ConversionPolicy) -> (r: Result<
    RawVariant,
    ConversionError,
>)
    ensures
        match argument {
            AutomationArgument::Value(v) => encode_outcome(*v, *policy, r),
            AutomationArgument::Missing => r matches Ok(raw) && raw.vt == VT_ERROR && raw.bits
                == DISP_E_PARAMNOTFOUND as u32 as u64,
        },
{
    match argument {
        AutomationArgument::Value(v) => encode_variant(v, policy),
        AutomationArgument::Missing => Ok(RawVariant::error(DISP_E_PARAMNOTFOUND)),
    }
}

pub proof fn lemma_first_encode_ok(
    a: AutomationArray,
    values: Seq<AutomationValue>,
    k: nat,
    p: ConversionPolicy,
)
    requires
        first_encode_error(a, values, k, p) is None,
    ensures
        forall|j: nat|
            k <= j < a.rows * a.columns ==> {
                &&& j < values.len()
                &&& !(values[j as int] is Array)
                &&& encode_error(#[trigger] values[j as int], p) is None
                &&& j / (a.columns as nat) + 1 <= i32::MAX
                &&& j % (a.columns as nat) + 1 <= i32::MAX
            },
    decreases a.rows * a.columns - k,
{
    if k < a.rows * a.columns {
        lemma_first_encode_ok(a, values, k + 1, p);
    }
}

pub proof fn lemma_first_decode_ok(
    a: RawSafeArray,
    elements: Seq<RawVariant>,
    k: nat,
    p: ConversionPolicy,
)
    requires
        a.dimensions@.len() == 2,
        forall|j: nat|
            k <= j < grid_rows(a) * grid_columns(a) ==> {
                &&& j < elements.len()
                &&& decode_error(#[trigger] elements[j as int], p) is None
                &&& a.dimensions@[0].lower_bound + j / grid_columns(a) <= i32::MAX
                &&& a.dimensions@[1].lower_bound + j % grid_columns(a) <= i32::MAX
            },
    ensures
        first_element_error(a, elements, k, p) is None,
    decreases grid_rows(a) * grid_columns(a) - k,
{
    if k < grid_rows(a) * grid_columns(a) {
        lemma_first_decode_ok(a, elements, k + 1, p);
    }
}

/// Law: under the `VT_DATE` date policy, every well-formed value that
/// encodes decodes again, under the same policy, to the same value: scalar
/// kinds, exact double bits, text, SCODE bits, currency and rectangles in
/// row-major order are all preserved.
pub proof fn lemma_encode_decode_round_trip(v: AutomationValue, p: ConversionPolicy, raw: RawVariant)
    requires
        p.date_write == DateWritePolicy::DateVariant,
        well_formed_value(v),
        encode_error(v, p) is None,
        encoded(v, p, raw),
    ensures
        decode_error(raw, p) is None,
        forall|w: AutomationValue| decoded(raw, p, w) ==> same_value(w, v),
    decreases v,
{
    match v {
        AutomationValue::Text(t) => {
            lemma_utf16_round_trip(t@);
        },
        AutomationValue::Array(a) => {
            let arr = raw.array->Some_0;
            let n = a.rows * a.columns;
            lemma_first_encode_ok(a, a.values@, 0, p);
            assert(grid_rows(arr) == a.rows);
            assert(grid_columns(arr) == a.columns);
            assert forall|k: int| 0 <= k < n implies decode_error(#[trigger] arr.elements@[k], p)
                is None && (forall|w: AutomationValue|
                decoded(arr.elements@[k], p, w) ==> same_value(w, a.values@[k])) by {
                assert(encode_error(a.values@[(k as nat) as int], p) is None);
                lemma_encode_decode_round_trip(a.values@[k], p, arr.elements@[k]);
            }
            assert forall|j: nat| 0 <= j < grid_rows(arr) * grid_columns(arr) implies {
                &&& j < arr.elements@.len()
                &&& decode_error(#[trigger] arr.elements@[j as int], p) is None
                &&& arr.dimensions@[0].lower_bound + j / grid_columns(arr) <= i32::MAX
                &&& arr.dimensions@[1].lower_bound + j % grid_columns(arr) <= i32::MAX
            } by {
                assert(encode_error(a.values@[j as int], p) is None);
            }
            lemma_first_decode_ok(arr, arr.elements@, 0, p);
            assert forall|w: AutomationValue| decoded(raw, p, w) implies same_value(w, v) by {
                let arr2 = w->Array_0;
                assert forall|k: int| 0 <= k < arr2.values@.len() implies same_value(
                    #[trigger] arr2.values@[k],
                    a.values@[k],
                ) by {
                    assert(decoded(arr.elements@[k], p, arr2.values@[k]));
                }
            }
        },
        AutomationValue::Error(e) => {
            let x = e.0;
            assert(((x as u32 as u64) as u32) as i32 == x) by (bit_vector);
        },
        AutomationValue::Currency(c) => {
            let x = c.0;
            assert((x as u64) as i64 == x) by (bit_vector);
        },
        AutomationValue::Bool(b) => {
            assert((0xffffu64 as u16) != 0) by (bit_vector);
            assert((0u64 as u16) == 0) by (bit_vector);
        },
        _ => {},
    }
}

/// Why a value cannot be written to a Range: a text longer than a cell
/// holds, here or in the first such array value.
pub open spec fn range_write_error(v: AutomationValue) -> Option<ConversionError>
    decreases v, 0int,
{
    match v {
        AutomationValue::Text(t) => if t@.len() > EXCEL_CELL_STRING_LIMIT {
            Some(ConversionError::StringTooLong)
        } else {
            None
        },
        AutomationValue::Array(a) => first_range_write_error(a.values@, 0),
        _ => None,
    }
}

pub open spec fn first_range_write_error(values: Seq<AutomationValue>, k: nat) -> Option<
    ConversionError,
>
    decreases values, values.len() - k,
{
    if k >= values.len() {
        None
    } else {
        match range_write_error(values[k as int]) {
            Some(e) => Some(e),
            None => first_range_write_error(values, k + 1),
        }
    }
}

/// Checks that a value fits Excel's cell text limit before a Range write.
pub fn validate_excel_range_write(value: &AutomationValue) -> (r: Result<(), ConversionError>)
    ensures
        r == (match range_write_error(*value) {
            Some(e) => Err::<(), ConversionError>(e),
            None => Ok(()),
        }),
    decreases value,
{
    match value {
        AutomationValue::Text(t) => {
            let chars = chars_of(t.as_str());
            if chars.len() > EXCEL_CELL_STRING_LIMIT {
                Err(ConversionError::StringTooLong)
            } else {
                Ok(())
            }
        },
        AutomationValue::Array(a) => {
            let mut k: usize = 0;
            let ghost ga = *a;
            while k < a.values.len()
                invariant
                    ga == *a,
                    *value == AutomationValue::Array(ga),
                    k <= a.values@.len(),
                    first_range_write_error(a.values@, 0) == first_range_write_error(
                        a.values@,
                        k as nat,
                    ),
                decreases a.values.len() - k,
            {
                proof {
                    assert(decreases_to!(*value => a.values@[k as int]));
                }
                validate_excel_range_write(&a.values[k])?;
                k = k + 1;
            }
            Ok(())
        },
        _ => Ok(()),
    }
}

} // verus!
