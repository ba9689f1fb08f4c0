//! Plain-value images of Automation `VARIANT`s and `SAFEARRAY`s, as the
//! transport copies them out of COM memory, and the VARTYPE vocabulary.

use vstd::prelude::*;

use crate::scode::{error_code_record, ErrorCodeRecord};
use crate::text::{hex_digits, push_char, push_hex, push_str};

verus! {

pub const VT_EMPTY: u16 = 0u16;

pub const VT_NULL: u16 = 1u16;

pub const VT_I2: u16 = 2u16;

pub const VT_I4: u16 = 3u16;

pub const VT_R4: u16 = 4u16;

pub const VT_R8: u16 = 5u16;

pub const VT_CY: u16 = 6u16;

pub const VT_DATE: u16 = 7u16;

pub const VT_BSTR: u16 = 8u16;

pub const VT_DISPATCH: u16 = 9u16;

pub const VT_ERROR: u16 = 10u16;

pub const VT_BOOL: u16 = 11u16;

pub const VT_VARIANT: u16 = 12u16;

pub const VT_I8: u16 = 20u16;

pub const VT_ARRAY: u16 = 0x2000u16;

pub const VT_BYREF: u16 = 0x4000u16;

/// `VT_ARRAY | VT_VARIANT`.
pub const VT_ARRAY_VARIANT: u16 = 0x200Cu16;

/// One SAFEARRAY dimension in physical COM order (dimension 1 first).
#[derive(Clone, Copy, Debug, PartialEq, Eq, Structural)]
pub struct SafeArrayDimension {
    pub physical_dimension: u32,
    pub lower_bound: i32,
    pub upper_bound: i32,
    pub element_count: u32,
}

/// A `SAFEARRAY` image: its rank and bounds as the SDK reports them, its
/// element VARTYPE when reported, and its elements in physical index order
/// (the last dimension varying fastest).  The copy stops at the first element
/// that cannot be read, so a short `elements` marks that element as failed.
#[derive(Debug, PartialEq)]
pub struct RawSafeArray {
    pub rank: u32,
    pub dimensions: Vec<SafeArrayDimension>,
    pub element_vartype: Option<u16>,
    pub elements: Vec<RawVariant>,
}

/// A `VARIANT` image: its VARTYPE and the eight bytes of its data union
/// (little-endian); a BSTR's UTF-16 units; a SAFEARRAY's image (`None` for a
/// null or unreadable descriptor).
#[derive(Debug, PartialEq)]
pub struct RawVariant {
    pub vt: u16,
    pub bits: u64,
    pub text: Vec<u16>,
    pub array: Option<RawSafeArray>,
}

impl RawVariant {
    /// `VT_EMPTY`.
    pub fn empty() -> (r: Self)
        ensures
            r.vt == VT_EMPTY,
            r.bits == 0,
            r.text@.len() == 0,
            r.array is None,
    {
        Self::scalar(VT_EMPTY, 0)
    }

    /// A scalar `VARIANT` whose data union holds `bits`.
    pub fn scalar(vt: u16, bits: u64) -> (r: Self)
        ensures
            r.vt == vt,
            r.bits == bits,
            r.text@.len() == 0,
            r.array is None,
    {
        RawVariant { vt, bits, text: Vec::new(), array: None }
    }

    /// A `VT_BSTR` holding `units`.
    pub fn bstr(units: Vec<u16>) -> (r: Self)
        ensures
            r.vt == VT_BSTR,
            r.bits == 0,
            r.text@ == units@,
            r.array is None,
    {
        RawVariant { vt: VT_BSTR, bits: 0, text: units, array: None }
    }

    /// `VT_ERROR` with the given SCODE.
    pub fn error(scode: i32) -> (r: Self)
        ensures
            r.vt == VT_ERROR,
            r.bits == scode as u32 as u64,
            r.array is None,
            r.text@.len() == 0,
    {
        Self::scalar(VT_ERROR, scode as u32 as u64)
    }

    /// The SCODE of a `VT_ERROR` value.
    pub fn error_scode(&self) -> (r: Option<i32>)
        ensures
            r == (if self.vt == VT_ERROR {
                Some(self.bits as u32 as i32)
            } else {
                None::<i32>
            }),
    {
        if self.vt == VT_ERROR {
            Some(self.bits as u32 as i32)
        } else {
            None
        }
    }

    /// The `lVal` of a `VT_I4` value.
    pub fn i4_value(&self) -> (r: Option<i32>)
        ensures
            r == (if self.vt == VT_I4 {
                Some(self.bits as u32 as i32)
            } else {
                None::<i32>
            }),
    {
        if self.vt == VT_I4 {
            Some(self.bits as u32 as i32)
        } else {
            None
        }
    }
}

/// The name of a base VARTYPE as the diagnostics print it.
pub open spec fn base_vartype_name(base: u16) -> Seq<char> {
    if base == VT_EMPTY {
        "VT_EMPTY"@
    } else if base == VT_NULL {
        "VT_NULL"@
    } else if base == VT_I4 {
        "VT_I4"@
    } else if base == VT_R8 {
        "VT_R8"@
    } else if base == VT_CY {
        "VT_CY"@
    } else if base == VT_DATE {
        "VT_DATE"@
    } else if base == VT_BSTR {
        "VT_BSTR"@
    } else if base == VT_DISPATCH {
        "VT_DISPATCH"@
    } else if base == VT_ERROR {
        "VT_ERROR"@
    } else if base == VT_BOOL {
        "VT_BOOL"@
    } else if base == VT_VARIANT {
        "VT_VARIANT"@
    } else {
        "VT_UNKNOWN_RAW"@
    }
}

pub fn base_vartype_name_str(base: u16) -> (s: &'static str)
    ensures
        s@ == base_vartype_name(base),
{
    if base == VT_EMPTY {
        "VT_EMPTY"
    } else if base == VT_NULL {
        "VT_NULL"
    } else if base == VT_I4 {
        "VT_I4"
    } else if base == VT_R8 {
        "VT_R8"
    } else if base == VT_CY {
        "VT_CY"
    } else if base == VT_DATE {
        "VT_DATE"
    } else if base == VT_BSTR {
        "VT_BSTR"
    } else if base == VT_DISPATCH {
        "VT_DISPATCH"
    } else if base == VT_ERROR {
        "VT_ERROR"
    } else if base == VT_BOOL {
        "VT_BOOL"
    } else if base == VT_VARIANT {
        "VT_VARIANT"
    } else {
        "VT_UNKNOWN_RAW"
    }
}

/// `VT_ARRAY|VT_BYREF|NAME (0xHHHH)`: the modifiers present, the base name
/// of the VARTYPE without its `VT_ARRAY`, `VT_BYREF` and `0x8000` bits, and
/// the raw value in four upper-case hexadecimal digits.
pub open spec fn vartype_name_spec(raw: u16) -> Seq<char> {
    let base = raw & !(0x2000u16 | 0x4000u16 | 0x8000u16);
    (if raw & VT_ARRAY != 0 { "VT_ARRAY|"@ } else { Seq::empty() }) + (if raw & VT_BYREF != 0 {
        "VT_BYREF|"@
    } else {
        Seq::empty()
    }) + base_vartype_name(base) + " (0x"@ + hex_digits(raw as nat, 4, true) + ")"@
}

/// The diagnostic rendering of a VARTYPE.
pub fn vartype_name(raw: u16) -> (s: String)
    ensures
        s@ == vartype_name_spec(raw),
{
    let base = raw & !(0x2000u16 | 0x4000u16 | 0x8000u16);
    let mut s = String::new();
    if raw & VT_ARRAY != 0 {
        push_str(&mut s, "VT_ARRAY|");
    }
    if raw & VT_BYREF != 0 {
        push_str(&mut s, "VT_BYREF|");
    }
    push_str(&mut s, base_vartype_name_str(base));
    push_str(&mut s, " (0x");
    push_hex(&mut s, raw as u128, 4, true);
    push_char(&mut s, ')');
    proof {
        assert(")"@ == seq![')']) by {
            reveal_strlit(")");
        }
    }
    assert(s@ =~= vartype_name_spec(raw));
    s
}

/// What a scalar `VARIANT` holds, as the diagnostics record it: the
/// payload of each VARTYPE the probe reads, read from the data union, and
/// the raw VARTYPE of any other.  A dispatch pointer is never recorded.
#[derive(Debug, PartialEq)]
pub enum ScalarValue {
    Empty,
    Null,
    I4(i32),
    /// The bits of the `double`.
    R8(u64),
    /// The bits of the OLE Automation date's `double`.
    Date(u64),
    /// The currency scaled by 10,000.
    Currency(i64),
    /// The raw `VARIANT_BOOL`.
    Bool(i16),
    Error(ErrorCodeRecord),
    Bstr(Vec<u16>),
    Dispatch,
    Unknown(u16),
}

/// The VARTYPEs whose payload a `ScalarValue` records.
pub open spec fn is_recorded_scalar(vt: u16) -> bool {
    vt == VT_EMPTY || vt == VT_NULL || vt == VT_I4 || vt == VT_R8 || vt == VT_DATE || vt == VT_CY
        || vt == VT_BOOL || vt == VT_ERROR || vt == VT_BSTR || vt == VT_DISPATCH
}

/// The scalar that `v` holds.
pub fn scalar_value(v: &RawVariant) -> (r: ScalarValue)
    ensures
        (r is Empty) <==> v.vt == VT_EMPTY,
        (r is Null) <==> v.vt == VT_NULL,
        (r is I4) <==> v.vt == VT_I4,
        (r is R8) <==> v.vt == VT_R8,
        (r is Date) <==> v.vt == VT_DATE,
        (r is Currency) <==> v.vt == VT_CY,
        (r is Bool) <==> v.vt == VT_BOOL,
        (r is Error) <==> v.vt == VT_ERROR,
        (r is Bstr) <==> v.vt == VT_BSTR,
        (r is Dispatch) <==> v.vt == VT_DISPATCH,
        (r is Unknown) <==> !is_recorded_scalar(v.vt),
        r matches ScalarValue::I4(x) ==> x == v.bits as u32 as i32,
        r matches ScalarValue::R8(x) ==> x == v.bits,
        r matches ScalarValue::Date(x) ==> x == v.bits,
        r matches ScalarValue::Currency(x) ==> x == v.bits as i64,
        r matches ScalarValue::Bool(x) ==> x == v.bits as u16 as i16,
        r matches ScalarValue::Error(e) ==> e.signed_i32 == v.bits as u32 as i32 && e.unsigned_u32
            == v.bits as u32,
        r matches ScalarValue::Bstr(u) ==> u@ == v.text@,
        r matches ScalarValue::Unknown(t) ==> t == v.vt,
{
    let vt = v.vt;
    if vt == VT_EMPTY {
        ScalarValue::Empty
    } else if vt == VT_NULL {
        ScalarValue::Null
    } else if vt == VT_I4 {
        ScalarValue::I4(v.bits as u32 as i32)
    } else if vt == VT_R8 {
        ScalarValue::R8(v.bits)
    } else if vt == VT_DATE {
        ScalarValue::Date(v.bits)
    } else if vt == VT_CY {
        ScalarValue::Currency(v.bits as i64)
    } else if vt == VT_BOOL {
        ScalarValue::Bool(v.bits as u16 as i16)
    } else if vt == VT_ERROR {
        let bits: u64 = v.bits;
        let signed = bits as u32 as i32;
        proof {
            assert(signed as u32 == bits as u32) by (bit_vector)
                requires
                    signed == bits as u32 as i32,
            ;
        }
        ScalarValue::Error(error_code_record(signed))
    } else if vt == VT_BSTR {
        let mut units: Vec<u16> = Vec::new();
        let mut k: usize = 0;
        while k < v.text.len()
            invariant
                k <= v.text@.len(),
                units@ == v.text@.subrange(0, k as int),
            decreases v.text.len() - k,
        {
            units.push(v.text[k]);
            k = k + 1;
            assert(units@ =~= v.text@.subrange(0, k as int));
        }
        assert(units@ =~= v.text@);
        ScalarValue::Bstr(units)
    } else if vt == VT_DISPATCH {
        ScalarValue::Dispatch
    } else {
        ScalarValue::Unknown(vt)
    }
}

/// The `kind` under which the diagnostics record a scalar.
pub open spec fn scalar_kind(s: ScalarValue) -> Seq<char> {
    match s {
        ScalarValue::Empty => "empty"@,
        ScalarValue::Null => "null"@,
        ScalarValue::I4(_) => "i4"@,
        ScalarValue::R8(_) => "r8"@,
        ScalarValue::Date(_) => "date"@,
        ScalarValue::Currency(_) => "currency"@,
        ScalarValue::Bool(_) => "bool"@,
        ScalarValue::Error(_) => "error"@,
        ScalarValue::Bstr(_) => "bstr"@,
        ScalarValue::Dispatch => "dispatch"@,
        ScalarValue::Unknown(_) => "unknown"@,
    }
}

impl ScalarValue {
    /// The `kind` under which the diagnostics record this scalar.
    pub fn kind(&self) -> (s: &'static str)
        ensures
            s@ == scalar_kind(*self),
    {
        match self {
            ScalarValue::Empty => "empty",
            ScalarValue::Null => "null",
            ScalarValue::I4(_) => "i4",
            ScalarValue::R8(_) => "r8",
            ScalarValue::Date(_) => "date",
            ScalarValue::Currency(_) => "currency",
            ScalarValue::Bool(_) => "bool",
            ScalarValue::Error(_) => "error",
            ScalarValue::Bstr(_) => "bstr",
            ScalarValue::Dispatch => "dispatch",
            ScalarValue::Unknown(_) => "unknown",
        }
    }
}

} // verus!
