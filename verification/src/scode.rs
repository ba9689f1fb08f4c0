//! Lossless Excel error SCODEs and HRESULT field decomposition.
//!
//! A `VT_ERROR` value carries a full 32-bit SCODE.  Excel's own worksheet
//! errors are the `0x800Axxxx` SCODEs whose low word is the familiar error
//! number (2000 for `#NULL!` through 2042 for `#N/A`); any other SCODE is kept
//! bit for bit.

use vstd::prelude::*;

use crate::text::{hex32, hex32_string};

verus! {

/// `#NULL!` (`0x800A07D0`).
pub const SCODE_NULL: i32 = -2146826288i32;

/// `#DIV/0!` (`0x800A07D7`).
pub const SCODE_DIV0: i32 = -2146826281i32;

/// `#VALUE!` (`0x800A07DF`).
pub const SCODE_VALUE: i32 = -2146826273i32;

/// `#REF!` (`0x800A07E7`).
pub const SCODE_REF: i32 = -2146826265i32;

/// `#NAME?` (`0x800A07ED`).
pub const SCODE_NAME: i32 = -2146826259i32;

/// `#NUM!` (`0x800A07F4`).
pub const SCODE_NUM: i32 = -2146826252i32;

/// `#N/A` (`0x800A07FA`).
pub const SCODE_NOT_AVAILABLE: i32 = -2146826246i32;

/// `DISP_E_PARAMNOTFOUND` (`0x80020004`), the SCODE of an omitted argument.
pub const DISP_E_PARAMNOTFOUND: i32 = -2147352572i32;

/// `DISP_E_TYPEMISMATCH` (`0x80020005`).
pub const DISP_E_TYPEMISMATCH: i32 = -2147352571i32;

/// `DISP_E_EXCEPTION` (`0x80020009`).
pub const DISP_E_EXCEPTION: i32 = -2147352567i32;

/// A physical Excel error SCODE, not an Excel worksheet error number.
#[derive(Clone, Copy, Debug, PartialEq, Eq, Structural, Hash)]
pub struct ExcelError(pub i32);

/// The standard Excel error an SCODE denotes, or `Other` with its bits.
#[derive(Clone, Copy, Debug, PartialEq, Eq, Structural, Hash)]
pub enum ExcelErrorKind {
    Null,
    Div0,
    Value,
    Ref,
    Name,
    Num,
    NotAvailable,
    Other(i32),
}

pub open spec fn error_kind(scode: i32) -> ExcelErrorKind {
    if scode == SCODE_NULL {
        ExcelErrorKind::Null
    } else if scode == SCODE_DIV0 {
        ExcelErrorKind::Div0
    } else if scode == SCODE_VALUE {
        ExcelErrorKind::Value
    } else if scode == SCODE_REF {
        ExcelErrorKind::Ref
    } else if scode == SCODE_NAME {
        ExcelErrorKind::Name
    } else if scode == SCODE_NUM {
        ExcelErrorKind::Num
    } else if scode == SCODE_NOT_AVAILABLE {
        ExcelErrorKind::NotAvailable
    } else {
        ExcelErrorKind::Other(scode)
    }
}

/// The Excel error number of an `0x800Axxxx` SCODE (its low word).
pub open spec fn excel_number_of(scode: i32) -> Option<u16> {
    if (scode as u32 & 0xffff_0000u32) == 0x800A_0000u32 {
        Some((scode as u32 & 0xffffu32) as u16)
    } else {
        None
    }
}

impl ExcelError {
    pub fn from_scode(scode: i32) -> (e: Self)
        ensures
            e.0 == scode,
    {
        ExcelError(scode)
    }

    pub fn scode(self) -> (s: i32)
        ensures
            s == self.0,
    {
        self.0
    }

    pub fn kind(self) -> (k: ExcelErrorKind)
        ensures
            k == error_kind(self.0),
    {
        let s = self.0;
        if s == SCODE_NULL {
            ExcelErrorKind::Null
        } else if s == SCODE_DIV0 {
            ExcelErrorKind::Div0
        } else if s == SCODE_VALUE {
            ExcelErrorKind::Value
        } else if s == SCODE_REF {
            ExcelErrorKind::Ref
        } else if s == SCODE_NAME {
            ExcelErrorKind::Name
        } else if s == SCODE_NUM {
            ExcelErrorKind::Num
        } else if s == SCODE_NOT_AVAILABLE {
            ExcelErrorKind::NotAvailable
        } else {
            ExcelErrorKind::Other(s)
        }
    }

    /// Returns the familiar Excel error number only for an `0x800Axxxx` SCODE.
    pub fn excel_number(self) -> (n: Option<u16>)
        ensures
            n == excel_number_of(self.0),
    {
        let bits = self.0 as u32;
        if (bits & 0xffff_0000u32) == 0x800A_0000u32 {
            Some((bits & 0xffffu32) as u16)
        } else {
            None
        }
    }

    /// Only a failure SCODE (sign bit set) may be written as `VT_ERROR`;
    /// a bare Excel error number such as 2042 may not.
    pub fn valid_for_direct_write(self) -> (b: bool)
        ensures
            b == (self.0 < 0),
    {
        self.0 < 0
    }
}

/// The full SCODE of an Excel error number: `0x800A0000 | number`.
pub open spec fn full_scode_spec(number: i32) -> i32 {
    (0x800A_0000u32 | number as u32) as i32
}

/// Combines a non-negative Excel worksheet error number with the `0x800A`
/// facility bits.
pub fn full_scode(number: i32) -> (scode: i32)
    requires
        0 <= number,
    ensures
        scode == full_scode_spec(number),
        scode as u32 == (0x800A_0000u32 | number as u32),
{
    let bits: u32 = 0x800A_0000u32 | number as u32;
    assert(((bits as i32) as u32) == bits) by (bit_vector);
    bits as i32
}

/// One of the seven standard worksheet errors, with the formula that makes
/// Excel produce it.
#[derive(Clone, Copy, Debug, PartialEq, Eq)]
pub struct ErrorCase {
    pub id: &'static str,
    pub symbol: &'static str,
    pub display: &'static str,
    pub number: i32,
    pub formula: &'static str,
}

/// The standard worksheet error numbers, `#NULL!` through `#N/A`.
pub open spec fn standard_error_numbers() -> Seq<i32> {
    seq![2000i32, 2007, 2015, 2023, 2029, 2036, 2042]
}

/// The seven standard worksheet errors in Excel's numeric order.
pub fn error_cases() -> (cases: Vec<ErrorCase>)
    ensures
        cases@.len() == 7,
        forall|i: int|
            0 <= i < 7 ==> (#[trigger] cases@[i]).number == standard_error_numbers()[i],
{
    let cases = vec![
        ErrorCase { id: "null", symbol: "xlErrNull", display: "#NULL!", number: 2000, formula: "=A1 A2" },
        ErrorCase { id: "div0", symbol: "xlErrDiv0", display: "#DIV/0!", number: 2007, formula: "=1/0" },
        ErrorCase { id: "value", symbol: "xlErrValue", display: "#VALUE!", number: 2015, formula: "=1+\"x\"" },
        ErrorCase { id: "ref", symbol: "xlErrRef", display: "#REF!", number: 2023, formula: "=INDIRECT(\"A0\")" },
        ErrorCase { id: "name", symbol: "xlErrName", display: "#NAME?", number: 2029, formula: "=NOT_A_FUNCTION()" },
        ErrorCase { id: "num", symbol: "xlErrNum", display: "#NUM!", number: 2036, formula: "=SQRT(-1)" },
        ErrorCase { id: "na", symbol: "xlErrNA", display: "#N/A", number: 2042, formula: "=NA()" },
    ];
    cases
}

/// The numbers of `error_cases`, in order.
pub fn error_case_numbers() -> (numbers: Vec<i32>)
    ensures
        numbers@ == standard_error_numbers(),
{
    let cases = error_cases();
    let mut numbers: Vec<i32> = Vec::new();
    let mut i: usize = 0;
    while i < cases.len()
        invariant
            cases@.len() == 7,
            forall|k: int|
                0 <= k < 7 ==> (#[trigger] cases@[k]).number == standard_error_numbers()[k],
            i <= 7,
            numbers@ == standard_error_numbers().take(i as int),
        decreases 7 - i,
    {
        numbers.push(cases[i].number);
        i = i + 1;
        assert(numbers@ =~= standard_error_numbers().take(i as int));
    }
    assert(standard_error_numbers().take(7) =~= standard_error_numbers());
    numbers
}

/// Law: the full SCODE of each standard worksheet error number is the SCODE
/// of that standard error, and its Excel number is the number again.
pub proof fn lemma_standard_numbers_have_standard_scodes(i: int)
    requires
        0 <= i < 7,
    ensures
        error_kind(full_scode_spec(standard_error_numbers()[i])) !is Other,
        excel_number_of(full_scode_spec(standard_error_numbers()[i])) == Some(
            standard_error_numbers()[i] as u16,
        ),
{
    let n = standard_error_numbers()[i];
    assert(full_scode_spec(2000) == SCODE_NULL) by (bit_vector);
    assert(full_scode_spec(2007) == SCODE_DIV0) by (bit_vector);
    assert(full_scode_spec(2015) == SCODE_VALUE) by (bit_vector);
    assert(full_scode_spec(2023) == SCODE_REF) by (bit_vector);
    assert(full_scode_spec(2029) == SCODE_NAME) by (bit_vector);
    assert(full_scode_spec(2036) == SCODE_NUM) by (bit_vector);
    assert(full_scode_spec(2042) == SCODE_NOT_AVAILABLE) by (bit_vector);
    assert(0 <= n <= 0xffff);
    assert(0 <= n <= 0xffff ==> ((full_scode_spec(n) as u32 & 0xffff_0000u32) == 0x800A_0000u32
        && (full_scode_spec(n) as u32 & 0xffffu32) as u16 == n as u16)) by (bit_vector);
}

/// The fields of an HRESULT or SCODE as the diagnostics record them.
#[derive(Clone, Debug, PartialEq, Eq)]
pub struct HresultFields {
    /// `0x` and eight upper-case hexadecimal digits.
    pub hex: String,
    pub signed_i32: i32,
    pub severity: u32,
    pub facility: u32,
    pub code: u32,
}

/// Splits an HRESULT into severity bit, 13-bit facility and 16-bit code.
pub fn hresult_fields(value: i32) -> (f: HresultFields)
    ensures
        f.hex@ == hex32(value as u32),
        f.signed_i32 == value,
        f.severity == (value as u32) >> 31u32,
        f.facility == ((value as u32) >> 16u32) & 0x1fffu32,
        f.code == (value as u32) & 0xffffu32,
{
    let raw = value as u32;
    HresultFields {
        hex: hex32_string(raw),
        signed_i32: value,
        severity: raw >> 31u32,
        facility: (raw >> 16u32) & 0x1fffu32,
        code: raw & 0xffffu32,
    }
}

/// A `VT_ERROR` payload recorded under both signednesses.
#[derive(Clone, Copy, Debug, PartialEq, Eq)]
pub struct ErrorCodeRecord {
    pub signed_i32: i32,
    pub unsigned_u32: u32,
}

pub fn error_code_record(signed: i32) -> (r: ErrorCodeRecord)
    ensures
        r.signed_i32 == signed,
        r.unsigned_u32 == signed as u32,
{
    ErrorCodeRecord { signed_i32: signed, unsigned_u32: signed as u32 }
}

/// `format!("0x{:08X}", value as u32)`, the SCODE and HRESULT rendering.
pub fn hex(value: i32) -> (s: String)
    ensures
        s@ == hex32(value as u32),
{
    hex32_string(value as u32)
}

} // verus!
