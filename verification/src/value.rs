//! Pointer-free Automation worksheet values and the explicit conversion and
//! shape policies that govern them.

use vstd::prelude::*;

use crate::floatbits::{f64_is_finite, f64_is_finite_bits};
use crate::scode::ExcelError;

verus! {

/// Pre-COM conversion failures.  COM `HRESULT`, `EXCEPINFO` and Excel
/// application errors belong to the transport, never here.
#[derive(Clone, Copy, Debug, PartialEq, Eq, Structural)]
pub enum ConversionError {
    UnsupportedVariantType { vartype: u16 },
    UnsupportedSafeArrayRank { rank: u32 },
    UnsupportedSafeArrayElementType { vartype: u16 },
    ShapeMismatch {
        source_rows: usize,
        source_columns: usize,
        target_rows: usize,
        target_columns: usize,
    },
    InvalidElementCount,
    NumericPrecisionLoss,
    NonFiniteNumber,
    EmbeddedNul,
    InvalidDateForPolicy,
    CurrencyOverflow,
    StringTooLong,
    InvalidExcelErrorScode,
    InvalidUtf16String,
    SafeArrayConstructionFailed,
    SafeArrayElementFailed { row: usize, column: usize },
}

/// Exact COM `CY` storage: the value times 10,000.
#[derive(Clone, Copy, Debug, PartialEq, Eq, Structural, Hash)]
pub struct Currency(pub i64);

/// The fixed `CY` scale.
pub const CURRENCY_SCALE: i64 = 10_000i64;

/// The scaled value of `whole` units and `fraction` ten-thousandths; the
/// fraction takes the sign of `whole`.
pub open spec fn currency_scaled(whole: i64, fraction: u16) -> int {
    whole * 10_000 + (if whole < 0 { -(fraction as int) } else { fraction as int })
}

/// Law: the scaled value of `whole` units and a four-digit `fraction` reads
/// back as those decimal parts.  For `whole >= 0` it is not negative, its
/// units are `whole` and its ten-thousandths are `fraction`; for `whole < 0`
/// it is negative and its magnitude has the units `-whole` and the
/// ten-thousandths `fraction`.  So a zero whole part keeps a positive
/// fraction positive.
pub proof fn lemma_currency_reads_back_decimal_parts(whole: i64, fraction: u16)
    requires
        fraction < 10_000,
    ensures
        whole >= 0 ==> currency_scaled(whole, fraction) >= 0 && currency_scaled(whole, fraction)
            / 10_000 == whole && currency_scaled(whole, fraction) % 10_000 == fraction,
        whole < 0 ==> currency_scaled(whole, fraction) < 0 && (-currency_scaled(whole, fraction))
            / 10_000 == -whole && (-currency_scaled(whole, fraction)) % 10_000 == fraction,
{
    if whole >= 0 {
        vstd::arithmetic::div_mod::lemma_fundamental_div_mod_converse(
            currency_scaled(whole, fraction),
            10_000,
            whole as int,
            fraction as int,
        );
    } else {
        vstd::arithmetic::div_mod::lemma_fundamental_div_mod_converse(
            -currency_scaled(whole, fraction),
            10_000,
            -whole,
            fraction as int,
        );
    }
}

impl Currency {
    pub fn from_scaled(scaled: i64) -> (c: Self)
        ensures
            c.0 == scaled,
    {
        Currency(scaled)
    }

    pub fn scaled(self) -> (s: i64)
        ensures
            s == self.0,
    {
        self.0
    }

    /// `whole.fraction` with a four-digit fraction, refusing fractions of
    /// 10,000 or more and values beyond the `i64` range.
    pub fn from_decimal_parts(whole: i64, fraction: u16) -> (r: Result<Self, ConversionError>)
        ensures
            fraction >= 10_000 ==> r == Err::<Self, ConversionError>(
                ConversionError::CurrencyOverflow,
            ),
            fraction < 10_000 ==> (match r {
                Ok(c) => c.0 == currency_scaled(whole, fraction),
                Err(e) => e == ConversionError::CurrencyOverflow && !(i64::MIN <= currency_scaled(
                    whole,
                    fraction,
                ) <= i64::MAX),
            }),
            r matches Ok(c) ==> whole >= 0 ==> c.0 >= 0 && c.0 / 10_000 == whole && c.0 % 10_000
                == fraction,
            r matches Ok(c) ==> whole < 0 ==> c.0 < 0 && (-c.0) / 10_000 == -whole && (-c.0)
                % 10_000 == fraction,
    {
        proof {
            if fraction < 10_000 {
                lemma_currency_reads_back_decimal_parts(whole, fraction);
            }
        }
        if fraction >= 10_000 {
            return Err(ConversionError::CurrencyOverflow);
        }
        let whole_wide = whole as i128;
        let scaled: i128 = whole_wide * 10_000 + if whole < 0 {
            -(fraction as i128)
        } else {
            fraction as i128
        };
        if scaled < i64::MIN as i128 || scaled > i64::MAX as i128 {
            Err(ConversionError::CurrencyOverflow)
        } else {
            Ok(Currency(scaled as i64))
        }
    }
}

/// An OLE Automation date serial, held as its binary64 bit pattern.  It is
/// not a calendar type: date-system interpretation belongs elsewhere.
#[derive(Clone, Copy, Debug, PartialEq, Eq, Structural, Hash)]
pub struct OaDate(pub u64);

impl OaDate {
    /// Accepts only a finite serial.
    pub fn new(serial_bits: u64) -> (r: Result<Self, ConversionError>)
        ensures
            r == (if f64_is_finite(serial_bits) {
                Ok::<Self, ConversionError>(OaDate(serial_bits))
            } else {
                Err(ConversionError::NonFiniteNumber)
            }),
    {
        if f64_is_finite_bits(serial_bits) {
            Ok(OaDate(serial_bits))
        } else {
            Err(ConversionError::NonFiniteNumber)
        }
    }

    pub fn serial(self) -> (b: u64)
        ensures
            b == self.0,
    {
        self.0
    }
}

/// Worksheet values.  Numbers and date serials are binary64 bit patterns.
/// `Missing` is deliberately absent: it belongs to invocation arguments only.
#[derive(Debug, PartialEq)]
pub enum AutomationValue {
    Empty,
    Null,
    Bool(bool),
    Number(u64),
    Text(String),
    Error(ExcelError),
    Date(OaDate),
    Currency(Currency),
    Array(AutomationArray),
}

/// A zero-based, row-major rectangle of values.
#[derive(Debug, PartialEq)]
pub struct AutomationArray {
    pub rows: usize,
    pub columns: usize,
    pub values: Vec<AutomationValue>,
}

/// Two values hold the same content: equal scalars, equal text, or arrays
/// of the same shape whose values are the same position by position.
pub open spec fn same_value(a: AutomationValue, b: AutomationValue) -> bool
    decreases a,
{
    match a {
        AutomationValue::Text(x) => b matches AutomationValue::Text(y) && x@ == y@,
        AutomationValue::Array(x) => match b {
            AutomationValue::Array(y) => {
                &&& x.rows == y.rows
                &&& x.columns == y.columns
                &&& x.values@.len() == y.values@.len()
                &&& forall|i: int|
                    0 <= i < x.values@.len() ==> same_value(
                        #[trigger] x.values@[i],
                        y.values@[i],
                    )
            },
            _ => false,
        },
        _ => a == b,
    }
}

/// Every date is finite, and every rectangle holds exactly `rows * columns`
/// well-formed values (which a vector of them can hold).
pub open spec fn well_formed_value(v: AutomationValue) -> bool
    decreases v,
{
    match v {
        AutomationValue::Date(d) => f64_is_finite(d.0),
        AutomationValue::Array(a) => {
            &&& a.rows * a.columns == a.values@.len()
            &&& a.values@.len() <= usize::MAX
            &&& forall|k: int|
                0 <= k < a.values@.len() ==> well_formed_value(#[trigger] a.values@[k])
        },
        _ => true,
    }
}

/// A deep copy of `v`.
pub fn copy_value(v: &AutomationValue) -> (r: AutomationValue)
    ensures
        same_value(r, *v),
    decreases v,
{
    match v {
        AutomationValue::Empty => AutomationValue::Empty,
        AutomationValue::Null => AutomationValue::Null,
        AutomationValue::Bool(b) => AutomationValue::Bool(*b),
        AutomationValue::Number(n) => AutomationValue::Number(*n),
        AutomationValue::Text(t) => AutomationValue::Text(t.clone()),
        AutomationValue::Error(e) => AutomationValue::Error(*e),
        AutomationValue::Date(d) => AutomationValue::Date(*d),
        AutomationValue::Currency(c) => AutomationValue::Currency(*c),
        AutomationValue::Array(a) => AutomationValue::Array(copy_array(a)),
    }
}

/// A deep copy of `a`.
pub fn copy_array(a: &AutomationArray) -> (r: AutomationArray)
    ensures
        same_value(AutomationValue::Array(r), AutomationValue::Array(*a)),
    decreases a,
{
    let mut values: Vec<AutomationValue> = Vec::new();
    let mut i: usize = 0;
    while i < a.values.len()
        invariant
            i <= a.values@.len(),
            values@.len() == i,
            forall|k: int| 0 <= k < i ==> same_value(#[trigger] values@[k], a.values@[k]),
        decreases a.values.len() - i,
    {
        proof {
            assert(decreases_to!(a => a.values));
        }
        let copy = copy_value(&a.values[i]);
        values.push(copy);
        i = i + 1;
    }
    AutomationArray { rows: a.rows, columns: a.columns, values }
}

impl Clone for AutomationValue {
    fn clone(&self) -> Self {
        copy_value(self)
    }
}

impl Clone for AutomationArray {
    fn clone(&self) -> Self {
        copy_array(self)
    }
}

/// The values of consecutive rows, one after another.
pub open spec fn flatten_rows(rows: Seq<Vec<AutomationValue>>) -> Seq<AutomationValue>
    decreases rows.len(),
{
    if rows.len() == 0 {
        Seq::empty()
    } else {
        rows[0]@ + flatten_rows(rows.skip(1))
    }
}

impl AutomationArray {
    /// The position of (`row`, `column`) in the row-major values.
    pub open spec fn offset(&self, row: int, column: int) -> int {
        row * self.columns + column
    }

    pub fn new(rows: usize, columns: usize, values: Vec<AutomationValue>) -> (r: Result<
        Self,
        ConversionError,
    >)
        ensures
            rows * columns == values@.len() ==> (r matches Ok(a) && a.rows == rows && a.columns
                == columns && a.values@ == values@),
            rows * columns != values@.len() ==> r == Err::<Self, ConversionError>(
                ConversionError::InvalidElementCount,
            ),
    {
        let count_needed = values.len();
        assert(values@.len() <= usize::MAX);
        match rows.checked_mul(columns) {
            Some(count) if count == count_needed => Ok(AutomationArray { rows, columns, values }),
            _ => Err(ConversionError::InvalidElementCount),
        }
    }

    /// A single row.
    pub fn row(values: Vec<AutomationValue>) -> (r: Result<Self, ConversionError>)
        ensures
            r matches Ok(a) && a.rows == 1 && a.columns == values@.len() && a.values@ == values@,
    {
        let n = values.len();
        Self::new(1, n, values)
    }

    /// A single column.
    pub fn column(values: Vec<AutomationValue>) -> (r: Result<Self, ConversionError>)
        ensures
            r matches Ok(a) && a.rows == values@.len() && a.columns == 1 && a.values@ == values@,
    {
        let n = values.len();
        Self::new(n, 1, values)
    }

    /// A rectangle from equal-length rows; a ragged input is refused.
    pub fn from_rows(rows: Vec<Vec<AutomationValue>>) -> (r: Result<Self, ConversionError>)
        ensures
            ({
                let width = if rows@.len() == 0 { 0 } else { rows@[0]@.len() };
                if forall|i: int| 0 <= i < rows@.len() ==> (#[trigger] rows@[i])@.len() == width {
                    (r matches Ok(a) && a.rows == rows@.len() && a.columns == width && a.values@
                        == flatten_rows(rows@))
                } else {
                    r == Err::<Self, ConversionError>(ConversionError::InvalidElementCount)
                }
            }),
    {
        let row_count = rows.len();
        let columns = if rows.len() == 0 {
            0
        } else {
            rows[0].len()
        };
        let mut i: usize = 0;
        while i < rows.len()
            invariant
                i <= rows@.len(),
                columns == (if rows@.len() == 0 { 0 } else { rows@[0]@.len() }),
                forall|k: int| 0 <= k < i ==> (#[trigger] rows@[k])@.len() == columns,
            decreases rows.len() - i,
        {
            if rows[i].len() != columns {
                return Err(ConversionError::InvalidElementCount);
            }
            i = i + 1;
        }
        let ghost original = rows@;
        assert(original.len() <= usize::MAX);
        let mut rows = rows;
        let mut values: Vec<AutomationValue> = Vec::new();
        let mut taken: usize = 0;
        assert(original.skip(0) =~= original);
        while rows.len() > 0
            invariant
                taken + rows@.len() == original.len(),
                original.len() <= usize::MAX,
                rows@ == original.skip(taken as int),
                values@.len() == taken * columns,
                forall|k: int| 0 <= k < original.len() ==> (#[trigger] original[k])@.len()
                    == columns,
                values@ + flatten_rows(rows@) == flatten_rows(original),
            decreases rows.len(),
        {
            let ghost before = rows@;
            let mut row = rows.remove(0);
            assert(rows@ =~= before.skip(1));
            assert(before[0] == original[taken as int]);
            let ghost prefix = values@;
            values.append(&mut row);
            assert(values@ + flatten_rows(rows@) =~= prefix + flatten_rows(before));
            taken = taken + 1;
            assert(rows@ =~= original.skip(taken as int));
            assert(values@.len() == taken * columns) by (nonlinear_arith)
                requires
                    values@.len() == (taken - 1) * columns + columns,
            ;
        }
        assert(values@ + flatten_rows(rows@) =~= values@);
        Self::new(row_count, columns, values)
    }

    pub fn rows(&self) -> (n: usize)
        ensures
            n == self.rows,
    {
        self.rows
    }

    pub fn columns(&self) -> (n: usize)
        ensures
            n == self.columns,
    {
        self.columns
    }

    pub fn len(&self) -> (n: usize)
        ensures
            n == self.values@.len(),
    {
        self.values.len()
    }

    pub fn is_empty(&self) -> (b: bool)
        ensures
            b == (self.values@.len() == 0),
    {
        self.values.len() == 0
    }

    /// The row-major position of an in-bounds cell.
    pub fn index(&self, row: usize, column: usize) -> (r: Option<usize>)
        ensures
            r == (if row < self.rows && column < self.columns && self.offset(
                row as int,
                column as int,
            ) <= usize::MAX {
                Some(self.offset(row as int, column as int) as usize)
            } else {
                None::<usize>
            }),
    {
        if row < self.rows && column < self.columns {
            match row.checked_mul(self.columns) {
                Some(start) => start.checked_add(column),
                None => {
                    assert(row * self.columns + column > usize::MAX) by (nonlinear_arith)
                        requires
                            row * self.columns > usize::MAX,
                    ;
                    None
                },
            }
        } else {
            None
        }
    }

    /// The value at (`row`, `column`), if that cell exists.
    pub fn get(&self, row: usize, column: usize) -> (r: Option<&AutomationValue>)
        ensures
            ({
                let k = self.offset(row as int, column as int);
                if row < self.rows && column < self.columns && k < self.values@.len() {
                    r == Some(&self.values@[k])
                } else {
                    r is None
                }
            }),
    {
        let stored = self.values.len();
        assert(self.values@.len() == stored);
        match self.index(row, column) {
            Some(k) => {
                if k < self.values.len() {
                    Some(&self.values[k])
                } else {
                    None
                }
            },
            None => None,
        }
    }

    /// Replaces the value at (`row`, `column`) when that cell exists.
    pub fn set(&mut self, row: usize, column: usize, value: AutomationValue) -> (done: bool)
        ensures
            ({
                let k = old(self).offset(row as int, column as int);
                let present = row < old(self).rows && column < old(self).columns && k < old(
                    self,
                ).values@.len();
                &&& done == present
                &&& final(self).rows == old(self).rows
                &&& final(self).columns == old(self).columns
                &&& final(self).values@ == (if present {
                    old(self).values@.update(k, value)
                } else {
                    old(self).values@
                })
            }),
    {
        let stored = self.values.len();
        assert(self.values@.len() == stored);
        match self.index(row, column) {
            Some(k) => {
                if k < self.values.len() {
                    self.values.set(k, value);
                    true
                } else {
                    false
                }
            },
            None => false,
        }
    }

    pub fn values(&self) -> (s: &[AutomationValue])
        ensures
            s@ == self.values@,
    {
        self.values.as_slice()
    }

    pub fn into_values(self) -> (v: Vec<AutomationValue>)
        ensures
            v@ == self.values@,
    {
        self.values
    }
}

/// How a date is written: as `VT_DATE`, or as its `Value2` serial (`VT_R8`).
#[derive(Clone, Copy, Debug, PartialEq, Eq, Structural)]
pub enum DateWritePolicy {
    DateVariant,
    Value2Serial,
}

/// Range-shape policy: a source rectangle must match its target exactly.
#[derive(Clone, Copy, Debug, PartialEq, Eq, Structural)]
pub enum ShapePolicy {
    Exact,
}

impl ShapePolicy {
    pub fn validate(self, source: &AutomationArray, target_rows: usize, target_columns: usize) -> (r:
        Result<(), ConversionError>)
        ensures
            r == (if source.rows == target_rows && source.columns == target_columns {
                Ok::<(), ConversionError>(())
            } else {
                Err(
                    ConversionError::ShapeMismatch {
                        source_rows: source.rows,
                        source_columns: source.columns,
                        target_rows,
                        target_columns,
                    },
                )
            }),
    {
        if source.rows == target_rows && source.columns == target_columns {
            Ok(())
        } else {
            Err(
                ConversionError::ShapeMismatch {
                    source_rows: source.rows,
                    source_columns: source.columns,
                    target_rows,
                    target_columns,
                },
            )
        }
    }
}

/// Explicit pre-COM conversion behaviour.
#[derive(Clone, Copy, Debug, PartialEq, Eq, Structural)]
pub struct ConversionPolicy {
    pub date_write: DateWritePolicy,
    pub reject_non_finite_numbers: bool,
    pub reject_embedded_nul: bool,
    pub require_exact_integer_conversion: bool,
    pub shape: ShapePolicy,
}

/// The strict policy: dates as `VT_DATE`, and no non-finite number, embedded
/// NUL or inexact integer conversion.
pub open spec fn strict_policy() -> ConversionPolicy {
    ConversionPolicy {
        date_write: DateWritePolicy::DateVariant,
        reject_non_finite_numbers: true,
        reject_embedded_nul: true,
        require_exact_integer_conversion: true,
        shape: ShapePolicy::Exact,
    }
}

impl ConversionPolicy {
    pub fn strict() -> (p: Self)
        ensures
            p == strict_policy(),
    {
        ConversionPolicy {
            date_write: DateWritePolicy::DateVariant,
            reject_non_finite_numbers: true,
            reject_embedded_nul: true,
            require_exact_integer_conversion: true,
            shape: ShapePolicy::Exact,
        }
    }
}

impl Default for ConversionPolicy {
    fn default() -> (p: Self)
        ensures
            p == strict_policy(),
    {
        Self::strict()
    }
}

} // verus!
