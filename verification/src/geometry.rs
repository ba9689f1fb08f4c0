//! Shapes, logical positions and A1 addresses of rectangular Range values.

use vstd::prelude::*;

use crate::text::{decimal, push_char, push_decimal, push_str};
use crate::variant::SafeArrayDimension;

verus! {

/// The message of a matrix whose value count disagrees with its shape.
pub open spec fn shape_mismatch_message(rows: u32, cols: u32, expected: nat, values: nat) -> Seq<
    char,
> {
    "matrix shape "@ + decimal(rows as nat) + "x"@ + decimal(cols as nat) + " requires "@ + decimal(
        expected,
    ) + " values, received "@ + decimal(values)
}

/// Checks, before anything is allocated, that `values` cells fill a
/// `rows` x `cols` matrix exactly.
pub fn validate_matrix_shape(rows: u32, cols: u32, values: usize) -> (r: Result<(), String>)
    ensures
        (rows * cols == values) <==> r is Ok,
        r matches Err(m) ==> (if rows * cols <= usize::MAX {
            m@ == shape_mismatch_message(rows, cols, (rows * cols) as nat, values as nat)
        } else {
            m@ == "matrix shape exceeds addressable memory"@
        }),
{
    assert(rows * cols <= 0xFFFF_FFFFu64 * 0xFFFF_FFFFu64) by (nonlinear_arith)
        requires
            rows <= 0xFFFF_FFFFu64,
            cols <= 0xFFFF_FFFFu64,
    ;
    let product: u64 = rows as u64 * cols as u64;
    if product > usize::MAX as u64 {
        return Err(String::from_str("matrix shape exceeds addressable memory"));
    }
    let expected: usize = product as usize;
    if expected != values {
        let mut m = String::new();
        push_str(&mut m, "matrix shape ");
        push_decimal(&mut m, rows as u64);
        push_str(&mut m, "x");
        push_decimal(&mut m, cols as u64);
        push_str(&mut m, " requires ");
        push_decimal(&mut m, expected as u64);
        push_str(&mut m, " values, received ");
        push_decimal(&mut m, values as u64);
        assert(m@ =~= shape_mismatch_message(rows, cols, expected as nat, values as nat));
        return Err(m);
    }
    Ok(())
}

/// `n` as a `u32`, or `u32::MAX` when it does not fit.
pub open spec fn saturate_u32(n: nat) -> u32 {
    if n <= u32::MAX {
        n as u32
    } else {
        u32::MAX
    }
}

/// The row-major (row, column) of the `flat_index`-th recorded value of a
/// matrix with `columns` columns (a matrix without columns counts as one).
pub open spec fn logical_position(columns: u32, flat_index: nat) -> (u32, u32) {
    let width: nat = if columns == 0 {
        1
    } else {
        columns as nat
    };
    (saturate_u32(flat_index / width), saturate_u32(flat_index % width))
}

pub fn logical_row_column(columns: u32, flat_index: usize) -> (r: (u32, u32))
    ensures
        r == logical_position(columns, flat_index as nat),
{
    let width: usize = if columns == 0 {
        1
    } else {
        columns as usize
    };
    let row = flat_index / width;
    let column = flat_index % width;
    (
        if row <= 0xFFFF_FFFFusize {
            row as u32
        } else {
            u32::MAX
        },
        if column <= 0xFFFF_FFFFusize {
            column as u32
        } else {
            u32::MAX
        },
    )
}

/// The product of the element counts of `dims`.
pub open spec fn element_product(dims: Seq<SafeArrayDimension>) -> nat
    decreases dims.len(),
{
    if dims.len() == 0 {
        1
    } else {
        element_product(dims.drop_last()) * dims.last().element_count as nat
    }
}

/// The element count as `try_fold` with `checked_mul` computes it: `None`
/// as soon as a partial product exceeds `usize`.
pub open spec fn checked_product(dims: Seq<SafeArrayDimension>) -> Option<nat>
    decreases dims.len(),
{
    if dims.len() == 0 {
        Some(1)
    } else {
        match checked_product(dims.drop_last()) {
            None => None,
            Some(p) => if p * dims.last().element_count <= usize::MAX {
                Some(p * dims.last().element_count as nat)
            } else {
                None
            },
        }
    }
}

proof fn lemma_checked_product_exact(dims: Seq<SafeArrayDimension>)
    ensures
        checked_product(dims) matches Some(n) ==> n == element_product(dims),
    decreases dims.len(),
{
    if dims.len() > 0 {
        lemma_checked_product_exact(dims.drop_last());
    }
}

/// The number of elements of a SAFEARRAY, `None` when a partial product
/// exceeds `usize`.
pub fn checked_element_count(dimensions: &Vec<SafeArrayDimension>) -> (r: Option<usize>)
    ensures
        r == (match checked_product(dimensions@) {
            Some(n) => Some(n as usize),
            None => None,
        }),
        r matches Some(n) ==> n == element_product(dimensions@),
{
    let mut total: usize = 1;
    let mut i: usize = 0;
    while i < dimensions.len()
        invariant
            i <= dimensions@.len(),
            checked_product(dimensions@.take(i as int)) == Some(total as nat),
        decreases dimensions.len() - i,
    {
        let count = dimensions[i].element_count as usize;
        assert(dimensions@.take(i + 1).drop_last() =~= dimensions@.take(i as int));
        match total.checked_mul(count) {
            Some(t) => {
                total = t;
            },
            None => {
                proof {
                    lemma_none_persists(dimensions@, i + 1);
                }
                return None;
            },
        }
        i = i + 1;
    }
    assert(dimensions@.take(i as int) =~= dimensions@);
    proof {
        lemma_checked_product_exact(dimensions@);
    }
    Some(total)
}

proof fn lemma_none_persists(dims: Seq<SafeArrayDimension>, i: int)
    requires
        0 <= i <= dims.len(),
        checked_product(dims.take(i)) is None,
    ensures
        checked_product(dims) is None,
    decreases dims.len() - i,
{
    if i < dims.len() {
        assert(dims.take(i + 1).drop_last() =~= dims.take(i));
        lemma_none_persists(dims, i + 1);
    } else {
        assert(dims.take(i) =~= dims);
    }
}

/// The bijective base-26 column name: 1 is `A`, 26 is `Z`, 27 is `AA`;
/// column 0 has no letters.
pub open spec fn column_letters(column: nat) -> Seq<char>
    decreases column,
{
    if column == 0 {
        Seq::empty()
    } else {
        column_letters(((column - 1) / 26) as nat).push((65 + (column - 1) % 26) as char)
    }
}

fn push_column_letters(s: &mut String, column: u32)
    ensures
        final(s)@ == old(s)@ + column_letters(column as nat),
    decreases column,
{
    if column > 0 {
        push_column_letters(s, (column - 1) / 26);
        let d: u8 = ((column - 1) % 26) as u8;
        push_char(s, (65 + d) as char);
        assert(final(s)@ =~= old(s)@ + column_letters(column as nat));
    }
}

/// The A1 address of a cell: column letters, then the row number.
pub open spec fn cell_address_spec(row: u32, column: u32) -> Seq<char> {
    column_letters(column as nat) + decimal(row as nat)
}

pub fn cell_address(row: u32, column: u32) -> (s: String)
    ensures
        s@ == cell_address_spec(row, column),
{
    let mut s = String::new();
    push_column_letters(&mut s, column);
    push_decimal(&mut s, row as u64);
    assert(s@ =~= cell_address_spec(row, column));
    s
}

/// `FIRST:LAST` for the block of `rows` x `columns` cells whose top-left
/// cell is (`row`, `column`).
pub fn range_address(row: u32, column: u32, rows: u32, columns: u32) -> (s: String)
    requires
        1 <= row + rows <= u32::MAX + 1,
        1 <= column + columns <= u32::MAX + 1,
    ensures
        s@ == cell_address_spec(row, column) + ":"@ + cell_address_spec(
            (row + rows - 1) as u32,
            (column + columns - 1) as u32,
        ),
{
    let mut s = cell_address(row, column);
    push_str(&mut s, ":");
    let last_row: u32 = (row as u64 + rows as u64 - 1) as u32;
    let last_column: u32 = (column as u64 + columns as u64 - 1) as u32;
    let last = cell_address(last_row, last_column);
    push_str(&mut s, last.as_str());
    s
}

/// Whether a logical position lies in a rank-two array whose physical
/// dimension one holds rows and dimension two holds columns, with its
/// physical indices representable.
pub open spec fn indices_exist(dims: Seq<SafeArrayDimension>, row: u32, column: u32) -> bool {
    &&& dims.len() == 2
    &&& row < dims[0].element_count
    &&& column < dims[1].element_count
    &&& row <= i32::MAX && column <= i32::MAX
    &&& dims[0].lower_bound + row <= i32::MAX
    &&& dims[1].lower_bound + column <= i32::MAX
}

/// The physical SAFEARRAY indices of a zero-based logical (row, column).
pub fn row_column_indices(dimensions: &Vec<SafeArrayDimension>, row: u32, column: u32) -> (r:
    Option<[i32; 2]>)
    ensures
        r is Some <==> indices_exist(dimensions@, row, column),
        r matches Some(ix) ==> ix@ == seq![
            (dimensions@[0].lower_bound + row) as i32,
            (dimensions@[1].lower_bound + column) as i32,
        ],
{
    if dimensions.len() != 2 {
        return None;
    }
    let rows = dimensions[0];
    let columns = dimensions[1];
    if !(row < rows.element_count && column < columns.element_count) {
        return None;
    }
    if row > 0x7FFF_FFFFu32 || column > 0x7FFF_FFFFu32 {
        return None;
    }
    let r = row as i32;
    let c = column as i32;
    let first = match rows.lower_bound.checked_add(r) {
        Some(v) => v,
        None => {
            return None;
        },
    };
    let second = match columns.lower_bound.checked_add(c) {
        Some(v) => v,
        None => {
            return None;
        },
    };
    let ix = [first, second];
    assert(ix@ =~= seq![first, second]);
    Some(ix)
}

} // verus!
