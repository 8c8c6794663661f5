//! Conversions between row-major and column-major storage of a matrix.

use vstd::prelude::*;

verus! {

/// The column-major sequence of a `rows` x `cols` matrix stored row-major in `s`:
/// the element at row `i`, column `j` moves from `i * cols + j` to `j * rows + i`.
pub open spec fn col_major_of<T>(rows: nat, cols: nat, s: Seq<T>) -> Seq<T> {
    Seq::new(rows * cols, |p: int| s[(p % rows as int) * cols + p / rows as int])
}

/// The row-major sequence of a `rows` x `cols` matrix stored column-major in `s`.
pub open spec fn row_major_of<T>(rows: nat, cols: nat, s: Seq<T>) -> Seq<T> {
    Seq::new(rows * cols, |p: int| s[(p % cols as int) * rows + p / cols as int])
}

proof fn lemma_index_in_range(i: int, j: int, rows: int, cols: int)
    requires
        0 <= i < rows,
        0 <= j < cols,
    ensures
        0 <= i * cols + j < rows * cols,
        0 <= j * rows + i < rows * cols,
{
    assert(0 <= i * cols + j < rows * cols) by (nonlinear_arith)
        requires 0 <= i < rows, 0 <= j < cols;
    assert(0 <= j * rows + i < rows * cols) by (nonlinear_arith)
        requires 0 <= i < rows, 0 <= j < cols;
}

proof fn lemma_div_mod(p: int, d: int, q: int)
    requires
        0 < d,
        0 <= q,
        0 <= p < d * q,
    ensures
        p == (p / d) * d + p % d,
        0 <= p % d < d,
        0 <= p / d < q,
{
    assert(p == (p / d) * d + p % d && 0 <= p % d < d) by (nonlinear_arith)
        requires 0 < d;
    assert(0 <= p / d < q) by (nonlinear_arith)
        requires 0 < d, 0 <= q, 0 <= p < d * q, p == (p / d) * d + p % d, 0 <= p % d < d;
}

proof fn lemma_split(i: int, j: int, d: int)
    requires
        0 < d,
        0 <= j < d,
        0 <= i,
    ensures
        (i * d + j) / d == i,
        (i * d + j) % d == j,
{
    vstd::arithmetic::div_mod::lemma_fundamental_div_mod_converse(i * d + j, d, i, j);
}

/// The element of `col_major_of` at column `j`, row `i` is the element at row `i`,
/// column `j` of the row-major input.
pub proof fn lemma_col_major_index<T>(rows: nat, cols: nat, s: Seq<T>, i: int, j: int)
    requires
        0 <= i < rows,
        0 <= j < cols,
    ensures
        0 <= j * rows + i < rows * cols,
        col_major_of(rows, cols, s)[j * rows + i] == s[i * cols + j],
{
    lemma_index_in_range(i, j, rows as int, cols as int);
    lemma_split(j, i, rows as int);
}

/// The element of `row_major_of` at row `i`, column `j` is the element at column `j`,
/// row `i` of the column-major input.
pub proof fn lemma_row_major_index<T>(rows: nat, cols: nat, s: Seq<T>, i: int, j: int)
    requires
        0 <= i < rows,
        0 <= j < cols,
    ensures
        0 <= i * cols + j < rows * cols,
        row_major_of(rows, cols, s)[i * cols + j] == s[j * rows + i],
{
    lemma_index_in_range(i, j, rows as int, cols as int);
    lemma_split(i, j, cols as int);
}

/// Converting a row-major matrix to column-major order and back yields the same
/// elements in the same places.
pub proof fn lemma_round_trip<T>(rows: nat, cols: nat, s: Seq<T>)
    requires
        rows >= 1,
        cols >= 1,
        s.len() == rows * cols,
    ensures
        row_major_of(rows, cols, col_major_of(rows, cols, s)) == s,
{
    let c = col_major_of(rows, cols, s);
    let r = row_major_of(rows, cols, c);
    vstd::arithmetic::mul::lemma_mul_is_commutative(rows as int, cols as int);
    assert forall|p: int| 0 <= p < s.len() implies r[p] == s[p] by {
        lemma_div_mod(p, cols as int, rows as int);
        let i = p / cols as int;
        let j = p % cols as int;
        lemma_row_major_index(rows, cols, c, i, j);
        lemma_col_major_index(rows, cols, s, i, j);
    }
    assert(r =~= s);
}

/// Converting a column-major matrix to row-major order and back yields the same
/// elements in the same places.
pub proof fn lemma_round_trip_col<T>(rows: nat, cols: nat, s: Seq<T>)
    requires
        rows >= 1,
        cols >= 1,
        s.len() == rows * cols,
    ensures
        col_major_of(rows, cols, row_major_of(rows, cols, s)) == s,
{
    let r = row_major_of(rows, cols, s);
    let c = col_major_of(rows, cols, r);
    vstd::arithmetic::mul::lemma_mul_is_commutative(rows as int, cols as int);
    assert forall|p: int| 0 <= p < s.len() implies c[p] == s[p] by {
        lemma_div_mod(p, rows as int, cols as int);
        let j = p / rows as int;
        let i = p % rows as int;
        lemma_col_major_index(rows, cols, r, i, j);
        lemma_row_major_index(rows, cols, s, i, j);
    }
    assert(c =~= s);
}

/// Rearranges a `rows` x `cols` matrix stored row-major into column-major order.
pub fn to_column_major<T: Copy>(rows: usize, cols: usize, data: &Vec<T>) -> (r: Vec<T>)
    requires
        data@.len() == rows * cols,
    ensures
        r@ == col_major_of(rows as nat, cols as nat, data@),
{
    let ghost want = col_major_of(rows as nat, cols as nat, data@);
    let len: usize = data.len();
    let mut r: Vec<T> = Vec::new();
    let mut j: usize = 0;
    while j < cols
        invariant
            j <= cols,
            data@.len() == rows * cols,
            rows * cols == len,
            want.len() == rows * cols,
            want == col_major_of(rows as nat, cols as nat, data@),
            r@.len() == j * rows,
            forall|p: int| 0 <= p < r@.len() ==> r@[p] == want[p],
        decreases cols - j,
    {
        let mut i: usize = 0;
        while i < rows
            invariant
                i <= rows,
                j < cols,
                data@.len() == rows * cols,
                rows * cols == len,
                want.len() == rows * cols,
            want == col_major_of(rows as nat, cols as nat, data@),
                r@.len() == j * rows + i,
                forall|p: int| 0 <= p < r@.len() ==> r@[p] == want[p],
            decreases rows - i,
        {
            proof {
                lemma_index_in_range(i as int, j as int, rows as int, cols as int);
                lemma_col_major_index(rows as nat, cols as nat, data@, i as int, j as int);
            }
            r.push(data[i * cols + j]);
            i = i + 1;
        }
        proof {
            assert((j + 1) * rows == j * rows + rows) by (nonlinear_arith);
        }
        j = j + 1;
    }
    proof {
        vstd::arithmetic::mul::lemma_mul_is_commutative(rows as int, cols as int);
    }
    assert(r@ =~= want);
    r
}

/// Rearranges a `rows` x `cols` matrix stored column-major into row-major order.
pub fn to_row_major<T: Copy>(rows: usize, cols: usize, data: &Vec<T>) -> (r: Vec<T>)
    requires
        data@.len() == rows * cols,
    ensures
        r@ == row_major_of(rows as nat, cols as nat, data@),
{
    let ghost want = row_major_of(rows as nat, cols as nat, data@);
    let len: usize = data.len();
    let mut r: Vec<T> = Vec::new();
    let mut i: usize = 0;
    while i < rows
        invariant
            i <= rows,
            data@.len() == rows * cols,
            rows * cols == len,
            want.len() == rows * cols,
            want == row_major_of(rows as nat, cols as nat, data@),
            r@.len() == i * cols,
            forall|p: int| 0 <= p < r@.len() ==> r@[p] == want[p],
        decreases rows - i,
    {
        let mut j: usize = 0;
        while j < cols
            invariant
                j <= cols,
                i < rows,
                data@.len() == rows * cols,
                rows * cols == len,
                want.len() == rows * cols,
            want == row_major_of(rows as nat, cols as nat, data@),
                r@.len() == i * cols + j,
                forall|p: int| 0 <= p < r@.len() ==> r@[p] == want[p],
            decreases cols - j,
        {
            proof {
                lemma_index_in_range(i as int, j as int, rows as int, cols as int);
                lemma_row_major_index(rows as nat, cols as nat, data@, i as int, j as int);
            }
            r.push(data[j * rows + i]);
            j = j + 1;
        }
        proof {
            assert((i + 1) * cols == i * cols + cols) by (nonlinear_arith);
        }
        i = i + 1;
    }
    proof {
        vstd::arithmetic::mul::lemma_mul_is_commutative(rows as int, cols as int);
    }
    assert(r@ =~= want);
    r
}

} // verus!
