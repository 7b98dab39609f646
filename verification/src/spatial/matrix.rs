//! A dense row-major 2D array.

use vstd::prelude::*;

use vstd::arithmetic::div_mod::{
    lemma_div_by_multiple, lemma_div_pos_is_pos, lemma_fundamental_div_mod,
    lemma_fundamental_div_mod_converse, lemma_mod_bound,
};
use vstd::arithmetic::mul::{
    lemma_mul_basics_1, lemma_mul_inequality, lemma_mul_is_commutative,
    lemma_mul_is_distributive_add_other_way, lemma_mul_is_distributive_sub,
};

use crate::iterators::TryFromIterator;

use super::point::Point;

verus! {

/// A Matrix is a dense `N * M` 2D array, stored row-major: the element
/// at `Point { x, y }` lives at linear index `y * columns + x`.
///
/// Every row has exactly `columns` elements; the equal-row-length
/// invariant is enforced at construction and never relaxed.
#[derive(Debug, Clone, Hash, PartialEq, Eq)]
pub struct Matrix<T> {
    data: Vec<T>,
    columns: usize,
}

/// Error returned when attempting to create a [`Matrix`] with variable
/// row sizes.
#[derive(Debug, Clone, Copy, PartialEq, Eq)]
pub struct VariableRows;

impl<T> Matrix<T> {
    /// The backing storage, row by row.
    pub closed spec fn flat(self) -> Seq<T> {
        self.data@
    }

    /// The number of columns.
    pub closed spec fn cols_spec(self) -> int {
        self.columns as int
    }

    /// The number of rows.
    pub open spec fn rows_spec(self) -> int {
        if self.cols_spec() == 0 {
            0
        } else {
            self.flat().len() as int / self.cols_spec()
        }
    }

    /// The matrix invariant: the storage is empty exactly when there
    /// are no columns, and otherwise holds whole rows.
    pub open spec fn wf(self) -> bool {
        &&& self.cols_spec() == 0 <==> self.flat().len() == 0
        &&& self.flat().len() == self.rows_spec() * self.cols_spec()
    }

    /// The element at column `x` of row `y`.
    pub open spec fn at(self, x: int, y: int) -> T {
        self.flat()[y * self.cols_spec() + x]
    }

    /// Whether `(x, y)` indexes a cell.
    pub open spec fn in_bounds(self, x: int, y: int) -> bool {
        0 <= x < self.cols_spec() && 0 <= y < self.rows_spec()
    }

    #[must_use]
    /// Returns the amount of columns the matrix has.
    pub fn cols(&self) -> (r: usize)
        ensures
            r == self.cols_spec(),
    {
        self.columns
    }

    #[must_use]
    /// Returns the amount of rows the matrix has.
    pub fn rows(&self) -> (r: usize)
        requires
            self.wf(),
        ensures
            r == self.rows_spec(),
    {
        if self.columns == 0 {
            0
        } else {
            self.data.len() / self.columns
        }
    }

    /// Returns the element at the given index.
    ///
    /// Indexing outside the matrix is a caller error, ruled out by
    /// contract; [`Matrix::get`] is the checked variant.
    pub fn index(&self, index: Point<usize>) -> (r: &T)
        requires
            self.wf(),
            self.in_bounds(index.x as int, index.y as int),
        ensures
            *r == self.at(index.x as int, index.y as int),
    {
        let len = self.data.len();
        proof {
            lemma_row_major_bound(
                self.cols_spec(),
                self.rows_spec(),
                index.x as int,
                index.y as int,
            );
            assert((index.y as int) * self.cols_spec() + (index.x as int) < len);
        }
        &self.data[index.y * self.columns + index.x]
    }

    /// Replaces the element at the given index, leaving every other
    /// cell and the dimensions unchanged.
    pub fn set(&mut self, index: Point<usize>, value: T)
        requires
            old(self).wf(),
            old(self).in_bounds(index.x as int, index.y as int),
        ensures
            final(self).wf(),
            final(self).cols_spec() == old(self).cols_spec(),
            final(self).rows_spec() == old(self).rows_spec(),
            final(self).flat() == old(self).flat().update(
                index.y as int * old(self).cols_spec() + index.x as int,
                value,
            ),
    {
        let len = self.data.len();
        proof {
            lemma_row_major_bound(
                self.cols_spec(),
                self.rows_spec(),
                index.x as int,
                index.y as int,
            );
            assert((index.y as int) * self.cols_spec() + (index.x as int) < len);
        }
        let i = index.y * self.columns + index.x;
        self.data.set(i, value);
    }

    #[must_use]
    /// Attempts to retrieve an element from the matrix at the specified
    /// index; answers [`None`] exactly when the index is out of bounds.
    pub fn get(&self, index: Point<usize>) -> (r: Option<&T>)
        requires
            self.wf(),
        ensures
            r is Some <==> self.in_bounds(index.x as int, index.y as int),
            r matches Some(v) ==> *v == self.at(index.x as int, index.y as int),
    {
        if index.x < self.cols() && index.y < self.rows() {
            Some(self.index(index))
        } else {
            None
        }
    }
}

/// A row-major index stays within a `rows * columns` storage.
proof fn lemma_row_major_bound(columns: int, rows: int, x: int, y: int)
    requires
        0 <= x < columns,
        0 <= y < rows,
    ensures
        0 <= y * columns + x < rows * columns,
{
    vstd::arithmetic::mul::lemma_mul_inequality(y + 1, rows, columns);
    assert((y + 1) * columns == y * columns + columns) by {
        vstd::arithmetic::mul::lemma_mul_is_distributive_add_other_way(columns, y, 1);
    }
    vstd::arithmetic::mul::lemma_mul_inequality(0, y, columns);
}


/// `b` is the transpose of `a`: the dimensions swap, and the element at
/// column `x` of row `y` of `a` sits at column `y` of row `x` of `b`.
pub open spec fn transposed_of<T>(a: Matrix<T>, b: Matrix<T>) -> bool {
    &&& b.cols_spec() == a.rows_spec()
    &&& b.rows_spec() == a.cols_spec()
    &&& forall|x: int, y: int| a.in_bounds(x, y) ==> #[trigger] b.at(y, x) == a.at(x, y)
}

impl<T> TryFromIterator<Vec<Vec<T>>> for Matrix<T> {
    type Item = Vec<T>;

    type Error = VariableRows;

    /// Builds a matrix from a sequence of rows, consuming each row
    /// once. The first row's length fixes the number of columns; any
    /// later row of a different length fails the whole construction,
    /// and no matrix is produced.
    fn try_from_iter(iter: Vec<Vec<T>>) -> (r: Result<Self, VariableRows>)
        ensures
            r is Ok <==> (forall|j: int|
                0 <= j < iter@.len() ==> (#[trigger] iter@[j])@.len() == iter@[0]@.len()),
            r matches Ok(m) ==> {
                &&& m.wf()
                &&& m.cols_spec() == if iter@.len() == 0 {
                    0int
                } else {
                    iter@[0]@.len() as int
                }
                &&& m.rows_spec() == if iter@.len() == 0 || iter@[0]@.len() == 0 {
                    0int
                } else {
                    iter@.len() as int
                }
                &&& forall|y: int, x: int|
                    0 <= y < iter@.len() && 0 <= x < iter@[0]@.len() ==> #[trigger] m.at(x, y)
                        == iter@[y]@[x]
            },
    {
        let ghost given = iter@;
        let n = iter.len();
        if n == 0 {
            let m = Matrix { data: Vec::new(), columns: 0 };
            proof {
                lemma_mul_basics_1(0int);
            }
            return Ok(m);
        }
        let mut rest = iter;
        let mut data: Vec<T> = Vec::new();
        let mut columns: usize = 0;
        let mut y: usize = 0;
        proof {
            assert(rest@ =~= given.skip(0));
            lemma_mul_basics_1(given[0]@.len() as int);
        }
        while y < n
            invariant
                given == iter@,
                y <= n,
                n == given.len(),
                rest@.len() == n - y,
                rest@ == given.skip(y as int),
                y > 0 ==> columns as int == given[0]@.len(),
                forall|j: int| 0 <= j < y ==> (#[trigger] given[j])@.len() == given[0]@.len(),
                data@.len() == y as int * given[0]@.len(),
                forall|j: int, x: int|
                    0 <= j < y && 0 <= x < given[0]@.len() ==> #[trigger] data@[j * given[0]@.len()
                        + x] == given[j]@[x],
            decreases n - y,
        {
            let ghost rest_old = rest@;
            let mut row = rest.remove(0);
            let ghost row_seq = row@;
            proof {
                assert(given[y as int]@ == row_seq);
                assert forall|j: int| 0 <= j < rest@.len() implies rest@[j] == #[trigger] given.skip(
                    y as int + 1,
                )[j] by {
                    assert(rest@[j] == rest_old[j + 1]);
                    assert(given.skip(y as int)[j + 1] == given[y as int + 1 + j]);
                }
                assert(rest@ =~= given.skip(y as int + 1));
                assert(row_seq.skip(0) =~= row_seq);
            }
            if y == 0 {
                columns = row.len();
            } else if row.len() != columns {
                proof {
                    assert(given[y as int]@.len() != given[0]@.len());
                    assert(!(forall|j: int|
                        0 <= j < given.len() ==> (#[trigger] given[j])@.len()
                            == given[0]@.len()));
                }
                return Err(VariableRows);
            }
            let c = row.len();
            let ghost base = y as int * given[0]@.len();
            let mut x: usize = 0;
            while x < c
                invariant
                    x <= c,
                    c as int == row_seq.len(),
                    row_seq.len() == given[0]@.len(),
                    row@ == row_seq.skip(x as int),
                    y < n,
                    n == given.len(),
                    base == y as int * given[0]@.len(),
                    data@.len() == base + x,
                    given[y as int]@ == row_seq,
                    forall|j: int, xx: int|
                        0 <= j < y && 0 <= xx < given[0]@.len() ==> #[trigger] data@[j * given[0]@.len() + xx] == given[j]@[xx],
                    forall|xx: int| 0 <= xx < x ==> #[trigger] data@[base + xx] == row_seq[xx],
                decreases c - x,
            {
                let item = row.remove(0);
                proof {
                    assert(item == row_seq[x as int]);
                    assert(row@ =~= row_seq.skip(x as int + 1));
                }
                data.push(item);
                proof {
                    assert forall|j: int, xx: int|
                        0 <= j < y && 0 <= xx < given[0]@.len() implies #[trigger] data@[j * given[0]@.len() + xx] == given[j]@[xx] by {
                        lemma_row_major_bound(given[0]@.len() as int, y as int, xx, j);
                    }
                }
                x = x + 1;
            }
            proof {
                lemma_mul_is_distributive_add_other_way(given[0]@.len() as int, y as int, 1);
                assert forall|xx: int| 0 <= xx < given[0]@.len() implies #[trigger] data@[y as int
                    * given[0]@.len() + xx] == given[y as int]@[xx] by {
                    assert(data@[base + xx] == row_seq[xx]);
                }
            }
            y = y + 1;
        }
        let m = Matrix { data, columns };
        proof {
            let c = given[0]@.len() as int;
            if c == 0 {
                lemma_mul_basics_1(0int);
                assert(m.flat().len() == n as int * 0);
                vstd::arithmetic::mul::lemma_mul_basics_2(n as int);
            } else {
                lemma_mul_inequality(1, n as int, c);
                lemma_mul_basics_1(c);
                lemma_div_by_multiple(n as int, c);
                lemma_mul_is_commutative(n as int, c);
            }
            assert(m.wf());
        }
        Ok(m)
    }
}

impl<T> Matrix<T> {
    /// Returns the elements in iteration order: left-to-right,
    /// top-to-bottom.
    pub fn iter(&self) -> (r: &Vec<T>)
        ensures
            r@ == self.flat(),
    {
        &self.data
    }

    #[must_use]
    /// Creates a consuming iterator that drains the matrix row by row.
    pub fn into_rows(self) -> (r: IntoRows<T>)
        requires
            self.wf(),
        ensures
            r.wf(),
            r.remaining() == self.flat(),
            r.cols_spec() == self.cols_spec(),
    {
        proof {
            if self.cols_spec() > 0 {
                lemma_mul_is_commutative(self.rows_spec(), self.cols_spec());
                lemma_fundamental_div_mod_converse(
                    self.flat().len() as int,
                    self.cols_spec(),
                    self.rows_spec(),
                    0,
                );
            }
        }
        IntoRows { data: self.data, columns: self.columns }
    }
}

impl<T: Copy> Matrix<T> {
    /// Copies out the rows of the matrix, in order.
    pub fn iter_rows(&self) -> (r: Vec<Vec<T>>)
        requires
            self.wf(),
        ensures
            r@.len() == self.rows_spec(),
            forall|y: int| 0 <= y < self.rows_spec() ==> (#[trigger] r@[y])@.len()
                == self.cols_spec(),
            forall|y: int, x: int| self.in_bounds(x, y) ==> #[trigger] r@[y]@[x] == self.at(x, y),
    {
        let rows_n = self.rows();
        let cols_n = self.cols();
        let mut out: Vec<Vec<T>> = Vec::new();
        let mut y: usize = 0;
        while y < rows_n
            invariant
                y <= rows_n,
                self.wf(),
                rows_n == self.rows_spec(),
                cols_n == self.cols_spec(),
                out@.len() == y,
                forall|yy: int| 0 <= yy < y ==> (#[trigger] out@[yy])@.len() == self.cols_spec(),
                forall|yy: int, x: int|
                    0 <= yy < y && 0 <= x < self.cols_spec() ==> #[trigger] out@[yy]@[x]
                        == self.at(x, yy),
            decreases rows_n - y,
        {
            let mut row: Vec<T> = Vec::new();
            let mut x: usize = 0;
            while x < cols_n
                invariant
                    x <= cols_n,
                    self.wf(),
                    y < rows_n,
                    rows_n == self.rows_spec(),
                    cols_n == self.cols_spec(),
                    row@.len() == x,
                    forall|xx: int| 0 <= xx < x ==> #[trigger] row@[xx] == self.at(xx, y as int),
                decreases cols_n - x,
            {
                let v: T = *self.index(Point { x, y });
                row.push(v);
                x = x + 1;
            }
            out.push(row);
            y = y + 1;
        }
        out
    }

    /// Copies out the columns of the matrix, in order: element `y` of
    /// column `x` is the element at column `x` of row `y`.
    pub fn iter_cols(&self) -> (r: Vec<Vec<T>>)
        requires
            self.wf(),
        ensures
            r@.len() == self.cols_spec(),
            forall|x: int| 0 <= x < self.cols_spec() ==> (#[trigger] r@[x])@.len()
                == self.rows_spec(),
            forall|x: int, y: int| self.in_bounds(x, y) ==> #[trigger] r@[x]@[y] == self.at(x, y),
    {
        let rows_n = self.rows();
        let cols_n = self.cols();
        let mut out: Vec<Vec<T>> = Vec::new();
        let mut x: usize = 0;
        while x < cols_n
            invariant
                x <= cols_n,
                self.wf(),
                rows_n == self.rows_spec(),
                cols_n == self.cols_spec(),
                out@.len() == x,
                forall|xx: int| 0 <= xx < x ==> (#[trigger] out@[xx])@.len() == self.rows_spec(),
                forall|xx: int, y: int|
                    0 <= xx < x && 0 <= y < self.rows_spec() ==> #[trigger] out@[xx]@[y]
                        == self.at(xx, y),
            decreases cols_n - x,
        {
            let mut col: Vec<T> = Vec::new();
            let mut y: usize = 0;
            while y < rows_n
                invariant
                    y <= rows_n,
                    self.wf(),
                    x < cols_n,
                    rows_n == self.rows_spec(),
                    cols_n == self.cols_spec(),
                    col@.len() == y,
                    forall|yy: int| 0 <= yy < y ==> #[trigger] col@[yy] == self.at(x as int, yy),
                decreases rows_n - y,
            {
                let v: T = *self.index(Point { x, y });
                col.push(v);
                y = y + 1;
            }
            out.push(col);
            x = x + 1;
        }
        out
    }

    #[must_use]
    /// Transposes the matrix, switching rows and columns: the element
    /// at column `x` of row `y` moves to column `y` of row `x`.
    pub fn transpose(self) -> (r: Self)
        requires
            self.wf(),
        ensures
            r.wf(),
            transposed_of(self, r),
    {
        let rows_n = self.rows();
        let cols_n = self.cols();
        let mut data: Vec<T> = Vec::new();
        let mut c: usize = 0;
        proof {
            lemma_mul_basics_1(rows_n as int);
        }
        while c < cols_n
            invariant
                c <= cols_n,
                self.wf(),
                rows_n == self.rows_spec(),
                cols_n == self.cols_spec(),
                data@.len() == c as int * rows_n as int,
                forall|cc: int, yy: int|
                    0 <= cc < c && 0 <= yy < rows_n ==> #[trigger] data@[cc * rows_n as int + yy]
                        == self.at(cc, yy),
            decreases cols_n - c,
        {
            let ghost base = c as int * rows_n as int;
            let mut yy: usize = 0;
            while yy < rows_n
                invariant
                    yy <= rows_n,
                    self.wf(),
                    c < cols_n,
                    rows_n == self.rows_spec(),
                    cols_n == self.cols_spec(),
                    base == c as int * rows_n as int,
                    data@.len() == base + yy,
                    forall|cc: int, y2: int|
                        0 <= cc < c && 0 <= y2 < rows_n ==> #[trigger] data@[cc * rows_n as int
                            + y2] == self.at(cc, y2),
                    forall|y2: int| 0 <= y2 < yy ==> #[trigger] data@[base + y2] == self.at(
                        c as int,
                        y2,
                    ),
                decreases rows_n - yy,
            {
                let v: T = *self.index(Point { x: c, y: yy });
                data.push(v);
                proof {
                    assert forall|cc: int, y2: int|
                        0 <= cc < c && 0 <= y2 < rows_n implies #[trigger] data@[cc
                            * rows_n as int + y2] == self.at(cc, y2) by {
                        lemma_row_major_bound(rows_n as int, c as int, y2, cc);
                    }
                }
                yy = yy + 1;
            }
            proof {
                lemma_mul_is_distributive_add_other_way(rows_n as int, c as int, 1);
                assert forall|y2: int| 0 <= y2 < rows_n as int implies #[trigger] data@[c as int
                    * rows_n as int + y2] == self.at(c as int, y2) by {
                    assert(data@[base + y2] == self.at(c as int, y2));
                }
            }
            c = c + 1;
        }
        let m = Matrix { data, columns: rows_n };
        proof {
            if rows_n == 0 {
                lemma_mul_basics_1(self.cols_spec());
                assert(self.flat().len() == 0);
                assert(cols_n == 0);
                lemma_mul_basics_1(0int);
            } else {
                lemma_mul_inequality(1, cols_n as int, rows_n as int);
                lemma_mul_basics_1(rows_n as int);
                lemma_div_by_multiple(cols_n as int, rows_n as int);
                lemma_mul_is_commutative(cols_n as int, rows_n as int);
            }
            assert(m.wf());
        }
        m
    }

    #[must_use]
    /// Creates a consuming iterator that drains the matrix column by
    /// column: the rows of the transpose, in order.
    pub fn into_cols(self) -> (r: IntoRows<T>)
        requires
            self.wf(),
        ensures
            r.wf(),
            r.cols_spec() == self.rows_spec(),
            r.remaining().len() == self.rows_spec() * self.cols_spec(),
            forall|x: int, y: int|
                self.in_bounds(x, y) ==> #[trigger] r.remaining()[x * self.rows_spec() + y]
                    == self.at(x, y),
    {
        let ghost a = self;
        let t = self.transpose();
        proof {
            lemma_mul_is_commutative(a.rows_spec(), a.cols_spec());
            assert forall|x: int, y: int| a.in_bounds(x, y) implies #[trigger] t.flat()[x
                * a.rows_spec() + y] == a.at(x, y) by {
                assert(t.at(y, x) == a.at(x, y));
            }
        }
        t.into_rows()
    }
}

/// An iterator that drains a matrix row by row, front to back.
pub struct IntoRows<T> {
    data: Vec<T>,
    columns: usize,
}

impl<T> IntoRows<T> {
    /// The elements not yet drained, row-major.
    pub closed spec fn remaining(self) -> Seq<T> {
        self.data@
    }

    /// The length of each drained row.
    pub closed spec fn cols_spec(self) -> int {
        self.columns as int
    }

    /// Whole rows remain: the storage is empty when there are no
    /// columns, and otherwise a multiple of the row length long.
    pub open spec fn wf(self) -> bool {
        &&& self.cols_spec() == 0 ==> self.remaining().len() == 0
        &&& self.cols_spec() > 0 ==> self.remaining().len() as int % self.cols_spec() == 0
    }

    /// Yields the next row, or [`None`] once the matrix is drained.
    pub fn next(&mut self) -> (r: Option<Vec<T>>)
        requires
            old(self).wf(),
        ensures
            final(self).wf(),
            final(self).cols_spec() == old(self).cols_spec(),
            old(self).remaining().len() == 0 ==> r is None && *final(self) == *old(self),
            old(self).remaining().len() > 0 ==> (r matches Some(chunk) && chunk@ == old(
                self,
            ).remaining().take(old(self).cols_spec()) && final(self).remaining() == old(
                self,
            ).remaining().skip(old(self).cols_spec())),
    {
        if self.data.len() == 0 {
            return None;
        }
        proof {
            let cc = self.cols_spec();
            let len = self.remaining().len() as int;
            lemma_fundamental_div_mod(len, cc);
            if len / cc <= 0 {
                lemma_mul_inequality(len / cc, 0, cc);
                lemma_mul_is_commutative(len / cc, cc);
                lemma_mul_basics_1(cc);
                assert(false);
            }
            lemma_mul_inequality(1, len / cc, cc);
            lemma_mul_is_commutative(len / cc, cc);
            lemma_mul_basics_1(cc);
        }
        let c = self.columns;
        let ghost before = self.data@;
        let mut chunk: Vec<T> = Vec::new();
        let mut k: usize = 0;
        proof {
            assert(chunk@ =~= before.take(0));
            assert(self.data@ =~= before.skip(0));
        }
        while k < c
            invariant
                k <= c,
                c as int <= before.len(),
                chunk@ == before.take(k as int),
                self.data@ == before.skip(k as int),
                self.columns == c,
            decreases c - k,
        {
            let item = self.data.remove(0);
            proof {
                assert(item == before[k as int]);
                assert(before.take(k as int).push(item) =~= before.take(k as int + 1));
                assert(self.data@ =~= before.skip(k as int + 1));
            }
            chunk.push(item);
            k = k + 1;
        }
        proof {
            let cc = c as int;
            let len = before.len() as int;
            lemma_fundamental_div_mod(len, cc);
            lemma_mul_is_distributive_sub(cc, len / cc, 1);
            lemma_fundamental_div_mod_converse(len - cc, cc, len / cc - 1, 0);
        }
        Some(chunk)
    }
}

impl<T> Matrix<T> {
    /// Perform a mapping on every cell of the matrix: the mapping
    /// function receives each cell's position and a reference to its
    /// element, in row-major order, and its results fill a new matrix
    /// of the same dimensions.
    pub fn map<U, F: Fn(Point<usize>, &T) -> U>(&self, mapper: F) -> (r: Matrix<U>)
        requires
            self.wf(),
            forall|p: Point<usize>, t: &T|
                self.in_bounds(p.x as int, p.y as int) && *t == self.at(p.x as int, p.y as int)
                    ==> #[trigger] call_requires(mapper, (p, t)),
        ensures
            r.wf(),
            r.cols_spec() == self.cols_spec(),
            r.rows_spec() == self.rows_spec(),
            forall|x: int, y: int|
                self.in_bounds(x, y) ==> call_ensures(
                    mapper,
                    (Point { x: x as usize, y: y as usize }, &self.at(x, y)),
                    #[trigger] r.at(x, y),
                ),
    {
        let rows_n = self.rows();
        let cols_n = self.cols();
        let mut data: Vec<U> = Vec::new();
        let mut y: usize = 0;
        proof {
            lemma_mul_basics_1(cols_n as int);
        }
        while y < rows_n
            invariant
                y <= rows_n,
                self.wf(),
                rows_n == self.rows_spec(),
                cols_n == self.cols_spec(),
                forall|p: Point<usize>, t: &T|
                    self.in_bounds(p.x as int, p.y as int) && *t == self.at(
                        p.x as int,
                        p.y as int,
                    ) ==> #[trigger] call_requires(mapper, (p, t)),
                data@.len() == y as int * cols_n as int,
                forall|yy: int, xx: int|
                    0 <= yy < y && 0 <= xx < cols_n ==> call_ensures(
                        mapper,
                        (Point { x: xx as usize, y: yy as usize }, &self.at(xx, yy)),
                        #[trigger] data@[yy * cols_n as int + xx],
                    ),
            decreases rows_n - y,
        {
            let ghost base = y as int * cols_n as int;
            let mut x: usize = 0;
            while x < cols_n
                invariant
                    x <= cols_n,
                    self.wf(),
                    y < rows_n,
                    rows_n == self.rows_spec(),
                    cols_n == self.cols_spec(),
                    forall|p: Point<usize>, t: &T|
                        self.in_bounds(p.x as int, p.y as int) && *t == self.at(
                            p.x as int,
                            p.y as int,
                        ) ==> #[trigger] call_requires(mapper, (p, t)),
                    base == y as int * cols_n as int,
                    data@.len() == base + x,
                    forall|yy: int, xx: int|
                        0 <= yy < y && 0 <= xx < cols_n ==> call_ensures(
                            mapper,
                            (Point { x: xx as usize, y: yy as usize }, &self.at(xx, yy)),
                            #[trigger] data@[yy * cols_n as int + xx],
                        ),
                    forall|xx: int|
                        0 <= xx < x ==> call_ensures(
                            mapper,
                            (Point { x: xx as usize, y }, &self.at(xx, y as int)),
                            #[trigger] data@[base + xx],
                        ),
                decreases cols_n - x,
            {
                let p: Point<usize> = Point { x, y };
                let v = mapper(p, self.index(p));
                data.push(v);
                proof {
                    assert forall|yy: int, xx: int|
                        0 <= yy < y && 0 <= xx < cols_n implies call_ensures(
                        mapper,
                        (Point { x: xx as usize, y: yy as usize }, &self.at(xx, yy)),
                        #[trigger] data@[yy * cols_n as int + xx],
                    ) by {
                        lemma_row_major_bound(cols_n as int, y as int, xx, yy);
                    }
                }
                x = x + 1;
            }
            proof {
                lemma_mul_is_distributive_add_other_way(cols_n as int, y as int, 1);
                assert forall|xx: int| 0 <= xx < cols_n as int implies call_ensures(
                    mapper,
                    (Point { x: xx as usize, y }, &self.at(xx, y as int)),
                    #[trigger] data@[y as int * cols_n as int + xx],
                ) by {
                    assert(data@[base + xx] == data@[y as int * cols_n as int + xx]);
                }
            }
            y = y + 1;
        }
        let m = Matrix { data, columns: cols_n };
        proof {
            if cols_n == 0 {
                assert(self.flat().len() == 0);
                vstd::arithmetic::mul::lemma_mul_basics_2(rows_n as int);
                lemma_mul_basics_1(0int);
            } else {
                if rows_n > 0 {
                    lemma_mul_inequality(1, rows_n as int, cols_n as int);
                    lemma_mul_is_commutative(rows_n as int, cols_n as int);
                    lemma_div_by_multiple(rows_n as int, cols_n as int);
                } else {
                    lemma_mul_basics_1(cols_n as int);
                    assert(self.flat().len() == 0);
                    assert(self.cols_spec() == 0);
                    assert(false);
                }
            }
            assert(m.wf());
        }
        m
    }
}

/// For an index `i` of row-major storage with `c` columns and `r`
/// rows, the column `i % c` and the row `i / c` lie inside the grid
/// and recover `i`.
proof fn lemma_flat_index(i: int, c: int, r: int)
    requires
        c > 0,
        0 <= i < r * c,
    ensures
        0 <= i % c < c,
        0 <= i / c < r,
        i == (i / c) * c + (i % c),
{
    lemma_fundamental_div_mod(i, c);
    lemma_mod_bound(i, c);
    lemma_div_pos_is_pos(i, c);
    lemma_mul_is_commutative(i / c, c);
    if i / c >= r {
        lemma_mul_inequality(r, i / c, c);
        lemma_mul_is_commutative(r, c);
        assert(false);
    }
}

/// Transposing a matrix twice gives the starting matrix back: the dimensions
/// return to their places and every element returns to its cell, so
/// the round trip preserves the whole matrix.
pub proof fn lemma_transpose_involutive<T>(a: Matrix<T>, b: Matrix<T>, c: Matrix<T>)
    requires
        a.wf(),
        b.wf(),
        c.wf(),
        transposed_of(a, b),
        transposed_of(b, c),
    ensures
        c.cols_spec() == a.cols_spec(),
        c.rows_spec() == a.rows_spec(),
        c.flat() == a.flat(),
{
    assert forall|i: int| 0 <= i < a.flat().len() implies c.flat()[i] == a.flat()[i] by {
        let cw = a.cols_spec();
        lemma_flat_index(i, cw, a.rows_spec());
        let x = i % cw;
        let y = i / cw;
        assert(a.in_bounds(x, y));
        assert(b.in_bounds(y, x));
        assert(c.at(x, y) == b.at(y, x));
        assert(b.at(y, x) == a.at(x, y));
    }
    assert(c.flat() =~= a.flat());
}

} // verus!

