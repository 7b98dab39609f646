//! Collection helpers: fallible collecting, the single-element
//! assertion, and two-dimensional enumeration.

use vstd::prelude::*;

use crate::spatial::point::Point;

verus! {

/// An error for when a sequence did not hold _exactly_ one element.
#[derive(Debug, Clone, Copy, PartialEq, Eq, Hash)]
pub enum SingleError {
    Empty,
    More,
}

/// Fallible construction of a collection from another: the receiving
/// type decides whether the elements form a valid value of it.
pub trait TryFromIterator<I>: Sized {
    type Item;

    type Error;

    fn try_from_iter(iter: I) -> Result<Self, Self::Error>;
}

/// Extra operations on element containers.
pub trait ExtraIter: Sized {
    type Item;

    /// The elements held, in order.
    spec fn elements(self) -> Seq<Self::Item>;

    /// Attempt to collect the elements fallibly into `C`.
    fn try_collecting<C>(self) -> Result<C, <C as TryFromIterator<Self>>::Error> where
        C: TryFromIterator<Self, Item = Self::Item>,
    {
        C::try_from_iter(self)
    }

    /// Assert that the container holds a single element and return it.
    fn single(self) -> (r: Result<Self::Item, SingleError>)
        ensures
            r matches Ok(v) ==> self.elements().len() == 1 && v == self.elements()[0],
            r == Err::<Self::Item, SingleError>(SingleError::Empty) <==> self.elements().len()
                == 0,
            r == Err::<Self::Item, SingleError>(SingleError::More) <==> self.elements().len() > 1,
    ;
}

impl<T> ExtraIter for Vec<T> {
    type Item = T;

    open spec fn elements(self) -> Seq<T> {
        self@
    }

    fn single(self) -> (r: Result<T, SingleError>) {
        let mut v = self;
        match v.pop() {
            Option::None => Err(SingleError::Empty),
            Option::Some(x) => {
                if v.len() > 0 {
                    Err(SingleError::More)
                } else {
                    Ok(x)
                }
            },
        }
    }
}

/// The rows enumerated cell by cell: every element of row `y` at column
/// `x` becomes the pair `(Point { x, y }, element)`, rows in order.
pub open spec fn enumerate2d_spec<T>(rows: Seq<Seq<T>>) -> Seq<(Point<usize>, T)>
    decreases rows.len(),
{
    if rows.len() == 0 {
        Seq::empty()
    } else {
        enumerate2d_spec(rows.drop_last()) + enumerate_row_spec(
            rows.len() - 1,
            rows.last(),
        )
    }
}

/// One row enumerated cell by cell.
pub open spec fn enumerate_row_spec<T>(y: int, row: Seq<T>) -> Seq<(Point<usize>, T)> {
    Seq::new(row.len(), |x: int| (Point { x: x as usize, y: y as usize }, row[x]))
}

/// Enumeration of nested containers with 2D positions.
pub trait Enumerate2D: Sized {
    type Item;

    /// The rows held, in order.
    spec fn rows_elements(self) -> Seq<Seq<Self::Item>>;

    /// Flattens the rows, tagging every element with the [`Point`] at
    /// which it sits: `x` the position in its row, `y` the row's index.
    fn enumerate2d(self) -> (r: Vec<(Point<usize>, Self::Item)>)
        ensures
            r@ == enumerate2d_spec(self.rows_elements()),
    ;
}

impl<T> Enumerate2D for Vec<Vec<T>> {
    type Item = T;

    open spec fn rows_elements(self) -> Seq<Seq<T>> {
        self@.map_values(|row: Vec<T>| row@)
    }

    fn enumerate2d(self) -> (r: Vec<(Point<usize>, T)>) {
        let ghost all = self.rows_elements();
        let row_count = self.len();
        let mut out: Vec<(Point<usize>, T)> = Vec::new();
        let mut rest = self;
        let mut y: usize = 0;
        proof {
            assert(all.take(0) =~= Seq::<Seq<T>>::empty());
            assert(rest@.map_values(|row: Vec<T>| row@) =~= all.skip(0));
        }
        while y < row_count
            invariant
                y <= row_count,
                row_count == all.len(),
                rest@.len() == row_count - y,
                rest@.map_values(|row: Vec<T>| row@) == all.skip(y as int),
                out@ == enumerate2d_spec(all.take(y as int)),
            decreases row_count - y,
        {
            let ghost rest_old = rest@;
            let ghost rest_rows = rest@.map_values(|row: Vec<T>| row@);
            let mut row = rest.remove(0);
            let ghost row_seq = row@;
            proof {
                assert(rest_rows[0] == row_seq);
                assert(all[y as int] == row_seq);
                assert forall|j: int| 0 <= j < rest@.len() implies rest@.map_values(
                    |r: Vec<T>| r@,
                )[j] == #[trigger] all.skip(y as int + 1)[j] by {
                    assert(rest@[j] == rest_old[j + 1]);
                    assert(rest_rows[j + 1] == rest_old[j + 1]@);
                    assert(all.skip(y as int)[j + 1] == all[y as int + 1 + j]);
                }
                assert(rest@.map_values(|r: Vec<T>| r@) =~= all.skip(y as int + 1));
                assert(row_seq.skip(0) =~= row_seq);
            }
            let row_len = row.len();
            let mut x: usize = 0;
            while x < row_len
                invariant
                    x <= row_len,
                    row_len == row_seq.len(),
                    row@ == row_seq.skip(x as int),
                    y < row_count,
                    row_count == all.len(),
                    out@ == enumerate2d_spec(all.take(y as int)) + enumerate_row_spec(
                        y as int,
                        row_seq,
                    ).take(x as int),
                decreases row_len - x,
            {
                let item = row.remove(0);
                proof {
                    assert(item == row_seq[x as int]);
                    assert(row@ =~= row_seq.skip(x as int + 1));
                    assert((enumerate2d_spec(all.take(y as int)) + enumerate_row_spec(
                        y as int,
                        row_seq,
                    ).take(x as int)).push((Point { x, y }, item)) =~= enumerate2d_spec(
                        all.take(y as int),
                    ) + enumerate_row_spec(y as int, row_seq).take(x as int + 1));
                }
                let p: Point<usize> = Point { x, y };
                out.push((p, item));
                x = x + 1;
            }
            proof {
                assert(all.take(y as int + 1).drop_last() =~= all.take(y as int));
                assert(all.take(y as int + 1).last() == row_seq);
                assert(enumerate_row_spec(y as int, row_seq).take(row_len as int)
                    =~= enumerate_row_spec(y as int, row_seq));
                assert(enumerate2d_spec(all.take(y as int + 1)) == enumerate2d_spec(
                    all.take(y as int),
                ) + enumerate_row_spec(y as int, row_seq));
            }
            y = y + 1;
        }
        proof {
            assert(all.take(row_count as int) =~= all);
        }
        out
    }
}

} // verus!
