//! An axis-aligned rectangular region of points.

use vstd::prelude::*;

use vstd::arithmetic::div_mod::{
    lemma_div_pos_is_pos, lemma_fundamental_div_mod, lemma_fundamental_div_mod_converse,
    lemma_mod_bound,
};
use vstd::arithmetic::mul::{
    lemma_mul_basics_1, lemma_mul_inequality, lemma_mul_is_commutative,
    lemma_mul_is_distributive_sub_other_way,
};

use crate::num::Numeric;

use super::point::Point;

verus! {

/// Represents an area at a location: the half-open rectangle reaching
/// from `position` (inclusive) over `dimensions.0` points to the east
/// and `dimensions.1` points to the south.
///
/// An area with either dimension zero has empty extent and contains no
/// points.
#[derive(Debug, Copy, PartialEq, Eq)]
pub struct Area<T = usize> {
    pub position: Point<T>,
    pub dimensions: (usize, usize),
}

impl<T: Copy> Clone for Area<T> {
    /// Areas are plain values: a clone is the same area.
    fn clone(&self) -> (r: Self)
        ensures
            r == *self,
    {
        *self
    }
}

/// The `x` components of a sequence of points, as mathematical integers.
pub open spec fn xs_of<T: Numeric>(s: Seq<Point<T>>) -> Seq<int> {
    s.map_values(|p: Point<T>| p.x.as_int())
}

/// The `y` components of a sequence of points, as mathematical integers.
pub open spec fn ys_of<T: Numeric>(s: Seq<Point<T>>) -> Seq<int> {
    s.map_values(|p: Point<T>| p.y.as_int())
}

impl<T: Numeric> Area<T> {
    /// West edge of the rectangle.
    pub open spec fn x0(self) -> int {
        self.position.x.as_int()
    }

    /// North edge of the rectangle.
    pub open spec fn y0(self) -> int {
        self.position.y.as_int()
    }

    /// Number of points per row.
    pub open spec fn width(self) -> int {
        self.dimensions.0 as int
    }

    /// Number of rows.
    pub open spec fn height(self) -> int {
        self.dimensions.1 as int
    }

    /// Number of contained points.
    pub open spec fn surface(self) -> int {
        self.width() * self.height()
    }

    /// Whether the coordinates `(px, py)` lie inside the rectangle.
    pub open spec fn contains_coords(self, px: int, py: int) -> bool {
        &&& self.x0() <= px < self.x0() + self.width()
        &&& self.y0() <= py < self.y0() + self.height()
    }

    /// Both corners of the rectangle, dimensions included, are
    /// representable in `T`: what the containment test needs.
    pub open spec fn extent_representable(self) -> bool {
        &&& self.width() <= T::max_spec()
        &&& self.height() <= T::max_spec()
        &&& self.x0() + self.width() <= T::max_spec()
        &&& self.y0() + self.height() <= T::max_spec()
    }

    /// Every contained point is representable and the surface fits in
    /// `usize`: what iteration needs.
    pub open spec fn iterable(self) -> bool {
        &&& self.surface() <= usize::MAX
        &&& self.width() > 0 && self.height() > 0 ==> {
            &&& self.width() - 1 <= T::max_spec()
            &&& self.height() - 1 <= T::max_spec()
            &&& self.x0() + self.width() - 1 <= T::max_spec()
            &&& self.y0() + self.height() - 1 <= T::max_spec()
        }
    }

    /// The point visited at step `i` of the row-major traversal.
    pub open spec fn point_at(self, i: int) -> Point<T> {
        Point {
            x: T::from_int(self.x0() + i % self.width()),
            y: T::from_int(self.y0() + i / self.width()),
        }
    }

    /// All contained points, left-to-right then top-to-bottom.
    pub open spec fn points(self) -> Seq<Point<T>> {
        Seq::new(self.surface() as nat, |i: int| self.point_at(i))
    }

    /// Creates a new area at `position` with dimensions `dimensions`.
    #[must_use]
    pub fn new(position: Point<T>, dimensions: (usize, usize)) -> (r: Self)
        ensures
            r == (Area { position, dimensions }),
    {
        Area { position, dimensions }
    }

    /// Creates a new area of the given dimensions, anchored at the origin.
    #[must_use]
    pub fn from_dimensions(width: usize, height: usize) -> (r: Self)
        ensures
            r.x0() == 0,
            r.y0() == 0,
            r.dimensions == (width, height),
    {
        Area { position: Point::zero(), dimensions: (width, height) }
    }

    /// Computes the surface area: the number of contained points.
    pub fn surface_area(self) -> (r: usize)
        requires
            self.surface() <= usize::MAX,
        ensures
            r == self.surface(),
    {
        self.dimensions.0 * self.dimensions.1
    }

    /// Determines if `point` is contained in the area.
    ///
    /// A point whose coordinates are not representable in `T` lies
    /// outside the rectangle, so the test fails closed on it.
    pub fn contains<U: Numeric>(self, point: Point<U>) -> (r: bool)
        requires
            self.extent_representable(),
        ensures
            r <==> self.contains_coords(point.x.as_int(), point.y.as_int()),
    {
        proof {
            T::lemma_type_bounds();
            self.position.x.lemma_value_in_range();
            self.position.y.lemma_value_in_range();
        }
        let dims = Point::<usize>::new(self.dimensions.0, self.dimensions.1).cast::<T>().unwrap();
        let bottom_right = self.position.add(dims);
        let q = match point.cast::<T>() {
            Some(q) => q,
            None => {
                return false;
            },
        };
        self.position.x.le_val(q.x) && self.position.y.le_val(q.y) && q.x.lt_val(bottom_right.x)
            && q.y.lt_val(bottom_right.y)
    }

    /// Computes the minimal bounding area around a set of points: its
    /// position is the component-wise minimum and its dimensions reach
    /// to the component-wise maximum, inclusive. No points give the
    /// zero-dimension area at the origin.
    pub fn bounding_area(points: &Vec<Point<T>>) -> (r: Self)
        requires
            points@.len() > 0 ==> {
                &&& xs_of(points@).max() - xs_of(points@).min() <= T::max_spec()
                &&& ys_of(points@).max() - ys_of(points@).min() <= T::max_spec()
                &&& xs_of(points@).max() - xs_of(points@).min() < usize::MAX
                &&& ys_of(points@).max() - ys_of(points@).min() < usize::MAX
            },
        ensures
            points@.len() == 0 ==> r.x0() == 0 && r.y0() == 0 && r.dimensions == (0usize, 0usize),
            points@.len() > 0 ==> {
                &&& r.x0() == xs_of(points@).min()
                &&& r.y0() == ys_of(points@).min()
                &&& r.width() == xs_of(points@).max() - xs_of(points@).min() + 1
                &&& r.height() == ys_of(points@).max() - ys_of(points@).min() + 1
            },
    {
        if points.len() == 0 {
            return Area { position: Point::zero(), dimensions: (0, 0) };
        }
        proof {
            T::lemma_type_bounds();
        }
        let ghost xs = xs_of(points@);
        let ghost ys = ys_of(points@);
        let first = points[0];
        let mut min_x = first.x;
        let mut max_x = first.x;
        let mut min_y = first.y;
        let mut max_y = first.y;
        let mut i: usize = 1;
        while i < points.len()
            invariant
                1 <= i <= points@.len(),
                xs == xs_of(points@),
                ys == ys_of(points@),
                xs.len() == points@.len(),
                ys.len() == points@.len(),
                exists|k: int| 0 <= k < i && xs[k] == min_x.as_int(),
                exists|k: int| 0 <= k < i && xs[k] == max_x.as_int(),
                exists|k: int| 0 <= k < i && ys[k] == min_y.as_int(),
                exists|k: int| 0 <= k < i && ys[k] == max_y.as_int(),
                forall|j: int| 0 <= j < i ==> min_x.as_int() <= #[trigger] xs[j] <= max_x.as_int(),
                forall|j: int| 0 <= j < i ==> min_y.as_int() <= #[trigger] ys[j] <= max_y.as_int(),
            decreases points@.len() - i,
        {
            let p = points[i];
            if p.x.lt_val(min_x) {
                min_x = p.x;
            }
            if max_x.lt_val(p.x) {
                max_x = p.x;
            }
            if p.y.lt_val(min_y) {
                min_y = p.y;
            }
            if max_y.lt_val(p.y) {
                max_y = p.y;
            }
            proof {
                assert(xs[i as int] == p.x.as_int());
                assert(ys[i as int] == p.y.as_int());
            }
            i = i + 1;
        }
        proof {
            xs.min_ensures();
            xs.max_ensures();
            ys.min_ensures();
            ys.max_ensures();
            assert(xs.contains(min_x.as_int()) && xs.contains(max_x.as_int()));
            assert(ys.contains(min_y.as_int()) && ys.contains(max_y.as_int()));
            assert(min_x.as_int() == xs.min());
            assert(max_x.as_int() == xs.max());
            assert(min_y.as_int() == ys.min());
            assert(max_y.as_int() == ys.max());
        }
        let dx = max_x.sub_val(min_x);
        let dy = max_y.sub_val(min_y);
        let w = <usize as Numeric>::from_wide(dx.to_wide()).unwrap();
        let h = <usize as Numeric>::from_wide(dy.to_wide()).unwrap();
        Area { position: Point { x: min_x, y: min_y }, dimensions: (w + 1, h + 1) }
    }

    /// Iterate over the points contained in the area.
    /// The points are visited left-to-right, top-to-bottom.
    pub fn iter(&self) -> (r: Iter<T>)
        requires
            self.iterable(),
        ensures
            r.area == *self,
            r.index == 0,
            r.end == self.surface(),
            r.wf(),
    {
        Iter { area: *self, index: 0, end: self.surface_area() }
    }

    /// Iterate over the points contained in the area row by row.
    pub fn iter_rows(&self) -> (r: Vec<Vec<Point<T>>>)
        requires
            self.iterable(),
        ensures
            r@.len() == self.height(),
            forall|j: int| 0 <= j < self.height() ==> (#[trigger] r@[j])@.len() == self.width(),
            forall|j: int, k: int|
                0 <= j < self.height() && 0 <= k < self.width() ==> #[trigger] r@[j]@[k]
                    == self.point_at(j * self.width() + k),
    {
        let width = self.dimensions.0;
        let height = self.dimensions.1;
        let mut rows: Vec<Vec<Point<T>>> = Vec::new();
        let mut j: usize = 0;
        while j < height
            invariant
                j <= height,
                self.iterable(),
                width == self.dimensions.0,
                height == self.dimensions.1,
                rows@.len() == j,
                forall|jj: int| 0 <= jj < j ==> (#[trigger] rows@[jj])@.len() == self.width(),
                forall|jj: int, k: int|
                    0 <= jj < j && 0 <= k < self.width() ==> #[trigger] rows@[jj]@[k]
                        == self.point_at(jj * self.width() + k),
            decreases height - j,
        {
            let mut row: Vec<Point<T>> = Vec::new();
            let mut k: usize = 0;
            while k < width
                invariant
                    k <= width,
                    j < height,
                    self.iterable(),
                    width == self.dimensions.0,
                    height == self.dimensions.1,
                    row@.len() == k,
                    forall|m: int|
                        0 <= m < k ==> row@[m] == self.point_at(
                            j as int * self.width() + m,
                        ),
                decreases width - k,
            {
                proof {
                    T::lemma_type_bounds();
                    self.position.x.lemma_value_in_range();
                    self.position.y.lemma_value_in_range();
                }
                let offset = Point::<usize>::new(k, j).cast::<T>().unwrap();
                let p = self.position.add(offset);
                proof {
                    p.x.lemma_value_in_range();
                    p.y.lemma_value_in_range();
                    lemma_fundamental_div_mod_converse(
                        j as int * self.width() + k as int,
                        self.width(),
                        j as int,
                        k as int,
                    );
                }
                row.push(p);
                k = k + 1;
            }
            rows.push(row);
            j = j + 1;
        }
        rows
    }
}

impl<T: Numeric> From<(usize, usize)> for Area<T> {
    /// An origin-anchored area from bare dimensions.
    fn from(dimensions: (usize, usize)) -> (r: Self) {
        Area::from_dimensions(dimensions.0, dimensions.1)
    }
}

impl<T: Numeric> vstd::std_specs::convert::FromSpecImpl<(usize, usize)> for Area<T> {
    open spec fn obeys_from_spec() -> bool {
        false
    }

    open spec fn from_spec(dimensions: (usize, usize)) -> Self {
        Area { position: Point { x: T::from_int(0), y: T::from_int(0) }, dimensions }
    }
}

/// Iterates over all the [`Point`]s in an [`Area`], from both ends.
///
/// The forward direction runs left-to-right, top-to-bottom; the
/// backward direction visits the same points in exactly reverse order,
/// and the two cursors meet in the middle without overlap.
pub struct Iter<T> {
    pub area: Area<T>,
    pub index: usize,
    pub end: usize,
}

impl<T: Numeric> Iter<T> {
    /// The iterator's cursors sit inside the area's traversal.
    pub open spec fn wf(self) -> bool {
        &&& self.index <= self.end <= self.area.surface()
        &&& self.area.iterable()
    }

    /// The number of points not yet visited from either end.
    pub fn len(&self) -> (r: usize)
        requires
            self.wf(),
        ensures
            r == self.end - self.index,
    {
        self.end - self.index
    }

    /// Yields the next point from the front, or [`None`] once the two
    /// cursors have met.
    pub fn next(&mut self) -> (r: Option<Point<T>>)
        requires
            old(self).wf(),
        ensures
            final(self).wf(),
            final(self).area == old(self).area,
            final(self).end == old(self).end,
            old(self).index < old(self).end ==> r == Some(
                old(self).area.point_at(old(self).index as int),
            ) && final(self).index == old(self).index + 1,
            old(self).index >= old(self).end ==> r is None && *final(self) == *old(self),
    {
        if self.index >= self.end {
            return None;
        }
        let p = self.area.point_for_index(self.index);
        self.index = self.index + 1;
        Some(p)
    }

    /// Yields the next point from the back, or [`None`] once the two
    /// cursors have met.
    pub fn next_back(&mut self) -> (r: Option<Point<T>>)
        requires
            old(self).wf(),
        ensures
            final(self).wf(),
            final(self).area == old(self).area,
            final(self).index == old(self).index,
            old(self).index < old(self).end ==> r == Some(
                old(self).area.point_at(old(self).end - 1),
            ) && final(self).end == old(self).end - 1,
            old(self).index >= old(self).end ==> r is None && *final(self) == *old(self),
    {
        if self.end <= self.index {
            return None;
        }
        self.end = self.end - 1;
        let p = self.area.point_for_index(self.end);
        Some(p)
    }
}

impl<T: Numeric> Area<T> {
    /// The point at one step of the row-major traversal.
    fn point_for_index(&self, index: usize) -> (r: Point<T>)
        requires
            self.iterable(),
            index < self.surface(),
        ensures
            r == self.point_at(index as int),
    {
        let width = self.dimensions.0;
        proof {
            T::lemma_type_bounds();
            self.position.x.lemma_value_in_range();
            self.position.y.lemma_value_in_range();
            if width == 0 {
                lemma_mul_basics_1(self.height());
                assert(false);
            }
            lemma_grid_index(index as int, self.width(), self.height());
        }
        let ox = index % width;
        let oy = index / width;
        let offset = Point::<usize>::new(ox, oy).cast::<T>().unwrap();
        let p = self.position.add(offset);
        proof {
            p.x.lemma_value_in_range();
            p.y.lemma_value_in_range();
        }
        p
    }
}

/// For an index `i` of the row-major traversal of a `w * h` grid, the
/// column `i % w` and the row `i / w` lie inside the grid.
proof fn lemma_grid_index(i: int, w: int, h: int)
    requires
        w > 0,
        0 <= i < w * h,
    ensures
        0 <= i % w < w,
        0 <= i / w < h,
        i == (i / w) * w + (i % w),
{
    lemma_fundamental_div_mod(i, w);
    lemma_mod_bound(i, w);
    lemma_div_pos_is_pos(i, w);
    lemma_mul_is_commutative(i / w, w);
    if i / w >= h {
        lemma_mul_inequality(h, i / w, w);
        lemma_mul_is_commutative(h, w);
        assert(false);
    }
}

/// Iteration is total and yields each contained point exactly once:
/// the traversal has exactly `width * height` steps and no point
/// repeats, so forward and reverse traversal see the same set.
pub proof fn lemma_area_points_unique<T: Numeric>(a: Area<T>)
    requires
        a.iterable(),
    ensures
        a.points().len() == a.width() * a.height(),
        forall|i: int, j: int|
            0 <= i < j < a.points().len() ==> a.points()[i] != a.points()[j],
{
    assert forall|i: int, j: int|
        0 <= i < j < a.points().len() implies a.points()[i] != a.points()[j] by {
        lemma_point_at_coords(a, i);
        lemma_point_at_coords(a, j);
        lemma_fundamental_div_mod(i, a.width());
        lemma_fundamental_div_mod(j, a.width());
    }
}

/// The coordinates of the `i`-th visited point: they recover `i`, and
/// they lie inside the rectangle.
proof fn lemma_point_at_coords<T: Numeric>(a: Area<T>, i: int)
    requires
        a.iterable(),
        0 <= i < a.surface(),
    ensures
        a.point_at(i).x.as_int() == a.x0() + i % a.width(),
        a.point_at(i).y.as_int() == a.y0() + i / a.width(),
        0 <= i % a.width() < a.width(),
        0 <= i / a.width() < a.height(),
{
    T::lemma_type_bounds();
    a.position.x.lemma_value_in_range();
    a.position.y.lemma_value_in_range();
    if a.width() == 0 {
        lemma_mul_basics_1(a.height());
        assert(false);
    }
    lemma_grid_index(i, a.width(), a.height());
    T::lemma_from_int(a.x0() + i % a.width());
    T::lemma_from_int(a.y0() + i / a.width());
}

/// A point is yielded by the area's iteration exactly when the area
/// contains its coordinates.
pub proof fn lemma_area_contains_iff_point<T: Numeric>(a: Area<T>, p: Point<T>)
    requires
        a.iterable(),
    ensures
        a.points().contains(p) <==> a.contains_coords(p.x.as_int(), p.y.as_int()),
{
    if a.points().contains(p) {
        let i = choose|i: int| 0 <= i < a.points().len() && a.points()[i] == p;
        lemma_point_at_coords(a, i);
    }
    if a.contains_coords(p.x.as_int(), p.y.as_int()) {
        let ox = p.x.as_int() - a.x0();
        let oy = p.y.as_int() - a.y0();
        let i = oy * a.width() + ox;
        assert(0 <= i < a.surface()) by {
            lemma_mul_inequality(oy, a.height() - 1, a.width());
            lemma_mul_is_distributive_sub_other_way(a.width(), a.height(), 1);
            lemma_mul_inequality(0, oy, a.width());
            lemma_mul_is_commutative(a.height() - 1, a.width());
            lemma_mul_is_commutative(a.height(), a.width());
            lemma_mul_basics_1(a.width());
        }
        lemma_fundamental_div_mod_converse(i, a.width(), oy, ox);
        lemma_point_at_coords(a, i);
        p.x.lemma_value_in_range();
        p.y.lemma_value_in_range();
        assert(a.points()[i] == p);
    }
}

} // verus!
