//! A generic 2-component coordinate.

use core::cmp::Ordering;

use vstd::prelude::*;

use vstd::string::StringExecFns;

use crate::num::{AbsDiff, CheckedAddSigned, Numeric};

use super::direction::Directions;

verus! {

/// Represents a point in 2D space.
///
/// Both components range freely over their type's domain; operations
/// return new values and leave their operands untouched.
#[derive(Debug, Clone, Copy, PartialEq, Eq, Hash, Default)]
pub struct Point<T> {
    pub x: T,
    pub y: T,
}

impl<T> Point<T> {
    /// Creates a new [`Point`] with the corresponding `x` and `y` components.
    pub fn new(x: T, y: T) -> (r: Self)
        ensures
            r == (Point { x, y }),
    {
        Point { x, y }
    }
}

impl<T: Numeric> Point<T> {
    /// Whether moving by `(dx, dy)` stays inside `T`'s domain.
    pub open spec fn can_step(self, dx: int, dy: int) -> bool {
        &&& T::min_spec() <= self.x.as_int() + dx <= T::max_spec()
        &&& T::min_spec() <= self.y.as_int() + dy <= T::max_spec()
    }

    /// The point moved by `(dx, dy)`.
    pub open spec fn stepped(self, dx: int, dy: int) -> Point<T> {
        Point { x: T::from_int(self.x.as_int() + dx), y: T::from_int(self.y.as_int() + dy) }
    }

    /// The sum of the absolute differences of the components.
    pub open spec fn manhattan_spec(self, other: Self) -> int {
        (if self.x.as_int() >= other.x.as_int() {
            self.x.as_int() - other.x.as_int()
        } else {
            other.x.as_int() - self.x.as_int()
        }) + (if self.y.as_int() >= other.y.as_int() {
            self.y.as_int() - other.y.as_int()
        } else {
            other.y.as_int() - self.y.as_int()
        })
    }

    /// The total order on points: primarily by `y`, then by `x`.
    ///
    /// Two historical orderings exist for points — this total one and a
    /// partial product order. This crate picks the total order, so that
    /// points can serve as sort keys; a dominance test can be written
    /// from the component contracts instead.
    pub open spec fn cmp_spec(self, other: Self) -> Ordering {
        if self.y.as_int() < other.y.as_int() {
            Ordering::Less
        } else if self.y.as_int() > other.y.as_int() {
            Ordering::Greater
        } else if self.x.as_int() < other.x.as_int() {
            Ordering::Less
        } else if self.x.as_int() > other.x.as_int() {
            Ordering::Greater
        } else {
            Ordering::Equal
        }
    }

    #[must_use]
    /// Returns the `(0, 0)` (origin) [`Point`].
    pub fn zero() -> (r: Self)
        ensures
            r.x.as_int() == 0,
            r.y.as_int() == 0,
    {
        Point { x: T::zero(), y: T::zero() }
    }

    #[must_use]
    /// Returns the `(1, 1)` (unit) [`Point`].
    pub fn one() -> (r: Self)
        ensures
            r.x.as_int() == 1,
            r.y.as_int() == 1,
    {
        Point { x: T::one(), y: T::one() }
    }

    /// Converts from [`Point<T>`] to [`Point<U>`], component-wise and
    /// exact.
    ///
    /// Returns [`None`] if either component cannot be represented in `U`.
    pub fn cast<U: Numeric>(self) -> (r: Option<Point<U>>)
        ensures
            r is Some <==> U::min_spec() <= self.x.as_int() <= U::max_spec() && U::min_spec()
                <= self.y.as_int() <= U::max_spec(),
            r matches Some(p) ==> p.x.as_int() == self.x.as_int() && p.y.as_int()
                == self.y.as_int(),
    {
        let x = match U::from_wide(self.x.to_wide()) {
            Some(x) => x,
            None => {
                return None;
            },
        };
        let y = match U::from_wide(self.y.to_wide()) {
            Some(y) => y,
            None => {
                return None;
            },
        };
        Some(Point { x, y })
    }

    /// Component-wise addition, exact by precondition.
    pub fn add(self, rhs: Self) -> (r: Self)
        requires
            self.can_step(rhs.x.as_int(), rhs.y.as_int()),
        ensures
            r.x.as_int() == self.x.as_int() + rhs.x.as_int(),
            r.y.as_int() == self.y.as_int() + rhs.y.as_int(),
    {
        Point { x: self.x.add_val(rhs.x), y: self.y.add_val(rhs.y) }
    }

    /// Component-wise subtraction, exact by precondition.
    pub fn sub(self, rhs: Self) -> (r: Self)
        requires
            self.can_step(-rhs.x.as_int(), -rhs.y.as_int()),
        ensures
            r.x.as_int() == self.x.as_int() - rhs.x.as_int(),
            r.y.as_int() == self.y.as_int() - rhs.y.as_int(),
    {
        Point { x: self.x.sub_val(rhs.x), y: self.y.sub_val(rhs.y) }
    }

    /// Broadcast addition of a scalar to both components, exact by
    /// precondition.
    pub fn scalar_add(self, rhs: T) -> (r: Self)
        requires
            self.can_step(rhs.as_int(), rhs.as_int()),
        ensures
            r.x.as_int() == self.x.as_int() + rhs.as_int(),
            r.y.as_int() == self.y.as_int() + rhs.as_int(),
    {
        Point { x: self.x.add_val(rhs), y: self.y.add_val(rhs) }
    }

    /// Broadcast subtraction of a scalar from both components, exact by
    /// precondition.
    pub fn scalar_sub(self, rhs: T) -> (r: Self)
        requires
            self.can_step(-rhs.as_int(), -rhs.as_int()),
        ensures
            r.x.as_int() == self.x.as_int() - rhs.as_int(),
            r.y.as_int() == self.y.as_int() - rhs.as_int(),
    {
        Point { x: self.x.sub_val(rhs), y: self.y.sub_val(rhs) }
    }

    /// Broadcast multiplication of both components by a scalar, exact
    /// by precondition.
    pub fn scalar_mul(self, rhs: T) -> (r: Self)
        requires
            T::min_spec() <= self.x.as_int() * rhs.as_int() <= T::max_spec(),
            T::min_spec() <= self.y.as_int() * rhs.as_int() <= T::max_spec(),
        ensures
            r.x.as_int() == self.x.as_int() * rhs.as_int(),
            r.y.as_int() == self.y.as_int() * rhs.as_int(),
    {
        Point { x: self.x.mul_val(rhs), y: self.y.mul_val(rhs) }
    }

    /// Component-wise negation, exact by precondition.
    pub fn neg(self) -> (r: Self)
        requires
            T::min_spec() <= -self.x.as_int() <= T::max_spec(),
            T::min_spec() <= -self.y.as_int() <= T::max_spec(),
        ensures
            r.x.as_int() == -self.x.as_int(),
            r.y.as_int() == -self.y.as_int(),
    {
        Point { x: self.x.neg_val(), y: self.y.neg_val() }
    }

    #[must_use]
    /// Computes the manhattan distance of `self` to `other`:
    /// the sum of the absolute differences of the components, computed
    /// per axis as `max - min` so that unsigned types never underflow.
    pub fn manhattan_distance(self, other: Self) -> (r: T)
        requires
            self.manhattan_spec(other) <= T::max_spec(),
        ensures
            r.as_int() == self.manhattan_spec(other),
    {
        proof {
            T::lemma_type_bounds();
        }
        let (min_x, max_x) = if self.x.le_val(other.x) {
            (self.x, other.x)
        } else {
            (other.x, self.x)
        };
        let (min_y, max_y) = if self.y.le_val(other.y) {
            (self.y, other.y)
        } else {
            (other.y, self.y)
        };
        let dx = max_x.sub_val(min_x);
        let dy = max_y.sub_val(min_y);
        dx.add_val(dy)
    }

    /// Total comparison of two points: primarily by `y`, then by `x`.
    pub fn cmp(&self, other: &Self) -> (r: Ordering)
        ensures
            r == self.cmp_spec(*other),
    {
        if self.y.lt_val(other.y) {
            Ordering::Less
        } else if other.y.lt_val(self.y) {
            Ordering::Greater
        } else if self.x.lt_val(other.x) {
            Ordering::Less
        } else if other.x.lt_val(self.x) {
            Ordering::Greater
        } else {
            Ordering::Equal
        }
    }
}

impl<T: CheckedAddSigned> Point<T> {
    /// Attempts to add a signed [`Point`] of deltas to `self`.
    ///
    /// Returns [`None`] as soon as either component would leave `T`'s
    /// domain; the addition never wraps and is never partially applied.
    pub fn add_signed(self, rhs: Point<T::Signed>) -> (r: Option<Self>)
        ensures
            r is Some <==> self.can_step(rhs.x.as_int(), rhs.y.as_int()),
            r matches Some(p) ==> p.x.as_int() == self.x.as_int() + rhs.x.as_int() && p.y.as_int()
                == self.y.as_int() + rhs.y.as_int(),
    {
        let x = match self.x.checked_add_signed(rhs.x) {
            Some(x) => x,
            None => {
                return None;
            },
        };
        let y = match self.y.checked_add_signed(rhs.y) {
            Some(y) => y,
            None => {
                return None;
            },
        };
        Some(Point { x, y })
    }

    /// Creates the neighbours of `self` in all `D` directions which are
    /// representable by `T`, in the order `D` declares its directions.
    ///
    /// This is the one place where overflow is expected and silently
    /// filtered: a point at the edge of `T`'s domain legitimately has
    /// fewer than `|D|` neighbours.
    pub fn neighbours<D: Directions>(self) -> (r: Vec<Self>)
        ensures
            r@ == neighbours_from(self, D::all_spec()),
    {
        let dirs = D::all();
        let mut out: Vec<Point<T>> = Vec::new();
        let mut i: usize = 0;
        while i < dirs.len()
            invariant
                i <= dirs@.len(),
                dirs@ == D::all_spec(),
                out@ == neighbours_from(self, dirs@.take(i as int)),
            decreases dirs@.len() - i,
        {
            let d = dirs[i];
            let v: (T::Signed, T::Signed) = d.vector();
            match self.add_signed(Point { x: v.0, y: v.1 }) {
                Some(p) => {
                    proof {
                        p.x.lemma_value_in_range();
                        p.y.lemma_value_in_range();
                    }
                    out.push(p);
                },
                None => {
                },
            }
            proof {
                assert(dirs@.take(i as int + 1).drop_last() =~= dirs@.take(i as int));
            }
            i = i + 1;
        }
        proof {
            assert(dirs@.take(dirs@.len() as int) =~= dirs@);
        }
        out
    }
}

impl<T: AbsDiff> Point<T> {
    #[must_use]
    /// Computes the absolute difference between two points,
    /// component-wise, in the unsigned type that holds any difference.
    pub fn abs_diff(self, rhs: Self) -> (r: Point<T::Unsigned>)
        ensures
            r.x.as_int() == if self.x.as_int() >= rhs.x.as_int() {
                self.x.as_int() - rhs.x.as_int()
            } else {
                rhs.x.as_int() - self.x.as_int()
            },
            r.y.as_int() == if self.y.as_int() >= rhs.y.as_int() {
                self.y.as_int() - rhs.y.as_int()
            } else {
                rhs.y.as_int() - self.y.as_int()
            },
    {
        Point { x: self.x.abs_diff(rhs.x), y: self.y.abs_diff(rhs.y) }
    }
}

/// The neighbours of `p` reached by the in-range displacements among
/// `dirs`, in the order of `dirs`.
pub open spec fn neighbours_from<T: Numeric, D: Directions>(p: Point<T>, dirs: Seq<D>) -> Seq<
    Point<T>,
>
    decreases dirs.len(),
{
    if dirs.len() == 0 {
        Seq::empty()
    } else {
        let init = neighbours_from(p, dirs.drop_last());
        let d = dirs.last();
        if p.can_step(d.dx_spec(), d.dy_spec()) {
            init.push(p.stepped(d.dx_spec(), d.dy_spec()))
        } else {
            init
        }
    }
}

/// The manhattan distance is symmetric, and the distance from a point
/// to itself is zero.
pub proof fn lemma_manhattan_symmetric<T: Numeric>(a: Point<T>, b: Point<T>)
    ensures
        a.manhattan_spec(b) == b.manhattan_spec(a),
        a.manhattan_spec(a) == 0,
{
}

impl<T> From<(T, T)> for Point<T> {
    fn from(pair: (T, T)) -> (r: Self) {
        Point { x: pair.0, y: pair.1 }
    }
}

impl<T> vstd::std_specs::convert::FromSpecImpl<(T, T)> for Point<T> {
    open spec fn obeys_from_spec() -> bool {
        true
    }

    open spec fn from_spec(pair: (T, T)) -> Self {
        Point { x: pair.0, y: pair.1 }
    }
}

impl<T> From<Point<T>> for (T, T) {
    fn from(val: Point<T>) -> (r: Self) {
        (val.x, val.y)
    }
}

impl<T> vstd::std_specs::convert::FromSpecImpl<Point<T>> for (T, T) {
    open spec fn obeys_from_spec() -> bool {
        true
    }

    open spec fn from_spec(val: Point<T>) -> Self {
        (val.x, val.y)
    }
}

impl<T: Numeric + PartialEq> PartialOrd for Point<T> {
    /// Total comparison: primarily by `y`, then by `x`.
    fn partial_cmp(&self, other: &Self) -> (r: Option<Ordering>) {
        if self.y.lt_val(other.y) {
            Some(Ordering::Less)
        } else if other.y.lt_val(self.y) {
            Some(Ordering::Greater)
        } else if self.x.lt_val(other.x) {
            Some(Ordering::Less)
        } else if other.x.lt_val(self.x) {
            Some(Ordering::Greater)
        } else {
            Some(Ordering::Equal)
        }
    }
}

impl<T: Numeric + PartialEq> vstd::std_specs::cmp::PartialOrdSpecImpl for Point<T> {
    open spec fn obeys_partial_cmp_spec() -> bool {
        true
    }

    open spec fn partial_cmp_spec(&self, other: &Self) -> Option<Ordering> {
        Some(self.cmp_spec(*other))
    }
}


/// The decimal digit character standing for `d`.
pub open spec fn digit_char(d: int) -> char {
    if d == 0 {
        '0'
    } else if d == 1 {
        '1'
    } else if d == 2 {
        '2'
    } else if d == 3 {
        '3'
    } else if d == 4 {
        '4'
    } else if d == 5 {
        '5'
    } else if d == 6 {
        '6'
    } else if d == 7 {
        '7'
    } else if d == 8 {
        '8'
    } else {
        '9'
    }
}

/// The decimal digits of a whole number, most significant first.
pub open spec fn decimal_digits(n: nat) -> Seq<char>
    decreases n,
{
    if n < 10 {
        seq![digit_char(n as int)]
    } else {
        decimal_digits(n / 10) + seq![digit_char((n % 10) as int)]
    }
}

/// The decimal rendering of an integer: its digits, after a minus sign
/// when it is negative.
pub open spec fn decimal_of(v: int) -> Seq<char> {
    if v < 0 {
        seq!['-'] + decimal_digits((-v) as nat)
    } else {
        decimal_digits(v as nat)
    }
}

/// Appends one decimal digit character.
fn push_digit(s: &mut String, d: u128)
    requires
        d < 10,
    ensures
        final(s)@ == old(s)@ + seq![digit_char(d as int)],
{
    if d == 0 {
        proof {
            reveal_strlit("0");
            assert("0"@ =~= seq![digit_char(0)]);
        }
        s.append("0");
    } else if d == 1 {
        proof {
            reveal_strlit("1");
            assert("1"@ =~= seq![digit_char(1)]);
        }
        s.append("1");
    } else if d == 2 {
        proof {
            reveal_strlit("2");
            assert("2"@ =~= seq![digit_char(2)]);
        }
        s.append("2");
    } else if d == 3 {
        proof {
            reveal_strlit("3");
            assert("3"@ =~= seq![digit_char(3)]);
        }
        s.append("3");
    } else if d == 4 {
        proof {
            reveal_strlit("4");
            assert("4"@ =~= seq![digit_char(4)]);
        }
        s.append("4");
    } else if d == 5 {
        proof {
            reveal_strlit("5");
            assert("5"@ =~= seq![digit_char(5)]);
        }
        s.append("5");
    } else if d == 6 {
        proof {
            reveal_strlit("6");
            assert("6"@ =~= seq![digit_char(6)]);
        }
        s.append("6");
    } else if d == 7 {
        proof {
            reveal_strlit("7");
            assert("7"@ =~= seq![digit_char(7)]);
        }
        s.append("7");
    } else if d == 8 {
        proof {
            reveal_strlit("8");
            assert("8"@ =~= seq![digit_char(8)]);
        }
        s.append("8");
    } else {
        proof {
            reveal_strlit("9");
            assert("9"@ =~= seq![digit_char(9)]);
        }
        s.append("9");
    }
}

/// Appends the decimal digits of a whole number.
fn push_decimal(s: &mut String, n: u128)
    ensures
        final(s)@ == old(s)@ + decimal_digits(n as nat),
    decreases n,
{
    if n >= 10 {
        proof {
            vstd::arithmetic::div_mod::lemma_div_decreases(n as int, 10);
        }
        push_decimal(s, n / 10);
    }
    push_digit(s, n % 10);
    proof {
        assert(s@ =~= old(s)@ + decimal_digits(n as nat));
    }
}

/// Appends the decimal rendering of a coordinate value.
fn push_value<T: Numeric>(s: &mut String, v: T)
    ensures
        final(s)@ == old(s)@ + decimal_of(v.as_int()),
{
    let w = v.to_wide();
    if w.negative {
        proof {
            reveal_strlit("-");
            assert("-"@ =~= seq!['-']);
        }
        s.append("-");
        push_decimal(s, w.magnitude);
        proof {
            assert(s@ =~= old(s)@ + decimal_of(v.as_int()));
        }
    } else {
        push_decimal(s, w.magnitude);
    }
}

impl<T: Numeric> Point<T> {
    /// The textual form of the point: both components in decimal,
    /// comma-separated inside parentheses.
    pub open spec fn display_spec(self) -> Seq<char> {
        seq!['('] + decimal_of(self.x.as_int()) + seq![',', ' '] + decimal_of(self.y.as_int())
            + seq![')']
    }

    /// Renders the point as `(x, y)`.
    pub fn to_string(&self) -> (r: String)
        ensures
            r@ == self.display_spec(),
    {
        let mut s = String::new();
        proof {
            reveal_strlit("(");
            reveal_strlit(", ");
            reveal_strlit(")");
            assert("("@ =~= seq!['(']);
            assert(", "@ =~= seq![',', ' ']);
            assert(")"@ =~= seq![')']);
        }
        s.append("(");
        push_value(&mut s, self.x);
        s.append(", ");
        push_value(&mut s, self.y);
        s.append(")");
        proof {
            assert(s@ =~= self.display_spec());
        }
        s
    }
}

} // verus!

