//! Compass directions and quarter-turn rotations.
//!
//! Coordinates follow the screen convention: `x` grows towards the
//! east and `y` grows towards the south, so north is `(0, -1)`.

use vstd::prelude::*;

use crate::num::SignedNumeric;

verus! {

/// A closed family of compass directions, each with a unit-or-diagonal
/// displacement vector.
pub trait Directions: Sized + Copy {
    /// Horizontal component of the displacement (`x` grows eastwards).
    spec fn dx_spec(self) -> int;

    /// Vertical component of the displacement (`y` grows southwards).
    spec fn dy_spec(self) -> int;

    /// Every variant exactly once, in the declared order; the order is
    /// load-bearing because neighbour enumeration inherits it.
    spec fn all_spec() -> Seq<Self>;

    /// The displacement vector of this direction.
    fn vector<T: SignedNumeric>(self) -> (r: (T, T))
        ensures
            r.0.as_int() == self.dx_spec(),
            r.1.as_int() == self.dy_spec(),
    ;

    /// The opposite direction: a 180 degree flip.
    fn inverted(self) -> (r: Self)
        ensures
            r.dx_spec() == -self.dx_spec(),
            r.dy_spec() == -self.dy_spec(),
    ;

    /// Enumerates every variant exactly once, in the declared order.
    fn all() -> (r: Vec<Self>)
        ensures
            r@ == Self::all_spec(),
    ;
}

/// The four cardinal directions.
#[derive(Debug, Clone, Copy, PartialEq, Eq, Hash)]
pub enum Cardinal {
    North,
    East,
    South,
    West,
}

/// The four ordinal (diagonal) directions.
#[derive(Debug, Clone, Copy, PartialEq, Eq, Hash)]
pub enum Ordinal {
    NorthEast,
    SouthEast,
    SouthWest,
    NorthWest,
}

/// The eight compass directions: cardinal and ordinal combined.
#[derive(Debug, Clone, Copy, PartialEq, Eq, Hash)]
pub enum Compass {
    Cardinal(Cardinal),
    Ordinal(Ordinal),
}

/// A quarter-turn rotation.
#[derive(Debug, Clone, Copy, Hash, PartialEq, Eq)]
pub enum Rotation {
    Clockwise,
    CounterClockwise,
}

impl Directions for Cardinal {
    open spec fn dx_spec(self) -> int {
        match self {
            Cardinal::North => 0,
            Cardinal::East => 1,
            Cardinal::South => 0,
            Cardinal::West => -1,
        }
    }

    open spec fn dy_spec(self) -> int {
        match self {
            Cardinal::North => -1,
            Cardinal::East => 0,
            Cardinal::South => 1,
            Cardinal::West => 0,
        }
    }

    open spec fn all_spec() -> Seq<Self> {
        seq![Cardinal::North, Cardinal::East, Cardinal::South, Cardinal::West]
    }

    fn vector<T: SignedNumeric>(self) -> (r: (T, T)) {
        match self {
            Cardinal::North => (T::zero(), T::neg_one()),
            Cardinal::East => (T::one(), T::zero()),
            Cardinal::South => (T::zero(), T::one()),
            Cardinal::West => (T::neg_one(), T::zero()),
        }
    }

    fn inverted(self) -> (r: Self) {
        match self {
            Cardinal::North => Cardinal::South,
            Cardinal::East => Cardinal::West,
            Cardinal::South => Cardinal::North,
            Cardinal::West => Cardinal::East,
        }
    }

    fn all() -> (r: Vec<Self>) {
        let mut v: Vec<Cardinal> = Vec::new();
        v.push(Cardinal::North);
        v.push(Cardinal::East);
        v.push(Cardinal::South);
        v.push(Cardinal::West);
        proof {
            assert(v@ =~= Self::all_spec());
        }
        v
    }
}

impl Cardinal {
    /// The direction one quarter turn away.
    pub open spec fn turn_spec(self, rotation: Rotation) -> Self {
        match (rotation, self) {
            (Rotation::Clockwise, Cardinal::North) => Cardinal::East,
            (Rotation::Clockwise, Cardinal::East) => Cardinal::South,
            (Rotation::Clockwise, Cardinal::South) => Cardinal::West,
            (Rotation::Clockwise, Cardinal::West) => Cardinal::North,
            (Rotation::CounterClockwise, Cardinal::North) => Cardinal::West,
            (Rotation::CounterClockwise, Cardinal::East) => Cardinal::North,
            (Rotation::CounterClockwise, Cardinal::South) => Cardinal::East,
            (Rotation::CounterClockwise, Cardinal::West) => Cardinal::South,
        }
    }

    /// Rotates the direction by 90 degrees; clockwise sends `(dx, dy)`
    /// to `(-dy, dx)` and counter-clockwise sends it to `(dy, -dx)`.
    pub fn turn(self, rotation: Rotation) -> (r: Self)
        ensures
            r == self.turn_spec(rotation),
            rotation == Rotation::Clockwise ==> r.dx_spec() == -self.dy_spec() && r.dy_spec()
                == self.dx_spec(),
            rotation == Rotation::CounterClockwise ==> r.dx_spec() == self.dy_spec()
                && r.dy_spec() == -self.dx_spec(),
    {
        match (rotation, self) {
            (Rotation::Clockwise, Cardinal::North) => Cardinal::East,
            (Rotation::Clockwise, Cardinal::East) => Cardinal::South,
            (Rotation::Clockwise, Cardinal::South) => Cardinal::West,
            (Rotation::Clockwise, Cardinal::West) => Cardinal::North,
            (Rotation::CounterClockwise, Cardinal::North) => Cardinal::West,
            (Rotation::CounterClockwise, Cardinal::East) => Cardinal::North,
            (Rotation::CounterClockwise, Cardinal::South) => Cardinal::East,
            (Rotation::CounterClockwise, Cardinal::West) => Cardinal::South,
        }
    }

    /// The cardinal direction written with an arrow-like symbol, if any:
    /// `^` is north, `>` is east, `v` or `V` is south, `<` is west.
    pub open spec fn from_symbol_spec(c: char) -> Option<Cardinal> {
        if c == '^' {
            Some(Cardinal::North)
        } else if c == '>' {
            Some(Cardinal::East)
        } else if c == 'v' || c == 'V' {
            Some(Cardinal::South)
        } else if c == '<' {
            Some(Cardinal::West)
        } else {
            None
        }
    }

    /// Reads a cardinal direction from its arrow-like symbol.
    pub fn from_symbol(c: char) -> (r: Option<Cardinal>)
        ensures
            r == Cardinal::from_symbol_spec(c),
    {
        if c == '^' {
            Some(Cardinal::North)
        } else if c == '>' {
            Some(Cardinal::East)
        } else if c == 'v' || c == 'V' {
            Some(Cardinal::South)
        } else if c == '<' {
            Some(Cardinal::West)
        } else {
            None
        }
    }
}

impl Directions for Ordinal {
    open spec fn dx_spec(self) -> int {
        match self {
            Ordinal::NorthEast => 1,
            Ordinal::SouthEast => 1,
            Ordinal::SouthWest => -1,
            Ordinal::NorthWest => -1,
        }
    }

    open spec fn dy_spec(self) -> int {
        match self {
            Ordinal::NorthEast => -1,
            Ordinal::SouthEast => 1,
            Ordinal::SouthWest => 1,
            Ordinal::NorthWest => -1,
        }
    }

    open spec fn all_spec() -> Seq<Self> {
        seq![Ordinal::NorthEast, Ordinal::SouthEast, Ordinal::SouthWest, Ordinal::NorthWest]
    }

    fn vector<T: SignedNumeric>(self) -> (r: (T, T)) {
        match self {
            Ordinal::NorthEast => (T::one(), T::neg_one()),
            Ordinal::SouthEast => (T::one(), T::one()),
            Ordinal::SouthWest => (T::neg_one(), T::one()),
            Ordinal::NorthWest => (T::neg_one(), T::neg_one()),
        }
    }

    fn inverted(self) -> (r: Self) {
        match self {
            Ordinal::NorthEast => Ordinal::SouthWest,
            Ordinal::SouthEast => Ordinal::NorthWest,
            Ordinal::SouthWest => Ordinal::NorthEast,
            Ordinal::NorthWest => Ordinal::SouthEast,
        }
    }

    fn all() -> (r: Vec<Self>) {
        let mut v: Vec<Ordinal> = Vec::new();
        v.push(Ordinal::NorthEast);
        v.push(Ordinal::SouthEast);
        v.push(Ordinal::SouthWest);
        v.push(Ordinal::NorthWest);
        proof {
            assert(v@ =~= Self::all_spec());
        }
        v
    }
}

impl Ordinal {
    /// The direction one quarter turn away.
    pub open spec fn turn_spec(self, rotation: Rotation) -> Self {
        match (rotation, self) {
            (Rotation::Clockwise, Ordinal::NorthEast) => Ordinal::SouthEast,
            (Rotation::Clockwise, Ordinal::SouthEast) => Ordinal::SouthWest,
            (Rotation::Clockwise, Ordinal::SouthWest) => Ordinal::NorthWest,
            (Rotation::Clockwise, Ordinal::NorthWest) => Ordinal::NorthEast,
            (Rotation::CounterClockwise, Ordinal::NorthEast) => Ordinal::NorthWest,
            (Rotation::CounterClockwise, Ordinal::SouthEast) => Ordinal::NorthEast,
            (Rotation::CounterClockwise, Ordinal::SouthWest) => Ordinal::SouthEast,
            (Rotation::CounterClockwise, Ordinal::NorthWest) => Ordinal::SouthWest,
        }
    }

    /// Rotates the direction by 90 degrees; clockwise sends `(dx, dy)`
    /// to `(-dy, dx)` and counter-clockwise sends it to `(dy, -dx)`.
    pub fn turn(self, rotation: Rotation) -> (r: Self)
        ensures
            r == self.turn_spec(rotation),
            rotation == Rotation::Clockwise ==> r.dx_spec() == -self.dy_spec() && r.dy_spec()
                == self.dx_spec(),
            rotation == Rotation::CounterClockwise ==> r.dx_spec() == self.dy_spec()
                && r.dy_spec() == -self.dx_spec(),
    {
        match (rotation, self) {
            (Rotation::Clockwise, Ordinal::NorthEast) => Ordinal::SouthEast,
            (Rotation::Clockwise, Ordinal::SouthEast) => Ordinal::SouthWest,
            (Rotation::Clockwise, Ordinal::SouthWest) => Ordinal::NorthWest,
            (Rotation::Clockwise, Ordinal::NorthWest) => Ordinal::NorthEast,
            (Rotation::CounterClockwise, Ordinal::NorthEast) => Ordinal::NorthWest,
            (Rotation::CounterClockwise, Ordinal::SouthEast) => Ordinal::NorthEast,
            (Rotation::CounterClockwise, Ordinal::SouthWest) => Ordinal::SouthEast,
            (Rotation::CounterClockwise, Ordinal::NorthWest) => Ordinal::SouthWest,
        }
    }
}

impl Directions for Compass {
    open spec fn dx_spec(self) -> int {
        match self {
            Compass::Cardinal(direction) => direction.dx_spec(),
            Compass::Ordinal(direction) => direction.dx_spec(),
        }
    }

    open spec fn dy_spec(self) -> int {
        match self {
            Compass::Cardinal(direction) => direction.dy_spec(),
            Compass::Ordinal(direction) => direction.dy_spec(),
        }
    }

    open spec fn all_spec() -> Seq<Self> {
        seq![
            Compass::Cardinal(Cardinal::North),
            Compass::Ordinal(Ordinal::NorthEast),
            Compass::Cardinal(Cardinal::East),
            Compass::Ordinal(Ordinal::SouthEast),
            Compass::Cardinal(Cardinal::South),
            Compass::Ordinal(Ordinal::SouthWest),
            Compass::Cardinal(Cardinal::West),
            Compass::Ordinal(Ordinal::NorthWest),
        ]
    }

    fn vector<T: SignedNumeric>(self) -> (r: (T, T)) {
        match self {
            Compass::Cardinal(direction) => direction.vector(),
            Compass::Ordinal(direction) => direction.vector(),
        }
    }

    fn inverted(self) -> (r: Self) {
        match self {
            Compass::Cardinal(direction) => Compass::Cardinal(direction.inverted()),
            Compass::Ordinal(direction) => Compass::Ordinal(direction.inverted()),
        }
    }

    fn all() -> (r: Vec<Self>) {
        let mut v: Vec<Compass> = Vec::new();
        v.push(Compass::Cardinal(Cardinal::North));
        v.push(Compass::Ordinal(Ordinal::NorthEast));
        v.push(Compass::Cardinal(Cardinal::East));
        v.push(Compass::Ordinal(Ordinal::SouthEast));
        v.push(Compass::Cardinal(Cardinal::South));
        v.push(Compass::Ordinal(Ordinal::SouthWest));
        v.push(Compass::Cardinal(Cardinal::West));
        v.push(Compass::Ordinal(Ordinal::NorthWest));
        proof {
            assert(v@ =~= Self::all_spec());
        }
        v
    }
}

impl Compass {
    /// The direction one eighth of a full circle away: a quarter turn
    /// within the combined family, which sends every cardinal direction
    /// to an ordinal one and the other way round.
    pub open spec fn turn_spec(self, rotation: Rotation) -> Self {
        match (rotation, self) {
            (Rotation::Clockwise, Compass::Cardinal(Cardinal::North)) => Compass::Ordinal(
                Ordinal::NorthEast,
            ),
            (Rotation::Clockwise, Compass::Ordinal(Ordinal::NorthEast)) => Compass::Cardinal(
                Cardinal::East,
            ),
            (Rotation::Clockwise, Compass::Cardinal(Cardinal::East)) => Compass::Ordinal(
                Ordinal::SouthEast,
            ),
            (Rotation::Clockwise, Compass::Ordinal(Ordinal::SouthEast)) => Compass::Cardinal(
                Cardinal::South,
            ),
            (Rotation::Clockwise, Compass::Cardinal(Cardinal::South)) => Compass::Ordinal(
                Ordinal::SouthWest,
            ),
            (Rotation::Clockwise, Compass::Ordinal(Ordinal::SouthWest)) => Compass::Cardinal(
                Cardinal::West,
            ),
            (Rotation::Clockwise, Compass::Cardinal(Cardinal::West)) => Compass::Ordinal(
                Ordinal::NorthWest,
            ),
            (Rotation::Clockwise, Compass::Ordinal(Ordinal::NorthWest)) => Compass::Cardinal(
                Cardinal::North,
            ),
            (Rotation::CounterClockwise, Compass::Cardinal(Cardinal::North)) => Compass::Ordinal(
                Ordinal::NorthWest,
            ),
            (Rotation::CounterClockwise, Compass::Ordinal(Ordinal::NorthWest)) => Compass::Cardinal(
                Cardinal::West,
            ),
            (Rotation::CounterClockwise, Compass::Cardinal(Cardinal::West)) => Compass::Ordinal(
                Ordinal::SouthWest,
            ),
            (Rotation::CounterClockwise, Compass::Ordinal(Ordinal::SouthWest)) => Compass::Cardinal(
                Cardinal::South,
            ),
            (Rotation::CounterClockwise, Compass::Cardinal(Cardinal::South)) => Compass::Ordinal(
                Ordinal::SouthEast,
            ),
            (Rotation::CounterClockwise, Compass::Ordinal(Ordinal::SouthEast)) => Compass::Cardinal(
                Cardinal::East,
            ),
            (Rotation::CounterClockwise, Compass::Cardinal(Cardinal::East)) => Compass::Ordinal(
                Ordinal::NorthEast,
            ),
            (Rotation::CounterClockwise, Compass::Ordinal(Ordinal::NorthEast)) => Compass::Cardinal(
                Cardinal::North,
            ),
        }
    }

    /// Rotates the direction by 45 degrees in the given sense.
    pub fn turn(self, rotation: Rotation) -> (r: Self)
        ensures
            r == self.turn_spec(rotation),
    {
        match (rotation, self) {
            (Rotation::Clockwise, Compass::Cardinal(Cardinal::North)) => Compass::Ordinal(
                Ordinal::NorthEast,
            ),
            (Rotation::Clockwise, Compass::Ordinal(Ordinal::NorthEast)) => Compass::Cardinal(
                Cardinal::East,
            ),
            (Rotation::Clockwise, Compass::Cardinal(Cardinal::East)) => Compass::Ordinal(
                Ordinal::SouthEast,
            ),
            (Rotation::Clockwise, Compass::Ordinal(Ordinal::SouthEast)) => Compass::Cardinal(
                Cardinal::South,
            ),
            (Rotation::Clockwise, Compass::Cardinal(Cardinal::South)) => Compass::Ordinal(
                Ordinal::SouthWest,
            ),
            (Rotation::Clockwise, Compass::Ordinal(Ordinal::SouthWest)) => Compass::Cardinal(
                Cardinal::West,
            ),
            (Rotation::Clockwise, Compass::Cardinal(Cardinal::West)) => Compass::Ordinal(
                Ordinal::NorthWest,
            ),
            (Rotation::Clockwise, Compass::Ordinal(Ordinal::NorthWest)) => Compass::Cardinal(
                Cardinal::North,
            ),
            (Rotation::CounterClockwise, Compass::Cardinal(Cardinal::North)) => Compass::Ordinal(
                Ordinal::NorthWest,
            ),
            (Rotation::CounterClockwise, Compass::Ordinal(Ordinal::NorthWest)) => Compass::Cardinal(
                Cardinal::West,
            ),
            (Rotation::CounterClockwise, Compass::Cardinal(Cardinal::West)) => Compass::Ordinal(
                Ordinal::SouthWest,
            ),
            (Rotation::CounterClockwise, Compass::Ordinal(Ordinal::SouthWest)) => Compass::Cardinal(
                Cardinal::South,
            ),
            (Rotation::CounterClockwise, Compass::Cardinal(Cardinal::South)) => Compass::Ordinal(
                Ordinal::SouthEast,
            ),
            (Rotation::CounterClockwise, Compass::Ordinal(Ordinal::SouthEast)) => Compass::Cardinal(
                Cardinal::East,
            ),
            (Rotation::CounterClockwise, Compass::Cardinal(Cardinal::East)) => Compass::Ordinal(
                Ordinal::NorthEast,
            ),
            (Rotation::CounterClockwise, Compass::Ordinal(Ordinal::NorthEast)) => Compass::Cardinal(
                Cardinal::North,
            ),
        }
    }
}

impl Rotation {
    /// The opposite sense of rotation.
    pub open spec fn inverted_spec(self) -> Self {
        match self {
            Rotation::Clockwise => Rotation::CounterClockwise,
            Rotation::CounterClockwise => Rotation::Clockwise,
        }
    }

    /// Returns the opposite sense of rotation.
    pub fn inverted(self) -> (r: Self)
        ensures
            r == self.inverted_spec(),
            r != self,
    {
        match self {
            Rotation::Clockwise => Rotation::CounterClockwise,
            Rotation::CounterClockwise => Rotation::Clockwise,
        }
    }
}

/// Turning a cardinal direction one way and then the other returns to
/// the starting direction: the two rotations are mutual inverses.
pub proof fn lemma_cardinal_turn_inverse(d: Cardinal, rotation: Rotation)
    ensures
        d.turn_spec(rotation).turn_spec(rotation.inverted_spec()) == d,
{
}

/// Four quarter turns of a cardinal direction in one sense are the
/// identity: `turn` is a cyclic permutation of order four.
pub proof fn lemma_cardinal_turn_cycle(d: Cardinal, rotation: Rotation)
    ensures
        d.turn_spec(rotation).turn_spec(rotation).turn_spec(rotation).turn_spec(rotation) == d,
{
}

/// Turning an ordinal direction one way and then the other returns to
/// the starting direction: the two rotations are mutual inverses.
pub proof fn lemma_ordinal_turn_inverse(d: Ordinal, rotation: Rotation)
    ensures
        d.turn_spec(rotation).turn_spec(rotation.inverted_spec()) == d,
{
}

/// Four quarter turns of an ordinal direction in one sense are the
/// identity: `turn` is a cyclic permutation of order four.
pub proof fn lemma_ordinal_turn_cycle(d: Ordinal, rotation: Rotation)
    ensures
        d.turn_spec(rotation).turn_spec(rotation).turn_spec(rotation).turn_spec(rotation) == d,
{
}

/// Turning a compass direction one way and then the other returns to
/// the starting direction: the two rotations are mutual inverses.
pub proof fn lemma_compass_turn_inverse(d: Compass, rotation: Rotation)
    ensures
        d.turn_spec(rotation).turn_spec(rotation.inverted_spec()) == d,
{
}

/// Eight eighth turns of a compass direction in one sense are the
/// identity: within the combined family `turn` is a cyclic permutation
/// of order eight, alternating between cardinal and ordinal directions.
pub proof fn lemma_compass_turn_cycle(d: Compass, rotation: Rotation)
    ensures
        d.turn_spec(rotation).turn_spec(rotation).turn_spec(rotation).turn_spec(rotation).turn_spec(
            rotation,
        ).turn_spec(rotation).turn_spec(rotation).turn_spec(rotation) == d,
{
}

} // verus!
