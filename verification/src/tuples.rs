//! Projection helpers for pairs.

use vstd::prelude::*;

verus! {

/// Returns the first element of a tuple.
pub fn fst<T, U>(pair: (T, U)) -> (r: T)
    ensures
        r == pair.0,
{
    pair.0
}

/// Returns the second element of a tuple.
pub fn snd<T, U>(pair: (T, U)) -> (r: U)
    ensures
        r == pair.1,
{
    pair.1
}

/// Swaps the two elements of a tuple.
pub fn swap<T, U>(pair: (T, U)) -> (r: (U, T))
    ensures
        r.0 == pair.1,
        r.1 == pair.0,
{
    (pair.1, pair.0)
}

/// Trait for retrieving the first element of a tuple.
pub trait Fst: Sized {
    type Output;

    /// The first element.
    spec fn fst_spec(self) -> Self::Output;

    /// Returns the first element of a tuple.
    fn fst(self) -> (r: Self::Output)
        ensures
            r == self.fst_spec(),
    ;
}

/// Trait for retrieving the second element of a tuple.
pub trait Snd: Sized {
    type Output;

    /// The second element.
    spec fn snd_spec(self) -> Self::Output;

    /// Returns the second element of a tuple.
    fn snd(self) -> (r: Self::Output)
        ensures
            r == self.snd_spec(),
    ;
}

/// Trait for swapping the two elements of a tuple.
pub trait Swap: Sized {
    type Output;

    /// The swapped tuple.
    spec fn swap_spec(self) -> Self::Output;

    /// Swaps the two elements of a tuple.
    fn swap(self) -> (r: Self::Output)
        ensures
            r == self.swap_spec(),
    ;
}

impl<T, U> Fst for (T, U) {
    type Output = T;

    open spec fn fst_spec(self) -> T {
        self.0
    }

    fn fst(self) -> (r: T) {
        self.0
    }
}

impl<T, U> Snd for (T, U) {
    type Output = U;

    open spec fn snd_spec(self) -> U {
        self.1
    }

    fn snd(self) -> (r: U) {
        self.1
    }
}

impl<T, U> Swap for (T, U) {
    type Output = (U, T);

    open spec fn swap_spec(self) -> (U, T) {
        (self.1, self.0)
    }

    fn swap(self) -> (r: (U, T)) {
        (self.1, self.0)
    }
}

} // verus!
