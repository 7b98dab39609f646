//! Errors shared by puzzle solvers built on this crate.

use vstd::prelude::*;
use vstd::string::StringExecFns;

verus! {

/// An error for when a puzzle has no valid solutions for a given input.
#[derive(Debug, Clone, Copy, PartialEq, Eq)]
pub struct NoSolution;

/// An error for when the solution to the puzzle is ambiguous.
#[derive(Debug, Clone, Copy, PartialEq, Eq)]
pub struct MultipleSolutions;

/// An error for when the input to a puzzle is empty.
#[derive(Debug, Clone, Copy, PartialEq, Eq)]
pub struct NoInput;

impl NoSolution {
    /// The human-readable description of the error.
    pub fn message(&self) -> (r: String)
        ensures
            r@ == "The puzzle has no valid solution for the given input"@,
    {
        String::from_str("The puzzle has no valid solution for the given input")
    }
}

impl MultipleSolutions {
    /// The human-readable description of the error.
    pub fn message(&self) -> (r: String)
        ensures
            r@ == "Multiple valid solutions possible, the answer is ambiguous"@,
    {
        String::from_str("Multiple valid solutions possible, the answer is ambiguous")
    }
}

impl NoInput {
    /// The human-readable description of the error.
    pub fn message(&self) -> (r: String)
        ensures
            r@ == "The puzzle input is empty"@,
    {
        String::from_str("The puzzle input is empty")
    }
}

} // verus!
