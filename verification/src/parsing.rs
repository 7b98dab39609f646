//! Diagnostics shared with the parsing front-end.
//!
//! Turning text into domain values is the business of an outer parsing
//! layer; the library only supplies the error value that layer reports
//! and, on the individual types, the small decision tables a parser
//! needs (such as reading a cardinal direction from its symbol).

use vstd::prelude::*;

verus! {

/// A human-readable description of a failed parse.
#[derive(Debug)]
pub struct ParsingError(String);

impl ParsingError {
    /// The diagnostic text carried.
    pub closed spec fn text(self) -> Seq<char> {
        self.0@
    }

    /// Wraps a diagnostic message.
    pub fn new(message: String) -> (r: Self)
        ensures
            r.text() == message@,
    {
        ParsingError(message)
    }

    /// The diagnostic message.
    pub fn message(&self) -> (r: &String)
        ensures
            r@ == self.text(),
    {
        &self.0
    }
}

} // verus!
