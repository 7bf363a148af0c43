//! What can be wrong with the input that this crate is handed.

use vstd::prelude::*;

verus! {

/// Why a text is no date or timestamp.
#[derive(Clone, Copy, Debug, PartialEq, Eq, Structural)]
pub enum ParseError {
    /// The text does not have the digits and separators of the format.
    Malformed,
    /// The text has the format, but the calendar or the clock has no such
    /// day or time.
    OutOfRange,
}

impl ParseError {
    /// What to tell the operator.
    pub open spec fn message_text(self) -> Seq<char> {
        match self {
            ParseError::Malformed => "input does not match the expected format"@,
            ParseError::OutOfRange => "input is out of range"@,
        }
    }

    /// What to tell the operator.
    pub fn message(&self) -> (text: &'static str)
        ensures
            text@ == self.message_text(),
    {
        match self {
            ParseError::Malformed => "input does not match the expected format",
            ParseError::OutOfRange => "input is out of range",
        }
    }
}

} // verus!
