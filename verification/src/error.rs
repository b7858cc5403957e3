//! Why a byte buffer was rejected.

use vstd::prelude::*;

verus! {

/// The ways in which decoding a header can fail.
#[derive(Debug, Clone, Copy, PartialEq, Eq, Structural)]
pub enum DecodeError {
    /// The buffer is shorter than the fixed part of the header.
    TooShort,
    /// The header declares a length of fewer than five 32-bit words.
    InvalidHeaderLength,
    /// The buffer holds the fixed part, but not all of the declared options.
    TooShortForOptions,
}

impl DecodeError {
    /// The text that describes this error.
    pub open spec fn text(self) -> Seq<char> {
        match self {
            DecodeError::TooShort => "Data too short for IPv4 header"@,
            DecodeError::InvalidHeaderLength => "Invalid IPv4 header length"@,
            DecodeError::TooShortForOptions => "Data too short for IPv4 header options"@,
        }
    }

    /// A short description of the error, for a person to read.
    pub fn message(&self) -> (s: &'static str)
        ensures
            s@ == self.text(),
    {
        match self {
            DecodeError::TooShort => "Data too short for IPv4 header",
            DecodeError::InvalidHeaderLength => "Invalid IPv4 header length",
            DecodeError::TooShortForOptions => "Data too short for IPv4 header options",
        }
    }
}

} // verus!
