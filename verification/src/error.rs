//! The one way in which making an identifier fails.

use vstd::prelude::*;
use vstd::string::StringExecFns;

verus! {

/// Why a text or a buffer was not taken as an identifier.
#[derive(Clone, Copy, Debug, PartialEq, Eq, Structural)]
pub enum InvalidFormat {
    /// The text does not hold 32 characters besides its dashes.
    HexLength,
    /// One of the 32 characters is no hexadecimal digit.
    HexDigit,
    /// The buffer does not hold 16 bytes.
    BytesLength,
    /// Neither a text nor a buffer was given.
    Missing,
}

impl InvalidFormat {
    /// The message that goes with each cause.
    pub open spec fn message_text(self) -> Seq<char> {
        match self {
            InvalidFormat::HexLength => "Invalid hex length"@,
            InvalidFormat::HexDigit => "Invalid hex"@,
            InvalidFormat::BytesLength => "Invalid bytes length"@,
            InvalidFormat::Missing => "Either hex or bytes required"@,
        }
    }

    /// A description of the cause for the caller to show.
    pub fn message(&self) -> (m: String)
        ensures
            m@ == self.message_text(),
    {
        match self {
            InvalidFormat::HexLength => String::from_str("Invalid hex length"),
            InvalidFormat::HexDigit => String::from_str("Invalid hex"),
            InvalidFormat::BytesLength => String::from_str("Invalid bytes length"),
            InvalidFormat::Missing => String::from_str("Either hex or bytes required"),
        }
    }
}

} // verus!
