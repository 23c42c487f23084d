//! The error taxonomy. Every failure of the calculator is one of these
//! values; all of them are returned, never panicked, and each carries a
//! fixed message that callers are expected to surface.

use crate::text::decimal_digits;
use crate::text::u32_to_decimal;
use vstd::prelude::*;

verus! {

/// Why a calculation or a guild lookup failed.
#[derive(Clone, Copy, Debug, PartialEq, Eq, Structural)]
pub enum SectionIdError {
    /// The name was empty.
    EmptyName,
    /// The name had more than twelve characters.
    NameTooLong,
    /// The legacy dialect was handed a name with a character outside ASCII.
    NonAsciiCharacter,
    /// The modern dialect met a character with no substitution value; the
    /// payload is the first such character.
    UnsupportedCharacter(char),
    /// The modern dialect was invoked without the character class its
    /// calling convention requires.
    MissingClass,
    /// A guild lookup was handed a key outside 0-9; the payload is that
    /// key. Unreachable through the hash functions, which always emit a
    /// digit below ten.
    InvalidKey(u32),
}

impl SectionIdError {
    /// The text of this error's message.
    pub open spec fn spec_message(self) -> Seq<char> {
        match self {
            SectionIdError::EmptyName => "Name cannot be empty"@,
            SectionIdError::NameTooLong => "Name must be at most 12 characters long"@,
            SectionIdError::NonAsciiCharacter => "Name must contain only ASCII characters"@,
            SectionIdError::UnsupportedCharacter(_) => "Name contains an unsupported character"@,
            SectionIdError::MissingClass => "A character class is required for the modern dialect"@,
            SectionIdError::InvalidKey(key) => "Invalid section ID: "@ + decimal_digits(
                key as nat,
            ),
        }
    }

    /// Renders the message a caller surfaces for this error.
    pub fn message(&self) -> (r: String)
        ensures
            r@ == self.spec_message(),
    {
        match *self {
            SectionIdError::EmptyName => "Name cannot be empty".to_owned(),
            SectionIdError::NameTooLong => "Name must be at most 12 characters long".to_owned(),
            SectionIdError::NonAsciiCharacter => "Name must contain only ASCII characters".to_owned(),
            SectionIdError::UnsupportedCharacter(_) => "Name contains an unsupported character".to_owned(),
            SectionIdError::MissingClass => "A character class is required for the modern dialect".to_owned(),
            SectionIdError::InvalidKey(key) => {
                let mut r = "Invalid section ID: ".to_owned();
                let rendered = u32_to_decimal(key);
                r.append(rendered.as_str());
                r
            },
        }
    }
}

} // verus!
