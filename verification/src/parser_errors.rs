//! Lexical error kinds reported by the recognizers.

use vstd::prelude::*;

verus! {

/// Why a piece of text was rejected by a recognizer.
#[derive(Debug, Copy, Clone, PartialEq, Eq, Structural)]
pub enum InternalParserError {
    /// An exponent marker and sign with no digit after them (`e+_`, `E-`).
    InvalidFloatExponent,
    /// The folded value does not fit the width named by the suffix.
    LiteralOverflow,
    /// A character that is not a digit of the literal's radix.
    InvalidDigitForRadix,
    /// The text is not a lexeme of the family that was asked for.
    UnrecognizedLexeme,
    /// A line comment holding a newline, or a block comment that is not closed.
    MalformedComment,
}

impl InternalParserError {
    /// A short description of the error, for diagnostics.
    pub fn message(&self) -> (text: &'static str)
        ensures
            text@ == self.description(),
    {
        match self {
            InternalParserError::InvalidFloatExponent => "float exponent has no digit",
            InternalParserError::LiteralOverflow => "literal does not fit its suffix type",
            InternalParserError::InvalidDigitForRadix => "digit is not valid for the radix",
            InternalParserError::UnrecognizedLexeme => "unrecognized lexeme",
            InternalParserError::MalformedComment => "malformed comment",
        }
    }

    /// The text that `message` returns.
    pub open spec fn description(&self) -> Seq<char> {
        match self {
            InternalParserError::InvalidFloatExponent => "float exponent has no digit"@,
            InternalParserError::LiteralOverflow => "literal does not fit its suffix type"@,
            InternalParserError::InvalidDigitForRadix => "digit is not valid for the radix"@,
            InternalParserError::UnrecognizedLexeme => "unrecognized lexeme"@,
            InternalParserError::MalformedComment => "malformed comment"@,
        }
    }
}

} // verus!
