//! Integer literals: an optional radix prefix, digits and separators, and a
//! suffix that names the width.
//!
//! After a radix prefix the digits may begin with a separator and may be
//! separators alone (`0x_____` is zero). Without a prefix the literal begins
//! with a decimal digit: `_1` is a name, not a number.

use vstd::prelude::*;
use vstd::slice::slice_subrange;
use vstd::string::StrSliceExecFns;
use crate::ast::{Integer, IntegerSuffix};
use crate::digits::{
    all_digits_or_underscores,
    digit_of,
    fold_digits,
    folded,
    is_digit,
    is_digit_or_underscore,
    Radix,
};
use crate::parser_errors::InternalParserError;
use crate::text::{ends_with, has_suffix, lemma_differs_at_end, spells, to_chars};

verus! {

impl Radix {
    /// The prefix in lower case; decimal has none.
    pub open spec fn prefix(self) -> Seq<char> {
        match self {
            Radix::Binary => "0b"@,
            Radix::Octal => "0o"@,
            Radix::Decimal => ""@,
            Radix::Hexadecimal => "0x"@,
        }
    }

    /// The prefix in upper case; decimal has none.
    pub open spec fn prefix_upper(self) -> Seq<char> {
        match self {
            Radix::Binary => "0B"@,
            Radix::Octal => "0O"@,
            Radix::Decimal => ""@,
            Radix::Hexadecimal => "0X"@,
        }
    }

    /// The number of characters of the prefix.
    pub open spec fn prefix_len(self) -> int {
        if self == Radix::Decimal {
            0
        } else {
            2
        }
    }
}

impl IntegerSuffix {
    /// How the suffix is written.
    pub open spec fn spelling(self) -> Seq<char> {
        match self {
            IntegerSuffix::U8 => "u8"@,
            IntegerSuffix::U16 => "u16"@,
            IntegerSuffix::U32 => "u32"@,
            IntegerSuffix::U64 => "u64"@,
            IntegerSuffix::U128 => "u128"@,
            IntegerSuffix::USize => "usize"@,
            IntegerSuffix::I8 => "i8"@,
            IntegerSuffix::I16 => "i16"@,
            IntegerSuffix::I32 => "i32"@,
            IntegerSuffix::I64 => "i64"@,
            IntegerSuffix::I128 => "i128"@,
            IntegerSuffix::ISize => "isize"@,
        }
    }

    /// The largest number of the width.
    pub open spec fn max(self) -> int {
        match self {
            IntegerSuffix::U8 => u8::MAX as int,
            IntegerSuffix::U16 => u16::MAX as int,
            IntegerSuffix::U32 => u32::MAX as int,
            IntegerSuffix::U64 => u64::MAX as int,
            IntegerSuffix::U128 => u128::MAX as int,
            IntegerSuffix::USize => usize::MAX as int,
            IntegerSuffix::I8 => i8::MAX as int,
            IntegerSuffix::I16 => i16::MAX as int,
            IntegerSuffix::I32 => i32::MAX as int,
            IntegerSuffix::I64 => i64::MAX as int,
            IntegerSuffix::I128 => i128::MAX as int,
            IntegerSuffix::ISize => isize::MAX as int,
        }
    }

    /// The integer of this width that holds `magnitude`.
    pub open spec fn typed(self, magnitude: int) -> Integer {
        match self {
            IntegerSuffix::U8 => Integer::U8 { n: magnitude as u8 },
            IntegerSuffix::U16 => Integer::U16 { n: magnitude as u16 },
            IntegerSuffix::U32 => Integer::U32 { n: magnitude as u32 },
            IntegerSuffix::U64 => Integer::U64 { n: magnitude as u64 },
            IntegerSuffix::U128 => Integer::U128 { n: magnitude as u128 },
            IntegerSuffix::USize => Integer::USize { n: magnitude as usize },
            IntegerSuffix::I8 => Integer::I8 { n: magnitude as i8 },
            IntegerSuffix::I16 => Integer::I16 { n: magnitude as i16 },
            IntegerSuffix::I32 => Integer::I32 { n: magnitude as i32 },
            IntegerSuffix::I64 => Integer::I64 { n: magnitude as i64 },
            IntegerSuffix::I128 => Integer::I128 { n: magnitude as i128 },
            IntegerSuffix::ISize => Integer::ISize { n: magnitude as isize },
        }
    }

    /// How the suffix is written.
    pub fn lexeme(self) -> (word: &'static str)
        ensures
            word@ == self.spelling(),
    {
        match self {
            IntegerSuffix::U8 => "u8",
            IntegerSuffix::U16 => "u16",
            IntegerSuffix::U32 => "u32",
            IntegerSuffix::U64 => "u64",
            IntegerSuffix::U128 => "u128",
            IntegerSuffix::USize => "usize",
            IntegerSuffix::I8 => "i8",
            IntegerSuffix::I16 => "i16",
            IntegerSuffix::I32 => "i32",
            IntegerSuffix::I64 => "i64",
            IntegerSuffix::I128 => "i128",
            IntegerSuffix::ISize => "isize",
        }
    }
}

/// An integer literal before its width is applied: the number that the digits
/// denote, and the suffix that was read.
#[derive(Clone, Copy, Debug, PartialEq, Eq, Structural)]
pub struct UntypedInteger {
    pub magnitude: u128,
    pub suffix: IntegerSuffix,
}

/// The suffix that `text` is, if it is one.
pub open spec fn integer_suffix_named(text: Seq<char>) -> Option<IntegerSuffix> {
    if text == "u8"@ {
        Some(IntegerSuffix::U8)
    } else if text == "u16"@ {
        Some(IntegerSuffix::U16)
    } else if text == "u32"@ {
        Some(IntegerSuffix::U32)
    } else if text == "u64"@ {
        Some(IntegerSuffix::U64)
    } else if text == "u128"@ {
        Some(IntegerSuffix::U128)
    } else if text == "usize"@ {
        Some(IntegerSuffix::USize)
    } else if text == "i8"@ {
        Some(IntegerSuffix::I8)
    } else if text == "i16"@ {
        Some(IntegerSuffix::I16)
    } else if text == "i32"@ {
        Some(IntegerSuffix::I32)
    } else if text == "i64"@ {
        Some(IntegerSuffix::I64)
    } else if text == "i128"@ {
        Some(IntegerSuffix::I128)
    } else if text == "isize"@ {
        Some(IntegerSuffix::ISize)
    } else {
        None
    }
}

/// The suffix that `text` ends with, if it ends with one.
pub open spec fn integer_suffix_of(text: Seq<char>) -> Option<IntegerSuffix> {
    if ends_with(text, "u8"@) {
        Some(IntegerSuffix::U8)
    } else if ends_with(text, "u16"@) {
        Some(IntegerSuffix::U16)
    } else if ends_with(text, "u32"@) {
        Some(IntegerSuffix::U32)
    } else if ends_with(text, "u64"@) {
        Some(IntegerSuffix::U64)
    } else if ends_with(text, "u128"@) {
        Some(IntegerSuffix::U128)
    } else if ends_with(text, "usize"@) {
        Some(IntegerSuffix::USize)
    } else if ends_with(text, "i8"@) {
        Some(IntegerSuffix::I8)
    } else if ends_with(text, "i16"@) {
        Some(IntegerSuffix::I16)
    } else if ends_with(text, "i32"@) {
        Some(IntegerSuffix::I32)
    } else if ends_with(text, "i64"@) {
        Some(IntegerSuffix::I64)
    } else if ends_with(text, "i128"@) {
        Some(IntegerSuffix::I128)
    } else if ends_with(text, "isize"@) {
        Some(IntegerSuffix::ISize)
    } else {
        None
    }
}

/// The radix that the first two characters of `text` announce; decimal where
/// they announce none.
pub open spec fn radix_of(text: Seq<char>) -> Radix {
    if text.len() >= 2 && text[0] == '0' {
        if text[1] == 'b' || text[1] == 'B' {
            Radix::Binary
        } else if text[1] == 'o' || text[1] == 'O' {
            Radix::Octal
        } else if text[1] == 'x' || text[1] == 'X' {
            Radix::Hexadecimal
        } else {
            Radix::Decimal
        }
    } else {
        Radix::Decimal
    }
}

/// The number that a literal without suffix denotes in the given radix. The
/// text must carry the prefix of the radix and at least one digit or
/// separator after it; a decimal literal must begin with a digit.
pub open spec fn radix_literal(text: Seq<char>, radix: Radix) -> Result<
    u128,
    InternalParserError,
> {
    let body = text.skip(radix.prefix_len());
    if radix_of(text) != radix || body.len() == 0 {
        Err(InternalParserError::UnrecognizedLexeme)
    } else if radix == Radix::Decimal && !is_digit(Radix::Decimal, body[0]) {
        Err(InternalParserError::UnrecognizedLexeme)
    } else {
        folded(body, radix)
    }
}

/// The parts of an integer literal: the text must end with a suffix, and what
/// stands before the suffix must be a literal of the radix that it announces.
pub open spec fn untyped_integer_literal(text: Seq<char>) -> Result<
    UntypedInteger,
    InternalParserError,
> {
    match integer_suffix_of(text) {
        None => Err(InternalParserError::UnrecognizedLexeme),
        Some(suffix) => {
            let stem = text.take(text.len() - suffix.spelling().len());
            match radix_literal(stem, radix_of(stem)) {
                Ok(magnitude) => Ok(UntypedInteger { magnitude, suffix }),
                Err(e) => Err(e),
            }
        },
    }
}

/// The integer of the suffix's width, where the magnitude fits it.
pub open spec fn with_suffix(literal: UntypedInteger) -> Result<Integer, InternalParserError> {
    if literal.magnitude <= literal.suffix.max() {
        Ok(literal.suffix.typed(literal.magnitude as int))
    } else {
        Err(InternalParserError::LiteralOverflow)
    }
}

/// The typed value of an integer literal.
pub open spec fn integer_literal(text: Seq<char>) -> Result<Integer, InternalParserError> {
    match untyped_integer_literal(text) {
        Ok(literal) => with_suffix(literal),
        Err(e) => Err(e),
    }
}

/// The radix that the first two characters announce.
fn radix_at(chars: &[char]) -> (radix: Radix)
    ensures
        radix == radix_of(chars@),
{
    if chars.len() >= 2 && chars[0] == '0' {
        let c = chars[1];
        if c == 'b' || c == 'B' {
            Radix::Binary
        } else if c == 'o' || c == 'O' {
            Radix::Octal
        } else if c == 'x' || c == 'X' {
            Radix::Hexadecimal
        } else {
            Radix::Decimal
        }
    } else {
        Radix::Decimal
    }
}

/// Folds a literal of the given radix, without suffix.
fn radix_literal_value(chars: &[char], radix: Radix) -> (r: Result<u128, InternalParserError>)
    ensures
        r == radix_literal(chars@, radix),
{
    let found = radix_at(chars);
    if found != radix {
        return Err(InternalParserError::UnrecognizedLexeme);
    }
    let start: usize = match radix {
        Radix::Decimal => 0,
        _ => 2,
    };
    if chars.len() <= start {
        return Err(InternalParserError::UnrecognizedLexeme);
    }
    let body = slice_subrange(chars, start, chars.len());
    assert(body@ =~= chars@.skip(start as int));
    if start == 0 && digit_of(Radix::Decimal, body[0]).is_none() {
        return Err(InternalParserError::UnrecognizedLexeme);
    }
    fold_digits(body, radix)
}

/// The suffix that the characters end with.
fn integer_suffix_at_end(chars: &[char]) -> (suffix: Option<IntegerSuffix>)
    ensures
        suffix == integer_suffix_of(chars@),
{
    if has_suffix(chars, "u8") {
        Some(IntegerSuffix::U8)
    } else if has_suffix(chars, "u16") {
        Some(IntegerSuffix::U16)
    } else if has_suffix(chars, "u32") {
        Some(IntegerSuffix::U32)
    } else if has_suffix(chars, "u64") {
        Some(IntegerSuffix::U64)
    } else if has_suffix(chars, "u128") {
        Some(IntegerSuffix::U128)
    } else if has_suffix(chars, "usize") {
        Some(IntegerSuffix::USize)
    } else if has_suffix(chars, "i8") {
        Some(IntegerSuffix::I8)
    } else if has_suffix(chars, "i16") {
        Some(IntegerSuffix::I16)
    } else if has_suffix(chars, "i32") {
        Some(IntegerSuffix::I32)
    } else if has_suffix(chars, "i64") {
        Some(IntegerSuffix::I64)
    } else if has_suffix(chars, "i128") {
        Some(IntegerSuffix::I128)
    } else if has_suffix(chars, "isize") {
        Some(IntegerSuffix::ISize)
    } else {
        None
    }
}

/// Recognizes the prefix of a radix, in either case.
pub fn parse_radix_prefix(text: &str) -> (r: Result<Radix, InternalParserError>)
    ensures
        match r {
            Ok(radix) => radix != Radix::Decimal && (text@ == radix.prefix() || text@
                == radix.prefix_upper()),
            Err(e) => e == InternalParserError::UnrecognizedLexeme && forall|radix: Radix|
                radix != Radix::Decimal ==> text@ != #[trigger] radix.prefix() && text@
                    != radix.prefix_upper(),
        },
{
    let chars = to_chars(text);
    if spells(chars.as_slice(), "0b") || spells(chars.as_slice(), "0B") {
        Ok(Radix::Binary)
    } else if spells(chars.as_slice(), "0o") || spells(chars.as_slice(), "0O") {
        Ok(Radix::Octal)
    } else if spells(chars.as_slice(), "0x") || spells(chars.as_slice(), "0X") {
        Ok(Radix::Hexadecimal)
    } else {
        Err(InternalParserError::UnrecognizedLexeme)
    }
}

/// Recognizes an integer suffix standing alone.
pub fn parse_integer_suffix(text: &str) -> (r: Result<IntegerSuffix, InternalParserError>)
    ensures
        match r {
            Ok(suffix) => integer_suffix_named(text@) == Some(suffix),
            Err(e) => e == InternalParserError::UnrecognizedLexeme && integer_suffix_named(text@)
                is None,
        },
{
    let chars = to_chars(text);
    let s = chars.as_slice();
    if spells(s, "u8") {
        Ok(IntegerSuffix::U8)
    } else if spells(s, "u16") {
        Ok(IntegerSuffix::U16)
    } else if spells(s, "u32") {
        Ok(IntegerSuffix::U32)
    } else if spells(s, "u64") {
        Ok(IntegerSuffix::U64)
    } else if spells(s, "u128") {
        Ok(IntegerSuffix::U128)
    } else if spells(s, "usize") {
        Ok(IntegerSuffix::USize)
    } else if spells(s, "i8") {
        Ok(IntegerSuffix::I8)
    } else if spells(s, "i16") {
        Ok(IntegerSuffix::I16)
    } else if spells(s, "i32") {
        Ok(IntegerSuffix::I32)
    } else if spells(s, "i64") {
        Ok(IntegerSuffix::I64)
    } else if spells(s, "i128") {
        Ok(IntegerSuffix::I128)
    } else if spells(s, "isize") {
        Ok(IntegerSuffix::ISize)
    } else {
        Err(InternalParserError::UnrecognizedLexeme)
    }
}

/// Recognizes a single digit of the radix.
pub fn parse_digit(radix: Radix, text: &str) -> (r: Result<char, InternalParserError>)
    ensures
        match r {
            Ok(c) => text@ == seq![c] && is_digit(radix, c),
            Err(e) => if text@.len() == 1 {
                e == InternalParserError::InvalidDigitForRadix && !is_digit(radix, text@[0])
            } else {
                e == InternalParserError::UnrecognizedLexeme
            },
        },
{
    let chars = to_chars(text);
    if chars.len() != 1 {
        return Err(InternalParserError::UnrecognizedLexeme);
    }
    let c = chars[0];
    if digit_of(radix, c).is_some() {
        assert(text@ =~= seq![c]);
        Ok(c)
    } else {
        Err(InternalParserError::InvalidDigitForRadix)
    }
}

/// Recognizes a single digit of the radix or a separator.
pub fn parse_digit_or_underscore(radix: Radix, text: &str) -> (r: Result<
    char,
    InternalParserError,
>)
    ensures
        match r {
            Ok(c) => text@ == seq![c] && is_digit_or_underscore(radix, c),
            Err(e) => if text@.len() == 1 {
                e == InternalParserError::InvalidDigitForRadix && !is_digit_or_underscore(
                    radix,
                    text@[0],
                )
            } else {
                e == InternalParserError::UnrecognizedLexeme
            },
        },
{
    let chars = to_chars(text);
    if chars.len() != 1 {
        return Err(InternalParserError::UnrecognizedLexeme);
    }
    let c = chars[0];
    if c == '_' || digit_of(radix, c).is_some() {
        assert(text@ =~= seq![c]);
        Ok(c)
    } else {
        Err(InternalParserError::InvalidDigitForRadix)
    }
}

/// Reads a literal of the given radix, without suffix, and folds it.
pub fn parse_radix_literal(radix: Radix, text: &str) -> (r: Result<u128, InternalParserError>)
    ensures
        r == radix_literal(text@, radix),
{
    let chars = to_chars(text);
    radix_literal_value(chars.as_slice(), radix)
}

/// Reads an integer literal and folds its digits, leaving the range check of
/// the suffix to `apply_integer_suffix`.
pub fn fold_integer_literal(text: &str) -> (r: Result<UntypedInteger, InternalParserError>)
    ensures
        r == untyped_integer_literal(text@),
{
    let chars = to_chars(text);
    let suffix = match integer_suffix_at_end(chars.as_slice()) {
        Some(suffix) => suffix,
        None => {
            return Err(InternalParserError::UnrecognizedLexeme);
        },
    };
    let n = suffix.lexeme().unicode_len();
    let stem = slice_subrange(chars.as_slice(), 0, chars.len() - n);
    assert(stem@ =~= text@.take(text@.len() - suffix.spelling().len()));
    let radix = radix_at(stem);
    match radix_literal_value(stem, radix) {
        Ok(magnitude) => Ok(UntypedInteger { magnitude, suffix }),
        Err(e) => Err(e),
    }
}

/// Checks the folded magnitude against the width that the suffix names.
pub fn apply_integer_suffix(literal: UntypedInteger) -> (r: Result<Integer, InternalParserError>)
    ensures
        r == with_suffix(literal),
        r matches Ok(i) ==> i.value() == literal.magnitude && i.suffix() == literal.suffix,
{
    let m = literal.magnitude;
    match literal.suffix {
        IntegerSuffix::U8 => if m <= u8::MAX as u128 {
            Ok(Integer::U8 { n: m as u8 })
        } else {
            Err(InternalParserError::LiteralOverflow)
        },
        IntegerSuffix::U16 => if m <= u16::MAX as u128 {
            Ok(Integer::U16 { n: m as u16 })
        } else {
            Err(InternalParserError::LiteralOverflow)
        },
        IntegerSuffix::U32 => if m <= u32::MAX as u128 {
            Ok(Integer::U32 { n: m as u32 })
        } else {
            Err(InternalParserError::LiteralOverflow)
        },
        IntegerSuffix::U64 => if m <= u64::MAX as u128 {
            Ok(Integer::U64 { n: m as u64 })
        } else {
            Err(InternalParserError::LiteralOverflow)
        },
        IntegerSuffix::U128 => Ok(Integer::U128 { n: m }),
        IntegerSuffix::USize => if m <= usize::MAX as u128 {
            Ok(Integer::USize { n: m as usize })
        } else {
            Err(InternalParserError::LiteralOverflow)
        },
        IntegerSuffix::I8 => if m <= i8::MAX as u128 {
            Ok(Integer::I8 { n: m as i8 })
        } else {
            Err(InternalParserError::LiteralOverflow)
        },
        IntegerSuffix::I16 => if m <= i16::MAX as u128 {
            Ok(Integer::I16 { n: m as i16 })
        } else {
            Err(InternalParserError::LiteralOverflow)
        },
        IntegerSuffix::I32 => if m <= i32::MAX as u128 {
            Ok(Integer::I32 { n: m as i32 })
        } else {
            Err(InternalParserError::LiteralOverflow)
        },
        IntegerSuffix::I64 => if m <= i64::MAX as u128 {
            Ok(Integer::I64 { n: m as i64 })
        } else {
            Err(InternalParserError::LiteralOverflow)
        },
        IntegerSuffix::I128 => if m <= i128::MAX as u128 {
            Ok(Integer::I128 { n: m as i128 })
        } else {
            Err(InternalParserError::LiteralOverflow)
        },
        IntegerSuffix::ISize => if m <= isize::MAX as u128 {
            Ok(Integer::ISize { n: m as isize })
        } else {
            Err(InternalParserError::LiteralOverflow)
        },
    }
}

/// Reads an integer literal: prefix, digits and separators, suffix. The value
/// is folded first and then held against the width that the suffix names.
pub fn parse_integer_literal(text: &str) -> (r: Result<Integer, InternalParserError>)
    ensures
        r == integer_literal(text@),
{
    match fold_integer_literal(text) {
        Ok(literal) => apply_integer_suffix(literal),
        Err(e) => Err(e),
    }
}

/// The suffix determines the width. A literal that is read has the width of
/// the suffix that its text ends with and holds the number that its digits
/// denote, which fits that width. A literal is refused for overflow exactly
/// where the digits are well-formed and denote a number beyond the width.
pub proof fn lemma_suffix_determines_width(text: Seq<char>)
    ensures
        match integer_literal(text) {
            Ok(i) => {
                &&& integer_suffix_of(text) == Some(i.suffix())
                &&& untyped_integer_literal(text) == Ok::<UntypedInteger, InternalParserError>(
                    UntypedInteger { magnitude: i.value() as u128, suffix: i.suffix() },
                )
                &&& 0 <= i.value() <= i.suffix().max()
            },
            Err(e) => e == InternalParserError::LiteralOverflow <==> {
                ||| untyped_integer_literal(text) == Err::<UntypedInteger, InternalParserError>(
                    InternalParserError::LiteralOverflow,
                )
                ||| untyped_integer_literal(text) matches Ok(literal) && literal.magnitude
                    > literal.suffix.max()
            },
        },
{
}

/// A text made of anything and then a suffix ends with that suffix and with
/// no other.
pub proof fn lemma_suffix_at_end(stem: Seq<char>, suffix: IntegerSuffix)
    ensures
        integer_suffix_of(stem + suffix.spelling()) == Some(suffix),
{
    reveal_strlit("u8");
    reveal_strlit("u16");
    reveal_strlit("u32");
    reveal_strlit("u64");
    reveal_strlit("u128");
    reveal_strlit("usize");
    reveal_strlit("i8");
    reveal_strlit("i16");
    reveal_strlit("i32");
    reveal_strlit("i64");
    reveal_strlit("i128");
    reveal_strlit("isize");
    let word = suffix.spelling();
    let text = stem + word;
    let n = text.len() as int;
    assert(text.subrange(n - word.len(), n) =~= word);
    assert(ends_with(text, word));
    match suffix {
        IntegerSuffix::U8 => {
            assert(text[n - 1] == '8');
            assert(text[n - 2] == 'u');
        },
        IntegerSuffix::U16 => {
            assert(text[n - 1] == '6');
            assert(text[n - 2] == '1');
            assert(text[n - 3] == 'u');
            lemma_differs_at_end(text, "u8"@, 1);
        },
        IntegerSuffix::U32 => {
            assert(text[n - 1] == '2');
            assert(text[n - 2] == '3');
            assert(text[n - 3] == 'u');
            lemma_differs_at_end(text, "u8"@, 1);
            lemma_differs_at_end(text, "u16"@, 1);
        },
        IntegerSuffix::U64 => {
            assert(text[n - 1] == '4');
            assert(text[n - 2] == '6');
            assert(text[n - 3] == 'u');
            lemma_differs_at_end(text, "u8"@, 1);
            lemma_differs_at_end(text, "u16"@, 1);
            lemma_differs_at_end(text, "u32"@, 1);
        },
        IntegerSuffix::U128 => {
            assert(text[n - 1] == '8');
            assert(text[n - 2] == '2');
            assert(text[n - 3] == '1');
            assert(text[n - 4] == 'u');
            lemma_differs_at_end(text, "u8"@, 2);
            lemma_differs_at_end(text, "u16"@, 1);
            lemma_differs_at_end(text, "u32"@, 1);
            lemma_differs_at_end(text, "u64"@, 1);
        },
        IntegerSuffix::USize => {
            assert(text[n - 1] == 'e');
            assert(text[n - 2] == 'z');
            assert(text[n - 3] == 'i');
            assert(text[n - 4] == 's');
            assert(text[n - 5] == 'u');
            lemma_differs_at_end(text, "u8"@, 1);
            lemma_differs_at_end(text, "u16"@, 1);
            lemma_differs_at_end(text, "u32"@, 1);
            lemma_differs_at_end(text, "u64"@, 1);
            lemma_differs_at_end(text, "u128"@, 1);
        },
        IntegerSuffix::I8 => {
            assert(text[n - 1] == '8');
            assert(text[n - 2] == 'i');
            lemma_differs_at_end(text, "u8"@, 2);
            lemma_differs_at_end(text, "u16"@, 1);
            lemma_differs_at_end(text, "u32"@, 1);
            lemma_differs_at_end(text, "u64"@, 1);
            lemma_differs_at_end(text, "u128"@, 2);
            lemma_differs_at_end(text, "usize"@, 1);
        },
        IntegerSuffix::I16 => {
            assert(text[n - 1] == '6');
            assert(text[n - 2] == '1');
            assert(text[n - 3] == 'i');
            lemma_differs_at_end(text, "u8"@, 1);
            lemma_differs_at_end(text, "u16"@, 3);
            lemma_differs_at_end(text, "u32"@, 1);
            lemma_differs_at_end(text, "u64"@, 1);
            lemma_differs_at_end(text, "u128"@, 1);
            lemma_differs_at_end(text, "usize"@, 1);
            lemma_differs_at_end(text, "i8"@, 1);
        },
        IntegerSuffix::I32 => {
            assert(text[n - 1] == '2');
            assert(text[n - 2] == '3');
            assert(text[n - 3] == 'i');
            lemma_differs_at_end(text, "u8"@, 1);
            lemma_differs_at_end(text, "u16"@, 1);
            lemma_differs_at_end(text, "u32"@, 3);
            lemma_differs_at_end(text, "u64"@, 1);
            lemma_differs_at_end(text, "u128"@, 1);
            lemma_differs_at_end(text, "usize"@, 1);
            lemma_differs_at_end(text, "i8"@, 1);
            lemma_differs_at_end(text, "i16"@, 1);
        },
        IntegerSuffix::I64 => {
            assert(text[n - 1] == '4');
            assert(text[n - 2] == '6');
            assert(text[n - 3] == 'i');
            lemma_differs_at_end(text, "u8"@, 1);
            lemma_differs_at_end(text, "u16"@, 1);
            lemma_differs_at_end(text, "u32"@, 1);
            lemma_differs_at_end(text, "u64"@, 3);
            lemma_differs_at_end(text, "u128"@, 1);
            lemma_differs_at_end(text, "usize"@, 1);
            lemma_differs_at_end(text, "i8"@, 1);
            lemma_differs_at_end(text, "i16"@, 1);
            lemma_differs_at_end(text, "i32"@, 1);
        },
        IntegerSuffix::I128 => {
            assert(text[n - 1] == '8');
            assert(text[n - 2] == '2');
            assert(text[n - 3] == '1');
            assert(text[n - 4] == 'i');
            lemma_differs_at_end(text, "u8"@, 2);
            lemma_differs_at_end(text, "u16"@, 1);
            lemma_differs_at_end(text, "u32"@, 1);
            lemma_differs_at_end(text, "u64"@, 1);
            lemma_differs_at_end(text, "u128"@, 4);
            lemma_differs_at_end(text, "usize"@, 1);
            lemma_differs_at_end(text, "i8"@, 2);
            lemma_differs_at_end(text, "i16"@, 1);
            lemma_differs_at_end(text, "i32"@, 1);
            lemma_differs_at_end(text, "i64"@, 1);
        },
        IntegerSuffix::ISize => {
            assert(text[n - 1] == 'e');
            assert(text[n - 2] == 'z');
            assert(text[n - 3] == 'i');
            assert(text[n - 4] == 's');
            assert(text[n - 5] == 'i');
            lemma_differs_at_end(text, "u8"@, 1);
            lemma_differs_at_end(text, "u16"@, 1);
            lemma_differs_at_end(text, "u32"@, 1);
            lemma_differs_at_end(text, "u64"@, 1);
            lemma_differs_at_end(text, "u128"@, 1);
            lemma_differs_at_end(text, "usize"@, 5);
            lemma_differs_at_end(text, "i8"@, 1);
            lemma_differs_at_end(text, "i16"@, 1);
            lemma_differs_at_end(text, "i32"@, 1);
            lemma_differs_at_end(text, "i64"@, 1);
            lemma_differs_at_end(text, "i128"@, 1);
        },
    }
}

/// The grammar of an integer literal before its suffix: the prefix of the
/// radix in either case, then at least one digit or separator of the radix.
/// A decimal literal has no prefix and begins with a digit.
pub open spec fn integer_parts(radix: Radix, prefix: Seq<char>, body: Seq<char>) -> bool {
    &&& prefix == radix.prefix() || prefix == radix.prefix_upper()
    &&& body.len() > 0
    &&& all_digits_or_underscores(body, radix)
    &&& radix == Radix::Decimal ==> is_digit(Radix::Decimal, body[0])
}

/// `text` is made of the parts of an integer literal.
pub open spec fn is_integer_text(text: Seq<char>) -> bool {
    exists|radix: Radix, prefix: Seq<char>, body: Seq<char>, suffix: IntegerSuffix|
        #[trigger] integer_parts(radix, prefix, body) && text == prefix + body
            + #[trigger] suffix.spelling()
}

/// The grammar is read in full. The prefix of a radix in either case, then
/// digits and separators of that radix (for a decimal literal none and a
/// first digit), then a suffix: the literal has that suffix and the number
/// that the digits denote, unless that number exceeds the accumulator.
pub proof fn lemma_integer_grammar(
    radix: Radix,
    prefix: Seq<char>,
    body: Seq<char>,
    suffix: IntegerSuffix,
)
    requires
        integer_parts(radix, prefix, body),
    ensures
        untyped_integer_literal(prefix + body + suffix.spelling()) == match folded(body, radix) {
            Ok(magnitude) => Ok::<UntypedInteger, InternalParserError>(
                UntypedInteger { magnitude, suffix },
            ),
            Err(e) => Err(e),
        },
{
    reveal_strlit("0b");
    reveal_strlit("0o");
    reveal_strlit("0x");
    reveal_strlit("0B");
    reveal_strlit("0O");
    reveal_strlit("0X");
    reveal_strlit("");
    let word = suffix.spelling();
    let stem = prefix + body;
    let text = stem + word;
    lemma_suffix_at_end(stem, suffix);
    assert(text.take(text.len() - word.len()) =~= stem);
    assert(prefix.len() == radix.prefix_len());
    assert(stem.skip(radix.prefix_len()) =~= body);
    assert(radix_of(stem) == radix) by {
        if radix == Radix::Decimal {
            assert(stem =~= body);
            assert(is_digit_or_underscore(radix, body[0]));
            if body.len() >= 2 {
                assert(is_digit_or_underscore(radix, body[1]));
            }
        } else {
            assert(stem[0] == prefix[0]);
            assert(stem[1] == prefix[1]);
        }
    }
}

/// Nothing but the grammar is read. A text is made of the parts of an integer
/// literal exactly where it is read as one or refused for overflow alone.
pub proof fn lemma_integer_literal_is_grammar(text: Seq<char>)
    ensures
        is_integer_text(text) <==> (untyped_integer_literal(text) is Ok || untyped_integer_literal(
            text,
        ) == Err::<UntypedInteger, InternalParserError>(InternalParserError::LiteralOverflow)),
{
    if is_integer_text(text) {
        let (radix, prefix, body, suffix) = choose|
            radix: Radix,
            prefix: Seq<char>,
            body: Seq<char>,
            suffix: IntegerSuffix,
        |
            #[trigger] integer_parts(radix, prefix, body) && text == prefix + body
                + #[trigger] suffix.spelling();
        lemma_integer_grammar(radix, prefix, body, suffix);
    }
    if untyped_integer_literal(text) is Ok || untyped_integer_literal(text) == Err::<
        UntypedInteger,
        InternalParserError,
    >(InternalParserError::LiteralOverflow) {
        reveal_strlit("0b");
        reveal_strlit("0o");
        reveal_strlit("0x");
        reveal_strlit("0B");
        reveal_strlit("0O");
        reveal_strlit("0X");
        reveal_strlit("");
        let suffix = integer_suffix_of(text).unwrap();
        let word = suffix.spelling();
        assert(ends_with(text, word));
        let stem = text.take(text.len() - word.len());
        let radix = radix_of(stem);
        let prefix = stem.take(radix.prefix_len());
        let body = stem.skip(radix.prefix_len());
        if radix != Radix::Decimal {
            assert(prefix[0] == stem[0]);
            assert(prefix[1] == stem[1]);
            assert(prefix =~= radix.prefix() || prefix =~= radix.prefix_upper());
        } else {
            assert(prefix =~= radix.prefix());
        }
        assert(integer_parts(radix, prefix, body));
        assert(text =~= prefix + body + word);
    }
}

} // verus!
