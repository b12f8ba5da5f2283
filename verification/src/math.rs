//! Mathematical notation: named constants, symbols, and integers written in
//! superscript digits.

use vstd::prelude::*;
use vstd::slice::slice_subrange;
use crate::ast::{
    Exponent,
    MathematicalConstant,
    MathematicalSymbol,
    SuperscriptDecimalDigit,
    SuperscriptIntegerLiteral,
    SuperscriptPunctuation,
};
use crate::digits::{
    all_digits,
    digits_value,
    fold_digits,
    is_digit,
    lemma_digits_value_nonnegative,
    lemma_filter_without_underscores,
    Radix,
};
use crate::parser_errors::InternalParserError;
use crate::text::{spells, to_chars};

verus! {

/// The bits of the double nearest to the ratio of a circle's circumference to
/// its diameter.
pub const PI_BITS: u64 = 0x4009_21FB_5444_2D18;

/// The bits of the double nearest to the base of the natural logarithm.
pub const EULER_BITS: u64 = 0x4005_BF0A_8B14_5769;

/// The bits of the double nearest to the Euler-Mascheroni constant.
pub const EULER_MASCHERONI_BITS: u64 = 0x3FE2_788C_FC6F_B619;

/// The bits of the double nearest to twice pi.
pub const TAU_BITS: u64 = 0x4019_21FB_5444_2D18;

/// The bits of the double nearest to Catalan's constant.
pub const CATALAN_BITS: u64 = 0x3FED_4F97_13E8_135D;

/// The bits of the double nearest to the golden ratio.
pub const GOLDEN_RATIO_BITS: u64 = 0x3FF9_E377_9B97_F4A8;

/// The bits of positive infinity.
pub const INFINITY_BITS: u64 = 0x7FF0_0000_0000_0000;

impl MathematicalConstant {
    /// The bits held are those of the constant's value.
    pub open spec fn well_formed(&self) -> bool {
        match self {
            MathematicalConstant::Pi { bits } => *bits == PI_BITS,
            MathematicalConstant::Euler { bits } => *bits == EULER_BITS,
            MathematicalConstant::EulerMascheroni { bits } => *bits == EULER_MASCHERONI_BITS,
            MathematicalConstant::Tau { bits } => *bits == TAU_BITS,
            MathematicalConstant::Catalan { bits } => *bits == CATALAN_BITS,
            MathematicalConstant::GoldenRatio { bits } => *bits == GOLDEN_RATIO_BITS,
            MathematicalConstant::Infinity { bits } => *bits == INFINITY_BITS,
            MathematicalConstant::NotANumber => true,
        }
    }
}

/// The constant that `text` names. Each constant has a word, and most have a
/// Greek letter and its mathematical italic form.
pub open spec fn constant_named(text: Seq<char>) -> Option<MathematicalConstant> {
    if text == "pi"@ || text == "\u{03C0}"@ || text == "\u{1D70B}"@ {
        Some(MathematicalConstant::Pi { bits: PI_BITS })
    } else if text == "euler"@ || text == "\u{212F}"@ {
        Some(MathematicalConstant::Euler { bits: EULER_BITS })
    } else if text == "tau"@ || text == "\u{03C4}"@ || text == "\u{1D70F}"@ {
        Some(MathematicalConstant::Tau { bits: TAU_BITS })
    } else if text == "catalan"@ {
        Some(MathematicalConstant::Catalan { bits: CATALAN_BITS })
    } else if text == "golden"@ || text == "\u{03C6}"@ || text == "\u{1D719}"@ {
        Some(MathematicalConstant::GoldenRatio { bits: GOLDEN_RATIO_BITS })
    } else if text == "eulermascheroni"@ || text == "eulergamma"@ || text == "\u{03B3}"@ || text
        == "\u{1D6FE}"@ {
        Some(MathematicalConstant::EulerMascheroni { bits: EULER_MASCHERONI_BITS })
    } else if text == "Inf"@ || text == "\u{221E}"@ {
        Some(MathematicalConstant::Infinity { bits: INFINITY_BITS })
    } else if text == "NaN"@ {
        Some(MathematicalConstant::NotANumber)
    } else {
        None
    }
}

/// Recognizes a named constant.
pub fn parse_constant(text: &str) -> (r: Result<MathematicalConstant, InternalParserError>)
    ensures
        r == match constant_named(text@) {
            Some(c) => Ok::<MathematicalConstant, InternalParserError>(c),
            None => Err(InternalParserError::UnrecognizedLexeme),
        },
        r matches Ok(c) ==> c.well_formed(),
{
    let chars = to_chars(text);
    let s = chars.as_slice();
    if spells(s, "pi") || spells(s, "\u{03C0}") || spells(s, "\u{1D70B}") {
        Ok(MathematicalConstant::Pi { bits: PI_BITS })
    } else if spells(s, "euler") || spells(s, "\u{212F}") {
        Ok(MathematicalConstant::Euler { bits: EULER_BITS })
    } else if spells(s, "tau") || spells(s, "\u{03C4}") || spells(s, "\u{1D70F}") {
        Ok(MathematicalConstant::Tau { bits: TAU_BITS })
    } else if spells(s, "catalan") {
        Ok(MathematicalConstant::Catalan { bits: CATALAN_BITS })
    } else if spells(s, "golden") || spells(s, "\u{03C6}") || spells(s, "\u{1D719}") {
        Ok(MathematicalConstant::GoldenRatio { bits: GOLDEN_RATIO_BITS })
    } else if spells(s, "eulermascheroni") || spells(s, "eulergamma") || spells(s, "\u{03B3}")
        || spells(s, "\u{1D6FE}") {
        Ok(MathematicalConstant::EulerMascheroni { bits: EULER_MASCHERONI_BITS })
    } else if spells(s, "Inf") || spells(s, "\u{221E}") {
        Ok(MathematicalConstant::Infinity { bits: INFINITY_BITS })
    } else if spells(s, "NaN") {
        Ok(MathematicalConstant::NotANumber)
    } else {
        Err(InternalParserError::UnrecognizedLexeme)
    }
}

/// The value of a superscript digit: the glyphs for one, two and three stand
/// apart from the others in Unicode.
pub open spec fn superscript_digit_value(c: char) -> Option<int> {
    if c == '\u{2070}' {
        Some(0)
    } else if c == '\u{00B9}' {
        Some(1)
    } else if c == '\u{00B2}' {
        Some(2)
    } else if c == '\u{00B3}' {
        Some(3)
    } else if '\u{2074}' <= c <= '\u{2079}' {
        Some(c as int - 0x2070)
    } else {
        None
    }
}

/// The ordinary digit with the value of a superscript digit.
pub open spec fn plain_digit(c: char) -> char {
    match superscript_digit_value(c) {
        Some(v) => (v + '0' as int) as char,
        None => c,
    }
}

/// The ordinary digits with the values of superscript digits.
pub open spec fn plain_digits(s: Seq<char>) -> Seq<char> {
    Seq::new(s.len(), |i: int| plain_digit(s[i]))
}

/// Every character is a superscript digit.
pub open spec fn all_superscript_digits(s: Seq<char>) -> bool {
    forall|i: int| 0 <= i < s.len() ==> superscript_digit_value(#[trigger] s[i]) is Some
}

/// The sign or parenthesis that a superscript glyph is.
pub open spec fn superscript_punctuation(c: char) -> Option<SuperscriptPunctuation> {
    if c == '\u{207A}' {
        Some(SuperscriptPunctuation::Plus)
    } else if c == '\u{207B}' {
        Some(SuperscriptPunctuation::Minus)
    } else if c == '\u{207D}' {
        Some(SuperscriptPunctuation::LeftParen)
    } else if c == '\u{207E}' {
        Some(SuperscriptPunctuation::RightParen)
    } else {
        None
    }
}

/// `c` is a superscript sign.
pub open spec fn is_superscript_sign(c: char) -> bool {
    c == '\u{207A}' || c == '\u{207B}'
}

/// The digits of a superscript integer: the text without its leading sign.
pub open spec fn superscript_digits(text: Seq<char>) -> Seq<char> {
    if text.len() > 0 && is_superscript_sign(text[0]) {
        text.skip(1)
    } else {
        text
    }
}

/// The number that a superscript integer denotes: its digits read as decimal
/// digits, most significant first, negated under a leading minus.
pub open spec fn superscript_value(text: Seq<char>) -> int {
    let magnitude = digits_value(plain_digits(superscript_digits(text)), 10);
    if text.len() > 0 && text[0] == '\u{207B}' {
        -magnitude
    } else {
        magnitude
    }
}

/// A superscript integer: an optional sign and at least one digit, with a
/// value that an exponent can hold.
pub open spec fn superscript_integer(text: Seq<char>) -> Result<i8, InternalParserError> {
    let digits = superscript_digits(text);
    if digits.len() == 0 || !all_superscript_digits(digits) {
        Err(InternalParserError::UnrecognizedLexeme)
    } else if i8::MIN <= superscript_value(text) <= i8::MAX {
        Ok(superscript_value(text) as i8)
    } else {
        Err(InternalParserError::LiteralOverflow)
    }
}

/// The symbol that a single glyph is, apart from the roots.
pub open spec fn plain_symbol(c: char) -> Option<MathematicalSymbol> {
    if c == '\u{00F7}' {
        Some(MathematicalSymbol::Division)
    } else if c == '\u{221D}' {
        Some(MathematicalSymbol::ProportionalTo)
    } else if c == '\u{2229}' {
        Some(MathematicalSymbol::Intersection)
    } else if c == '\u{222A}' {
        Some(MathematicalSymbol::Union)
    } else if c == '\u{222B}' {
        Some(MathematicalSymbol::Integral)
    } else if c == '\u{2234}' {
        Some(MathematicalSymbol::Therefore)
    } else if c == '\u{2235}' {
        Some(MathematicalSymbol::Because)
    } else if c == '\u{2248}' {
        Some(MathematicalSymbol::ApproximatelyEqual)
    } else if c == '\u{2249}' {
        Some(MathematicalSymbol::NotApproximatelyEqual)
    } else if c == '\u{2261}' {
        Some(MathematicalSymbol::IdenticalTo)
    } else if c == '\u{2262}' {
        Some(MathematicalSymbol::NotIdenticalTo)
    } else if c == '\u{2282}' {
        Some(MathematicalSymbol::SubsetOf)
    } else if c == '\u{2283}' {
        Some(MathematicalSymbol::SupersetOf)
    } else if c == '\u{2286}' {
        Some(MathematicalSymbol::SubsetOfOrEqualTo)
    } else if c == '\u{2287}' {
        Some(MathematicalSymbol::SupersetOfOrEqualTo)
    } else {
        None
    }
}

/// The symbol that `text` is. The cube root and fourth root glyphs are roots
/// of fixed exponent. A square root glyph is a root whose exponent is the
/// superscript integer before it, or 2 where nothing stands before it. A
/// superscript integer alone is a power.
pub open spec fn mathematical_symbol(text: Seq<char>) -> Result<
    MathematicalSymbol,
    InternalParserError,
> {
    if text.len() == 1 && text[0] == '\u{221B}' {
        Ok(MathematicalSymbol::Root { exponent: 3 })
    } else if text.len() == 1 && text[0] == '\u{221C}' {
        Ok(MathematicalSymbol::Root { exponent: 4 })
    } else if text.len() == 1 && text[0] == '\u{221A}' {
        Ok(MathematicalSymbol::Root { exponent: 2 })
    } else if text.len() == 1 && plain_symbol(text[0]) is Some {
        Ok(plain_symbol(text[0]).unwrap())
    } else if text.len() > 1 && text.last() == '\u{221A}' {
        match superscript_integer(text.drop_last()) {
            Ok(exponent) => Ok(MathematicalSymbol::Root { exponent }),
            Err(e) => Err(e),
        }
    } else {
        match superscript_integer(text) {
            Ok(exponent) => Ok(MathematicalSymbol::Power { exponent }),
            Err(e) => Err(e),
        }
    }
}

/// The value of `c` as a superscript digit, if it is one.
pub fn superscript_digit_of(c: char) -> (d: Option<u8>)
    ensures
        d matches Some(v) ==> superscript_digit_value(c) == Some(v as int) && v <= 9,
        d is None ==> superscript_digit_value(c) is None,
{
    if c == '\u{2070}' {
        Some(0)
    } else if c == '\u{00B9}' {
        Some(1)
    } else if c == '\u{00B2}' {
        Some(2)
    } else if c == '\u{00B3}' {
        Some(3)
    } else if '\u{2074}' <= c && c <= '\u{2079}' {
        Some((c as u32 - 0x2070) as u8)
    } else {
        None
    }
}

/// The ordinary digit of value `v`.
fn plain_digit_char(v: u8) -> (c: char)
    requires
        v <= 9,
    ensures
        c == (v + '0' as int) as char,
        is_digit(Radix::Decimal, c),
        crate::digits::digit_value(c) == Some(v as int),
{
    match v {
        0 => '0',
        1 => '1',
        2 => '2',
        3 => '3',
        4 => '4',
        5 => '5',
        6 => '6',
        7 => '7',
        8 => '8',
        _ => '9',
    }
}

/// Folds a superscript integer: the digits are rewritten as ordinary digits
/// and handed to the decimal fold.
fn superscript_integer_of(text: &[char]) -> (r: Result<i8, InternalParserError>)
    ensures
        r == superscript_integer(text@),
{
    let signed = text.len() > 0 && (text[0] == '\u{207A}' || text[0] == '\u{207B}');
    let negative = text.len() > 0 && text[0] == '\u{207B}';
    let start: usize = if signed {
        1
    } else {
        0
    };
    let digits = slice_subrange(text, start, text.len());
    assert(digits@ =~= superscript_digits(text@));
    if digits.len() == 0 {
        return Err(InternalParserError::UnrecognizedLexeme);
    }
    let mut plain: Vec<char> = Vec::new();
    let mut i: usize = 0;
    while i < digits.len()
        invariant
            0 <= i <= digits@.len(),
            plain@.len() == i,
            digits@.len() > 0,
            digits@ == superscript_digits(text@),
            forall|k: int| 0 <= k < i ==> superscript_digit_value(#[trigger] digits@[k]) is Some,
            forall|k: int| 0 <= k < i ==> #[trigger] plain@[k] == plain_digit(digits@[k]),
            forall|k: int| 0 <= k < i ==> is_digit(Radix::Decimal, #[trigger] plain@[k]),
        decreases digits@.len() - i,
    {
        match superscript_digit_of(digits[i]) {
            Some(v) => {
                plain.push(plain_digit_char(v));
            },
            None => {
                assert(superscript_digit_value(digits@[i as int]) is None);
                return Err(InternalParserError::UnrecognizedLexeme);
            },
        }
        i = i + 1;
    }
    assert(plain@ =~= plain_digits(digits@));
    proof {
        assert forall|k: int| 0 <= k < plain@.len() implies #[trigger] plain@[k] != '_' by {
            assert(is_digit(Radix::Decimal, plain@[k]));
        }
        lemma_filter_without_underscores(plain@);
        assert(all_digits(plain@, Radix::Decimal));
        lemma_digits_value_nonnegative(plain@, Radix::Decimal);
    }
    match fold_digits(plain.as_slice(), Radix::Decimal) {
        Ok(magnitude) => {
            if negative {
                if magnitude <= 128 {
                    Ok((-(magnitude as i16)) as i8)
                } else {
                    Err(InternalParserError::LiteralOverflow)
                }
            } else if magnitude <= 127 {
                Ok(magnitude as i8)
            } else {
                Err(InternalParserError::LiteralOverflow)
            }
        },
        Err(_) => Err(InternalParserError::LiteralOverflow),
    }
}

/// Recognizes a single superscript digit.
pub fn parse_superscript_digit(text: &str) -> (r: Result<
    SuperscriptDecimalDigit,
    InternalParserError,
>)
    ensures
        match r {
            Ok(d) => text@.len() == 1 && superscript_digit_value(text@[0]) == Some(d.digit as int)
                && d.well_formed(),
            Err(e) => e == InternalParserError::UnrecognizedLexeme && !(text@.len() == 1
                && superscript_digit_value(text@[0]) is Some),
        },
{
    let chars = to_chars(text);
    if chars.len() != 1 {
        return Err(InternalParserError::UnrecognizedLexeme);
    }
    match superscript_digit_of(chars[0]) {
        Some(v) => Ok(SuperscriptDecimalDigit { digit: v as i8 }),
        None => Err(InternalParserError::UnrecognizedLexeme),
    }
}

/// Recognizes a single superscript sign or parenthesis.
pub fn parse_superscript_punctuation(text: &str) -> (r: Result<
    SuperscriptPunctuation,
    InternalParserError,
>)
    ensures
        match r {
            Ok(p) => text@.len() == 1 && superscript_punctuation(text@[0]) == Some(p),
            Err(e) => e == InternalParserError::UnrecognizedLexeme && !(text@.len() == 1
                && superscript_punctuation(text@[0]) is Some),
        },
{
    let chars = to_chars(text);
    if chars.len() != 1 {
        return Err(InternalParserError::UnrecognizedLexeme);
    }
    let c = chars[0];
    if c == '\u{207A}' {
        Ok(SuperscriptPunctuation::Plus)
    } else if c == '\u{207B}' {
        Ok(SuperscriptPunctuation::Minus)
    } else if c == '\u{207D}' {
        Ok(SuperscriptPunctuation::LeftParen)
    } else if c == '\u{207E}' {
        Ok(SuperscriptPunctuation::RightParen)
    } else {
        Err(InternalParserError::UnrecognizedLexeme)
    }
}

/// Reads an integer written in superscript digits, with an optional
/// superscript sign before them.
pub fn parse_superscript_integer(text: &str) -> (r: Result<
    SuperscriptIntegerLiteral,
    InternalParserError,
>)
    ensures
        match r {
            Ok(literal) => superscript_integer(text@) == Ok::<i8, InternalParserError>(literal.n),
            Err(e) => superscript_integer(text@) == Err::<i8, InternalParserError>(e),
        },
{
    let chars = to_chars(text);
    match superscript_integer_of(chars.as_slice()) {
        Ok(n) => Ok(SuperscriptIntegerLiteral { n }),
        Err(e) => Err(e),
    }
}

/// The symbol that a single glyph is, apart from the roots.
fn plain_symbol_of(c: char) -> (symbol: Option<MathematicalSymbol>)
    ensures
        symbol == plain_symbol(c),
{
    if c == '\u{00F7}' {
        Some(MathematicalSymbol::Division)
    } else if c == '\u{221D}' {
        Some(MathematicalSymbol::ProportionalTo)
    } else if c == '\u{2229}' {
        Some(MathematicalSymbol::Intersection)
    } else if c == '\u{222A}' {
        Some(MathematicalSymbol::Union)
    } else if c == '\u{222B}' {
        Some(MathematicalSymbol::Integral)
    } else if c == '\u{2234}' {
        Some(MathematicalSymbol::Therefore)
    } else if c == '\u{2235}' {
        Some(MathematicalSymbol::Because)
    } else if c == '\u{2248}' {
        Some(MathematicalSymbol::ApproximatelyEqual)
    } else if c == '\u{2249}' {
        Some(MathematicalSymbol::NotApproximatelyEqual)
    } else if c == '\u{2261}' {
        Some(MathematicalSymbol::IdenticalTo)
    } else if c == '\u{2262}' {
        Some(MathematicalSymbol::NotIdenticalTo)
    } else if c == '\u{2282}' {
        Some(MathematicalSymbol::SubsetOf)
    } else if c == '\u{2283}' {
        Some(MathematicalSymbol::SupersetOf)
    } else if c == '\u{2286}' {
        Some(MathematicalSymbol::SubsetOfOrEqualTo)
    } else if c == '\u{2287}' {
        Some(MathematicalSymbol::SupersetOfOrEqualTo)
    } else {
        None
    }
}

/// Recognizes a mathematical symbol: a single glyph, a root with its
/// exponent before it, or a power.
pub fn parse_symbol(text: &str) -> (r: Result<MathematicalSymbol, InternalParserError>)
    ensures
        r == mathematical_symbol(text@),
{
    let chars = to_chars(text);
    let s = chars.as_slice();
    let n = s.len();
    if n == 1 {
        let c = s[0];
        if c == '\u{221B}' {
            return Ok(MathematicalSymbol::Root { exponent: 3 });
        } else if c == '\u{221C}' {
            return Ok(MathematicalSymbol::Root { exponent: 4 });
        } else if c == '\u{221A}' {
            return Ok(MathematicalSymbol::Root { exponent: Exponent::default().value });
        }
        match plain_symbol_of(c) {
            Some(symbol) => {
                return Ok(symbol);
            },
            None => {},
        }
    }
    if n > 1 && s[n - 1] == '\u{221A}' {
        let front = slice_subrange(s, 0, n - 1);
        assert(front@ =~= text@.drop_last());
        match superscript_integer_of(front) {
            Ok(exponent) => Ok(MathematicalSymbol::Root { exponent }),
            Err(e) => Err(e),
        }
    } else {
        match superscript_integer_of(s) {
            Ok(exponent) => Ok(MathematicalSymbol::Power { exponent }),
            Err(e) => Err(e),
        }
    }
}

/// Superscript digits are read most significant first: a digit appended to a
/// run multiplies the value of the run by ten and adds its own.
pub proof fn lemma_superscript_order(digits: Seq<char>, last: char)
    requires
        all_superscript_digits(digits),
        superscript_digit_value(last) is Some,
    ensures
        superscript_value(digits.push(last)) == 10 * superscript_value(digits)
            + superscript_digit_value(last).unwrap(),
{
    let plain = plain_digits(digits);
    assert(plain_digits(digits.push(last)) =~= plain.push(plain_digit(last)));
    crate::digits::lemma_digits_value_push(plain, plain_digit(last), 10);
    if digits.len() > 0 {
        assert(superscript_digit_value(digits[0]) is Some);
        assert(digits.push(last)[0] == digits[0]);
    }
    assert(superscript_digits(digits) == digits);
    assert(superscript_digits(digits.push(last)) == digits.push(last));
}

/// A minus before superscript digits negates the value that the digits have
/// alone; a plus leaves it as it is.
pub proof fn lemma_superscript_sign(digits: Seq<char>)
    requires
        digits.len() > 0,
        all_superscript_digits(digits),
    ensures
        superscript_value(seq!['\u{207B}'] + digits) == -superscript_value(digits),
        superscript_value(seq!['\u{207A}'] + digits) == superscript_value(digits),
{
    let minus = seq!['\u{207B}'] + digits;
    let plus = seq!['\u{207A}'] + digits;
    assert(minus.skip(1) =~= digits);
    assert(plus.skip(1) =~= digits);
    assert(superscript_digit_value(digits[0]) is Some);
}

} // verus!
