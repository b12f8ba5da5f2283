use balsapop::ast::{
    Comment, Delimiter, DocComment, Identifier, Keyword, LogicLiteral, MathematicalConstant,
    MathematicalSymbol, Punctuation, ReservedKeyword, SuperscriptDecimalDigit,
    SuperscriptIntegerLiteral, SuperscriptPunctuation,
};
use balsapop::comment::classify_comment;
use balsapop::digits::Radix;
use balsapop::float_literal::{parse_exponential_symbol, parse_float_suffix};
use balsapop::integer::{parse_digit, parse_integer_suffix, parse_radix_prefix};
use balsapop::keyword::{parse_identifier, parse_keyword, parse_logic_literal};
use balsapop::math::{
    parse_constant, parse_superscript_digit, parse_superscript_integer,
    parse_superscript_punctuation, parse_symbol,
};
use balsapop::parser_errors::InternalParserError;
use balsapop::punctuation::{parse_delimiter, parse_punctuation};
use balsapop::unicode::{parse_xid_continue, parse_xid_start};

/// The text of a radix prefix, where the library takes it for the prefix of
/// the given radix.
fn prefix_of_radix(radix: Radix, text: &str) -> Result<String, InternalParserError> {
    match parse_radix_prefix(text) {
        Ok(found) if found == radix => Ok(String::from(text)),
        _ => Err(InternalParserError::UnrecognizedLexeme),
    }
}

#[test]
fn test_lex_punctuation() {
    assert_eq!(
        parse_punctuation("+"),
        Ok(Punctuation::Plus)
    );
    assert_eq!(
        parse_punctuation("-"),
        Ok(Punctuation::Minus)
    );
    assert_eq!(
        parse_punctuation("*"),
        Ok(Punctuation::Star)
    );
    assert_eq!(
        parse_punctuation("/"),
        Ok(Punctuation::Slash)
    );
    assert_eq!(
        parse_punctuation("\\"),
        Ok(Punctuation::Backslash)
    );
    assert_eq!(
        parse_punctuation("%"),
        Ok(Punctuation::Percent)
    );
    assert_eq!(
        parse_punctuation("^"),
        Ok(Punctuation::Caret)
    );
    assert_eq!(
        parse_punctuation("!"),
        Ok(Punctuation::Not)
    );
    assert_eq!(
        parse_punctuation("not"),
        Ok(Punctuation::Not)
    );
    assert_eq!(
        parse_punctuation("&"),
        Ok(Punctuation::And)
    );
    assert_eq!(
        parse_punctuation("|"),
        Ok(Punctuation::Or)
    );
    assert_eq!(
        parse_punctuation("&&"),
        Ok(Punctuation::AndAnd)
    );
    assert_eq!(
        parse_punctuation("||"),
        Ok(Punctuation::OrOr)
    );
    assert_eq!(
        parse_punctuation("+="),
        Ok(Punctuation::PlusEquals)
    );
    assert_eq!(
        parse_punctuation("-="),
        Ok(Punctuation::MinusEquals)
    );
    assert_eq!(
        parse_punctuation("*="),
        Ok(Punctuation::StarEquals)
    );
    assert_eq!(
        parse_punctuation("/="),
        Ok(Punctuation::SlashEquals)
    );
    assert_eq!(
        parse_punctuation("%="),
        Ok(Punctuation::PercentEquals)
    );
    assert_eq!(
        parse_punctuation("^="),
        Ok(Punctuation::CaretEquals)
    );
    assert_eq!(
        parse_punctuation("&="),
        Ok(Punctuation::AndEquals)
    );
    assert_eq!(
        parse_punctuation("|="),
        Ok(Punctuation::OrEquals)
    );
    assert_eq!(
        parse_punctuation("="),
        Ok(Punctuation::Equals)
    );
    assert_eq!(
        parse_punctuation("=="),
        Ok(Punctuation::DoubleEquals)
    );
    assert_eq!(
        parse_punctuation("!="),
        Ok(Punctuation::NotEqual)
    );
    assert_eq!(
        parse_punctuation("≠"),
        Ok(Punctuation::NotEqual)
    );
    assert_eq!(
        parse_punctuation("<"),
        Ok(Punctuation::LessThan)
    );
    assert_eq!(
        parse_punctuation("<="),
        Ok(Punctuation::LessThanEqual)
    );
    assert_eq!(
        parse_punctuation("≤"),
        Ok(Punctuation::LessThanEqual)
    );
    assert_eq!(
        parse_punctuation(">"),
        Ok(Punctuation::GreaterThan)
    );
    assert_eq!(
        parse_punctuation(">="),
        Ok(Punctuation::GreaterThanEqual)
    );
    assert_eq!(
        parse_punctuation("≥"),
        Ok(Punctuation::GreaterThanEqual)
    );
    assert_eq!(
        parse_punctuation("_"),
        Ok(Punctuation::Underscore)
    );
    assert_eq!(
        parse_punctuation("."),
        Ok(Punctuation::Dot)
    );
    assert_eq!(
        parse_punctuation(".."),
        Ok(Punctuation::DotDot)
    );
    assert_eq!(
        parse_punctuation("..."),
        Ok(Punctuation::DotDotDot)
    );
    assert_eq!(
        parse_punctuation("..="),
        Ok(Punctuation::DotDotEquals)
    );
    assert_eq!(
        parse_punctuation(","),
        Ok(Punctuation::Comma)
    );
    assert_eq!(
        parse_punctuation(";"),
        Ok(Punctuation::Semicolon)
    );
    assert_eq!(
        parse_punctuation(":"),
        Ok(Punctuation::Colon)
    );
    assert_eq!(
        parse_punctuation("::"),
        Ok(Punctuation::PathSeparator)
    );
    assert_eq!(
        parse_punctuation("->"),
        Ok(Punctuation::RightArrow)
    );
    assert_eq!(
        parse_punctuation("→"),
        Ok(Punctuation::RightArrow)
    );
    assert_eq!(
        parse_punctuation("<-"),
        Ok(Punctuation::LeftArrow)
    );
    assert_eq!(
        parse_punctuation("←"),
        Ok(Punctuation::LeftArrow)
    );
    assert_eq!(
        parse_punctuation("=>"),
        Ok(Punctuation::FatRightArrow)
    );
    assert_eq!(
        parse_punctuation("⇒"),
        Ok(Punctuation::FatRightArrow)
    );
    assert_eq!(
        parse_punctuation("⇐"),
        Ok(Punctuation::FatLeftArrow)
    );
    assert_eq!(
        parse_punctuation("#"),
        Ok(Punctuation::Pound)
    );
    assert_eq!(
        parse_punctuation("$"),
        Ok(Punctuation::Dollar)
    );
    assert_eq!(
        parse_punctuation("?"),
        Ok(Punctuation::Question)
    );
    assert_eq!(
        parse_punctuation("'"),
        Ok(Punctuation::Apostrophe)
    );
    assert_eq!(
        parse_punctuation("\""),
        Ok(Punctuation::Quote)
    );
}

#[test]
fn test_lex_delimiters() {
    assert_eq!(
        parse_delimiter("("),
        Ok(Delimiter::LeftParen)
    );
    assert_eq!(
        parse_delimiter(")"),
        Ok(Delimiter::RightParen)
    );
    assert_eq!(
        parse_delimiter("["),
        Ok(Delimiter::LeftBracket)
    );
    assert_eq!(
        parse_delimiter("]"),
        Ok(Delimiter::RightBracket)
    );
    assert_eq!(
        parse_delimiter("{"),
        Ok(Delimiter::LeftBrace)
    );
    assert_eq!(
        parse_delimiter("}"),
        Ok(Delimiter::RightBrace)
    );
}

#[test]
fn test_lex_xid_start() {
    assert_eq!(parse_xid_start("a"), Ok('a'));
    assert_eq!(parse_xid_start("в"), Ok('в'));
    assert_eq!(parse_xid_start("भ"), Ok('भ'));
    assert_eq!(parse_xid_start("त"), Ok('त'));
    assert_eq!(parse_xid_start("र"), Ok('र'));
    assert_eq!(parse_xid_start("П"), Ok('П'));
    assert_eq!(parse_xid_start("и"), Ok('и'));
    assert_eq!(parse_xid_start("в"), Ok('в'));
    assert_eq!(parse_xid_start("е"), Ok('е'));
    assert_eq!(parse_xid_start("т"), Ok('т'));
    assert_eq!(parse_xid_start("ᄀ"), Ok('ᄀ'));
    assert_eq!(parse_xid_start("ᄁ"), Ok('ᄁ'));
    assert_eq!(parse_xid_start("ᄊ"), Ok('ᄊ'));
    assert_eq!(parse_xid_start("ᇂ"), Ok('ᇂ'));
    assert_eq!(parse_xid_start("ᆱ"), Ok('ᆱ'));
    assert_eq!(parse_xid_start("æ"), Ok('æ'));
    assert_eq!(parse_xid_start("Ä"), Ok('Ä'));
    assert_eq!(parse_xid_start("é"), Ok('é'));
    assert_eq!(parse_xid_start("ç"), Ok('ç'));
    assert_eq!(parse_xid_start("â"), Ok('â'));
}

#[test]
fn test_lex_xid_continue() {
    assert_eq!(parse_xid_continue("a"), Ok('a'));
    assert_eq!(parse_xid_continue("_"), Ok('_'));
    assert_eq!(parse_xid_continue("в"), Ok('в'));
    assert_eq!(parse_xid_continue("भ"), Ok('भ'));
    assert_eq!(parse_xid_continue("त"), Ok('त'));
    assert_eq!(parse_xid_continue("र"), Ok('र'));
    assert_eq!(parse_xid_continue("П"), Ok('П'));
    assert_eq!(parse_xid_continue("и"), Ok('и'));
    assert_eq!(parse_xid_continue("в"), Ok('в'));
    assert_eq!(parse_xid_continue("е"), Ok('е'));
    assert_eq!(parse_xid_continue("т"), Ok('т'));
    assert_eq!(parse_xid_continue("ᄀ"), Ok('ᄀ'));
    assert_eq!(parse_xid_continue("ᄁ"), Ok('ᄁ'));
    assert_eq!(parse_xid_continue("ᄊ"), Ok('ᄊ'));
    assert_eq!(parse_xid_continue("ᇂ"), Ok('ᇂ'));
    assert_eq!(parse_xid_continue("ᆱ"), Ok('ᆱ'));
    assert_eq!(parse_xid_continue("æ"), Ok('æ'));
    assert_eq!(parse_xid_continue("Ä"), Ok('Ä'));
    assert_eq!(parse_xid_continue("é"), Ok('é'));
    assert_eq!(parse_xid_continue("ç"), Ok('ç'));
    assert_eq!(parse_xid_continue("â"), Ok('â'));
}

#[test]
fn test_lex_identifiers() {
    assert_eq!(
        parse_identifier("foo"),
        Ok(Identifier {
            name: String::from("foo"),
        })
    );
    assert_eq!(
        parse_identifier("foo_bar"),
        Ok(Identifier {
            name: String::from("foo_bar"),
        })
    );
    assert_eq!(
        parse_identifier("_ident"),
        Ok(Identifier {
            name: String::from("_ident"),
        })
    );
    assert_eq!(
        parse_identifier("Москва"),
        Ok(Identifier {
            name: String::from("Москва"),
        })
    );
    assert_eq!(
        parse_identifier("東京"),
        Ok(Identifier {
            name: String::from("東京"),
        })
    );
    assert_eq!(
        parse_identifier("المملكة"),
        Ok(Identifier {
            name: String::from("المملكة"),
        })
    );
    assert_eq!(
        parse_identifier("Привет"),
        Ok(Identifier {
            name: String::from("Привет"),
        })
    );
    assert_eq!(
        parse_identifier("你好世界"),
        Ok(Identifier {
            name: String::from("你好世界"),
        })
    );
}

#[test]
fn test_lex_numeric_literals() {
    assert_eq!(
        prefix_of_radix(Radix::Binary, "0b"),
        Ok(String::from("0b"))
    );
    assert_eq!(
        prefix_of_radix(Radix::Binary, "0B"),
        Ok(String::from("0B"))
    );
    assert_eq!(
        prefix_of_radix(Radix::Octal, "0o"),
        Ok(String::from("0o"))
    );
    assert_eq!(
        prefix_of_radix(Radix::Octal, "0O"),
        Ok(String::from("0O"))
    );
    assert_eq!(
        prefix_of_radix(Radix::Hexadecimal, "0x"),
        Ok(String::from("0x"))
    );
    assert_eq!(
        prefix_of_radix(Radix::Hexadecimal, "0X"),
        Ok(String::from("0X"))
    );

    assert_eq!(
        parse_integer_suffix("u8").map(|suffix| suffix.lexeme().to_string()),
        Ok(String::from("u8"))
    );
    assert_eq!(
        parse_integer_suffix("u16").map(|suffix| suffix.lexeme().to_string()),
        Ok(String::from("u16"))
    );
    assert_eq!(
        parse_integer_suffix("u32").map(|suffix| suffix.lexeme().to_string()),
        Ok(String::from("u32"))
    );
    assert_eq!(
        parse_integer_suffix("u64").map(|suffix| suffix.lexeme().to_string()),
        Ok(String::from("u64"))
    );
    assert_eq!(
        parse_integer_suffix("u128").map(|suffix| suffix.lexeme().to_string()),
        Ok(String::from("u128"))
    );
    assert_eq!(
        parse_integer_suffix("usize").map(|suffix| suffix.lexeme().to_string()),
        Ok(String::from("usize"))
    );

    assert_eq!(
        parse_integer_suffix("i8").map(|suffix| suffix.lexeme().to_string()),
        Ok(String::from("i8"))
    );
    assert_eq!(
        parse_integer_suffix("i16").map(|suffix| suffix.lexeme().to_string()),
        Ok(String::from("i16"))
    );
    assert_eq!(
        parse_integer_suffix("i32").map(|suffix| suffix.lexeme().to_string()),
        Ok(String::from("i32"))
    );
    assert_eq!(
        parse_integer_suffix("i64").map(|suffix| suffix.lexeme().to_string()),
        Ok(String::from("i64"))
    );
    assert_eq!(
        parse_integer_suffix("i128").map(|suffix| suffix.lexeme().to_string()),
        Ok(String::from("i128"))
    );
    assert_eq!(
        parse_integer_suffix("isize").map(|suffix| suffix.lexeme().to_string()),
        Ok(String::from("isize"))
    );

    assert_eq!(parse_digit(Radix::Binary, "0"), Ok('0'));
    assert_eq!(parse_digit(Radix::Binary, "1"), Ok('1'));

    assert_eq!(parse_digit(Radix::Octal, "0"), Ok('0'));
    assert_eq!(parse_digit(Radix::Octal, "1"), Ok('1'));
    assert_eq!(parse_digit(Radix::Octal, "2"), Ok('2'));
    assert_eq!(parse_digit(Radix::Octal, "3"), Ok('3'));
    assert_eq!(parse_digit(Radix::Octal, "4"), Ok('4'));
    assert_eq!(parse_digit(Radix::Octal, "5"), Ok('5'));
    assert_eq!(parse_digit(Radix::Octal, "6"), Ok('6'));
    assert_eq!(parse_digit(Radix::Octal, "7"), Ok('7'));

    assert_eq!(parse_digit(Radix::Decimal, "0"), Ok('0'));
    assert_eq!(parse_digit(Radix::Decimal, "1"), Ok('1'));
    assert_eq!(parse_digit(Radix::Decimal, "2"), Ok('2'));
    assert_eq!(parse_digit(Radix::Decimal, "3"), Ok('3'));
    assert_eq!(parse_digit(Radix::Decimal, "4"), Ok('4'));
    assert_eq!(parse_digit(Radix::Decimal, "5"), Ok('5'));
    assert_eq!(parse_digit(Radix::Decimal, "6"), Ok('6'));
    assert_eq!(parse_digit(Radix::Decimal, "7"), Ok('7'));
    assert_eq!(parse_digit(Radix::Decimal, "8"), Ok('8'));
    assert_eq!(parse_digit(Radix::Decimal, "9"), Ok('9'));

    assert_eq!(parse_digit(Radix::Hexadecimal, "0"), Ok('0'));
    assert_eq!(parse_digit(Radix::Hexadecimal, "1"), Ok('1'));
    assert_eq!(parse_digit(Radix::Hexadecimal, "2"), Ok('2'));
    assert_eq!(parse_digit(Radix::Hexadecimal, "3"), Ok('3'));
    assert_eq!(parse_digit(Radix::Hexadecimal, "4"), Ok('4'));
    assert_eq!(parse_digit(Radix::Hexadecimal, "5"), Ok('5'));
    assert_eq!(parse_digit(Radix::Hexadecimal, "6"), Ok('6'));
    assert_eq!(parse_digit(Radix::Hexadecimal, "7"), Ok('7'));
    assert_eq!(parse_digit(Radix::Hexadecimal, "8"), Ok('8'));
    assert_eq!(parse_digit(Radix::Hexadecimal, "9"), Ok('9'));
    assert_eq!(parse_digit(Radix::Hexadecimal, "a"), Ok('a'));
    assert_eq!(parse_digit(Radix::Hexadecimal, "b"), Ok('b'));
    assert_eq!(parse_digit(Radix::Hexadecimal, "c"), Ok('c'));
    assert_eq!(parse_digit(Radix::Hexadecimal, "d"), Ok('d'));
    assert_eq!(parse_digit(Radix::Hexadecimal, "e"), Ok('e'));
    assert_eq!(parse_digit(Radix::Hexadecimal, "f"), Ok('f'));
    assert_eq!(parse_digit(Radix::Hexadecimal, "A"), Ok('A'));
    assert_eq!(parse_digit(Radix::Hexadecimal, "B"), Ok('B'));
    assert_eq!(parse_digit(Radix::Hexadecimal, "C"), Ok('C'));
    assert_eq!(parse_digit(Radix::Hexadecimal, "D"), Ok('D'));
    assert_eq!(parse_digit(Radix::Hexadecimal, "E"), Ok('E'));
    assert_eq!(parse_digit(Radix::Hexadecimal, "F"), Ok('F'));

    assert_eq!(
        parse_float_suffix("f32").map(|suffix| suffix.lexeme().to_string()),
        Ok(String::from("f32"))
    );
    assert_eq!(
        parse_float_suffix("f64").map(|suffix| suffix.lexeme().to_string()),
        Ok(String::from("f64"))
    );

    assert_eq!(parse_exponential_symbol("e"), Ok('e'));
    assert_eq!(parse_exponential_symbol("E"), Ok('E'));
}

#[test]
fn test_lex_mathematical_constants() {
    assert_eq!(
        parse_constant("pi"),
        Ok(MathematicalConstant::Pi {
            bits: (std::f64::consts::PI as f64).to_bits(),
        })
    );
    assert_eq!(
        parse_constant("π"),
        Ok(MathematicalConstant::Pi {
            bits: (std::f64::consts::PI as f64).to_bits(),
        })
    );
    assert_eq!(
        parse_constant("𝜋"),
        Ok(MathematicalConstant::Pi {
            bits: (std::f64::consts::PI as f64).to_bits(),
        })
    );

    assert_eq!(
        parse_constant("ℯ"),
        Ok(MathematicalConstant::Euler {
            bits: (std::f64::consts::E as f64).to_bits(),
        })
    );
    assert_eq!(
        parse_constant("euler"),
        Ok(MathematicalConstant::Euler {
            bits: (std::f64::consts::E as f64).to_bits(),
        })
    );

    assert_eq!(
        parse_constant("tau"),
        Ok(MathematicalConstant::Tau {
            bits: (std::f64::consts::TAU as f64).to_bits(),
        })
    );
    assert_eq!(
        parse_constant("τ"),
        Ok(MathematicalConstant::Tau {
            bits: (std::f64::consts::TAU as f64).to_bits(),
        })
    );
    assert_eq!(
        parse_constant("𝜏"),
        Ok(MathematicalConstant::Tau {
            bits: (std::f64::consts::TAU as f64).to_bits(),
        })
    );

    assert_eq!(
        parse_constant("catalan"),
        Ok(MathematicalConstant::Catalan {
            bits: (0.91596559417721901505460351493238411077414937428167 as f64).to_bits(),
        })
    );

    assert_eq!(
        parse_constant("golden"),
        Ok(MathematicalConstant::GoldenRatio {
            bits: (1.618033988749895 as f64).to_bits(),
        })
    );
    assert_eq!(
        parse_constant("φ"),
        Ok(MathematicalConstant::GoldenRatio {
            bits: (1.618033988749895 as f64).to_bits(),
        })
    );
    assert_eq!(
        parse_constant("𝜙"),
        Ok(MathematicalConstant::GoldenRatio {
            bits: (1.618033988749895 as f64).to_bits(),
        })
    );

    assert_eq!(
        parse_constant("eulermascheroni"),
        Ok(MathematicalConstant::EulerMascheroni {
            bits: (0.5772156649015329 as f64).to_bits(),
        })
    );
    assert_eq!(
        parse_constant("eulergamma"),
        Ok(MathematicalConstant::EulerMascheroni {
            bits: (0.5772156649015329 as f64).to_bits(),
        })
    );
    assert_eq!(
        parse_constant("γ"),
        Ok(MathematicalConstant::EulerMascheroni {
            bits: (0.5772156649015329 as f64).to_bits(),
        })
    );
    assert_eq!(
        parse_constant("𝛾"),
        Ok(MathematicalConstant::EulerMascheroni {
            bits: (0.5772156649015329 as f64).to_bits(),
        })
    );

    assert_eq!(
        parse_constant("Inf"),
        Ok(MathematicalConstant::Infinity {
            bits: (std::f64::INFINITY as f64).to_bits(),
        })
    );
    assert_eq!(
        parse_constant("∞"),
        Ok(MathematicalConstant::Infinity {
            bits: (std::f64::INFINITY as f64).to_bits(),
        })
    );

    assert_eq!(
        parse_constant("NaN"),
        Ok(MathematicalConstant::NotANumber)
    );
}

#[test]
fn test_lex_superscript_numeric_literals() {
    assert_eq!(
        parse_superscript_integer("¹"),
        Ok(SuperscriptIntegerLiteral { n: 1 })
    );
    assert_eq!(
        parse_superscript_integer("¹²"),
        Ok(SuperscriptIntegerLiteral { n: 12 })
    );

    assert_eq!(
        parse_superscript_digit("⁰"),
        Ok(SuperscriptDecimalDigit { digit: 0 })
    );
    assert_eq!(
        parse_superscript_digit("¹"),
        Ok(SuperscriptDecimalDigit { digit: 1 })
    );
    assert_eq!(
        parse_superscript_digit("²"),
        Ok(SuperscriptDecimalDigit { digit: 2 })
    );
    assert_eq!(
        parse_superscript_digit("³"),
        Ok(SuperscriptDecimalDigit { digit: 3 })
    );
    assert_eq!(
        parse_superscript_digit("⁴"),
        Ok(SuperscriptDecimalDigit { digit: 4 })
    );
    assert_eq!(
        parse_superscript_digit("⁵"),
        Ok(SuperscriptDecimalDigit { digit: 5 })
    );
    assert_eq!(
        parse_superscript_digit("⁶"),
        Ok(SuperscriptDecimalDigit { digit: 6 })
    );
    assert_eq!(
        parse_superscript_digit("⁷"),
        Ok(SuperscriptDecimalDigit { digit: 7 })
    );
    assert_eq!(
        parse_superscript_digit("⁸"),
        Ok(SuperscriptDecimalDigit { digit: 8 })
    );
    assert_eq!(
        parse_superscript_digit("⁹"),
        Ok(SuperscriptDecimalDigit { digit: 9 })
    );
}

#[test]
fn test_lex_superscript_punctuation() {
    assert_eq!(
        parse_superscript_punctuation("⁺"),
        Ok(SuperscriptPunctuation::Plus)
    );
    assert_eq!(
        parse_superscript_punctuation("⁻"),
        Ok(SuperscriptPunctuation::Minus)
    );
    assert_eq!(
        parse_superscript_punctuation("⁽"),
        Ok(SuperscriptPunctuation::LeftParen)
    );
    assert_eq!(
        parse_superscript_punctuation("⁾"),
        Ok(SuperscriptPunctuation::RightParen)
    );
}

#[test]
fn test_lex_subscript_symbols() {}

#[test]
fn test_lex_mathematical_symbols() {
    assert_eq!(
        parse_symbol("¹²"),
        Ok(MathematicalSymbol::Power { exponent: 12 })
    );
    assert_eq!(
        parse_symbol("⁻⁵³"),
        Ok(MathematicalSymbol::Power { exponent: -53 })
    );
    assert_eq!(
        parse_symbol("⁺⁵³"),
        Ok(MathematicalSymbol::Power { exponent: 53 })
    );

    assert_eq!(
        parse_symbol("√"),
        Ok(MathematicalSymbol::Root { exponent: 2 })
    );
    assert_eq!(
        parse_symbol("²√"),
        Ok(MathematicalSymbol::Root { exponent: 2 })
    );
    assert_eq!(
        parse_symbol("¹²√"),
        Ok(MathematicalSymbol::Root { exponent: 12 })
    );
    assert_eq!(
        parse_symbol("⁻⁵³√"),
        Ok(MathematicalSymbol::Root { exponent: -53 })
    );
    assert_eq!(
        parse_symbol("⁺⁵³√"),
        Ok(MathematicalSymbol::Root { exponent: 53 })
    );
    assert_eq!(
        parse_symbol("∛"),
        Ok(MathematicalSymbol::Root { exponent: 3 })
    );
    assert_eq!(
        parse_symbol("∜"),
        Ok(MathematicalSymbol::Root { exponent: 4 })
    );

    assert_eq!(
        parse_symbol("÷"),
        Ok(MathematicalSymbol::Division)
    );
    assert_eq!(
        parse_symbol("∝"),
        Ok(MathematicalSymbol::ProportionalTo)
    );
    assert_eq!(
        parse_symbol("∩"),
        Ok(MathematicalSymbol::Intersection)
    );
    assert_eq!(
        parse_symbol("∪"),
        Ok(MathematicalSymbol::Union)
    );
    assert_eq!(
        parse_symbol("∫"),
        Ok(MathematicalSymbol::Integral)
    );
    assert_eq!(
        parse_symbol("∴"),
        Ok(MathematicalSymbol::Therefore)
    );
    assert_eq!(
        parse_symbol("∵"),
        Ok(MathematicalSymbol::Because)
    );
    assert_eq!(
        parse_symbol("≈"),
        Ok(MathematicalSymbol::ApproximatelyEqual)
    );
    assert_eq!(
        parse_symbol("≉"),
        Ok(MathematicalSymbol::NotApproximatelyEqual)
    );
    assert_eq!(
        parse_symbol("≡"),
        Ok(MathematicalSymbol::IdenticalTo)
    );
    assert_eq!(
        parse_symbol("≢"),
        Ok(MathematicalSymbol::NotIdenticalTo)
    );
    assert_eq!(
        parse_symbol("⊂"),
        Ok(MathematicalSymbol::SubsetOf)
    );
    assert_eq!(
        parse_symbol("⊃"),
        Ok(MathematicalSymbol::SupersetOf)
    );
    assert_eq!(
        parse_symbol("⊆"),
        Ok(MathematicalSymbol::SubsetOfOrEqualTo)
    );
    assert_eq!(
        parse_symbol("⊇"),
        Ok(MathematicalSymbol::SupersetOfOrEqualTo)
    );
}

#[test]
fn test_lex_character_and_string_literals() {
}

#[test]
fn test_lex_keywords() {
    assert_eq!(parse_keyword("as"), Ok(Keyword::As));
    assert_eq!(
        parse_keyword("break"),
        Ok(Keyword::Break)
    );
    assert_eq!(
        parse_keyword("const"),
        Ok(Keyword::Const)
    );
    assert_eq!(
        parse_keyword("continue"),
        Ok(Keyword::Continue)
    );
    assert_eq!(
        parse_keyword("crate"),
        Ok(Keyword::Reserved(ReservedKeyword::Crate))
    );
    assert_eq!(
        parse_keyword("else"),
        Ok(Keyword::Else)
    );
    assert_eq!(
        parse_keyword("enum"),
        Ok(Keyword::Enum)
    );
    assert_eq!(
        parse_keyword("extern"),
        Ok(Keyword::Reserved(ReservedKeyword::Extern))
    );
    assert_eq!(
        parse_keyword("false"),
        Ok(Keyword::False)
    );
    assert_eq!(
        parse_keyword("False"),
        Ok(Keyword::False)
    );
    assert_eq!(parse_keyword("fn"), Ok(Keyword::Fn));
    assert_eq!(parse_keyword("for"), Ok(Keyword::For));
    assert_eq!(parse_keyword("if"), Ok(Keyword::If));
    assert_eq!(
        parse_keyword("impl"),
        Ok(Keyword::Impl)
    );
    assert_eq!(parse_keyword("in"), Ok(Keyword::In));
    assert_eq!(
        parse_keyword("loop"),
        Ok(Keyword::Loop)
    );
    assert_eq!(
        parse_keyword("match"),
        Ok(Keyword::Match)
    );
    assert_eq!(
        parse_keyword("missing"),
        Ok(Keyword::Missing)
    );
    assert_eq!(
        parse_keyword("Missing"),
        Ok(Keyword::Missing)
    );
    assert_eq!(parse_keyword("mod"), Ok(Keyword::Mod));
    assert_eq!(parse_keyword("pub"), Ok(Keyword::Pub));
    assert_eq!(
        parse_keyword("return"),
        Ok(Keyword::Return)
    );
    assert_eq!(
        parse_keyword("self"),
        Ok(Keyword::SelfValue)
    );
    assert_eq!(
        parse_keyword("Self"),
        Ok(Keyword::SelfType)
    );
    assert_eq!(
        parse_keyword("static"),
        Ok(Keyword::Static)
    );
    assert_eq!(
        parse_keyword("struct"),
        Ok(Keyword::Struct)
    );
    assert_eq!(
        parse_keyword("super"),
        Ok(Keyword::Super)
    );
    assert_eq!(
        parse_keyword("trait"),
        Ok(Keyword::Trait)
    );
    assert_eq!(
        parse_keyword("true"),
        Ok(Keyword::True)
    );
    assert_eq!(
        parse_keyword("True"),
        Ok(Keyword::True)
    );
    assert_eq!(
        parse_keyword("type"),
        Ok(Keyword::Type)
    );
    assert_eq!(parse_keyword("use"), Ok(Keyword::Use));
    assert_eq!(
        parse_keyword("where"),
        Ok(Keyword::Where)
    );
    assert_eq!(
        parse_keyword("while"),
        Ok(Keyword::While)
    );
}

#[test]
fn text_lex_reserved_keywords() {
    assert_eq!(
        parse_keyword("abstract"),
        Ok(Keyword::Reserved(ReservedKeyword::Abstract))
    );
    assert_eq!(
        parse_keyword("async"),
        Ok(Keyword::Reserved(ReservedKeyword::Async))
    );
    assert_eq!(
        parse_keyword("await"),
        Ok(Keyword::Reserved(ReservedKeyword::Await))
    );
    assert_eq!(
        parse_keyword("crate"),
        Ok(Keyword::Reserved(ReservedKeyword::Crate))
    );
    assert_eq!(
        parse_keyword("do"),
        Ok(Keyword::Reserved(ReservedKeyword::Do))
    );
    assert_eq!(
        parse_keyword("dyn"),
        Ok(Keyword::Reserved(ReservedKeyword::Dyn))
    );
    assert_eq!(
        parse_keyword("export"),
        Ok(Keyword::Reserved(ReservedKeyword::Export))
    );
    assert_eq!(
        parse_keyword("extern"),
        Ok(Keyword::Reserved(ReservedKeyword::Extern))
    );
    assert_eq!(
        parse_keyword("final"),
        Ok(Keyword::Reserved(ReservedKeyword::Final))
    );
    assert_eq!(
        parse_keyword("import"),
        Ok(Keyword::Reserved(ReservedKeyword::Import))
    );
    assert_eq!(
        parse_keyword("let"),
        Ok(Keyword::Reserved(ReservedKeyword::Let))
    );
    assert_eq!(
        parse_keyword("macro"),
        Ok(Keyword::Reserved(ReservedKeyword::Macro))
    );
    assert_eq!(
        parse_keyword("move"),
        Ok(Keyword::Reserved(ReservedKeyword::Move))
    );
    assert_eq!(
        parse_keyword("mut"),
        Ok(Keyword::Reserved(ReservedKeyword::Mut))
    );
    assert_eq!(
        parse_keyword("override"),
        Ok(Keyword::Reserved(ReservedKeyword::Override))
    );
    assert_eq!(
        parse_keyword("priv"),
        Ok(Keyword::Reserved(ReservedKeyword::Priv))
    );
    assert_eq!(
        parse_keyword("proc"),
        Ok(Keyword::Reserved(ReservedKeyword::Proc))
    );
    assert_eq!(
        parse_keyword("ref"),
        Ok(Keyword::Reserved(ReservedKeyword::Ref))
    );
    assert_eq!(
        parse_keyword("typeof"),
        Ok(Keyword::Reserved(ReservedKeyword::Typeof))
    );
    assert_eq!(
        parse_keyword("unsafe"),
        Ok(Keyword::Reserved(ReservedKeyword::Unsafe))
    );
    assert_eq!(
        parse_keyword("unsized"),
        Ok(Keyword::Reserved(ReservedKeyword::Unsized))
    );
    assert_eq!(
        parse_keyword("virtual"),
        Ok(Keyword::Reserved(ReservedKeyword::Virtual))
    );
    assert_eq!(
        parse_keyword("yield"),
        Ok(Keyword::Reserved(ReservedKeyword::Yield))
    );
}

#[test]
fn test_lex_comments() {
    assert_eq!(
        classify_comment("//"),
        Ok(Comment::LineComment {
            comment: String::from("//"),
        })
    );

    assert_eq!(
        classify_comment("//   - Only a comment"),
        Ok(Comment::LineComment {
            comment: String::from("//   - Only a comment"),
        })
    );
    assert_eq!(
        classify_comment("// Hello, world!"),
        Ok(Comment::LineComment {
            comment: String::from("// Hello, world!"),
        })
    );
    assert_eq!(
        classify_comment("// Hello, \tworld!"),
        Ok(Comment::LineComment {
            comment: String::from("// Hello, \tworld!"),
        })
    );
    assert_eq!(
        classify_comment("// This is an incredibly long line comment that should be parsed \
                correctly. It should also be parsed correctly if it contains a \
                newline"),
        Ok(Comment::LineComment {
            comment: String::from(
                "// This is an incredibly long line comment that should be \
                 parsed correctly. It should also be parsed correctly if it \
                 contains a newline"
            ),
        })
    );
    assert!(classify_comment("// Hello, \nworld!")
        .is_err());

    assert_eq!(
        classify_comment("/* */"),
        Ok(Comment::BlockComment {
            comment: String::from("/* */"),
        })
    );
    assert_eq!(
        classify_comment("/**/"),
        Ok(Comment::BlockComment {
            comment: String::from("/**/"),
        })
    );
    assert_eq!(
        classify_comment("/***/"),
        Ok(Comment::BlockComment {
            comment: String::from("/***/"),
        })
    );
    assert_eq!(
        classify_comment("/*   - Only a comment */"),
        Ok(Comment::BlockComment {
            comment: String::from("/*   - Only a comment */"),
        })
    );
    assert_eq!(
        classify_comment("/*** - Only a comment */"),
        Ok(Comment::BlockComment {
            comment: String::from("/*** - Only a comment */"),
        })
    );
    assert_eq!(
        classify_comment("/* Hello, world! */"),
        Ok(Comment::BlockComment {
            comment: String::from("/* Hello, world! */"),
        })
    );
    assert_eq!(
        classify_comment("/* Hello, \tworld! */"),
        Ok(Comment::BlockComment {
            comment: String::from("/* Hello, \tworld! */"),
        })
    );
    assert_eq!(
        classify_comment("/* This is an incredibly long\nblock comment that should be \
                parsed correctly.\nIt should also be parsed correctly if it \
                contains a newline */"),
        Ok(Comment::BlockComment {
            comment: String::from(
                "/* This is an incredibly long\nblock comment that should be \
                 parsed correctly.\nIt should also be parsed correctly if it \
                 contains a newline */"
            ),
        })
    );

    assert_eq!(
        classify_comment("///"),
        Ok(Comment::DocComment(DocComment::OuterLineDocComment {
            comment: String::from("///"),
        }))
    );
    assert_eq!(
        classify_comment("///  - Outer line doc (exactly 3 slashes)"),
        Ok(Comment::DocComment(DocComment::OuterLineDocComment {
            comment: String::from("///  - Outer line doc (exactly 3 slashes)"),
        }))
    );
    assert_eq!(
        classify_comment("/// Hello, world!"),
        Ok(Comment::DocComment(DocComment::OuterLineDocComment {
            comment: String::from("/// Hello, world!"),
        }))
    );
    assert_eq!(
        classify_comment("/// Hello, \tworld!"),
        Ok(Comment::DocComment(DocComment::OuterLineDocComment {
            comment: String::from("/// Hello, \tworld!"),
        }))
    );
    assert_eq!(
        classify_comment("/// This is an incredibly long line comment that should be parsed \
                correctly. It should also be parsed correctly if it contains a \
                newline"),
        Ok(Comment::DocComment(DocComment::OuterLineDocComment {
            comment: String::from(
                "/// This is an incredibly long line comment that should be \
                 parsed correctly. It should also be parsed correctly if it \
                 contains a newline"
            ),
        }))
    );
    assert!(classify_comment("/// Hello, \nworld!")
        .is_err());
    assert!(classify_comment("//// Hello, \nworld!")
        .is_err());

    assert_eq!(
        classify_comment("//!"),
        Ok(Comment::DocComment(DocComment::InnerLineDocComment {
            comment: String::from("//!"),
        }))
    );
    assert_eq!(
        classify_comment("//! Hello, world!"),
        Ok(Comment::DocComment(DocComment::InnerLineDocComment {
            comment: String::from("//! Hello, world!"),
        }))
    );
    assert_eq!(
        classify_comment("//! Hello, \tworld!"),
        Ok(Comment::DocComment(DocComment::InnerLineDocComment {
            comment: String::from("//! Hello, \tworld!"),
        }))
    );
    assert_eq!(
        classify_comment("//! This is an incredibly long line comment that should be parsed \
                correctly. It should also be parsed correctly if it contains a \
                newline"),
        Ok(Comment::DocComment(DocComment::InnerLineDocComment {
            comment: String::from(
                "//! This is an incredibly long line comment that should be \
                 parsed correctly. It should also be parsed correctly if it \
                 contains a newline"
            ),
        }))
    );
    assert!(classify_comment("//! Hello, \nworld!")
        .is_err());
}

#[test]
fn test_lex_logic_literals() {
    assert_eq!(
        parse_logic_literal("true"),
        Ok(LogicLiteral::True { value: true })
    );
    assert_eq!(
        parse_logic_literal("True"),
        Ok(LogicLiteral::True { value: true })
    );
    assert_eq!(
        parse_logic_literal("false"),
        Ok(LogicLiteral::False { value: false })
    );
    assert_eq!(
        parse_logic_literal("False"),
        Ok(LogicLiteral::False { value: false })
    );
    assert_eq!(
        parse_logic_literal("missing"),
        Ok(LogicLiteral::Missing)
    );
    assert_eq!(
        parse_logic_literal("Missing"),
        Ok(LogicLiteral::Missing)
    );
}
