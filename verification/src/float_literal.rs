//! Real-number literals: decimal digits, a point with an optional fraction,
//! an optional exponent and an optional suffix. The point and fraction may be
//! left out where an exponent follows the digits (`12E+99`).
//!
//! An exponent is a marker `e` or `E`, a sign, and a run of digits and
//! separators that holds at least one digit.

use vstd::prelude::*;
use vstd::slice::slice_subrange;
use crate::ast::{Float, FloatSuffix};
use crate::digits::{
    all_digits_or_underscores,
    check_digits_or_underscores,
    digit_of,
    digit_run_end,
    filter_underscores,
    has_digit,
    is_digit,
    is_digit_or_underscore,
    lemma_digit_run,
    lemma_digit_run_ends,
    lemma_filter_only_underscores,
    lemma_filter_without_underscores,
    lemma_radix_round_trip,
    scan_digit_run,
    strip_underscores,
    Radix,
};
use crate::parser_errors::InternalParserError;
use crate::text::{spells, string_from_chars, to_chars};

verus! {

/// What a real-number literal is to the contracts: its precision and its
/// value in decimal notation.
pub struct FloatView {
    pub suffix: FloatSuffix,
    pub decimal: Seq<char>,
}

impl View for Float {
    type V = FloatView;

    open spec fn view(&self) -> FloatView {
        FloatView { suffix: self.suffix(), decimal: self.decimal() }
    }
}

impl FloatSuffix {
    /// How the suffix is written.
    pub open spec fn spelling(self) -> Seq<char> {
        match self {
            FloatSuffix::F32 => "f32"@,
            FloatSuffix::F64 => "f64"@,
        }
    }

    /// How the suffix is written.
    pub fn lexeme(self) -> (word: &'static str)
        ensures
            word@ == self.spelling(),
    {
        match self {
            FloatSuffix::F32 => "f32",
            FloatSuffix::F64 => "f64",
        }
    }
}

impl Float {
    /// The decimal notation is itself a literal, without separators and
    /// without suffix.
    pub open spec fn well_formed(&self) -> bool {
        float_literal(self.decimal()) == Ok::<FloatView, InternalParserError>(
            FloatView { suffix: FloatSuffix::F64, decimal: self.decimal() },
        )
    }
}

/// `c` opens an exponent.
pub open spec fn is_exponent_marker(c: char) -> bool {
    c == 'e' || c == 'E'
}

/// `c` is a sign.
pub open spec fn is_sign(c: char) -> bool {
    c == '+' || c == '-'
}

/// At least one character of `s` is a decimal digit.
pub open spec fn holds_digit(s: Seq<char>) -> bool {
    exists|i: int| 0 <= i < s.len() && is_digit(Radix::Decimal, #[trigger] s[i])
}

/// An exponent standing alone: marker, sign, then digits and separators to
/// the end of the text. With no digit among them the exponent is invalid;
/// otherwise the text is handed back as it is.
pub open spec fn float_exponent(text: Seq<char>) -> Result<Seq<char>, InternalParserError> {
    if text.len() < 2 || !is_exponent_marker(text[0]) || !is_sign(text[1]) {
        Err(InternalParserError::UnrecognizedLexeme)
    } else if !all_digits_or_underscores(text.skip(2), Radix::Decimal) {
        Err(InternalParserError::UnrecognizedLexeme)
    } else if !holds_digit(text.skip(2)) {
        Err(InternalParserError::InvalidFloatExponent)
    } else {
        Ok(text)
    }
}

/// The literal whose digits, point, fraction and exponent end at `end`: what
/// follows must be nothing or a suffix. Without a suffix the precision is
/// double.
pub open spec fn float_with_suffix(text: Seq<char>, end: int) -> Result<
    FloatView,
    InternalParserError,
> {
    let decimal = filter_underscores(text.take(end));
    let rest = text.skip(end);
    if rest.len() == 0 || rest == "f64"@ {
        Ok(FloatView { suffix: FloatSuffix::F64, decimal })
    } else if rest == "f32"@ {
        Ok(FloatView { suffix: FloatSuffix::F32, decimal })
    } else {
        Err(InternalParserError::UnrecognizedLexeme)
    }
}

/// Where the fraction ends: after the point, if there is one at `int_end`,
/// and after the digits and separators that follow it, if they begin with a
/// digit.
pub open spec fn fraction_end(text: Seq<char>, int_end: int) -> int {
    if int_end < text.len() && text[int_end] == '.' {
        if int_end + 1 < text.len() && is_digit(Radix::Decimal, text[int_end + 1]) {
            digit_run_end(text, int_end + 1, Radix::Decimal)
        } else {
            int_end + 1
        }
    } else {
        int_end
    }
}

/// A real-number literal, read from the left: the integer digits, the point
/// and fraction, the exponent, the suffix.
pub open spec fn float_literal(text: Seq<char>) -> Result<FloatView, InternalParserError> {
    if text.len() == 0 || !is_digit(Radix::Decimal, text[0]) {
        Err(InternalParserError::UnrecognizedLexeme)
    } else {
        let int_end = digit_run_end(text, 0, Radix::Decimal);
        let frac_end = fraction_end(text, int_end);
        if frac_end < text.len() && is_exponent_marker(text[frac_end]) {
            if frac_end + 1 < text.len() && is_sign(text[frac_end + 1]) {
                let exp_end = digit_run_end(text, frac_end + 2, Radix::Decimal);
                if holds_digit(text.subrange(frac_end + 2, exp_end)) {
                    float_with_suffix(text, exp_end)
                } else {
                    Err(InternalParserError::InvalidFloatExponent)
                }
            } else {
                Err(InternalParserError::UnrecognizedLexeme)
            }
        } else if frac_end == int_end {
            Err(InternalParserError::UnrecognizedLexeme)
        } else {
            float_with_suffix(text, frac_end)
        }
    }
}

/// The result of the recognizer, as the contracts see it.
pub open spec fn float_result_view(r: Result<Float, InternalParserError>) -> Result<
    FloatView,
    InternalParserError,
> {
    match r {
        Ok(f) => Ok(f@),
        Err(e) => Err(e),
    }
}

/// Recognizes an exponent marker standing alone.
pub fn parse_exponential_symbol(text: &str) -> (r: Result<char, InternalParserError>)
    ensures
        match r {
            Ok(c) => text@ == seq![c] && is_exponent_marker(c),
            Err(e) => e == InternalParserError::UnrecognizedLexeme && !(text@.len() == 1
                && is_exponent_marker(text@[0])),
        },
{
    let chars = to_chars(text);
    if chars.len() == 1 && (chars[0] == 'e' || chars[0] == 'E') {
        assert(text@ =~= seq![chars@[0]]);
        Ok(chars[0])
    } else {
        Err(InternalParserError::UnrecognizedLexeme)
    }
}

/// Recognizes a sign standing alone.
pub fn parse_plus_or_minus_sign(text: &str) -> (r: Result<char, InternalParserError>)
    ensures
        match r {
            Ok(c) => text@ == seq![c] && is_sign(c),
            Err(e) => e == InternalParserError::UnrecognizedLexeme && !(text@.len() == 1 && is_sign(
                text@[0],
            )),
        },
{
    let chars = to_chars(text);
    if chars.len() == 1 && (chars[0] == '+' || chars[0] == '-') {
        assert(text@ =~= seq![chars@[0]]);
        Ok(chars[0])
    } else {
        Err(InternalParserError::UnrecognizedLexeme)
    }
}

/// Recognizes a suffix of a real-number literal standing alone.
pub fn parse_float_suffix(text: &str) -> (r: Result<FloatSuffix, InternalParserError>)
    ensures
        match r {
            Ok(suffix) => text@ == suffix.spelling(),
            Err(e) => e == InternalParserError::UnrecognizedLexeme && text@ != "f32"@ && text@
                != "f64"@,
        },
{
    let chars = to_chars(text);
    if spells(chars.as_slice(), "f32") {
        Ok(FloatSuffix::F32)
    } else if spells(chars.as_slice(), "f64") {
        Ok(FloatSuffix::F64)
    } else {
        Err(InternalParserError::UnrecognizedLexeme)
    }
}

/// Recognizes an exponent standing alone and hands its text back.
pub fn parse_float_exponent(text: &str) -> (r: Result<String, InternalParserError>)
    ensures
        match r {
            Ok(exponent) => float_exponent(text@) == Ok::<Seq<char>, InternalParserError>(
                exponent@,
            ),
            Err(e) => float_exponent(text@) == Err::<Seq<char>, InternalParserError>(e),
        },
{
    let chars = to_chars(text);
    if chars.len() < 2 || !(chars[0] == 'e' || chars[0] == 'E') || !(chars[1] == '+' || chars[1]
        == '-') {
        return Err(InternalParserError::UnrecognizedLexeme);
    }
    let run = slice_subrange(chars.as_slice(), 2, chars.len());
    assert(run@ =~= text@.skip(2));
    if !check_digits_or_underscores(run, Radix::Decimal) {
        return Err(InternalParserError::UnrecognizedLexeme);
    }
    if !has_digit(run, Radix::Decimal) {
        return Err(InternalParserError::InvalidFloatExponent);
    }
    Ok(text.to_owned())
}

/// Reads the suffix after position `end` and builds the literal.
fn finish_float(chars: &[char], end: usize) -> (r: Result<Float, InternalParserError>)
    requires
        end <= chars@.len(),
    ensures
        float_result_view(r) == float_with_suffix(chars@, end as int),
{
    let rest = slice_subrange(chars, end, chars.len());
    assert(rest@ =~= chars@.skip(end as int));
    let single = if rest.len() == 0 || spells(rest, "f64") {
        false
    } else if spells(rest, "f32") {
        true
    } else {
        return Err(InternalParserError::UnrecognizedLexeme);
    };
    let head = slice_subrange(chars, 0, end);
    assert(head@ =~= chars@.take(end as int));
    let bare = strip_underscores(head);
    let decimal = string_from_chars(bare.as_slice());
    if single {
        Ok(Float::F32 { decimal })
    } else {
        Ok(Float::F64 { decimal })
    }
}

/// Reads a real-number literal. The value comes back in decimal notation with
/// the separators and the suffix taken out.
pub fn parse_float_literal(text: &str) -> (r: Result<Float, InternalParserError>)
    ensures
        float_result_view(r) == float_literal(text@),
        r matches Ok(literal) ==> literal.well_formed(),
{
    proof {
        lemma_decimal_is_literal(text@);
    }
    let chars = to_chars(text);
    let s = chars.as_slice();
    if s.len() == 0 || digit_of(Radix::Decimal, s[0]).is_none() {
        return Err(InternalParserError::UnrecognizedLexeme);
    }
    let int_end = scan_digit_run(s, 0, Radix::Decimal);
    let frac_end = if int_end < s.len() && s[int_end] == '.' {
        if int_end + 1 < s.len() && digit_of(Radix::Decimal, s[int_end + 1]).is_some() {
            scan_digit_run(s, int_end + 1, Radix::Decimal)
        } else {
            int_end + 1
        }
    } else {
        int_end
    };
    if frac_end < s.len() && (s[frac_end] == 'e' || s[frac_end] == 'E') {
        if frac_end + 1 < s.len() && (s[frac_end + 1] == '+' || s[frac_end + 1] == '-') {
            let exp_end = scan_digit_run(s, frac_end + 2, Radix::Decimal);
            let run = slice_subrange(s, frac_end + 2, exp_end);
            if has_digit(run, Radix::Decimal) {
                finish_float(s, exp_end)
            } else {
                Err(InternalParserError::InvalidFloatExponent)
            }
        } else {
            Err(InternalParserError::UnrecognizedLexeme)
        }
    } else if frac_end == int_end {
        Err(InternalParserError::UnrecognizedLexeme)
    } else {
        finish_float(s, frac_end)
    }
}

/// The exponent needs a digit. Where the digits, point and fraction of a
/// literal are followed by an exponent marker and a sign, and nothing but
/// separators stands after the sign, the literal is refused as an invalid
/// exponent. Where digits and separators stand after the sign to the end of
/// the text, with a digit among them, the literal is read, with the whole text
/// less its separators as its decimal notation.
pub proof fn lemma_exponent_digit_requirement(text: Seq<char>, marker_at: int)
    requires
        text.len() > 0,
        is_digit(Radix::Decimal, text[0]),
        marker_at == fraction_end(text, digit_run_end(text, 0, Radix::Decimal)),
        marker_at + 1 < text.len(),
        is_exponent_marker(text[marker_at]),
        is_sign(text[marker_at + 1]),
        all_digits_or_underscores(text.skip(marker_at + 2), Radix::Decimal),
    ensures
        !holds_digit(text.skip(marker_at + 2)) ==> float_literal(text) == Err::<
            FloatView,
            InternalParserError,
        >(InternalParserError::InvalidFloatExponent),
        holds_digit(text.skip(marker_at + 2)) ==> float_literal(text) == Ok::<
            FloatView,
            InternalParserError,
        >(FloatView { suffix: FloatSuffix::F64, decimal: filter_underscores(text) }),
{
    let start = marker_at + 2;
    let run = text.skip(start);
    lemma_digit_run(text, 0, Radix::Decimal);
    let int_end = digit_run_end(text, 0, Radix::Decimal);
    if int_end < text.len() && text[int_end] == '.' && int_end + 1 < text.len() && is_digit(
        Radix::Decimal,
        text[int_end + 1],
    ) {
        lemma_digit_run(text, int_end + 1, Radix::Decimal);
    }
    lemma_digit_run(text, start, Radix::Decimal);
    let exp_end = digit_run_end(text, start, Radix::Decimal);
    if exp_end < text.len() {
        assert(run[exp_end - start] == text[exp_end]);
    }
    assert(exp_end == text.len());
    assert(text.subrange(start, exp_end) =~= run);
    assert(text.take(exp_end) =~= text);
    assert(text.skip(exp_end).len() == 0);
}

/// An exponent standing alone is read exactly where a digit stands among the
/// digits and separators after its sign; with separators alone, or with
/// nothing, it is an invalid exponent.
pub proof fn lemma_exponent_alone(marker: char, sign: char, run: Seq<char>)
    requires
        is_exponent_marker(marker),
        is_sign(sign),
        all_digits_or_underscores(run, Radix::Decimal),
    ensures
        float_exponent(seq![marker, sign] + run) == if holds_digit(run) {
            Ok::<Seq<char>, InternalParserError>(seq![marker, sign] + run)
        } else {
            Err(InternalParserError::InvalidFloatExponent)
        },
{
    let text = seq![marker, sign] + run;
    assert(text.skip(2) =~= run);
}

/// Decimal digits: a digit, then digits and separators.
pub open spec fn is_decimal_digits(s: Seq<char>) -> bool {
    s.len() > 0 && is_digit(Radix::Decimal, s[0]) && all_digits_or_underscores(s, Radix::Decimal)
}

/// The precision that the text after a literal names; double where the text
/// is empty.
pub open spec fn float_suffix_named(s: Seq<char>) -> Option<FloatSuffix> {
    if s.len() == 0 || s == "f64"@ {
        Some(FloatSuffix::F64)
    } else if s == "f32"@ {
        Some(FloatSuffix::F32)
    } else {
        None
    }
}

/// The grammar of a real-number literal, part by part: decimal digits; a
/// point, which may be left out only where no fraction and an exponent
/// follow; an optional fraction of decimal digits; an optional exponent; an
/// optional suffix.
pub open spec fn float_parts(
    int_part: Seq<char>,
    point: Seq<char>,
    frac_part: Seq<char>,
    exponent: Seq<char>,
    suffix: Seq<char>,
) -> bool {
    &&& is_decimal_digits(int_part)
    &&& point == seq!['.'] || (point.len() == 0 && frac_part.len() == 0 && exponent.len() > 0)
    &&& frac_part.len() == 0 || is_decimal_digits(frac_part)
    &&& exponent.len() == 0 || float_exponent(exponent) is Ok
    &&& float_suffix_named(suffix) is Some
}

/// `text` is made of the parts of a real-number literal.
pub open spec fn is_float_text(text: Seq<char>) -> bool {
    exists|
        int_part: Seq<char>,
        point: Seq<char>,
        frac_part: Seq<char>,
        exponent: Seq<char>,
        suffix: Seq<char>,
    |
        #[trigger] float_parts(int_part, point, frac_part, exponent, suffix) && text == int_part
            + point + frac_part + exponent + suffix
}

/// The grammar is read in full. The parts of a literal, written one after
/// the other, make a literal of the precision that the suffix names. Its
/// decimal notation is the text before the suffix, less the separators.
pub proof fn lemma_float_grammar(
    int_part: Seq<char>,
    point: Seq<char>,
    frac_part: Seq<char>,
    exponent: Seq<char>,
    suffix: Seq<char>,
)
    requires
        float_parts(int_part, point, frac_part, exponent, suffix),
    ensures
        float_literal(int_part + point + frac_part + exponent + suffix) == Ok::<
            FloatView,
            InternalParserError,
        >(
            FloatView {
                suffix: float_suffix_named(suffix).unwrap(),
                decimal: filter_underscores(int_part + point + frac_part + exponent),
            },
        ),
{
    reveal_strlit("f32");
    reveal_strlit("f64");
    let text = int_part + point + frac_part + exponent + suffix;
    let a = int_part.len() as int;
    let b = a + point.len();
    let c = b + frac_part.len();
    let d = c + exponent.len();
    assert(text.len() == d + suffix.len());
    assert forall|i: int| 0 <= i < a implies text[i] == int_part[i] by {}
    assert forall|i: int| a <= i < b implies text[i] == point[i - a] by {}
    assert forall|i: int| b <= i < c implies text[i] == frac_part[i - b] by {}
    assert forall|i: int| c <= i < d implies text[i] == exponent[i - c] by {}
    assert forall|i: int| d <= i < text.len() implies text[i] == suffix[i - d] by {}
    if suffix.len() > 0 {
        assert(suffix[0] == 'f');
        assert(text[d] == 'f');
    }
    if exponent.len() > 0 {
        assert(is_exponent_marker(exponent[0]));
        assert(text[c] == exponent[0]);
        assert(text[c + 1] == exponent[1]);
    }
    // The integer digits end where the point, the exponent or the suffix begins.
    assert forall|i: int| 0 <= i < a implies is_digit_or_underscore(
        Radix::Decimal,
        #[trigger] text[i],
    ) by {
        assert(is_digit_or_underscore(Radix::Decimal, int_part[i]));
    }
    lemma_digit_run_ends(text, 0, a, Radix::Decimal);
    // The fraction ends where the exponent or the suffix begins.
    if point.len() > 0 {
        assert(text[a] == '.');
        assert forall|i: int| b <= i < c implies is_digit_or_underscore(
            Radix::Decimal,
            #[trigger] text[i],
        ) by {
            assert(is_digit_or_underscore(Radix::Decimal, frac_part[i - b]));
        }
        if frac_part.len() > 0 {
            assert(text[b] == frac_part[0]);
            lemma_digit_run_ends(text, b, c, Radix::Decimal);
        }
    }
    assert(fraction_end(text, a) == c);
    let end = d;
    if exponent.len() > 0 {
        let run = exponent.skip(2);
        assert forall|i: int| c + 2 <= i < d implies is_digit_or_underscore(
            Radix::Decimal,
            #[trigger] text[i],
        ) by {
            assert(run[i - c - 2] == exponent[i - c]);
            assert(is_digit_or_underscore(Radix::Decimal, run[i - c - 2]));
        }
        lemma_digit_run_ends(text, c + 2, d, Radix::Decimal);
        assert(text.subrange(c + 2, d) =~= run);
    }
    assert(text.take(end) =~= int_part + point + frac_part + exponent);
    assert(text.skip(end) =~= suffix);
}

/// Nothing but the grammar is read. A text is read as a real-number literal
/// exactly where it is made of the parts of one.
pub proof fn lemma_float_literal_is_grammar(text: Seq<char>)
    ensures
        float_literal(text) is Ok <==> is_float_text(text),
{
    if is_float_text(text) {
        let (int_part, point, frac_part, exponent, suffix) = choose|
            int_part: Seq<char>,
            point: Seq<char>,
            frac_part: Seq<char>,
            exponent: Seq<char>,
            suffix: Seq<char>,
        |
            #[trigger] float_parts(int_part, point, frac_part, exponent, suffix) && text
                == int_part + point + frac_part + exponent + suffix;
        lemma_float_grammar(int_part, point, frac_part, exponent, suffix);
    }
    if float_literal(text) is Ok {
        let a = digit_run_end(text, 0, Radix::Decimal);
        lemma_digit_run(text, 0, Radix::Decimal);
        let c = fraction_end(text, a);
        let pointed = a < text.len() && text[a] == '.';
        if pointed && a + 1 < text.len() && is_digit(Radix::Decimal, text[a + 1]) {
            lemma_digit_run(text, a + 1, Radix::Decimal);
        }
        let b = if pointed {
            a + 1
        } else {
            a
        };
        let marked = c < text.len() && is_exponent_marker(text[c]);
        if marked {
            lemma_digit_run(text, c + 2, Radix::Decimal);
        }
        let d = if marked {
            digit_run_end(text, c + 2, Radix::Decimal)
        } else {
            c
        };
        let int_part = text.subrange(0, a);
        let point = text.subrange(a, b);
        let frac_part = text.subrange(b, c);
        let exponent = text.subrange(c, d);
        let suffix = text.skip(d);
        assert(int_part[0] == text[0]);
        assert(is_decimal_digits(int_part));
        if pointed {
            assert(point =~= seq!['.']);
            if frac_part.len() > 0 {
                assert(frac_part[0] == text[b]);
            }
        }
        if marked {
            assert(exponent[0] == text[c]);
            assert(exponent[1] == text[c + 1]);
            assert(exponent.skip(2) =~= text.subrange(c + 2, d));
            assert(float_exponent(exponent) is Ok);
        }
        assert(float_parts(int_part, point, frac_part, exponent, suffix));
        assert(text =~= int_part + point + frac_part + exponent + suffix);
    }
}

/// Decimal digits less their separators are decimal digits, and hold no
/// separator.
proof fn lemma_filter_decimal_digits(s: Seq<char>)
    requires
        is_decimal_digits(s),
    ensures
        is_decimal_digits(filter_underscores(s)),
        filter_underscores(filter_underscores(s)) == filter_underscores(s),
{
    let keep = |x: char| x != '_';
    let first = seq![s[0]];
    let rest = s.skip(1);
    assert(first + rest =~= s);
    Seq::filter_distributes_over_add(first, rest, keep);
    lemma_filter_without_underscores(first);
    assert(filter_underscores(s)[0] == s[0]);
    lemma_radix_round_trip(s, Radix::Decimal);
    let bare = filter_underscores(s);
    assert forall|i: int| 0 <= i < bare.len() implies is_digit_or_underscore(
        Radix::Decimal,
        #[trigger] bare[i],
    ) && bare[i] != '_' by {
        assert(is_digit(Radix::Decimal, bare[i]));
    }
    lemma_filter_without_underscores(bare);
}

/// An exponent less its separators is an exponent, and holds no separator.
proof fn lemma_filter_exponent(exponent: Seq<char>)
    requires
        float_exponent(exponent) is Ok,
    ensures
        float_exponent(filter_underscores(exponent)) is Ok,
        filter_underscores(filter_underscores(exponent)) == filter_underscores(exponent),
{
    let keep = |x: char| x != '_';
    let head = seq![exponent[0], exponent[1]];
    let run = exponent.skip(2);
    assert(head + run =~= exponent);
    Seq::filter_distributes_over_add(head, run, keep);
    lemma_filter_without_underscores(head);
    lemma_radix_round_trip(run, Radix::Decimal);
    let bare = filter_underscores(run);
    let k = choose|k: int| 0 <= k < run.len() && is_digit(Radix::Decimal, #[trigger] run[k]);
    run.lemma_filter_contains(keep, k);
    let j = choose|j: int| 0 <= j < bare.len() && bare[j] == run[k];
    assert(is_digit(Radix::Decimal, bare[j]));
    assert(holds_digit(bare));
    assert forall|i: int| 0 <= i < bare.len() implies is_digit_or_underscore(
        Radix::Decimal,
        #[trigger] bare[i],
    ) && bare[i] != '_' by {
        assert(is_digit(Radix::Decimal, bare[i]));
    }
    let whole = head + bare;
    assert(whole.skip(2) =~= bare);
    assert(whole[0] == exponent[0] && whole[1] == exponent[1]);
    assert forall|i: int| 0 <= i < whole.len() implies #[trigger] whole[i] != '_' by {
        if i >= 2 {
            assert(whole[i] == bare[i - 2]);
        }
    }
    lemma_filter_without_underscores(whole);
}

/// The decimal notation of a literal is itself a literal: it is read again,
/// as a double, with itself as its decimal notation.
pub proof fn lemma_decimal_is_literal(text: Seq<char>)
    ensures
        float_literal(text) matches Ok(view) ==> float_literal(view.decimal) == Ok::<
            FloatView,
            InternalParserError,
        >(FloatView { suffix: FloatSuffix::F64, decimal: view.decimal }),
{
    if float_literal(text) is Ok {
        lemma_float_literal_is_grammar(text);
        let (int_part, point, frac_part, exponent, suffix) = choose|
            int_part: Seq<char>,
            point: Seq<char>,
            frac_part: Seq<char>,
            exponent: Seq<char>,
            suffix: Seq<char>,
        |
            #[trigger] float_parts(int_part, point, frac_part, exponent, suffix) && text
                == int_part + point + frac_part + exponent + suffix;
        lemma_float_grammar(int_part, point, frac_part, exponent, suffix);
        let keep = |x: char| x != '_';
        let none = Seq::<char>::empty();
        Seq::filter_distributes_over_add(int_part + point + frac_part, exponent, keep);
        Seq::filter_distributes_over_add(int_part + point, frac_part, keep);
        Seq::filter_distributes_over_add(int_part, point, keep);
        lemma_filter_decimal_digits(int_part);
        if point.len() > 0 {
            lemma_filter_without_underscores(point);
        } else {
            lemma_filter_only_underscores(point);
        }
        if frac_part.len() > 0 {
            lemma_filter_decimal_digits(frac_part);
        } else {
            lemma_filter_only_underscores(frac_part);
        }
        if exponent.len() > 0 {
            lemma_filter_exponent(exponent);
        } else {
            lemma_filter_only_underscores(exponent);
        }
        let i2 = filter_underscores(int_part);
        let p2 = filter_underscores(point);
        let f2 = filter_underscores(frac_part);
        let e2 = filter_underscores(exponent);
        let decimal = i2 + p2 + f2 + e2;
        assert(float_parts(i2, p2, f2, e2, none));
        lemma_float_grammar(i2, p2, f2, e2, none);
        assert(decimal + none =~= decimal);
        Seq::filter_distributes_over_add(i2 + p2 + f2, e2, keep);
        Seq::filter_distributes_over_add(i2 + p2, f2, keep);
        Seq::filter_distributes_over_add(i2, p2, keep);
    }
}

} // verus!
