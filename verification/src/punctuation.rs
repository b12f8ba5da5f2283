//! Punctuation and delimiters.
//!
//! Every operator has one spelling; some have a second one, a Unicode glyph
//! or, for `!`, the word `not`. The fat left arrow is written as a glyph
//! only.

use vstd::prelude::*;
use vstd::slice::slice_subrange;
use crate::ast::{Delimiter, Punctuation};
use crate::parser_errors::InternalParserError;
use crate::text::{spells, to_chars};

verus! {

impl Punctuation {
    /// The first spelling of the operator.
    pub open spec fn spelling(self) -> Seq<char> {
        match self {
            Punctuation::Plus => "+"@,
            Punctuation::Minus => "-"@,
            Punctuation::Star => "*"@,
            Punctuation::Slash => "/"@,
            Punctuation::Backslash => "\\"@,
            Punctuation::Percent => "%"@,
            Punctuation::Caret => "^"@,
            Punctuation::Not => "!"@,
            Punctuation::And => "&"@,
            Punctuation::Or => "|"@,
            Punctuation::AndAnd => "&&"@,
            Punctuation::OrOr => "||"@,
            Punctuation::PlusEquals => "+="@,
            Punctuation::MinusEquals => "-="@,
            Punctuation::StarEquals => "*="@,
            Punctuation::SlashEquals => "/="@,
            Punctuation::PercentEquals => "%="@,
            Punctuation::CaretEquals => "^="@,
            Punctuation::AndEquals => "&="@,
            Punctuation::OrEquals => "|="@,
            Punctuation::Equals => "="@,
            Punctuation::DoubleEquals => "=="@,
            Punctuation::NotEqual => "!="@,
            Punctuation::LessThan => "<"@,
            Punctuation::LessThanEqual => "<="@,
            Punctuation::GreaterThan => ">"@,
            Punctuation::GreaterThanEqual => ">="@,
            Punctuation::Underscore => "_"@,
            Punctuation::Dot => "."@,
            Punctuation::DotDot => ".."@,
            Punctuation::DotDotDot => "..."@,
            Punctuation::DotDotEquals => "..="@,
            Punctuation::Comma => ","@,
            Punctuation::Colon => ":"@,
            Punctuation::Semicolon => ";"@,
            Punctuation::PathSeparator => "::"@,
            Punctuation::RightArrow => "->"@,
            Punctuation::LeftArrow => "<-"@,
            Punctuation::FatRightArrow => "=>"@,
            Punctuation::FatLeftArrow => "\u{21D0}"@,
            Punctuation::Pound => "#"@,
            Punctuation::Dollar => "$"@,
            Punctuation::Question => "?"@,
            Punctuation::Apostrophe => "'"@,
            Punctuation::Quote => "\""@,
        }
    }

    /// The second spelling of the operator, where it has one.
    pub open spec fn alias(self) -> Option<Seq<char>> {
        match self {
            Punctuation::Not => Some("not"@),
            Punctuation::NotEqual => Some("\u{2260}"@),
            Punctuation::LessThanEqual => Some("\u{2264}"@),
            Punctuation::GreaterThanEqual => Some("\u{2265}"@),
            Punctuation::RightArrow => Some("\u{2192}"@),
            Punctuation::LeftArrow => Some("\u{2190}"@),
            Punctuation::FatRightArrow => Some("\u{21D2}"@),
            _ => None,
        }
    }

    /// `text` is one of the spellings of the operator.
    pub open spec fn is_spelled(self, text: Seq<char>) -> bool {
        text == self.spelling() || self.alias() == Some(text)
    }
}

/// The operator that `text` spells, if it spells one.
pub open spec fn punctuation_of(text: Seq<char>) -> Option<Punctuation> {
    if exists|p: Punctuation| p.is_spelled(text) {
        Some(choose|p: Punctuation| p.is_spelled(text))
    } else {
        None
    }
}

/// Of two spelled operators: a spelling has one to three characters; one
/// text spells one operator only; and where one text is the beginning of
/// the other, longer one, the two operators differ.
pub proof fn lemma_spelling_laws(p: Punctuation, a: Seq<char>, q: Punctuation, b: Seq<char>)
    requires
        p.is_spelled(a),
        q.is_spelled(b),
    ensures
        1 <= a.len() <= 3,
        a == b ==> p == q,
        a.is_prefix_of(b) && a != b ==> p != q,
{
    reveal_strlit("+");
    reveal_strlit("-");
    reveal_strlit("*");
    reveal_strlit("/");
    reveal_strlit("\\");
    reveal_strlit("%");
    reveal_strlit("^");
    reveal_strlit("!");
    reveal_strlit("not");
    reveal_strlit("&");
    reveal_strlit("|");
    reveal_strlit("&&");
    reveal_strlit("||");
    reveal_strlit("+=");
    reveal_strlit("-=");
    reveal_strlit("*=");
    reveal_strlit("/=");
    reveal_strlit("%=");
    reveal_strlit("^=");
    reveal_strlit("&=");
    reveal_strlit("|=");
    reveal_strlit("=");
    reveal_strlit("==");
    reveal_strlit("!=");
    reveal_strlit("\u{2260}");
    reveal_strlit("<");
    reveal_strlit("<=");
    reveal_strlit("\u{2264}");
    reveal_strlit(">");
    reveal_strlit(">=");
    reveal_strlit("\u{2265}");
    reveal_strlit("_");
    reveal_strlit(".");
    reveal_strlit("..");
    reveal_strlit("...");
    reveal_strlit("..=");
    reveal_strlit(",");
    reveal_strlit(":");
    reveal_strlit(";");
    reveal_strlit("::");
    reveal_strlit("->");
    reveal_strlit("\u{2192}");
    reveal_strlit("<-");
    reveal_strlit("\u{2190}");
    reveal_strlit("=>");
    reveal_strlit("\u{21D2}");
    reveal_strlit("\u{21D0}");
    reveal_strlit("#");
    reveal_strlit("$");
    reveal_strlit("?");
    reveal_strlit("'");
    reveal_strlit("\"");
    // A text that begins another agrees with it character by character.
    let head = b.subrange(0, a.len() as int);
    assert(a.len() >= 1 && b.len() >= 1);
    assert(a.len() <= 3 && b.len() <= 3);
    if a.is_prefix_of(b) {
        assert(a[0] == head[0]);
        if a.len() > 1 {
            assert(a[1] == head[1]);
        }
        if a.len() > 2 {
            assert(a[2] == head[2]);
        }
        assert(a[0] == b[0]);
        assert(a.len() > 1 ==> a[1] == b[1]);
        assert(a.len() > 2 ==> a[2] == b[2]);
    }
}

/// Looks the text up among the spellings.
fn punctuation_spelled(s: &[char]) -> (found: Option<Punctuation>)
    ensures
        match found {
            Some(p) => p.is_spelled(s@),
            None => forall|p: Punctuation| !p.is_spelled(s@),
        },
{
    if spells(s, "+") {
        Some(Punctuation::Plus)
    } else if spells(s, "-") {
        Some(Punctuation::Minus)
    } else if spells(s, "*") {
        Some(Punctuation::Star)
    } else if spells(s, "/") {
        Some(Punctuation::Slash)
    } else if spells(s, "\\") {
        Some(Punctuation::Backslash)
    } else if spells(s, "%") {
        Some(Punctuation::Percent)
    } else if spells(s, "^") {
        Some(Punctuation::Caret)
    } else if spells(s, "!") || spells(s, "not") {
        Some(Punctuation::Not)
    } else if spells(s, "&") {
        Some(Punctuation::And)
    } else if spells(s, "|") {
        Some(Punctuation::Or)
    } else if spells(s, "&&") {
        Some(Punctuation::AndAnd)
    } else if spells(s, "||") {
        Some(Punctuation::OrOr)
    } else if spells(s, "+=") {
        Some(Punctuation::PlusEquals)
    } else if spells(s, "-=") {
        Some(Punctuation::MinusEquals)
    } else if spells(s, "*=") {
        Some(Punctuation::StarEquals)
    } else if spells(s, "/=") {
        Some(Punctuation::SlashEquals)
    } else if spells(s, "%=") {
        Some(Punctuation::PercentEquals)
    } else if spells(s, "^=") {
        Some(Punctuation::CaretEquals)
    } else if spells(s, "&=") {
        Some(Punctuation::AndEquals)
    } else if spells(s, "|=") {
        Some(Punctuation::OrEquals)
    } else if spells(s, "=") {
        Some(Punctuation::Equals)
    } else if spells(s, "==") {
        Some(Punctuation::DoubleEquals)
    } else if spells(s, "!=") || spells(s, "\u{2260}") {
        Some(Punctuation::NotEqual)
    } else if spells(s, "<") {
        Some(Punctuation::LessThan)
    } else if spells(s, "<=") || spells(s, "\u{2264}") {
        Some(Punctuation::LessThanEqual)
    } else if spells(s, ">") {
        Some(Punctuation::GreaterThan)
    } else if spells(s, ">=") || spells(s, "\u{2265}") {
        Some(Punctuation::GreaterThanEqual)
    } else if spells(s, "_") {
        Some(Punctuation::Underscore)
    } else if spells(s, ".") {
        Some(Punctuation::Dot)
    } else if spells(s, "..") {
        Some(Punctuation::DotDot)
    } else if spells(s, "...") {
        Some(Punctuation::DotDotDot)
    } else if spells(s, "..=") {
        Some(Punctuation::DotDotEquals)
    } else if spells(s, ",") {
        Some(Punctuation::Comma)
    } else if spells(s, ":") {
        Some(Punctuation::Colon)
    } else if spells(s, ";") {
        Some(Punctuation::Semicolon)
    } else if spells(s, "::") {
        Some(Punctuation::PathSeparator)
    } else if spells(s, "->") || spells(s, "\u{2192}") {
        Some(Punctuation::RightArrow)
    } else if spells(s, "<-") || spells(s, "\u{2190}") {
        Some(Punctuation::LeftArrow)
    } else if spells(s, "=>") || spells(s, "\u{21D2}") {
        Some(Punctuation::FatRightArrow)
    } else if spells(s, "\u{21D0}") {
        Some(Punctuation::FatLeftArrow)
    } else if spells(s, "#") {
        Some(Punctuation::Pound)
    } else if spells(s, "$") {
        Some(Punctuation::Dollar)
    } else if spells(s, "?") {
        Some(Punctuation::Question)
    } else if spells(s, "'") {
        Some(Punctuation::Apostrophe)
    } else if spells(s, "\"") {
        Some(Punctuation::Quote)
    } else {
        None
    }
}

/// An operator stands in `s` from `start` over `len` characters.
pub open spec fn punctuation_at(s: Seq<char>, start: int, len: int, p: Punctuation) -> bool {
    &&& 0 <= start
    &&& 0 < len
    &&& start + len <= s.len()
    &&& p.is_spelled(s.subrange(start, start + len))
}

/// Recognizes an operator by either of its spellings.
pub fn parse_punctuation(text: &str) -> (r: Result<Punctuation, InternalParserError>)
    ensures
        r == match punctuation_of(text@) {
            Some(p) => Ok::<Punctuation, InternalParserError>(p),
            None => Err(InternalParserError::UnrecognizedLexeme),
        },
        r matches Ok(p) ==> p.is_spelled(text@),
        r is Err ==> forall|p: Punctuation| !p.is_spelled(text@),
{
    let chars = to_chars(text);
    match punctuation_spelled(chars.as_slice()) {
        Some(p) => {
            proof {
                let chosen = choose|q: Punctuation| q.is_spelled(text@);
                lemma_spelling_laws(p, text@, chosen, text@);
            }
            Ok(p)
        },
        None => Err(InternalParserError::UnrecognizedLexeme),
    }
}

/// The operator that stands at `start` over exactly `len` characters.
fn punctuation_of_length(s: &[char], start: usize, len: usize) -> (found: Option<Punctuation>)
    requires
        0 < len,
    ensures
        match found {
            Some(p) => punctuation_at(s@, start as int, len as int, p),
            None => forall|p: Punctuation| !punctuation_at(s@, start as int, len as int, p),
        },
{
    if start > s.len() || len > s.len() - start {
        None
    } else {
        punctuation_spelled(slice_subrange(s, start, start + len))
    }
}

/// Finds the longest operator that begins at position `start` of `source`,
/// counted in characters, and how many characters it takes.
pub fn scan_punctuation(source: &str, start: usize) -> (found: Option<(Punctuation, usize)>)
    ensures
        match found {
            Some((p, len)) => {
                &&& punctuation_at(source@, start as int, len as int, p)
                &&& punctuation_of(source@.subrange(start as int, start + len)) == Some(p)
                &&& forall|q: Punctuation, longer: int|
                    longer > len ==> !punctuation_at(source@, start as int, longer, q)
            },
            None => forall|q: Punctuation, len: int| !punctuation_at(source@, start as int, len, q),
        },
{
    let chars = to_chars(source);
    let s = chars.as_slice();
    proof {
        assert forall|q: Punctuation, len: int| len > 3 implies !punctuation_at(
            source@,
            start as int,
            len,
            q,
        ) by {
            if punctuation_at(source@, start as int, len, q) {
                let lexeme = source@.subrange(start as int, start + len);
                lemma_spelling_laws(q, lexeme, q, lexeme);
            }
        }
    }
    let found = match punctuation_of_length(s, start, 3) {
        Some(p) => Some((p, 3usize)),
        None => match punctuation_of_length(s, start, 2) {
            Some(p) => Some((p, 2usize)),
            None => match punctuation_of_length(s, start, 1) {
                Some(p) => Some((p, 1usize)),
                None => None,
            },
        },
    };
    proof {
        if let Some((p, len)) = found {
            lemma_punctuation_of(p, source@.subrange(start as int, start + len));
        }
    }
    found
}

/// The bracket that `c` is.
pub open spec fn delimiter_of(c: char) -> Option<Delimiter> {
    if c == '(' {
        Some(Delimiter::LeftParen)
    } else if c == ')' {
        Some(Delimiter::RightParen)
    } else if c == '[' {
        Some(Delimiter::LeftBracket)
    } else if c == ']' {
        Some(Delimiter::RightBracket)
    } else if c == '{' {
        Some(Delimiter::LeftBrace)
    } else if c == '}' {
        Some(Delimiter::RightBrace)
    } else {
        None
    }
}

/// Recognizes a bracket.
pub fn parse_delimiter(text: &str) -> (r: Result<Delimiter, InternalParserError>)
    ensures
        match r {
            Ok(d) => text@.len() == 1 && delimiter_of(text@[0]) == Some(d),
            Err(e) => e == InternalParserError::UnrecognizedLexeme && !(text@.len() == 1
                && delimiter_of(text@[0]) is Some),
        },
{
    let chars = to_chars(text);
    if chars.len() != 1 {
        return Err(InternalParserError::UnrecognizedLexeme);
    }
    let c = chars[0];
    if c == '(' {
        Ok(Delimiter::LeftParen)
    } else if c == ')' {
        Ok(Delimiter::RightParen)
    } else if c == '[' {
        Ok(Delimiter::LeftBracket)
    } else if c == ']' {
        Ok(Delimiter::RightBracket)
    } else if c == '{' {
        Ok(Delimiter::LeftBrace)
    } else if c == '}' {
        Ok(Delimiter::RightBrace)
    } else {
        Err(InternalParserError::UnrecognizedLexeme)
    }
}

/// One text spells at most one operator, and `punctuation_of` names it.
pub proof fn lemma_punctuation_of(p: Punctuation, text: Seq<char>)
    requires
        p.is_spelled(text),
    ensures
        punctuation_of(text) == Some(p),
{
    let chosen = choose|q: Punctuation| q.is_spelled(text);
    lemma_spelling_laws(p, text, chosen, text);
}

/// Maximal munch. Where one operator's text is the beginning of another,
/// longer operator's text, the longer text is never read as the shorter
/// text's operator.
pub proof fn lemma_maximal_munch(shorter: Seq<char>, longer: Seq<char>)
    requires
        punctuation_of(shorter) is Some,
        punctuation_of(longer) is Some,
        shorter.is_prefix_of(longer),
        shorter != longer,
    ensures
        punctuation_of(longer) != punctuation_of(shorter),
{
    let p = punctuation_of(shorter).unwrap();
    let q = punctuation_of(longer).unwrap();
    lemma_spelling_laws(p, shorter, q, longer);
}

/// Alias equivalence. Both spellings of an operator are read as that
/// operator.
pub proof fn lemma_alias_equivalence(p: Punctuation)
    ensures
        punctuation_of(p.spelling()) == Some(p),
        p.alias() matches Some(glyph) ==> punctuation_of(glyph) == Some(p),
{
    lemma_punctuation_of(p, p.spelling());
    if let Some(glyph) = p.alias() {
        lemma_punctuation_of(p, glyph);
    }
}

} // verus!
