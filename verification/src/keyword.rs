//! Keywords, reserved words, logic literals and identifiers.
//!
//! A word is a keyword where a table lists it, letter for letter. The
//! tables decide case word by word: `true` and `True` are one keyword,
//! `self` and `Self` are two. Any other word of identifier shape is an
//! identifier. An identifier begins with an XID_Start character or with an
//! underscore that something follows, and goes on in XID_Continue
//! characters.

use vstd::prelude::*;
use crate::ast::{Identifier, Keyword, LogicLiteral, ReservedKeyword};
use crate::parser_errors::InternalParserError;
use crate::text::{spells, to_chars};
use crate::unicode::{identifier_start, is_identifier_start, is_xid_continue, xid_continue};

verus! {

impl ReservedKeyword {
    /// How the word is written.
    pub open spec fn spelling(self) -> Seq<char> {
        match self {
            ReservedKeyword::Abstract => "abstract"@,
            ReservedKeyword::Async => "async"@,
            ReservedKeyword::Await => "await"@,
            ReservedKeyword::Crate => "crate"@,
            ReservedKeyword::Do => "do"@,
            ReservedKeyword::Dyn => "dyn"@,
            ReservedKeyword::Export => "export"@,
            ReservedKeyword::Extern => "extern"@,
            ReservedKeyword::Final => "final"@,
            ReservedKeyword::Import => "import"@,
            ReservedKeyword::Let => "let"@,
            ReservedKeyword::Macro => "macro"@,
            ReservedKeyword::Move => "move"@,
            ReservedKeyword::Mut => "mut"@,
            ReservedKeyword::Override => "override"@,
            ReservedKeyword::Priv => "priv"@,
            ReservedKeyword::Proc => "proc"@,
            ReservedKeyword::Ref => "ref"@,
            ReservedKeyword::Typeof => "typeof"@,
            ReservedKeyword::Unsafe => "unsafe"@,
            ReservedKeyword::Unsized => "unsized"@,
            ReservedKeyword::Virtual => "virtual"@,
            ReservedKeyword::Yield => "yield"@,
        }
    }
}

impl Keyword {
    /// How the keyword is written.
    pub open spec fn spelling(self) -> Seq<char> {
        match self {
            Keyword::As => "as"@,
            Keyword::Break => "break"@,
            Keyword::Const => "const"@,
            Keyword::Continue => "continue"@,
            Keyword::Else => "else"@,
            Keyword::Enum => "enum"@,
            Keyword::False => "false"@,
            Keyword::Fn => "fn"@,
            Keyword::For => "for"@,
            Keyword::If => "if"@,
            Keyword::Impl => "impl"@,
            Keyword::In => "in"@,
            Keyword::Loop => "loop"@,
            Keyword::Match => "match"@,
            Keyword::Missing => "missing"@,
            Keyword::Mod => "mod"@,
            Keyword::Pub => "pub"@,
            Keyword::Reserved(word) => word.spelling(),
            Keyword::Return => "return"@,
            Keyword::SelfValue => "self"@,
            Keyword::SelfType => "Self"@,
            Keyword::Static => "static"@,
            Keyword::Struct => "struct"@,
            Keyword::Super => "super"@,
            Keyword::Trait => "trait"@,
            Keyword::True => "true"@,
            Keyword::Type => "type"@,
            Keyword::Use => "use"@,
            Keyword::Where => "where"@,
            Keyword::While => "while"@,
        }
    }

    /// The capitalized spelling, for the keywords that have one.
    pub open spec fn alias(self) -> Option<Seq<char>> {
        match self {
            Keyword::False => Some("False"@),
            Keyword::Missing => Some("Missing"@),
            Keyword::True => Some("True"@),
            _ => None,
        }
    }

    /// `text` is one of the spellings of the keyword.
    pub open spec fn is_spelled(self, text: Seq<char>) -> bool {
        text == self.spelling() || self.alias() == Some(text)
    }
}

/// The keyword that `text` spells, if it spells one.
pub open spec fn keyword_of(text: Seq<char>) -> Option<Keyword> {
    if exists|k: Keyword| k.is_spelled(text) {
        Some(choose|k: Keyword| k.is_spelled(text))
    } else {
        None
    }
}

/// One text spells one keyword only. A keyword has two characters or more
/// and begins with a Latin letter.
pub proof fn lemma_keyword_unique(k: Keyword, j: Keyword, text: Seq<char>)
    requires
        k.is_spelled(text),
        j.is_spelled(text),
    ensures
        k == j,
        text.len() >= 2,
        'A' <= text[0] <= 'Z' || 'a' <= text[0] <= 'z',
{
    reveal_strlit("as");
    reveal_strlit("break");
    reveal_strlit("const");
    reveal_strlit("continue");
    reveal_strlit("else");
    reveal_strlit("enum");
    reveal_strlit("false");
    reveal_strlit("False");
    reveal_strlit("fn");
    reveal_strlit("for");
    reveal_strlit("if");
    reveal_strlit("impl");
    reveal_strlit("in");
    reveal_strlit("loop");
    reveal_strlit("match");
    reveal_strlit("missing");
    reveal_strlit("Missing");
    reveal_strlit("mod");
    reveal_strlit("pub");
    reveal_strlit("return");
    reveal_strlit("self");
    reveal_strlit("Self");
    reveal_strlit("static");
    reveal_strlit("struct");
    reveal_strlit("super");
    reveal_strlit("trait");
    reveal_strlit("true");
    reveal_strlit("True");
    reveal_strlit("type");
    reveal_strlit("use");
    reveal_strlit("where");
    reveal_strlit("while");
    reveal_strlit("abstract");
    reveal_strlit("async");
    reveal_strlit("await");
    reveal_strlit("crate");
    reveal_strlit("do");
    reveal_strlit("dyn");
    reveal_strlit("export");
    reveal_strlit("extern");
    reveal_strlit("final");
    reveal_strlit("import");
    reveal_strlit("let");
    reveal_strlit("macro");
    reveal_strlit("move");
    reveal_strlit("mut");
    reveal_strlit("override");
    reveal_strlit("priv");
    reveal_strlit("proc");
    reveal_strlit("ref");
    reveal_strlit("typeof");
    reveal_strlit("unsafe");
    reveal_strlit("unsized");
    reveal_strlit("virtual");
    reveal_strlit("yield");
    assert(text.len() >= 2);
    // The spellings differ within their first four characters or in length.
    let first_four = (text[0], text[1], text[2], text[3]);
}

/// Looks the word up in the tables.
fn keyword_spelled(s: &[char]) -> (found: Option<Keyword>)
    ensures
        match found {
            Some(k) => k.is_spelled(s@),
            None => forall|k: Keyword| !k.is_spelled(s@),
        },
{
    if spells(s, "as") {
        Some(Keyword::As)
    } else if spells(s, "break") {
        Some(Keyword::Break)
    } else if spells(s, "const") {
        Some(Keyword::Const)
    } else if spells(s, "continue") {
        Some(Keyword::Continue)
    } else if spells(s, "else") {
        Some(Keyword::Else)
    } else if spells(s, "enum") {
        Some(Keyword::Enum)
    } else if spells(s, "false") || spells(s, "False") {
        Some(Keyword::False)
    } else if spells(s, "fn") {
        Some(Keyword::Fn)
    } else if spells(s, "for") {
        Some(Keyword::For)
    } else if spells(s, "if") {
        Some(Keyword::If)
    } else if spells(s, "impl") {
        Some(Keyword::Impl)
    } else if spells(s, "in") {
        Some(Keyword::In)
    } else if spells(s, "loop") {
        Some(Keyword::Loop)
    } else if spells(s, "match") {
        Some(Keyword::Match)
    } else if spells(s, "missing") || spells(s, "Missing") {
        Some(Keyword::Missing)
    } else if spells(s, "mod") {
        Some(Keyword::Mod)
    } else if spells(s, "pub") {
        Some(Keyword::Pub)
    } else if spells(s, "return") {
        Some(Keyword::Return)
    } else if spells(s, "self") {
        Some(Keyword::SelfValue)
    } else if spells(s, "Self") {
        Some(Keyword::SelfType)
    } else if spells(s, "static") {
        Some(Keyword::Static)
    } else if spells(s, "struct") {
        Some(Keyword::Struct)
    } else if spells(s, "super") {
        Some(Keyword::Super)
    } else if spells(s, "trait") {
        Some(Keyword::Trait)
    } else if spells(s, "true") || spells(s, "True") {
        Some(Keyword::True)
    } else if spells(s, "type") {
        Some(Keyword::Type)
    } else if spells(s, "use") {
        Some(Keyword::Use)
    } else if spells(s, "where") {
        Some(Keyword::Where)
    } else if spells(s, "while") {
        Some(Keyword::While)
    } else if spells(s, "abstract") {
        Some(Keyword::Reserved(ReservedKeyword::Abstract))
    } else if spells(s, "async") {
        Some(Keyword::Reserved(ReservedKeyword::Async))
    } else if spells(s, "await") {
        Some(Keyword::Reserved(ReservedKeyword::Await))
    } else if spells(s, "crate") {
        Some(Keyword::Reserved(ReservedKeyword::Crate))
    } else if spells(s, "do") {
        Some(Keyword::Reserved(ReservedKeyword::Do))
    } else if spells(s, "dyn") {
        Some(Keyword::Reserved(ReservedKeyword::Dyn))
    } else if spells(s, "export") {
        Some(Keyword::Reserved(ReservedKeyword::Export))
    } else if spells(s, "extern") {
        Some(Keyword::Reserved(ReservedKeyword::Extern))
    } else if spells(s, "final") {
        Some(Keyword::Reserved(ReservedKeyword::Final))
    } else if spells(s, "import") {
        Some(Keyword::Reserved(ReservedKeyword::Import))
    } else if spells(s, "let") {
        Some(Keyword::Reserved(ReservedKeyword::Let))
    } else if spells(s, "macro") {
        Some(Keyword::Reserved(ReservedKeyword::Macro))
    } else if spells(s, "move") {
        Some(Keyword::Reserved(ReservedKeyword::Move))
    } else if spells(s, "mut") {
        Some(Keyword::Reserved(ReservedKeyword::Mut))
    } else if spells(s, "override") {
        Some(Keyword::Reserved(ReservedKeyword::Override))
    } else if spells(s, "priv") {
        Some(Keyword::Reserved(ReservedKeyword::Priv))
    } else if spells(s, "proc") {
        Some(Keyword::Reserved(ReservedKeyword::Proc))
    } else if spells(s, "ref") {
        Some(Keyword::Reserved(ReservedKeyword::Ref))
    } else if spells(s, "typeof") {
        Some(Keyword::Reserved(ReservedKeyword::Typeof))
    } else if spells(s, "unsafe") {
        Some(Keyword::Reserved(ReservedKeyword::Unsafe))
    } else if spells(s, "unsized") {
        Some(Keyword::Reserved(ReservedKeyword::Unsized))
    } else if spells(s, "virtual") {
        Some(Keyword::Reserved(ReservedKeyword::Virtual))
    } else if spells(s, "yield") {
        Some(Keyword::Reserved(ReservedKeyword::Yield))
    } else {
        None
    }
}

/// A word that is a keyword or an identifier.
#[derive(Clone, Debug, PartialEq, Eq)]
pub enum Word {
    Keyword(Keyword),
    Identifier(Identifier),
}

/// What a word is to the contracts.
pub enum WordView {
    Keyword(Keyword),
    Identifier(Seq<char>),
}

impl View for Word {
    type V = WordView;

    open spec fn view(&self) -> WordView {
        match self {
            Word::Keyword(k) => WordView::Keyword(*k),
            Word::Identifier(name) => WordView::Identifier(name.name@),
        }
    }
}

/// `text` has the shape of an identifier.
pub open spec fn identifier_shape(text: Seq<char>) -> bool {
    &&& text.len() > 0
    &&& identifier_start(text[0])
    &&& !(text.len() == 1 && text[0] == '_')
    &&& forall|i: int| 1 <= i < text.len() ==> xid_continue(#[trigger] text[i])
}

impl Identifier {
    /// The name has the shape of an identifier and is no keyword.
    pub open spec fn well_formed(&self) -> bool {
        identifier_shape(self.name@) && keyword_of(self.name@) is None
    }
}

/// What a word is: a keyword where the tables list it, an identifier where it
/// has the shape of one, and nothing otherwise.
pub open spec fn word_of(text: Seq<char>) -> Result<WordView, InternalParserError> {
    match keyword_of(text) {
        Some(k) => Ok(WordView::Keyword(k)),
        None => if identifier_shape(text) {
            Ok(WordView::Identifier(text))
        } else {
            Err(InternalParserError::UnrecognizedLexeme)
        },
    }
}

/// The logic literal that `text` is.
pub open spec fn logic_literal_of(text: Seq<char>) -> Option<LogicLiteral> {
    if Keyword::True.is_spelled(text) {
        Some(LogicLiteral::True { value: true })
    } else if Keyword::False.is_spelled(text) {
        Some(LogicLiteral::False { value: false })
    } else if Keyword::Missing.is_spelled(text) {
        Some(LogicLiteral::Missing)
    } else {
        None
    }
}

/// Whether the characters have the shape of an identifier.
fn has_identifier_shape(s: &[char]) -> (yes: bool)
    ensures
        yes == identifier_shape(s@),
{
    if s.len() == 0 {
        return false;
    }
    if !is_identifier_start(s[0]) || (s.len() == 1 && s[0] == '_') {
        return false;
    }
    let mut i: usize = 1;
    while i < s.len()
        invariant
            1 <= i <= s@.len(),
            forall|k: int| 1 <= k < i ==> xid_continue(#[trigger] s@[k]),
        decreases s@.len() - i,
    {
        if !is_xid_continue(s[i]) {
            return false;
        }
        i = i + 1;
    }
    true
}

/// Recognizes a keyword or reserved word.
pub fn parse_keyword(text: &str) -> (r: Result<Keyword, InternalParserError>)
    ensures
        r == match keyword_of(text@) {
            Some(k) => Ok::<Keyword, InternalParserError>(k),
            None => Err(InternalParserError::UnrecognizedLexeme),
        },
        r matches Ok(k) ==> k.is_spelled(text@),
        r is Err ==> forall|k: Keyword| !k.is_spelled(text@),
{
    let chars = to_chars(text);
    match keyword_spelled(chars.as_slice()) {
        Some(k) => {
            proof {
                let chosen = choose|j: Keyword| j.is_spelled(text@);
                lemma_keyword_unique(k, chosen, text@);
            }
            Ok(k)
        },
        None => Err(InternalParserError::UnrecognizedLexeme),
    }
}

/// Recognizes one of the logic literals.
pub fn parse_logic_literal(text: &str) -> (r: Result<LogicLiteral, InternalParserError>)
    ensures
        r == match logic_literal_of(text@) {
            Some(literal) => Ok::<LogicLiteral, InternalParserError>(literal),
            None => Err(InternalParserError::UnrecognizedLexeme),
        },
        r matches Ok(literal) ==> literal.well_formed(),
{
    let chars = to_chars(text);
    let s = chars.as_slice();
    if spells(s, "true") || spells(s, "True") {
        Ok(LogicLiteral::True { value: true })
    } else if spells(s, "false") || spells(s, "False") {
        Ok(LogicLiteral::False { value: false })
    } else if spells(s, "missing") || spells(s, "Missing") {
        Ok(LogicLiteral::Missing)
    } else {
        Err(InternalParserError::UnrecognizedLexeme)
    }
}

/// Recognizes an identifier: a word of identifier shape that is no keyword.
pub fn parse_identifier(text: &str) -> (r: Result<Identifier, InternalParserError>)
    ensures
        match r {
            Ok(identifier) => identifier.name@ == text@ && identifier.well_formed(),
            Err(e) => e == InternalParserError::UnrecognizedLexeme && !(identifier_shape(text@)
                && keyword_of(text@) is None),
        },
{
    let chars = to_chars(text);
    let s = chars.as_slice();
    match keyword_spelled(s) {
        Some(_) => Err(InternalParserError::UnrecognizedLexeme),
        None => {
            if has_identifier_shape(s) {
                Ok(Identifier { name: text.to_owned() })
            } else {
                Err(InternalParserError::UnrecognizedLexeme)
            }
        },
    }
}

/// Tells a keyword from an identifier.
pub fn classify_word(text: &str) -> (r: Result<Word, InternalParserError>)
    ensures
        match r {
            Ok(word) => word_of(text@) == Ok::<WordView, InternalParserError>(word@) && (
            word matches Word::Identifier(identifier) ==> identifier.well_formed()),
            Err(e) => word_of(text@) == Err::<WordView, InternalParserError>(e),
        },
{
    let chars = to_chars(text);
    let s = chars.as_slice();
    match keyword_spelled(s) {
        Some(k) => {
            proof {
                let chosen = choose|j: Keyword| j.is_spelled(text@);
                lemma_keyword_unique(k, chosen, text@);
            }
            Ok(Word::Keyword(k))
        },
        None => {
            if has_identifier_shape(s) {
                Ok(Word::Identifier(Identifier { name: text.to_owned() }))
            } else {
                Err(InternalParserError::UnrecognizedLexeme)
            }
        },
    }
}

/// One text spells at most one keyword, and `keyword_of` names it.
pub proof fn lemma_keyword_of(k: Keyword, text: Seq<char>)
    requires
        k.is_spelled(text),
    ensures
        keyword_of(text) == Some(k),
{
    let chosen = choose|j: Keyword| j.is_spelled(text);
    lemma_keyword_unique(k, chosen, text);
}

/// Identifier acceptance. Every word of identifier shape is read, as a
/// keyword or as an identifier; and one that begins outside the Latin
/// letters, in whatever script, is read as an identifier with the word as
/// its name.
pub proof fn lemma_identifier_acceptance(text: Seq<char>)
    requires
        identifier_shape(text),
    ensures
        word_of(text) is Ok,
        !('A' <= text[0] <= 'Z' || 'a' <= text[0] <= 'z') ==> word_of(text) == Ok::<
            WordView,
            InternalParserError,
        >(WordView::Identifier(text)),
{
    if let Some(k) = keyword_of(text) {
        lemma_keyword_unique(k, k, text);
    }
}

} // verus!
