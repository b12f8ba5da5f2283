//! Comments: line and block comments, and the four kinds of documentation
//! comment, told apart by the exact shape of the opening marker.
//!
//! A line comment holds no newline. A block comment ends at the first `*/`
//! after its opening marker, whatever stands inside it: block comments do
//! not nest.

use vstd::prelude::*;
use crate::ast::{Comment, CommentKind, DocComment};
use crate::parser_errors::InternalParserError;
use crate::text::to_chars;

verus! {

/// `text` begins with the two characters `a` and `b`.
pub open spec fn opens_with(text: Seq<char>, a: char, b: char) -> bool {
    text.len() >= 2 && text[0] == a && text[1] == b
}

/// A newline stands somewhere in `text`.
pub open spec fn holds_newline(text: Seq<char>) -> bool {
    exists|i: int| 0 <= i < text.len() && #[trigger] text[i] == '\n'
}

/// `*/` stands at position `at`.
pub open spec fn closes_at(text: Seq<char>, at: int) -> bool {
    0 <= at && at + 1 < text.len() && text[at] == '*' && text[at + 1] == '/'
}

/// The position of the first `*/` at or after `from`; the length of the text
/// where there is none.
pub open spec fn first_close(text: Seq<char>, from: int) -> int
    decreases text.len() - from,
{
    if from < 0 || from + 1 >= text.len() {
        text.len() as int
    } else if closes_at(text, from) {
        from
    } else {
        first_close(text, from + 1)
    }
}

/// The kind of a line comment, by its marker: `//!` is inner documentation,
/// `///` is outer documentation unless a fourth slash follows, and anything
/// else is a plain comment.
pub open spec fn line_comment_kind(text: Seq<char>) -> CommentKind {
    if text.len() >= 3 && text[2] == '!' {
        CommentKind::InnerLineDoc
    } else if text.len() >= 3 && text[2] == '/' && !(text.len() >= 4 && text[3] == '/') {
        CommentKind::OuterLineDoc
    } else {
        CommentKind::Line
    }
}

/// The kind of a closed block comment, by its marker: `/*!` is inner
/// documentation, `/**` is outer documentation unless a third star follows or
/// the second star belongs to the closing marker, and anything else is a
/// plain comment.
pub open spec fn block_comment_kind(text: Seq<char>) -> CommentKind {
    if text.len() >= 5 && text[2] == '!' {
        CommentKind::InnerBlockDoc
    } else if text.len() >= 5 && text[2] == '*' && text[3] != '*' && !closes_at(text, 2) {
        CommentKind::OuterBlockDoc
    } else {
        CommentKind::Block
    }
}

/// The kind of comment that `text` is as a whole.
pub open spec fn comment_kind(text: Seq<char>) -> Result<CommentKind, InternalParserError> {
    if opens_with(text, '/', '/') {
        if holds_newline(text) {
            Err(InternalParserError::MalformedComment)
        } else {
            Ok(line_comment_kind(text))
        }
    } else if opens_with(text, '/', '*') {
        let close = first_close(text, 2);
        if close >= text.len() {
            Err(InternalParserError::MalformedComment)
        } else if close + 2 < text.len() {
            Err(InternalParserError::UnrecognizedLexeme)
        } else {
            Ok(block_comment_kind(text))
        }
    } else {
        Err(InternalParserError::UnrecognizedLexeme)
    }
}

/// The first `*/` at or after `from` is where `first_close` says, and none
/// stands before it.
pub proof fn lemma_first_close(text: Seq<char>, from: int)
    requires
        0 <= from,
    ensures
        from <= first_close(text, from) || first_close(text, from) == text.len(),
        first_close(text, from) < text.len() ==> closes_at(text, first_close(text, from)),
        forall|i: int| from <= i < first_close(text, from) ==> !closes_at(text, i),
    decreases text.len() - from,
{
    if from + 1 >= text.len() {
    } else if closes_at(text, from) {
    } else {
        lemma_first_close(text, from + 1);
    }
}

/// Whether a newline stands among the characters.
fn has_newline(s: &[char]) -> (found: bool)
    ensures
        found == holds_newline(s@),
{
    let mut i: usize = 0;
    while i < s.len()
        invariant
            0 <= i <= s@.len(),
            forall|k: int| 0 <= k < i ==> #[trigger] s@[k] != '\n',
        decreases s@.len() - i,
    {
        if s[i] == '\n' {
            return true;
        }
        i = i + 1;
    }
    false
}

/// The position of the first `*/` at or after `from`.
fn find_close(s: &[char], from: usize) -> (at: usize)
    requires
        from <= s@.len(),
    ensures
        at == first_close(s@, from as int),
        at <= s@.len(),
{
    let mut i: usize = from;
    while i < s.len() && i + 1 < s.len()
        invariant
            from <= i <= s@.len(),
            first_close(s@, from as int) == first_close(s@, i as int),
        decreases s@.len() - i,
    {
        if s[i] == '*' && s[i + 1] == '/' {
            return i;
        }
        i = i + 1;
    }
    s.len()
}

/// The kind of comment that the characters are as a whole.
fn kind_of_comment(s: &[char]) -> (r: Result<CommentKind, InternalParserError>)
    ensures
        r == comment_kind(s@),
{
    let n = s.len();
    if n >= 2 && s[0] == '/' && s[1] == '/' {
        if has_newline(s) {
            Err(InternalParserError::MalformedComment)
        } else if n >= 3 && s[2] == '!' {
            Ok(CommentKind::InnerLineDoc)
        } else if n >= 3 && s[2] == '/' && !(n >= 4 && s[3] == '/') {
            Ok(CommentKind::OuterLineDoc)
        } else {
            Ok(CommentKind::Line)
        }
    } else if n >= 2 && s[0] == '/' && s[1] == '*' {
        let close = find_close(s, 2);
        if close >= n {
            Err(InternalParserError::MalformedComment)
        } else if n - close > 2 {
            Err(InternalParserError::UnrecognizedLexeme)
        } else if n >= 5 && s[2] == '!' {
            Ok(CommentKind::InnerBlockDoc)
        } else if n >= 5 && s[2] == '*' && s[3] != '*' && !(s[2] == '*' && s[3] == '/') {
            Ok(CommentKind::OuterBlockDoc)
        } else {
            Ok(CommentKind::Block)
        }
    } else {
        Err(InternalParserError::UnrecognizedLexeme)
    }
}

/// Classifies a comment and keeps its whole text.
pub fn classify_comment(text: &str) -> (r: Result<Comment, InternalParserError>)
    ensures
        match r {
            Ok(c) => comment_kind(text@) == Ok::<CommentKind, InternalParserError>(c.kind())
                && c.text() == text@,
            Err(e) => comment_kind(text@) == Err::<CommentKind, InternalParserError>(e),
        },
{
    let chars = to_chars(text);
    match kind_of_comment(chars.as_slice()) {
        Ok(kind) => {
            let comment = text.to_owned();
            Ok(
                match kind {
                    CommentKind::Line => Comment::LineComment { comment },
                    CommentKind::Block => Comment::BlockComment { comment },
                    CommentKind::InnerLineDoc => Comment::DocComment(
                        DocComment::InnerLineDocComment { comment },
                    ),
                    CommentKind::InnerBlockDoc => Comment::DocComment(
                        DocComment::InnerBlockDocComment { comment },
                    ),
                    CommentKind::OuterLineDoc => Comment::DocComment(
                        DocComment::OuterLineDocComment { comment },
                    ),
                    CommentKind::OuterBlockDoc => Comment::DocComment(
                        DocComment::OuterBlockDocComment { comment },
                    ),
                },
            )
        },
        Err(e) => Err(e),
    }
}

/// Marker exactness. Of a line comment without newline: three slashes and
/// no fourth make outer documentation, two slashes and `!` make inner
/// documentation, and four slashes make a plain comment, never
/// documentation.
pub proof fn lemma_doc_marker_exactness(text: Seq<char>)
    requires
        opens_with(text, '/', '/'),
        !holds_newline(text),
    ensures
        comment_kind(text) == Ok::<CommentKind, InternalParserError>(CommentKind::OuterLineDoc)
            <==> text.len() >= 3 && text[2] == '/' && (text.len() == 3 || text[3] != '/'),
        comment_kind(text) == Ok::<CommentKind, InternalParserError>(CommentKind::InnerLineDoc)
            <==> text.len() >= 3 && text[2] == '!',
        text.len() >= 4 && text[2] == '/' && text[3] == '/' ==> comment_kind(text) == Ok::<
            CommentKind,
            InternalParserError,
        >(CommentKind::Line),
{
}

/// A block comment is closed by the first `*/` after its opening marker:
/// text that goes on after it is no comment, and text without it is
/// malformed.
pub proof fn lemma_block_ends_at_first_close(text: Seq<char>)
    requires
        opens_with(text, '/', '*'),
    ensures
        comment_kind(text) is Ok <==> first_close(text, 2) + 2 == text.len(),
        comment_kind(text) == Err::<CommentKind, InternalParserError>(
            InternalParserError::MalformedComment,
        ) <==> forall|i: int| 2 <= i ==> !closes_at(text, i),
{
    lemma_first_close(text, 2);
    let close = first_close(text, 2);
    if close < text.len() {
        assert(closes_at(text, close));
    }
}

} // verus!
