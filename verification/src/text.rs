//! Lexeme text as a sequence of Unicode scalar values.

use vstd::prelude::*;
use vstd::string::StrSliceExecFns;

verus! {

/// `word` stands in `s` at position `start`.
pub open spec fn word_at(s: Seq<char>, start: int, word: Seq<char>) -> bool {
    &&& 0 <= start
    &&& start + word.len() <= s.len()
    &&& s.subrange(start, start + word.len()) == word
}

/// `s` ends with `word`.
pub open spec fn ends_with(s: Seq<char>, word: Seq<char>) -> bool {
    word.len() <= s.len() && word_at(s, s.len() - word.len(), word)
}

/// The scalar values of `text`, in order.
pub fn to_chars(text: &str) -> (chars: Vec<char>)
    ensures
        chars@ == text@,
{
    broadcast use vstd::string::group_string_axioms;

    let mut chars: Vec<char> = Vec::new();
    for c in it: text.chars()
        invariant
            it.seq() == text@,
            chars@ == it.seq().take(it.index()),
    {
        chars.push(c);
        assert(it.seq().take(it.index() + 1) =~= it.seq().take(it.index()).push(c));
    }
    assert(chars@ =~= text@);
    chars
}

/// Whether `word` stands in `chars` at position `start`.
pub fn has_word_at(chars: &[char], start: usize, word: &str) -> (found: bool)
    ensures
        found == word_at(chars@, start as int, word@),
{
    broadcast use vstd::string::group_string_axioms;

    if start > chars.len() {
        return false;
    }
    let mut at: usize = start;
    for c in it: word.chars()
        invariant
            it.seq() == word@,
            at == start + it.index(),
            start <= at <= chars@.len(),
            chars@.subrange(start as int, at as int) == it.seq().take(it.index()),
    {
        if at >= chars.len() || chars[at] != c {
            assert(!word_at(chars@, start as int, word@)) by {
                if word_at(chars@, start as int, word@) {
                    assert(chars@.subrange(start as int, start + word@.len())[at - start] == c);
                }
            }
            return false;
        }
        assert(chars@.subrange(start as int, at + 1) =~= chars@.subrange(
            start as int,
            at as int,
        ).push(c));
        assert(it.seq().take(it.index() + 1) =~= it.seq().take(it.index()).push(c));
        at = at + 1;
    }
    assert(word@.take(word@.len() as int) =~= word@);
    true
}

/// Whether `chars` spells exactly `word`.
pub fn spells(chars: &[char], word: &str) -> (same: bool)
    ensures
        same == (chars@ == word@),
{
    let found = has_word_at(chars, 0, word);
    if found {
        let n = word.unicode_len();
        assert(chars@.subrange(0, chars@.len() as int) =~= chars@);
        n == chars.len()
    } else {
        assert(chars@ != word@) by {
            if chars@ == word@ {
                assert(chars@.subrange(0, chars@.len() as int) =~= chars@);
            }
        }
        false
    }
}

/// Whether `chars` ends with `word`.
pub fn has_suffix(chars: &[char], word: &str) -> (found: bool)
    ensures
        found == ends_with(chars@, word@),
{
    let n = word.unicode_len();
    if n > chars.len() {
        false
    } else {
        has_word_at(chars, chars.len() - n, word)
    }
}

/// Calls `String::from_iter` on the characters of a slice. The string that
/// std builds holds those characters, in their order, and nothing else.
#[verifier::external_body]
pub(crate) fn string_from_chars(chars: &[char]) -> (text: String)
    ensures
        text@ == chars@,
{
    String::from_iter(chars)
}

/// A text that ends with a word holds the word's characters at its end.
pub proof fn lemma_ends_with(s: Seq<char>, word: Seq<char>)
    requires
        ends_with(s, word),
    ensures
        forall|i: int|
            0 <= i < word.len() ==> s[s.len() - word.len() + i] == #[trigger] word[i],
{
    let tail = s.subrange(s.len() - word.len(), s.len() as int);
    assert forall|i: int| 0 <= i < word.len() implies s[s.len() - word.len() + i]
        == #[trigger] word[i] by {
        assert(tail[i] == word[i]);
    }
}

/// A text that differs from a word in one place, counted from the end, does
/// not end with the word.
pub proof fn lemma_differs_at_end(s: Seq<char>, word: Seq<char>, back: int)
    requires
        1 <= back <= word.len(),
        back <= s.len(),
        s[s.len() - back] != word[word.len() - back],
    ensures
        !ends_with(s, word),
{
    if ends_with(s, word) {
        lemma_ends_with(s, word);
        assert(s[s.len() - word.len() + (word.len() - back)] == word[word.len() - back]);
    }
}

} // verus!
