//! Identifier character classes: membership in XID_Start and XID_Continue.

use vstd::prelude::*;
use crate::parser_errors::InternalParserError;
use crate::text::to_chars;
use crate::unicode_tables::{
    lemma_xid_continue_ascending,
    lemma_xid_start_ascending,
    XID_CONTINUE_RANGES,
    XID_START_RANGES,
};

verus! {

/// `cp` lies in one of the inclusive ranges of `table`.
pub open spec fn in_ranges(table: Seq<(u32, u32)>, cp: u32) -> bool {
    exists|i: int| 0 <= i < table.len() && (#[trigger] table[i]).0 <= cp <= table[i].1
}

/// Every range is well-formed, and each range ends before the next one begins.
#[verifier::opaque]
pub open spec fn ranges_ascending(table: Seq<(u32, u32)>) -> bool {
    &&& forall|i: int| 0 <= i < table.len() ==> (#[trigger] table[i]).0 <= table[i].1
    &&& forall|i: int, j: int|
        0 <= i < j < table.len() ==> (#[trigger] table[i]).1 < (#[trigger] table[j]).0
}

/// The code point may begin an identifier (the Unicode property XID_Start).
pub open spec fn xid_start(c: char) -> bool {
    in_ranges(XID_START_RANGES@, c as u32)
}

/// The code point may continue an identifier (the Unicode property XID_Continue).
pub open spec fn xid_continue(c: char) -> bool {
    in_ranges(XID_CONTINUE_RANGES@, c as u32)
}

/// Membership of `cp` in an ascending table of ranges, by binary search.
pub fn range_search<const N: usize>(table: &[(u32, u32); N], cp: u32) -> (found: bool)
    requires
        ranges_ascending(table@),
    ensures
        found == in_ranges(table@, cp),
{
    proof {
        reveal(ranges_ascending);
    }
    let mut lo: usize = 0;
    let mut hi: usize = N;
    while lo < hi
        invariant
            0 <= lo <= hi <= N,
            N == table@.len(),
            forall|i: int| 0 <= i < table@.len() ==> (#[trigger] table@[i]).0 <= table@[i].1,
            forall|i: int, j: int|
                0 <= i < j < table@.len() ==> (#[trigger] table@[i]).1 < (#[trigger] table@[j]).0,
            forall|i: int| 0 <= i < lo ==> (#[trigger] table@[i]).1 < cp,
            forall|i: int| hi <= i < N ==> cp < (#[trigger] table@[i]).0,
        decreases hi - lo,
    {
        let mid: usize = lo + (hi - lo) / 2;
        let (first, last) = table[mid];
        if cp < first {
            hi = mid;
        } else if last < cp {
            lo = mid + 1;
        } else {
            return true;
        }
    }
    false
}

/// Each range of the table is well-formed and ends before its successor begins.
pub open spec fn ranges_step(table: Seq<(u32, u32)>, i: int) -> bool {
    &&& table[i].0 <= table[i].1
    &&& i + 1 < table.len() ==> table[i].1 < table[i + 1].0
}

/// A table whose neighbouring ranges are in order is ascending throughout.
pub proof fn lemma_steps_ascending(table: Seq<(u32, u32)>)
    requires
        forall|i: int| 0 <= i < table.len() ==> #[trigger] ranges_step(table, i),
    ensures
        ranges_ascending(table),
{
    reveal(ranges_ascending);
    assert forall|i: int, j: int| 0 <= i < j < table.len() implies (#[trigger] table[i]).1
        < (#[trigger] table[j]).0 by {
        lemma_steps_reach(table, i, j);
    }
    assert forall|i: int| 0 <= i < table.len() implies (#[trigger] table[i]).0 <= table[i].1 by {
        assert(ranges_step(table, i));
    }
}

/// Where neighbouring ranges are in order, an earlier range ends before a
/// later one begins.
proof fn lemma_steps_reach(table: Seq<(u32, u32)>, i: int, j: int)
    requires
        forall|k: int| 0 <= k < table.len() ==> #[trigger] ranges_step(table, k),
        0 <= i < j < table.len(),
    ensures
        table[i].1 < table[j].0,
    decreases j - i,
{
    assert(ranges_step(table, j - 1));
    assert(ranges_step(table, j));
    if i < j - 1 {
        lemma_steps_reach(table, i, j - 1);
    }
}

/// Whether `c` may begin an identifier by the Unicode rules alone.
pub fn is_xid_start(c: char) -> (yes: bool)
    ensures
        yes == xid_start(c),
{
    proof {
        lemma_xid_start_ascending();
    }
    range_search(&XID_START_RANGES, c as u32)
}

/// Whether `c` may continue an identifier.
pub fn is_xid_continue(c: char) -> (yes: bool)
    ensures
        yes == xid_continue(c),
{
    proof {
        lemma_xid_continue_ascending();
    }
    range_search(&XID_CONTINUE_RANGES, c as u32)
}

/// The first character of an identifier: XID_Start, or the underscore, which
/// the grammar admits at the front though Unicode does not.
pub open spec fn identifier_start(c: char) -> bool {
    c == '_' || xid_start(c)
}

/// Whether `c` may be the first character of an identifier.
pub fn is_identifier_start(c: char) -> (yes: bool)
    ensures
        yes == identifier_start(c),
{
    c == '_' || is_xid_start(c)
}

/// Whether a table of ranges is ascending, so that it can be searched.
pub fn check_ascending<const N: usize>(table: &[(u32, u32); N]) -> (ok: bool)
    ensures
        ok == ranges_ascending(table@),
{
    let mut i: usize = 0;
    while i < N
        invariant
            0 <= i <= N,
            N == table@.len(),
            forall|k: int| 0 <= k < i ==> #[trigger] ranges_step(table@, k),
        decreases N - i,
    {
        let (first, last) = table[i];
        if first > last || (i + 1 < N && last >= table[i + 1].0) {
            proof {
                reveal(ranges_ascending);
                assert(!ranges_step(table@, i as int));
                if i + 1 < N {
                    assert(table@[i as int].0 > table@[i as int].1 || table@[i as int].1
                        >= table@[i + 1].0);
                }
            }
            return false;
        }
        i = i + 1;
    }
    proof {
        lemma_steps_ascending(table@);
    }
    true
}

/// A code point that lies strictly between two neighbouring ranges of an
/// ascending table is in none of its ranges.
pub proof fn lemma_between_ranges(table: Seq<(u32, u32)>, k: int, cp: u32)
    requires
        ranges_ascending(table),
        0 <= k,
        k + 1 < table.len(),
        table[k].1 < cp < table[k + 1].0,
    ensures
        !in_ranges(table, cp),
{
    reveal(ranges_ascending);
    assert forall|i: int| 0 <= i < table.len() implies !((#[trigger] table[i]).0 <= cp
        <= table[i].1) by {
        if i < k {
            assert(table[i].1 < table[k].0);
            assert(table[k].0 <= table[k].1);
        } else if i > k + 1 {
            assert(table[k + 1].1 < table[i].0);
            assert(table[k + 1].0 <= table[k + 1].1);
        }
    }
}

/// The underscore continues an identifier and is outside XID_Start.
pub proof fn lemma_underscore_class()
    ensures
        xid_continue('_'),
        !xid_start('_'),
{
    lemma_xid_start_ascending();
    assert(XID_CONTINUE_RANGES@[2] == (0x5Fu32, 0x5Fu32));
    assert(XID_START_RANGES@[0].1 == 0x5A);
    assert(XID_START_RANGES@[1].0 == 0x61);
    lemma_between_ranges(XID_START_RANGES@, 0, 0x5F);
}

/// Recognizes a single XID_Start character.
pub fn parse_xid_start(text: &str) -> (r: Result<char, InternalParserError>)
    ensures
        match r {
            Ok(c) => text@ == seq![c] && xid_start(c),
            Err(e) => e == InternalParserError::UnrecognizedLexeme && !(text@.len() == 1
                && xid_start(text@[0])),
        },
{
    let chars = to_chars(text);
    if chars.len() == 1 && is_xid_start(chars[0]) {
        assert(text@ =~= seq![chars@[0]]);
        Ok(chars[0])
    } else {
        Err(InternalParserError::UnrecognizedLexeme)
    }
}

/// Recognizes a single XID_Continue character.
pub fn parse_xid_continue(text: &str) -> (r: Result<char, InternalParserError>)
    ensures
        match r {
            Ok(c) => text@ == seq![c] && xid_continue(c),
            Err(e) => e == InternalParserError::UnrecognizedLexeme && !(text@.len() == 1
                && xid_continue(text@[0])),
        },
{
    let chars = to_chars(text);
    if chars.len() == 1 && is_xid_continue(chars[0]) {
        assert(text@ =~= seq![chars@[0]]);
        Ok(chars[0])
    } else {
        Err(InternalParserError::UnrecognizedLexeme)
    }
}

} // verus!
