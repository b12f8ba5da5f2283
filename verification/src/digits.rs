//! Digits of the four radices, digit separators, and the value of a digit
//! sequence.

use vstd::prelude::*;
use vstd::arithmetic::power::{lemma_pow0, lemma_pow1, lemma_pow_adds, lemma_pow_positive, pow};
use crate::parser_errors::InternalParserError;

verus! {

/// The base of a literal's notation.
#[derive(Clone, Copy, Debug, PartialEq, Eq, Structural)]
pub enum Radix {
    Binary,
    Octal,
    Decimal,
    Hexadecimal,
}

impl Radix {
    /// The number of distinct digits.
    pub open spec fn base(self) -> int {
        match self {
            Radix::Binary => 2,
            Radix::Octal => 8,
            Radix::Decimal => 10,
            Radix::Hexadecimal => 16,
        }
    }

    /// The number of distinct digits.
    pub fn base_value(self) -> (b: u8)
        ensures
            b == self.base(),
    {
        match self {
            Radix::Binary => 2,
            Radix::Octal => 8,
            Radix::Decimal => 10,
            Radix::Hexadecimal => 16,
        }
    }
}

/// The value of a digit character: `0` to `9`, then `a` to `f` in either case.
pub open spec fn digit_value(c: char) -> Option<int> {
    if '0' <= c <= '9' {
        Some(c as int - '0' as int)
    } else if 'a' <= c <= 'f' {
        Some(c as int - 'a' as int + 10)
    } else if 'A' <= c <= 'F' {
        Some(c as int - 'A' as int + 10)
    } else {
        None
    }
}

/// `c` is a digit of the radix.
pub open spec fn is_digit(radix: Radix, c: char) -> bool {
    digit_value(c) matches Some(v) && v < radix.base()
}

/// `c` is a digit of the radix or the separator `_`.
pub open spec fn is_digit_or_underscore(radix: Radix, c: char) -> bool {
    c == '_' || is_digit(radix, c)
}

/// Every character is a digit of the radix or a separator.
pub open spec fn all_digits_or_underscores(s: Seq<char>, radix: Radix) -> bool {
    forall|i: int| 0 <= i < s.len() ==> is_digit_or_underscore(radix, #[trigger] s[i])
}

/// Every character is a digit of the radix.
pub open spec fn all_digits(s: Seq<char>, radix: Radix) -> bool {
    forall|i: int| 0 <= i < s.len() ==> is_digit(radix, #[trigger] s[i])
}

/// `s` with its separators taken out.
pub open spec fn filter_underscores(s: Seq<char>) -> Seq<char> {
    s.filter(|c: char| c != '_')
}

/// The number that a digit sequence denotes in positional notation, most
/// significant digit first: each digit times the base raised to the number of
/// digits that follow it.
pub open spec fn digits_value(digits: Seq<char>, base: int) -> int
    decreases digits.len(),
{
    if digits.len() == 0 {
        0
    } else {
        digit_value(digits[0]).unwrap() * pow(base, (digits.len() - 1) as nat) + digits_value(
            digits.drop_first(),
            base,
        )
    }
}

/// The number that a run of digits and separators denotes.
pub open spec fn literal_value(body: Seq<char>, radix: Radix) -> int {
    digits_value(filter_underscores(body), radix.base())
}

/// What folding a run of digits and separators gives: the value, unless a
/// character is foreign to the radix or the value exceeds the accumulator.
pub open spec fn folded(body: Seq<char>, radix: Radix) -> Result<u128, InternalParserError> {
    if !all_digits_or_underscores(body, radix) {
        Err(InternalParserError::InvalidDigitForRadix)
    } else if literal_value(body, radix) > u128::MAX {
        Err(InternalParserError::LiteralOverflow)
    } else {
        Ok(literal_value(body, radix) as u128)
    }
}

/// The value of `c` as a digit of the radix, if it is one.
pub fn digit_of(radix: Radix, c: char) -> (d: Option<u8>)
    ensures
        d is Some <==> is_digit(radix, c),
        d matches Some(v) ==> Some(v as int) == digit_value(c),
{
    let v: u32 = if '0' <= c && c <= '9' {
        c as u32 - '0' as u32
    } else if 'a' <= c && c <= 'f' {
        c as u32 - 'a' as u32 + 10
    } else if 'A' <= c && c <= 'F' {
        c as u32 - 'A' as u32 + 10
    } else {
        return None;
    };
    if v < radix.base_value() as u32 {
        Some(v as u8)
    } else {
        None
    }
}

/// Whether every character of `body` is a digit of the radix or a separator.
pub fn check_digits_or_underscores(body: &[char], radix: Radix) -> (ok: bool)
    ensures
        ok == all_digits_or_underscores(body@, radix),
{
    let mut i: usize = 0;
    while i < body.len()
        invariant
            0 <= i <= body@.len(),
            forall|k: int| 0 <= k < i ==> is_digit_or_underscore(radix, #[trigger] body@[k]),
        decreases body@.len() - i,
    {
        let c = body[i];
        if c != '_' && digit_of(radix, c).is_none() {
            assert(!is_digit_or_underscore(radix, body@[i as int]));
            return false;
        }
        i = i + 1;
    }
    true
}

/// Whether `body` holds at least one digit of the radix.
pub fn has_digit(body: &[char], radix: Radix) -> (found: bool)
    ensures
        found == exists|i: int| 0 <= i < body@.len() && is_digit(radix, #[trigger] body@[i]),
{
    let mut i: usize = 0;
    while i < body.len()
        invariant
            0 <= i <= body@.len(),
            forall|k: int| 0 <= k < i ==> !is_digit(radix, #[trigger] body@[k]),
        decreases body@.len() - i,
    {
        if digit_of(radix, body[i]).is_some() {
            assert(is_digit(radix, body@[i as int]));
            return true;
        }
        i = i + 1;
    }
    false
}

/// Folds a run of digits and separators into its value, most significant
/// digit first. Separators contribute nothing.
pub fn fold_digits(body: &[char], radix: Radix) -> (r: Result<u128, InternalParserError>)
    ensures
        r == folded(body@, radix),
{
    if !check_digits_or_underscores(body, radix) {
        return Err(InternalParserError::InvalidDigitForRadix);
    }
    let base: u128 = radix.base_value() as u128;
    let mut acc: u128 = 0;
    let mut i: usize = 0;
    proof {
        assert(body@.take(0) =~= Seq::<char>::empty());
    }
    while i < body.len()
        invariant
            0 <= i <= body@.len(),
            base == radix.base(),
            all_digits_or_underscores(body@, radix),
            acc == literal_value(body@.take(i as int), radix),
        decreases body@.len() - i,
    {
        let c = body[i];
        proof {
            lemma_literal_value_push(body@.take(i as int), c, radix);
            assert(body@.take(i + 1) =~= body@.take(i as int).push(c));
            lemma_literal_value_prefix(body@, i + 1, radix);
        }
        match digit_of(radix, c) {
            Some(d) => {
                let scaled = match acc.checked_mul(base) {
                    Some(v) => v,
                    None => {
                        return Err(InternalParserError::LiteralOverflow);
                    },
                };
                acc = match scaled.checked_add(d as u128) {
                    Some(v) => v,
                    None => {
                        return Err(InternalParserError::LiteralOverflow);
                    },
                };
            },
            None => {},
        }
        i = i + 1;
    }
    proof {
        assert(body@.take(body@.len() as int) =~= body@);
    }
    Ok(acc)
}

/// The value of two digit sequences written one after the other: the first
/// is shifted left by the length of the second.
pub proof fn lemma_digits_value_concat(a: Seq<char>, b: Seq<char>, base: int)
    ensures
        digits_value(a + b, base) == digits_value(a, base) * pow(base, b.len()) + digits_value(
            b,
            base,
        ),
    decreases a.len(),
{
    if a.len() == 0 {
        assert(a + b =~= b);
    } else {
        let rest = a.drop_first();
        assert((a + b).drop_first() =~= rest + b);
        assert((a + b)[0] == a[0]);
        lemma_digits_value_concat(rest, b, base);
        lemma_pow_adds(base, (a.len() - 1) as nat, b.len());
        let d = digit_value(a[0]).unwrap();
        let p = pow(base, (a.len() - 1) as nat);
        let q = pow(base, b.len());
        let vr = digits_value(rest, base);
        let vb = digits_value(b, base);
        assert(pow(base, (a.len() + b.len() - 1) as nat) == p * q);
        assert(d * (p * q) + (vr * q + vb) == (d * p + vr) * q + vb) by (nonlinear_arith);
    }
}

/// Appending one digit multiplies the value by the base and adds the digit.
pub proof fn lemma_digits_value_push(digits: Seq<char>, c: char, base: int)
    ensures
        digits_value(digits.push(c), base) == digits_value(digits, base) * base + digit_value(
            c,
        ).unwrap(),
{
    let one = seq![c];
    assert(digits.push(c) =~= digits + one);
    lemma_digits_value_concat(digits, one, base);
    lemma_pow1(base);
    lemma_pow0(base);
    assert(one.drop_first() =~= Seq::<char>::empty());
    assert(digits_value(one, base) == digit_value(c).unwrap() * pow(base, 0) + digits_value(
        one.drop_first(),
        base,
    ));
}

/// Appending a separator leaves the value as it was; appending a digit is one
/// step of the fold.
pub proof fn lemma_literal_value_push(body: Seq<char>, c: char, radix: Radix)
    ensures
        c == '_' ==> literal_value(body.push(c), radix) == literal_value(body, radix),
        c != '_' ==> literal_value(body.push(c), radix) == literal_value(body, radix)
            * radix.base() + digit_value(c).unwrap(),
{
    let keep = |x: char| x != '_';
    reveal(Seq::filter);
    assert(body.push(c).drop_last() =~= body);
    if c != '_' {
        assert(body.push(c).filter(keep) == body.filter(keep).push(c));
        lemma_digits_value_push(body.filter(keep), c, radix.base());
    } else {
        assert(body.push(c).filter(keep) == body.filter(keep));
    }
}

/// The value of a digit sequence is not negative.
pub proof fn lemma_digits_value_nonnegative(digits: Seq<char>, radix: Radix)
    requires
        all_digits(digits, radix),
    ensures
        0 <= digits_value(digits, radix.base()),
    decreases digits.len(),
{
    if digits.len() > 0 {
        let rest = digits.drop_first();
        assert forall|i: int| 0 <= i < rest.len() implies is_digit(radix, #[trigger] rest[i]) by {
            assert(rest[i] == digits[i + 1]);
        }
        lemma_digits_value_nonnegative(rest, radix);
        assert(is_digit(radix, digits[0]));
        lemma_pow_positive(radix.base(), (digits.len() - 1) as nat);
        let d = digit_value(digits[0]).unwrap();
        let p = pow(radix.base(), (digits.len() - 1) as nat);
        assert(0 <= d * p) by (nonlinear_arith)
            requires
                0 <= d,
                0 < p,
        ;
    }
}

/// Taking the separators out of a run of digits and separators leaves digits.
pub proof fn lemma_filter_gives_digits(body: Seq<char>, radix: Radix)
    requires
        all_digits_or_underscores(body, radix),
    ensures
        all_digits(filter_underscores(body), radix),
{
    let keep = |x: char| x != '_';
    let kept = body.filter(keep);
    assert forall|i: int| 0 <= i < kept.len() implies is_digit(radix, #[trigger] kept[i]) by {
        body.lemma_filter_pred(keep, i);
        assert(kept.contains(kept[i]));
        body.lemma_filter_contains_rev(keep, kept[i]);
        let k = choose|k: int| 0 <= k < body.len() && body[k] == kept[i];
        assert(is_digit_or_underscore(radix, body[k]));
    }
}

/// A literal is at least as large as each of its prefixes.
pub proof fn lemma_literal_value_prefix(body: Seq<char>, n: int, radix: Radix)
    requires
        all_digits_or_underscores(body, radix),
        0 <= n <= body.len(),
    ensures
        0 <= literal_value(body.take(n), radix) <= literal_value(body, radix),
{
    let keep = |x: char| x != '_';
    let head = body.take(n);
    let tail = body.skip(n);
    assert(head + tail =~= body);
    Seq::filter_distributes_over_add(head, tail, keep);
    let fh = head.filter(keep);
    let ft = tail.filter(keep);
    lemma_digits_value_concat(fh, ft, radix.base());
    assert(all_digits_or_underscores(head, radix)) by {
        assert forall|i: int| 0 <= i < head.len() implies is_digit_or_underscore(
            radix,
            #[trigger] head[i],
        ) by {
            assert(head[i] == body[i]);
        }
    }
    assert(all_digits_or_underscores(tail, radix)) by {
        assert forall|i: int| 0 <= i < tail.len() implies is_digit_or_underscore(
            radix,
            #[trigger] tail[i],
        ) by {
            assert(tail[i] == body[i + n]);
        }
    }
    lemma_filter_gives_digits(head, radix);
    lemma_filter_gives_digits(tail, radix);
    lemma_digits_value_nonnegative(fh, radix);
    lemma_digits_value_nonnegative(ft, radix);
    lemma_pow_positive(radix.base(), ft.len());
    let vh = digits_value(fh, radix.base());
    let q = pow(radix.base(), ft.len());
    assert(vh <= vh * q) by (nonlinear_arith)
        requires
            0 <= vh,
            1 <= q,
    ;
}

/// A sequence without separators is what taking the separators out gives.
pub proof fn lemma_filter_without_underscores(s: Seq<char>)
    requires
        forall|i: int| 0 <= i < s.len() ==> #[trigger] s[i] != '_',
    ensures
        filter_underscores(s) == s,
    decreases s.len(),
{
    reveal(Seq::filter);
    if s.len() > 0 {
        let front = s.drop_last();
        assert forall|i: int| 0 <= i < front.len() implies #[trigger] front[i] != '_' by {
            assert(front[i] == s[i]);
        }
        lemma_filter_without_underscores(front);
        assert(s.last() == s[s.len() - 1]);
        assert(front.push(s.last()) =~= s);
    }
}

/// A sequence of separators alone has nothing left once they are taken out.
pub proof fn lemma_filter_only_underscores(s: Seq<char>)
    requires
        forall|i: int| 0 <= i < s.len() ==> #[trigger] s[i] == '_',
    ensures
        filter_underscores(s) == Seq::<char>::empty(),
    decreases s.len(),
{
    reveal(Seq::filter);
    if s.len() > 0 {
        let front = s.drop_last();
        assert forall|i: int| 0 <= i < front.len() implies #[trigger] front[i] == '_' by {
            assert(front[i] == s[i]);
        }
        lemma_filter_only_underscores(front);
        assert(s.last() == s[s.len() - 1]);
    } else {
        assert(s =~= Seq::<char>::empty());
    }
}

/// Radix round trip. Wherever the separators stand in a run of digits and
/// separators, the run folds to the number that its digits alone denote in
/// positional notation: folding the run and folding its bare digits agree, in
/// value and in outcome.
pub proof fn lemma_radix_round_trip(body: Seq<char>, radix: Radix)
    requires
        all_digits_or_underscores(body, radix),
    ensures
        all_digits(filter_underscores(body), radix),
        literal_value(body, radix) == digits_value(filter_underscores(body), radix.base()),
        literal_value(filter_underscores(body), radix) == literal_value(body, radix),
        folded(filter_underscores(body), radix) == folded(body, radix),
        0 <= literal_value(body, radix),
{
    let bare = filter_underscores(body);
    lemma_filter_gives_digits(body, radix);
    assert forall|i: int| 0 <= i < bare.len() implies #[trigger] bare[i] != '_' by {
        assert(is_digit(radix, bare[i]));
    }
    lemma_filter_without_underscores(bare);
    lemma_digits_value_nonnegative(bare, radix);
    assert(all_digits_or_underscores(bare, radix)) by {
        assert forall|i: int| 0 <= i < bare.len() implies is_digit_or_underscore(
            radix,
            #[trigger] bare[i],
        ) by {
            assert(is_digit(radix, bare[i]));
        }
    }
}

/// Two runs with the same digits in the same order denote the same number,
/// however their separators are arranged.
pub proof fn lemma_separator_arrangement(a: Seq<char>, b: Seq<char>, radix: Radix)
    requires
        filter_underscores(a) == filter_underscores(b),
    ensures
        literal_value(a, radix) == literal_value(b, radix),
{
}

/// A separator put anywhere into a run does not change the number denoted.
pub proof fn lemma_separator_inserted(front: Seq<char>, back: Seq<char>, radix: Radix)
    ensures
        literal_value(front.push('_') + back, radix) == literal_value(front + back, radix),
{
    let keep = |x: char| x != '_';
    Seq::filter_distributes_over_add(front.push('_'), back, keep);
    Seq::filter_distributes_over_add(front, back, keep);
    lemma_literal_value_push(front, '_', radix);
    reveal(Seq::filter);
    assert(front.push('_').drop_last() =~= front);
}

/// A run of separators alone denotes zero.
pub proof fn lemma_only_underscores_zero(body: Seq<char>, radix: Radix)
    requires
        forall|i: int| 0 <= i < body.len() ==> #[trigger] body[i] == '_',
    ensures
        literal_value(body, radix) == 0,
        folded(body, radix) == Ok::<u128, InternalParserError>(0),
{
    lemma_filter_only_underscores(body);
    assert(all_digits_or_underscores(body, radix));
}

/// The end of the longest run of digits and separators that begins at `start`.
pub open spec fn digit_run_end(s: Seq<char>, start: int, radix: Radix) -> int
    decreases s.len() - start,
{
    if 0 <= start < s.len() && is_digit_or_underscore(radix, s[start]) {
        digit_run_end(s, start + 1, radix)
    } else {
        start
    }
}

/// The run that `digit_run_end` delimits holds digits and separators only,
/// and cannot be extended.
pub proof fn lemma_digit_run(s: Seq<char>, start: int, radix: Radix)
    requires
        0 <= start <= s.len(),
    ensures
        start <= digit_run_end(s, start, radix) <= s.len(),
        all_digits_or_underscores(s.subrange(start, digit_run_end(s, start, radix)), radix),
        digit_run_end(s, start, radix) < s.len() ==> !is_digit_or_underscore(
            radix,
            s[digit_run_end(s, start, radix)],
        ),
    decreases s.len() - start,
{
    let end = digit_run_end(s, start, radix);
    if start < s.len() && is_digit_or_underscore(radix, s[start]) {
        lemma_digit_run(s, start + 1, radix);
        let run = s.subrange(start, end);
        let rest = s.subrange(start + 1, end);
        assert forall|i: int| 0 <= i < run.len() implies is_digit_or_underscore(
            radix,
            #[trigger] run[i],
        ) by {
            if i > 0 {
                assert(run[i] == rest[i - 1]);
            }
        }
    }
}

/// Finds the end of the longest run of digits and separators from `start`.
pub fn scan_digit_run(chars: &[char], start: usize, radix: Radix) -> (end: usize)
    ensures
        end == digit_run_end(chars@, start as int, radix),
        start <= end,
        start <= chars@.len() ==> end <= chars@.len(),
{
    if start > chars.len() {
        return start;
    }
    let mut end: usize = start;
    while end < chars.len() && (chars[end] == '_' || digit_of(radix, chars[end]).is_some())
        invariant
            start <= end <= chars@.len(),
            digit_run_end(chars@, start as int, radix) == digit_run_end(
                chars@,
                end as int,
                radix,
            ),
        decreases chars@.len() - end,
    {
        end = end + 1;
    }
    end
}

/// Copies `chars` without its separators.
pub fn strip_underscores(chars: &[char]) -> (bare: Vec<char>)
    ensures
        bare@ == filter_underscores(chars@),
{
    let mut bare: Vec<char> = Vec::new();
    let mut i: usize = 0;
    proof {
        reveal(Seq::filter);
        assert(chars@.take(0) =~= Seq::<char>::empty());
    }
    while i < chars.len()
        invariant
            0 <= i <= chars@.len(),
            bare@ == filter_underscores(chars@.take(i as int)),
        decreases chars@.len() - i,
    {
        let c = chars[i];
        proof {
            reveal(Seq::filter);
            assert(chars@.take(i + 1).drop_last() =~= chars@.take(i as int));
            assert(chars@.take(i + 1).last() == c);
        }
        if c != '_' {
            bare.push(c);
        }
        i = i + 1;
    }
    proof {
        assert(chars@.take(chars@.len() as int) =~= chars@);
    }
    bare
}

/// A run of digits and separators that cannot be extended is the run that
/// `digit_run_end` delimits.
pub proof fn lemma_digit_run_ends(s: Seq<char>, start: int, end: int, radix: Radix)
    requires
        0 <= start <= end <= s.len(),
        forall|i: int| start <= i < end ==> is_digit_or_underscore(radix, #[trigger] s[i]),
        end < s.len() ==> !is_digit_or_underscore(radix, s[end]),
    ensures
        digit_run_end(s, start, radix) == end,
    decreases end - start,
{
    if start < end {
        assert(is_digit_or_underscore(radix, s[start]));
        lemma_digit_run_ends(s, start + 1, end, radix);
    }
}

} // verus!
