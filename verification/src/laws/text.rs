//! Laws of trimming, of ASCII case and of searches.
use vstd::prelude::*;

use crate::text::{
    ascii_lower, decimal, digit, first_index, is_white_space, lemma_first_index, lowered, occurs,
    occurs_at, trimmed, trimmed_end, trimmed_start, without_leading, without_trailing,
};

verus! {

/// What is left of a text without its leading white space is its end, and starts with
/// another character.
pub proof fn lemma_trimmed_start(s: Seq<char>)
    ensures
        trimmed_start(s).len() <= s.len(),
        trimmed_start(s) == s.skip(s.len() - trimmed_start(s).len()),
        trimmed_start(s).len() > 0 ==> !is_white_space(trimmed_start(s).first()),
    decreases s.len(),
{
    if s.len() > 0 && is_white_space(s.first()) {
        let rest = s.drop_first();
        lemma_trimmed_start(rest);
        assert(rest.skip(rest.len() - trimmed_start(rest).len()) =~= s.skip(
            s.len() - trimmed_start(s).len(),
        ));
    } else {
        assert(s.skip(0) =~= s);
    }
}

/// What is left of a text without its trailing white space is its start, and ends in
/// another character.
pub proof fn lemma_trimmed_end(s: Seq<char>)
    ensures
        trimmed_end(s).len() <= s.len(),
        trimmed_end(s) == s.take(trimmed_end(s).len() as int),
        trimmed_end(s).len() > 0 ==> !is_white_space(trimmed_end(s).last()),
    decreases s.len(),
{
    if s.len() > 0 && is_white_space(s.last()) {
        let rest = s.drop_last();
        lemma_trimmed_end(rest);
        assert(rest.take(trimmed_end(rest).len() as int) =~= s.take(trimmed_end(s).len() as int));
    } else {
        assert(s.take(s.len() as int) =~= s);
    }
}

/// A trimmed text has no white space at either end, and trimming it again changes
/// nothing.
pub proof fn law_trimmed(s: Seq<char>)
    ensures
        trimmed(s).len() <= s.len(),
        trimmed(s).len() > 0 ==> !is_white_space(trimmed(s).first()) && !is_white_space(
            trimmed(s).last(),
        ),
        trimmed(trimmed(s)) == trimmed(s),
{
    let start = trimmed_start(s);
    lemma_trimmed_start(s);
    lemma_trimmed_end(start);
    let t = trimmed(s);
    if t.len() > 0 {
        assert(t.first() == start.first());
    }
    assert(trimmed_start(t) == t);
    assert(trimmed_end(t) == t);
}

/// Lowering a text twice is lowering it once.
pub proof fn law_lowered(s: Seq<char>)
    ensures
        lowered(lowered(s)) == lowered(s),
{
    assert forall|c: char| ascii_lower(#[trigger] ascii_lower(c)) == ascii_lower(c) by {}
    assert(lowered(lowered(s)) =~= lowered(s));
}

/// The first `c` of a text that starts with other characters and goes on with a `c`.
pub proof fn lemma_first_index_after(before: Seq<char>, c: char, after: Seq<char>)
    requires
        !before.contains(c),
    ensures
        first_index(before + seq![c] + after, c) == Some(before.len() as int),
{
    let s = before + seq![c] + after;
    lemma_first_index(s, c);
    let i = before.len() as int;
    assert(s[i] == c);
    let k = first_index(s, c)->0;
    if k < i {
        assert(before[k] == c);
    }
}

/// A text without `c` has no first `c`.
pub proof fn lemma_first_index_none(s: Seq<char>, c: char)
    requires
        !s.contains(c),
    ensures
        first_index(s, c) is None,
{
    lemma_first_index(s, c);
}

/// A further trailing `c` goes with the others.
pub proof fn lemma_without_trailing_push(s: Seq<char>, c: char)
    ensures
        without_trailing(s.push(c), c) == without_trailing(s, c),
{
    assert(s.push(c).drop_last() =~= s);
}

/// White space is what the code points 9 to 13, 32, 133, 160, 5760, 8192 to 8202, 8232,
/// 8233, 8239, 8287 and 12288 stand for, and nothing else.
pub proof fn law_white_space(c: char)
    ensures
        is_white_space(c) <==> {
            let n = c as int;
            ||| 9 <= n <= 13
            ||| n == 32
            ||| n == 133
            ||| n == 160
            ||| n == 5760
            ||| 8192 <= n <= 8202
            ||| n == 8232
            ||| n == 8233
            ||| n == 8239
            ||| n == 8287
            ||| n == 12288
        },
{
}

/// Every character is white space.
pub open spec fn all_white(s: Seq<char>) -> bool {
    forall|i: int| 0 <= i < s.len() ==> is_white_space(#[trigger] s[i])
}

proof fn lemma_white_before(before: Seq<char>, rest: Seq<char>)
    requires
        all_white(before),
    ensures
        trimmed_start(before + rest) == trimmed_start(rest),
    decreases before.len(),
{
    if before.len() == 0 {
        assert(before + rest =~= rest);
    } else {
        assert((before + rest).first() == before[0]);
        assert((before + rest).drop_first() =~= before.drop_first() + rest);
        lemma_white_before(before.drop_first(), rest);
    }
}

proof fn lemma_white_after(rest: Seq<char>, after: Seq<char>)
    requires
        all_white(after),
    ensures
        trimmed_end(rest + after) == trimmed_end(rest),
    decreases after.len(),
{
    if after.len() == 0 {
        assert(rest + after =~= rest);
    } else {
        assert((rest + after).last() == after[after.len() - 1]);
        assert((rest + after).drop_last() =~= rest + after.drop_last());
        lemma_white_after(rest, after.drop_last());
    }
}

/// Trimming takes off all the white space around a text, and nothing else.
pub proof fn law_trimmed_takes_white_space(before: Seq<char>, inner: Seq<char>, after: Seq<char>)
    requires
        all_white(before),
        all_white(after),
        inner.len() > 0 ==> !is_white_space(inner.first()) && !is_white_space(inner.last()),
    ensures
        trimmed(before + inner + after) == inner,
{
    assert(before + inner + after =~= before + (inner + after));
    lemma_white_before(before, inner + after);
    if inner.len() > 0 {
        assert((inner + after).first() == inner.first());
        assert(trimmed_start(inner + after) == inner + after);
        lemma_white_after(inner, after);
        assert(trimmed_end(inner) == inner);
    } else {
        assert(inner + after =~= after + inner);
        lemma_white_before(after, inner);
        assert(trimmed_start(inner) == inner);
        assert(trimmed_end(inner) == inner);
    }
}

/// Lowering moves the 26 capitals of ASCII up by 32 code points, and no other character.
pub proof fn law_lowered_letters(s: Seq<char>, i: int)
    requires
        0 <= i < s.len(),
    ensures
        lowered(s).len() == s.len(),
        65 <= s[i] as int <= 90 ==> lowered(s)[i] as int == s[i] as int + 32,
        !(65 <= s[i] as int <= 90) ==> lowered(s)[i] == s[i],
{
}

/// A text occurs wherever it is put, whatever stands around it.
pub proof fn law_occurs(before: Seq<char>, needle: Seq<char>, after: Seq<char>)
    ensures
        occurs(before + needle + after, needle),
{
    let hay = before + needle + after;
    assert(hay.subrange(before.len() as int, (before.len() + needle.len()) as int) =~= needle);
    assert(occurs_at(hay, needle, before.len() as int));
}

/// A text that occurs in another is a part of it.
pub proof fn law_occurrence_is_a_part(hay: Seq<char>, needle: Seq<char>)
    requires
        occurs(hay, needle),
    ensures
        exists|before: Seq<char>, after: Seq<char>| hay == #[trigger] (before + needle + after),
{
    let i = choose|i: int| occurs_at(hay, needle, i);
    let before = hay.take(i);
    let after = hay.skip(i + needle.len());
    assert(hay =~= before + needle + after);
}

/// As many copies of a character as one likes.
pub open spec fn copies(n: nat, c: char) -> Seq<char> {
    Seq::new(n, |i: int| c)
}

/// All the trailing copies of a character are taken off, and nothing else.
pub proof fn law_without_trailing(s: Seq<char>, n: nat, c: char)
    requires
        s.len() > 0 ==> s.last() != c,
    ensures
        without_trailing(s + copies(n, c), c) == s,
    decreases n,
{
    if n == 0 {
        assert(s + copies(n, c) =~= s);
    } else {
        law_without_trailing(s, (n - 1) as nat, c);
        assert((s + copies(n, c)).drop_last() =~= s + copies((n - 1) as nat, c));
        assert((s + copies(n, c)).last() == c);
    }
}

/// All the leading copies of a character are taken off, and nothing else.
pub proof fn law_without_leading(n: nat, c: char, s: Seq<char>)
    requires
        s.len() > 0 ==> s.first() != c,
    ensures
        without_leading(copies(n, c) + s, c) == s,
    decreases n,
{
    if n == 0 {
        assert(copies(n, c) + s =~= s);
    } else {
        law_without_leading((n - 1) as nat, c, s);
        assert((copies(n, c) + s).drop_first() =~= copies((n - 1) as nat, c) + s);
        assert((copies(n, c) + s).first() == c);
    }
}

/// The number that decimal digits write.
pub open spec fn number(digits: Seq<char>) -> int
    decreases digits.len(),
{
    if digits.len() == 0 {
        0
    } else {
        10 * number(digits.drop_last()) + (digits.last() as int - 48)
    }
}

/// A number in decimal is made of digits, does not start with a zero unless it is zero,
/// and reads back as the number.
pub proof fn law_decimal(n: nat)
    ensures
        decimal(n).len() > 0,
        forall|i: int| 0 <= i < decimal(n).len() ==> 48 <= #[trigger] decimal(n)[i] as int <= 57,
        n > 0 ==> decimal(n)[0] as int != 48,
        number(decimal(n)) == n,
    decreases n,
{
    if n < 10 {
        reveal_with_fuel(number, 2);
        assert(decimal(n).drop_last() =~= seq![]);
    } else {
        law_decimal(n / 10);
        assert(decimal(n).drop_last() =~= decimal(n / 10));
    }
}

} // verus!
