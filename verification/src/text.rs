//! Looking into texts, character by character.

use vstd::prelude::*;

verus! {

/// The place of the first `c` in `s` from `from` up to `to`, or `to` where
/// there is none.
pub open spec fn first_index(s: Seq<char>, c: char, from: int, to: int) -> int
    decreases to - from,
{
    if from >= to {
        to
    } else if s[from] == c {
        from
    } else {
        first_index(s, c, from + 1, to)
    }
}

/// `first_index` lies between its bounds, finds `c` where it stops early, and
/// passes over no `c`.
pub proof fn lemma_first_index(s: Seq<char>, c: char, from: int, to: int)
    requires
        0 <= from <= to <= s.len(),
    ensures
        from <= first_index(s, c, from, to) <= to,
        first_index(s, c, from, to) < to ==> s[first_index(s, c, from, to)] == c,
        forall|i: int| from <= i < first_index(s, c, from, to) ==> s[i] != c,
    decreases to - from,
{
    if from < to && s[from] != c {
        lemma_first_index(s, c, from + 1, to);
    }
}

/// The place of the first `c` in `text` from `from` up to `to`, or `to` where
/// there is none.
pub fn find_char(text: &str, c: char, from: usize, to: usize) -> (at: usize)
    requires
        from <= to <= text@.len(),
    ensures
        at == first_index(text@, c, from as int, to as int),
        from <= at <= to,
{
    let mut at = from;
    while at < to
        invariant
            from <= at <= to <= text@.len(),
            first_index(text@, c, from as int, to as int) == first_index(
                text@,
                c,
                at as int,
                to as int,
            ),
        decreases to - at,
    {
        if text.get_char(at) == c {
            return at;
        }
        at = at + 1;
    }
    at
}

/// Whether the characters of `text` from `from` up to `to` spell `word`.
pub fn spells(text: &str, from: usize, to: usize, word: &str) -> (r: bool)
    requires
        from <= to <= text@.len(),
    ensures
        r == (text@.subrange(from as int, to as int) == word@),
{
    let len = word.unicode_len();
    if to - from != len {
        return false;
    }
    let mut i: usize = 0;
    while i < len
        invariant
            i <= len,
            len == word@.len(),
            to - from == len,
            from <= to <= text@.len(),
            forall|j: int| 0 <= j < i ==> text@[from + j] == word@[j],
        decreases len - i,
    {
        if text.get_char(from + i) != word.get_char(i) {
            proof {
                assert(text@.subrange(from as int, to as int)[i as int] != word@[i as int]);
            }
            return false;
        }
        i = i + 1;
    }
    proof {
        assert(text@.subrange(from as int, to as int) =~= word@);
    }
    true
}

/// Whether two texts are the same.
pub fn same_text(a: &str, b: &str) -> (r: bool)
    ensures
        r == (a@ == b@),
{
    let len = a.unicode_len();
    proof {
        assert(a@.subrange(0, len as int) =~= a@);
    }
    spells(a, 0, len, b)
}

} // verus!
