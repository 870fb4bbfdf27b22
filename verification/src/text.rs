//! Occurrences of one character sequence inside another.

use vstd::prelude::*;

verus! {

/// Whether `pattern` stands in `text` at index `at`.
pub open spec fn occurs_at(text: Seq<char>, pattern: Seq<char>, at: int) -> bool {
    &&& 0 <= at
    &&& at + pattern.len() <= text.len()
    &&& text.subrange(at, at + pattern.len()) == pattern
}

/// Whether `pattern` stands somewhere in `text`.
pub open spec fn occurs_in(text: Seq<char>, pattern: Seq<char>) -> bool {
    exists|at: int| occurs_at(text, pattern, at)
}

/// Whether `c` is none of the first `upto` characters of `text`.
pub open spec fn lacks_char(text: Seq<char>, c: char, upto: nat) -> bool
    decreases upto,
{
    upto == 0 || (text[upto - 1] != c && lacks_char(text, c, (upto - 1) as nat))
}

/// Whether `c` is none of the characters of `pattern` but possibly its last.
pub open spec fn only_ends(pattern: Seq<char>, c: char) -> bool {
    forall|k: int| 0 <= k < pattern.len() - 1 ==> pattern[k] != c
}

/// Whether `c` is none of the characters of `pattern` but possibly its first.
pub open spec fn only_starts(pattern: Seq<char>, c: char) -> bool {
    forall|k: int| 1 <= k < pattern.len() ==> pattern[k] != c
}

/// A sequence placed between two others occurs in the whole.
pub proof fn lemma_occurs_between(before: Seq<char>, pattern: Seq<char>, after: Seq<char>)
    ensures
        occurs_in(before + pattern + after, pattern),
{
    let whole = before + pattern + after;
    let at = before.len() as int;
    assert(whole.subrange(at, at + pattern.len()) =~= pattern);
    assert(occurs_at(whole, pattern, at));
}

/// What occurs in a part occurs in the whole.
pub proof fn lemma_occurs_in_part(left: Seq<char>, right: Seq<char>, pattern: Seq<char>)
    requires
        occurs_in(left, pattern) || occurs_in(right, pattern),
    ensures
        occurs_in(left + right, pattern),
{
    let whole = left + right;
    if occurs_in(left, pattern) {
        let at = choose|at: int| occurs_at(left, pattern, at);
        assert(whole.subrange(at, at + pattern.len()) =~= left.subrange(at, at + pattern.len()));
        assert(occurs_at(whole, pattern, at));
    } else {
        let at = choose|at: int| occurs_at(right, pattern, at);
        let shifted = left.len() + at;
        assert(whole.subrange(shifted, shifted + pattern.len()) =~= right.subrange(
            at,
            at + pattern.len(),
        ));
        assert(occurs_at(whole, pattern, shifted));
    }
}

/// Where the character on one side of a seam cannot stand inside the pattern,
/// an occurrence in the whole lies within one of the two parts.
pub proof fn lemma_occurs_in_whole(left: Seq<char>, right: Seq<char>, pattern: Seq<char>)
    requires
        (left.len() > 0 && only_ends(pattern, left.last())) || (right.len() > 0 && only_starts(
            pattern,
            right[0],
        )),
        occurs_in(left + right, pattern),
    ensures
        occurs_in(left, pattern) || occurs_in(right, pattern),
{
    let whole = left + right;
    let at = choose|at: int| occurs_at(whole, pattern, at);
    let found = whole.subrange(at, at + pattern.len());
    let seam = left.len() as int;
    if at + pattern.len() <= seam {
        assert(left.subrange(at, at + pattern.len()) =~= found);
        assert(occurs_at(left, pattern, at));
    } else if at >= seam {
        assert(right.subrange(at - seam, at - seam + pattern.len()) =~= found);
        assert(occurs_at(right, pattern, at - seam));
    } else if left.len() > 0 && only_ends(pattern, left.last()) {
        let k = seam - 1 - at;
        assert(found[k] == whole[seam - 1]);
        assert(pattern[k] == left.last());
    } else {
        let k = seam - at;
        assert(found[k] == whole[seam]);
        assert(pattern[k] == right[0]);
    }
}

/// A text without some character of the pattern holds no occurrence of it.
pub proof fn lemma_lacking_text(text: Seq<char>, pattern: Seq<char>, k: int)
    requires
        0 <= k < pattern.len(),
        lacks_char(text, pattern[k], text.len()),
    ensures
        !occurs_in(text, pattern),
{
    if occurs_in(text, pattern) {
        let at = choose|at: int| occurs_at(text, pattern, at);
        assert(text.subrange(at, at + pattern.len())[k] == text[at + k]);
        lemma_lacks_char(text, pattern[k], text.len(), at + k);
    }
}

/// `lacks_char` speaks of every index below its bound.
pub proof fn lemma_lacks_char(text: Seq<char>, c: char, upto: nat, i: int)
    requires
        lacks_char(text, c, upto),
        0 <= i < upto,
    ensures
        text[i] != c,
    decreases upto,
{
    if i < upto - 1 {
        lemma_lacks_char(text, c, (upto - 1) as nat, i);
    }
}

} // verus!
