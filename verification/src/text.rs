//! Character-level helpers for the string logic of the other modules.

use vstd::prelude::*;

verus! {

/// The characters of `s`, for indexed access.
pub fn chars_of(s: &str) -> (v: Vec<char>)
    ensures
        v@ == s@,
{
    broadcast use vstd::string::group_string_axioms;
    let mut v: Vec<char> = Vec::new();
    for c in it: s.chars()
        invariant
            it.seq() == s@,
            v@ == s@.take(it.index() as int),
    {
        v.push(c);
    }
    v
}

/// The index of the last `c` in `s`, and -1 where `s` holds none.
pub open spec fn last_index_of(s: Seq<char>, c: char) -> int
    decreases s.len(),
{
    if s.len() == 0 {
        -1
    } else if s.last() == c {
        s.len() - 1
    } else {
        last_index_of(s.drop_last(), c)
    }
}

/// [`last_index_of`] is the index after which no `c` stands, and at which
/// one does.
pub proof fn lemma_last_index_of(s: Seq<char>, c: char, i: int)
    requires
        -1 <= i < s.len(),
        i >= 0 ==> s[i] == c,
        forall|k: int| i < k < s.len() ==> s[k] != c,
    ensures
        last_index_of(s, c) == i,
    decreases s.len(),
{
    if s.len() > 0 && s.last() != c {
        lemma_last_index_of(s.drop_last(), c, i);
    }
}

/// Finds the last `c` in `s` from index `start` up to `end`.
pub fn find_last(s: &Vec<char>, start: usize, end: usize, c: char) -> (found: Option<usize>)
    requires
        start <= end <= s.len(),
    ensures
        match found {
            Some(i) => start <= i < end && i - start == last_index_of(
                s@.subrange(start as int, end as int),
                c,
            ),
            None => last_index_of(s@.subrange(start as int, end as int), c) == -1,
        },
{
    let ghost part = s@.subrange(start as int, end as int);
    let mut i = end;
    while i > start
        invariant
            start <= i <= end <= s.len(),
            part == s@.subrange(start as int, end as int),
            forall|k: int| i - start <= k < part.len() ==> part[k] != c,
        decreases i,
    {
        if s[i - 1] == c {
            proof {
                lemma_last_index_of(part, c, i - 1 - start);
            }
            return Some(i - 1);
        }
        i -= 1;
    }
    proof {
        lemma_last_index_of(part, c, -1);
    }
    None
}

} // verus!
