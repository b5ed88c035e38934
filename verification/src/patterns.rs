//! Include and exclude patterns. A pattern is a glob: `*` stands for any run
//! of characters, `?` for any one character, every other character for
//! itself, and the pattern covers the whole of the text.

use vstd::prelude::*;
use crate::text::chars_of;

verus! {

/// Whether the pattern covers the whole text.
pub open spec fn glob_matches(pattern: Seq<char>, text: Seq<char>) -> bool
    decreases pattern.len(), text.len(),
{
    if pattern.len() == 0 {
        text.len() == 0
    } else if pattern[0] == '*' {
        glob_matches(pattern.skip(1), text) || (text.len() > 0 && glob_matches(
            pattern,
            text.skip(1),
        ))
    } else {
        text.len() > 0 && (pattern[0] == '?' || pattern[0] == text[0]) && glob_matches(
            pattern.skip(1),
            text.skip(1),
        )
    }
}

/// How a match from index `i` of the pattern and index `j` of the text
/// depends on the matches one step further.
proof fn lemma_glob_step(pattern: Seq<char>, text: Seq<char>, i: int, j: int)
    requires
        0 <= i < pattern.len(),
        0 <= j <= text.len(),
    ensures
        pattern[i] == '*' ==> (glob_matches(pattern.skip(i), text.skip(j)) <==> glob_matches(
            pattern.skip(i + 1),
            text.skip(j),
        ) || (j < text.len() && glob_matches(pattern.skip(i), text.skip(j + 1)))),
        pattern[i] != '*' ==> (glob_matches(pattern.skip(i), text.skip(j)) <==> j < text.len() && (
        pattern[i] == '?' || pattern[i] == text[j]) && glob_matches(
            pattern.skip(i + 1),
            text.skip(j + 1),
        )),
{
    assert(pattern.skip(i).skip(1) == pattern.skip(i + 1));
    if j < text.len() {
        assert(text.skip(j).skip(1) == text.skip(j + 1));
    }
}

/// Decides [`glob_matches`].
pub fn glob_match(pattern: &str, text: &str) -> (found: bool)
    ensures
        found == glob_matches(pattern@, text@),
{
    let p = chars_of(pattern);
    let t = chars_of(text);
    let n = t.len();
    // row[j] says whether the pattern from `i` on covers the text from `j` on.
    let mut row: Vec<bool> = Vec::new();
    while row.len() < n
        invariant
            n == t.len(),
            row.len() <= n,
            forall|k: int| 0 <= k < row.len() ==> !row[k],
        decreases n - row.len(),
    {
        row.push(false);
    }
    row.push(true);
    let mut i = p.len();
    assert forall|k: int| 0 <= k <= n implies row[k] == glob_matches(
        p@.skip(i as int),
        #[trigger] t@.skip(k),
    ) by {
        assert(p@.skip(i as int).len() == 0);
    }
    while i > 0
        invariant
            p@ == pattern@,
            t@ == text@,
            n == t.len(),
            row.len() == n + 1,
            i <= p.len(),
            forall|k: int|
                0 <= k <= n ==> row[k] == glob_matches(p@.skip(i as int), #[trigger] t@.skip(k)),
        decreases i,
    {
        i -= 1;
        if p[i] == '*' {
            proof {
                lemma_glob_step(p@, t@, i as int, n as int);
            }
            let mut j = n;
            while j > 0
                invariant
                    n == t.len(),
                    row.len() == n + 1,
                    i < p.len(),
                    p[i as int] == '*',
                    j <= n,
                    forall|k: int|
                        j <= k <= n ==> row[k] == glob_matches(
                            p@.skip(i as int),
                            #[trigger] t@.skip(k),
                        ),
                    forall|k: int|
                        0 <= k < j ==> row[k] == glob_matches(
                            p@.skip(i + 1),
                            #[trigger] t@.skip(k),
                        ),
                decreases j,
            {
                j -= 1;
                proof {
                    lemma_glob_step(p@, t@, i as int, j as int);
                }
                let covered = row[j] || row[j + 1];
                row.set(j, covered);
            }
        } else {
            let mut j: usize = 0;
            while j < n
                invariant
                    n == t.len(),
                    row.len() == n + 1,
                    i < p.len(),
                    p[i as int] != '*',
                    j <= n,
                    forall|k: int|
                        0 <= k < j ==> row[k] == glob_matches(
                            p@.skip(i as int),
                            #[trigger] t@.skip(k),
                        ),
                    forall|k: int|
                        j <= k <= n ==> row[k] == glob_matches(
                            p@.skip(i + 1),
                            #[trigger] t@.skip(k),
                        ),
                decreases n - j,
            {
                proof {
                    lemma_glob_step(p@, t@, i as int, j as int);
                }
                let covered = (p[i] == '?' || p[i] == t[j]) && row[j + 1];
                row.set(j, covered);
                j += 1;
            }
            proof {
                lemma_glob_step(p@, t@, i as int, n as int);
            }
            row.set(n, false);
        }
    }
    assert(p@.skip(0) == p@);
    assert(t@.skip(0) == t@);
    row[0]
}

/// A pattern without `*` and `?`.
pub open spec fn is_literal(pattern: Seq<char>) -> bool {
    forall|i: int| 0 <= i < pattern.len() ==> pattern[i] != '*' && pattern[i] != '?'
}

/// A pattern without `*` and `?` covers itself and no other text.
pub proof fn lemma_literal_matches_itself_only(pattern: Seq<char>, text: Seq<char>)
    requires
        is_literal(pattern),
    ensures
        glob_matches(pattern, text) <==> pattern == text,
    decreases pattern.len(),
{
    if pattern.len() == 0 {
        assert(text.len() == 0 <==> pattern =~= text);
    } else {
        assert(is_literal(pattern.skip(1))) by {
            assert forall|i: int| 0 <= i < pattern.skip(1).len() implies pattern.skip(1)[i] != '*'
                && pattern.skip(1)[i] != '?' by {
                assert(pattern.skip(1)[i] == pattern[i + 1]);
            }
        }
        if text.len() > 0 {
            lemma_literal_matches_itself_only(pattern.skip(1), text.skip(1));
            if pattern[0] == text[0] && pattern.skip(1) == text.skip(1) {
                assert(pattern.skip(1).len() == text.skip(1).len());
                assert forall|i: int| 0 <= i < pattern.len() implies pattern[i] == text[i] by {
                    if i > 0 {
                        assert(pattern.skip(1)[i - 1] == text.skip(1)[i - 1]);
                    }
                }
                assert(pattern =~= text);
            }
        }
    }
}

/// Some pattern covers `text`.
pub open spec fn matches_any(patterns: Seq<Seq<char>>, text: Seq<char>) -> bool {
    exists|i: int| 0 <= i < patterns.len() && glob_matches(#[trigger] patterns[i], text)
}

/// An include pattern covers `text`, if there is any, and no exclude pattern
/// does.
pub open spec fn is_selected(
    includes: Seq<Seq<char>>,
    exclude: Seq<Seq<char>>,
    text: Seq<char>,
) -> bool {
    (includes.len() == 0 || matches_any(includes, text)) && !matches_any(exclude, text)
}

/// Decides [`matches_any`].
pub fn any_pattern_matches(patterns: &Vec<String>, text: &str) -> (found: bool)
    ensures
        found == matches_any(patterns.deep_view(), text@),
{
    let mut i: usize = 0;
    while i < patterns.len()
        invariant
            i <= patterns.len(),
            forall|k: int| 0 <= k < i ==> !glob_matches(#[trigger] patterns.deep_view()[k], text@),
        decreases patterns.len() - i,
    {
        if glob_match(patterns[i].as_str(), text) {
            assert(glob_matches(patterns.deep_view()[i as int], text@));
            return true;
        }
        i += 1;
    }
    false
}

/// Decides [`is_selected`].
pub fn is_selected_text(includes: &Vec<String>, exclude: &Vec<String>, text: &str) -> (selected:
    bool)
    ensures
        selected == is_selected(includes.deep_view(), exclude.deep_view(), text@),
{
    let wanted = includes.len() == 0 || any_pattern_matches(includes, text);
    wanted && !any_pattern_matches(exclude, text)
}

} // verus!
