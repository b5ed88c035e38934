//! Path arithmetic on POSIX paths: the relative path from a directory to a
//! file, and the source-file suffix of a component module.

use vstd::prelude::*;
use crate::text::{chars_of, find_last, last_index_of};

verus! {

/// Whether the segment `..` starts at index `i` of `p`.
pub open spec fn parent_segment_at(p: Seq<char>, i: int) -> bool {
    &&& 0 <= i && i + 2 <= p.len()
    &&& p[i] == '.' && p[i + 1] == '.'
    &&& (i == 0 || p[i - 1] == '/')
    &&& (i + 2 == p.len() || p[i + 2] == '/')
}

/// Whether `file://` starts at index `i` of `p`.
pub open spec fn file_scheme_at(p: Seq<char>, i: int) -> bool {
    &&& 0 <= i && i + 7 <= p.len()
    &&& p[i] == 'f' && p[i + 1] == 'i' && p[i + 2] == 'l' && p[i + 3] == 'e'
    &&& p[i + 4] == ':' && p[i + 5] == '/' && p[i + 6] == '/'
}

/// A path that relative paths can be taken from: absolute, with no `..`
/// segment and no `file://` inside.
pub open spec fn is_base_path(p: Seq<char>) -> bool {
    &&& p.len() > 0 && p[0] == '/'
    &&& forall|i: int| !parent_segment_at(p, i)
    &&& forall|i: int| !file_scheme_at(p, i)
}

/// Decides [`is_base_path`].
pub fn is_base_path_str(path: &str) -> (ok: bool)
    ensures
        ok == is_base_path(path@),
{
    let p = chars_of(path);
    let n = p.len();
    if n == 0 || p[0] != '/' {
        return false;
    }
    let mut i: usize = 0;
    while i < n
        invariant
            p@ == path@,
            n == p.len(),
            i <= n,
            forall|k: int| 0 <= k < i ==> !parent_segment_at(p@, k),
            forall|k: int| 0 <= k < i ==> !file_scheme_at(p@, k),
        decreases n - i,
    {
        let opens = i == 0 || p[i - 1] == '/';
        let closes = n - i == 2 || (n - i > 2 && p[i + 2] == '/');
        if n - i >= 2 && p[i] == '.' && p[i + 1] == '.' && opens && closes {
            assert(parent_segment_at(p@, i as int));
            return false;
        }
        if n - i >= 7 && p[i] == 'f' && p[i + 1] == 'i' && p[i + 2] == 'l' && p[i + 3] == 'e'
            && p[i + 4] == ':' && p[i + 5] == '/' && p[i + 6] == '/' {
            assert(file_scheme_at(p@, i as int));
            return false;
        }
        i += 1;
    }
    true
}

/// The source-file suffix of a component module: `.tsx` or `.jsx` at the end.
pub open spec fn has_component_suffix(s: Seq<char>) -> bool {
    let n = s.len() as int;
    &&& n >= 4
    &&& s[n - 4] == '.'
    &&& (s[n - 3] == 't' || s[n - 3] == 'j')
    &&& s[n - 2] == 's'
    &&& s[n - 1] == 'x'
}

/// Decides [`has_component_suffix`].
pub fn has_component_suffix_of(path: &str) -> (found: bool)
    ensures
        found == has_component_suffix(path@),
{
    let p = chars_of(path);
    let n = p.len();
    n >= 4 && p[n - 4] == '.' && (p[n - 3] == 't' || p[n - 3] == 'j') && p[n - 2] == 's' && p[n
        - 1] == 'x'
}

/// `s` without its component suffix, `s` itself where it has none.
pub open spec fn without_component_suffix(s: Seq<char>) -> Seq<char> {
    if has_component_suffix(s) {
        s.take(s.len() - 4)
    } else {
        s
    }
}

/// The last segment of a path: what follows its last `/`.
pub open spec fn file_name(path: Seq<char>) -> Seq<char> {
    path.skip(last_index_of(path, '/') + 1)
}

/// The file name without its extension. The extension starts at the last
/// dot; a dot that starts the file name starts no extension.
pub open spec fn file_stem(path: Seq<char>) -> Seq<char> {
    let name = file_name(path);
    let dot = last_index_of(name, '.');
    if dot <= 0 {
        name
    } else {
        name.take(dot)
    }
}

/// The directory of a file: what stands before its last `/`, or the root
/// where that is the path's first character.
pub open spec fn directory(path: Seq<char>) -> Seq<char> {
    let slash = last_index_of(path, '/');
    if slash < 0 {
        Seq::empty()
    } else if slash == 0 {
        path.take(1)
    } else {
        path.take(slash)
    }
}

/// Computes [`file_stem`].
pub fn file_stem_of(path: &str) -> (stem: String)
    ensures
        stem@ == file_stem(path@),
{
    let p = chars_of(path);
    let n = p.len();
    assert(p@.subrange(0, n as int) == p@);
    let start = match find_last(&p, 0, n, '/') {
        Some(slash) => slash + 1,
        None => 0,
    };
    assert(p@.subrange(start as int, n as int) == file_name(path@));
    let end = match find_last(&p, start, n, '.') {
        Some(dot) => if dot > start {
            dot
        } else {
            n
        },
        None => n,
    };
    assert(p@.subrange(start as int, end as int) == file_stem(path@));
    String::from_str(path.substring_char(start, end))
}

/// Computes [`directory`].
pub fn directory_of(path: &str) -> (dir: String)
    ensures
        dir@ == directory(path@),
{
    let p = chars_of(path);
    let n = p.len();
    assert(p@.subrange(0, n as int) == p@);
    let end = match find_last(&p, 0, n, '/') {
        Some(slash) => if slash == 0 {
            1
        } else {
            slash
        },
        None => 0,
    };
    assert(p@.subrange(0, end as int) == directory(path@));
    String::from_str(path.substring_char(0, end))
}

/// The directory of a base path is a base path.
pub proof fn lemma_directory_is_base_path(path: Seq<char>)
    requires
        is_base_path(path),
    ensures
        is_base_path(directory(path)),
{
    let slash = last_index_of(path, '/');
    let dir = directory(path);
    lemma_last_slash(path);
    assert forall|i: int| !parent_segment_at(dir, i) by {
        if parent_segment_at(dir, i) {
            assert(parent_segment_at(path, i));
        }
    }
    assert forall|i: int| !file_scheme_at(dir, i) by {
        if file_scheme_at(dir, i) {
            assert(file_scheme_at(path, i));
        }
    }
}

/// Where a path holds a `/`, [`last_index_of`] is the index of one.
proof fn lemma_last_slash(path: Seq<char>)
    ensures
        -1 <= last_index_of(path, '/') < path.len(),
        last_index_of(path, '/') >= 0 ==> path[last_index_of(path, '/')] == '/',
        path.len() > 0 && path[0] == '/' ==> last_index_of(path, '/') >= 0,
    decreases path.len(),
{
    if path.len() > 0 && path.last() != '/' {
        lemma_last_slash(path.drop_last());
    }
}

/// The path that leads from the directory `from` to `to`, as
/// `farmfe_utils::relative` computes it.
pub uninterp spec fn relative_path(from: Seq<char>, to: Seq<char>) -> Seq<char>;

/// Calls `farmfe_utils::relative`, which reads its arguments as paths of the
/// target, here POSIX paths, after it has removed `file://` from both. The
/// call panics in three places: where `from` is not absolute; where
/// `pathdiff::diff_paths` finds no path from `from` to an absolute `to`,
/// which takes a `..` segment in `from`; and where the path found holds a
/// root or a `.` behind its first segment, which no path has that
/// `diff_paths` made of two absolute paths or that is a relative `to`
/// itself. None of them is reached from a base path. The result is a
/// function of the two paths alone.
#[verifier::external_body]
fn relative(from: &str, to: &str) -> (rel: String)
    requires
        is_base_path(from@),
    ensures
        rel@ == relative_path(from@, to@),
{
    farmfe_utils::relative(from, to)
}

/// Calls `regex::Regex::new` on `pattern` and `regex::Regex::replace` of the
/// outcome on `text`. The pattern below is a regular expression. A match of
/// it is a dot, `t` or `j`, `s` and `x` that end the text, so there is at
/// most one, and `replace` puts the empty replacement in its place, or hands
/// the text back unchanged where there is none.
#[verifier::external_body]
fn replace_first_match(pattern: &str, text: &str, replacement: &str) -> (out: String)
    requires
        pattern@ == "\\.[tj]sx$"@,
        replacement@.len() == 0,
    ensures
        out@ == without_component_suffix(text@),
{
    regex::Regex::new(pattern).unwrap().replace(text, replacement).into_owned()
}

/// Removes a final `.tsx` or `.jsx`.
pub fn remove_tsx_jsx_suffix(s: &str) -> (out: String)
    ensures
        out@ == without_component_suffix(s@),
{
    let empty = String::new();
    replace_first_match("\\.[tj]sx$", s, empty.as_str())
}

/// The module specifier of the file `to` for an importer in the directory
/// `from`: `./`, the relative path, and no component suffix.
pub open spec fn import_specifier(from: Seq<char>, to: Seq<char>) -> Seq<char> {
    without_component_suffix("./"@ + relative_path(from, to))
}

/// Computes [`import_specifier`].
pub fn relative_import(from: &str, to: &str) -> (out: String)
    requires
        is_base_path(from@),
    ensures
        out@ == import_specifier(from@, to@),
{
    let mut related = String::from_str("./");
    let rel = relative(from, to);
    related.append(rel.as_str());
    remove_tsx_jsx_suffix(related.as_str())
}

} // verus!
