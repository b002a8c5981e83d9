//! The few facts about `std::path::Path` that the library relies on,
//! stated over the characters of a path.

use vstd::prelude::*;

verus! {

/// Position of the first `c` in `s`, or `s.len()` when there is none.
pub open spec fn index_of_char(s: Seq<char>, c: char) -> nat
    decreases s.len(),
{
    if s.len() == 0 {
        0
    } else if s[0] == c {
        0
    } else {
        1 + index_of_char(s.drop_first(), c)
    }
}

/// Position of the last `c` in `s`, or -1 when there is none.
pub open spec fn last_index_of_char(s: Seq<char>, c: char) -> int
    decreases s.len(),
{
    if s.len() == 0 {
        -1
    } else if s.last() == c {
        s.len() - 1
    } else {
        last_index_of_char(s.drop_last(), c)
    }
}

/// The pieces of `s` between occurrences of `sep`, as `str::split` yields
/// them (a text without `sep` is one piece).
pub open spec fn split_on(s: Seq<char>, sep: char) -> Seq<Seq<char>>
    decreases s.len(),
{
    let i = index_of_char(s, sep);
    if i >= s.len() {
        seq![s]
    } else {
        seq![s.take(i as int)] + split_on(s.skip((i + 1) as int), sep)
    }
}

/// A path segment that names something: not empty and not `.`.
pub open spec fn is_named_segment(seg: Seq<char>) -> bool {
    seg.len() > 0 && seg != seq!['.']
}

/// The final component of a path, as `Path::file_name` returns it on Unix
/// (where `/` is the only separator): the last segment between `/`
/// separators once empty segments and `.` are set aside; none when there is
/// no such segment or when it is `..`.
pub open spec fn file_name_of(path: Seq<char>) -> Option<Seq<char>> {
    let named = split_on(path, '/').filter(|seg: Seq<char>| is_named_segment(seg));
    if named.len() == 0 || named.last() == seq!['.', '.'] {
        None
    } else {
        Some(named.last())
    }
}

/// The extension of a path, as `Path::extension` returns it on Unix: what
/// follows the last `.` of the file name; none when there is no file name,
/// no `.`, or when the only `.` starts the file name.
pub open spec fn extension_of(path: Seq<char>) -> Option<Seq<char>> {
    match file_name_of(path) {
        None => None,
        Some(name) => {
            let dot = last_index_of_char(name, '.');
            if dot <= 0 {
                None
            } else {
                Some(name.skip(dot + 1))
            }
        },
    }
}

/// The path that `Path::join` builds on Unix: `part` alone when it is
/// absolute, otherwise `base`, a `/` when `base` is not empty and does not
/// already end with one, and `part`.
pub open spec fn join_of(base: Seq<char>, part: Seq<char>) -> Seq<char> {
    if part.len() > 0 && part[0] == '/' {
        part
    } else if base.len() == 0 || base.last() == '/' {
        base + part
    } else {
        base + seq!['/'] + part
    }
}

/// The view of an optional string.
pub open spec fn opt_view(o: Option<String>) -> Option<Seq<char>> {
    match o {
        Some(s) => Some(s@),
        None => None,
    }
}

/// `Path::file_name`: the final component of `path` (see `file_name_of`).
#[verifier::external_body]
pub(crate) fn path_file_name(path: &str) -> (r: Option<String>)
    ensures
        opt_view(r) == file_name_of(path@),
{
    std::path::Path::new(path).file_name().map(|name| name.to_string_lossy().into_owned())
}

/// `Path::extension`: the extension of `path` (see `extension_of`).
#[verifier::external_body]
pub(crate) fn path_extension(path: &str) -> (r: Option<String>)
    ensures
        opt_view(r) == extension_of(path@),
{
    std::path::Path::new(path).extension().map(|ext| ext.to_string_lossy().into_owned())
}

/// `Path::join`: `part` appended to `base` (see `join_of`).
#[verifier::external_body]
pub(crate) fn path_join(base: &str, part: &str) -> (r: String)
    ensures
        r@ == join_of(base@, part@),
{
    std::path::Path::new(base).join(part).to_string_lossy().into_owned()
}

} // verus!
