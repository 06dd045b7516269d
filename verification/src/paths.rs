//! File names and extensions of paths.
use vstd::prelude::*;
use vstd::string::*;

use crate::text::{chars_of, string_from_range};

verus! {

/// What `std::path::Path::file_name` gives for `path` (as text): the final
/// component, or none when the path ends in `..` or has no component.
pub uninterp spec fn path_file_name(path: Seq<char>) -> Option<Seq<char>>;

/// `Path::new(path).file_name()`, as text. The result is named, not
/// stated: it depends on `path` alone.
#[verifier::external_body]
pub fn file_name(path: &str) -> (r: Option<String>)
    ensures
        match path_file_name(path@) {
            Some(n) => r matches Some(s) && s@ == n,
            None => r is None,
        },
{
    match std::path::Path::new(path).file_name() {
        Some(n) => n.to_str().map(|s| s.to_string()),
        None => None,
    }
}

/// Whether `std::path::Path` counts `a` and `b` as the same path: it
/// compares their components, so repeated or trailing separators and `.`
/// components do not tell paths apart.
pub uninterp spec fn paths_equal(a: Seq<char>, b: Seq<char>) -> bool;

/// `Path::new(a) == Path::new(b)`. The result is named, not stated: it
/// depends on `a` and `b` alone.
#[verifier::external_body]
pub fn same_path(a: &str, b: &str) -> (r: bool)
    ensures
        r == paths_equal(a@, b@),
{
    std::path::Path::new(a) == std::path::Path::new(b)
}

/// The file name of `path`, or `path` itself when it has none.
pub open spec fn file_name_or_path(path: Seq<char>) -> Seq<char> {
    match path_file_name(path) {
        Some(n) => n,
        None => path,
    }
}

/// The last position of `c` in `s`.
pub open spec fn last_index_of(s: Seq<char>, c: char) -> Option<int>
    decreases s.len(),
{
    if s.len() == 0 {
        None
    } else if s.last() == c {
        Some(s.len() - 1)
    } else {
        last_index_of(s.drop_last(), c)
    }
}

/// The extension of a file name, as `Path::extension` documents it: none
/// when the name has no `.`, or only a leading one; else what follows the
/// last `.`.
pub open spec fn extension_of_name(name: Seq<char>) -> Option<Seq<char>> {
    match last_index_of(name, '.') {
        Some(k) => if k == 0 {
            None
        } else {
            Some(name.subrange(k + 1, name.len() as int))
        },
        None => None,
    }
}

/// The extension of `path`: that of its file name.
pub open spec fn path_extension(path: Seq<char>) -> Option<Seq<char>> {
    match path_file_name(path) {
        Some(n) => extension_of_name(n),
        None => None,
    }
}

/// The extension of a file name.
pub fn extension_of(name: &str) -> (r: Option<String>)
    ensures
        match extension_of_name(name@) {
            Some(e) => r matches Some(s) && s@ == e,
            None => r is None,
        },
{
    let v = chars_of(name);
    let mut i: usize = v.len();
    assert(name@.subrange(0, i as int) =~= name@);
    while i > 0
        invariant
            i <= v@.len(),
            v@ == name@,
            last_index_of(name@, '.') == last_index_of(name@.subrange(0, i as int), '.'),
        decreases i,
    {
        let ghost pre = name@.subrange(0, i as int);
        assert(pre.drop_last() =~= name@.subrange(0, i - 1));
        if v[i - 1] == '.' {
            assert(pre.last() == '.');
            if i - 1 == 0 {
                return None;
            }
            return Some(string_from_range(&v, i, v.len()));
        }
        i = i - 1;
    }
    None
}

/// The extension of `path`.
pub fn extension(path: &str) -> (r: Option<String>)
    ensures
        match path_extension(path@) {
            Some(e) => r matches Some(s) && s@ == e,
            None => r is None,
        },
{
    match file_name(path) {
        Some(n) => extension_of(n.as_str()),
        None => None,
    }
}

} // verus!
