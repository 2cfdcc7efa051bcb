//! Paths as texts, taken apart and put together by `std::path`.
//!
//! What `std::path` computes from a path's text depends on that text alone,
//! by the rules for the paths of Unix, the only ones the tool meets. Where
//! a few lines say what it computes, they are written out; the splitting of
//! a path into components has a name instead, so that contracts elsewhere
//! can speak of a path's file name or parent without spelling out its rules.

use crate::text::to_chars;
use vstd::prelude::*;

verus! {

/// The last component of `path`, where it is a file or directory name.
pub uninterp spec fn file_name_of(path: Seq<char>) -> Option<Seq<char>>;

/// The position of the last dot in `name`, or -1 where it has none.
pub open spec fn last_dot(name: Seq<char>) -> int
    decreases name.len(),
{
    if name.len() == 0 {
        -1
    } else if name.last() == '.' {
        name.len() - 1
    } else {
        last_dot(name.drop_last())
    }
}

/// The file name of `path` without its extension: what stands before the
/// last dot of the file name, or the whole file name where it has no dot or
/// only the one that it begins with.
pub open spec fn file_stem_of(path: Seq<char>) -> Option<Seq<char>> {
    match file_name_of(path) {
        Some(name) => if last_dot(name) <= 0 {
            Some(name)
        } else {
            Some(name.subrange(0, last_dot(name)))
        },
        None => None,
    }
}

/// The extension of the file name of `path`: what follows the last dot of
/// the file name; none where it has no dot or only the one that it begins
/// with.
pub open spec fn extension_of(path: Seq<char>) -> Option<Seq<char>> {
    match file_name_of(path) {
        Some(name) => if last_dot(name) <= 0 {
            None
        } else {
            Some(name.subrange(last_dot(name) + 1, name.len() as int))
        },
        None => None,
    }
}

/// `path` without its last component.
pub uninterp spec fn parent_of(path: Seq<char>) -> Option<Seq<char>>;

/// Whether the components of `base` are the first components of `path`.
pub uninterp spec fn is_under(path: Seq<char>, base: Seq<char>) -> bool;

/// `base` extended by `rest`: `rest` alone where it begins at the root;
/// else the two in a row, with a `/` between them unless `base` is empty or
/// ends in one.
pub open spec fn joined(base: Seq<char>, rest: Seq<char>) -> Seq<char> {
    if rest.len() > 0 && rest[0] == '/' {
        rest
    } else if base.len() == 0 || base.last() == '/' {
        base + rest
    } else {
        base + seq!['/'] + rest
    }
}

/// `Path::file_name`: the last component of `path`, unless the path ends in
/// `..` or has no component to name.
#[verifier::external_body]
pub(crate) fn file_name(path: &str) -> (r: Option<String>)
    ensures
        match r {
            Some(name) => file_name_of(path@) == Some(name@),
            None => file_name_of(path@) is None,
        },
{
    let name = std::path::Path::new(path).file_name()?;
    Some(name.to_str()?.to_string())
}

/// `Path::file_stem`: the file name of `path` up to its last dot, or all of
/// it where it has no dot or only the one that it begins with.
#[verifier::external_body]
pub(crate) fn file_stem(path: &str) -> (r: Option<String>)
    ensures
        match r {
            Some(stem) => file_stem_of(path@) == Some(stem@),
            None => file_stem_of(path@) is None,
        },
{
    let stem = std::path::Path::new(path).file_stem()?;
    Some(stem.to_str()?.to_string())
}

/// `Path::extension`: what follows the last dot of the file name of `path`,
/// unless it has no dot or only the one that it begins with.
#[verifier::external_body]
pub(crate) fn extension(path: &str) -> (r: Option<String>)
    ensures
        match r {
            Some(ext) => extension_of(path@) == Some(ext@),
            None => extension_of(path@) is None,
        },
{
    let ext = std::path::Path::new(path).extension()?;
    Some(ext.to_str()?.to_string())
}

/// `Path::parent`: `path` without its last component, if it has one to drop.
#[verifier::external_body]
pub(crate) fn parent(path: &str) -> (r: Option<String>)
    ensures
        match r {
            Some(dir) => parent_of(path@) == Some(dir@),
            None => parent_of(path@) is None,
        },
{
    let dir = std::path::Path::new(path).parent()?;
    Some(dir.to_str()?.to_string())
}

/// `Path::starts_with`: whether `base` is a prefix of `path`, component by
/// component.
#[verifier::external_body]
pub(crate) fn starts_with(path: &str, base: &str) -> (r: bool)
    ensures
        r == is_under(path@, base@),
{
    std::path::Path::new(path).starts_with(base)
}

/// `Path::join`: `rest` alone where it is absolute, else `base` with `rest`
/// behind it and a separator between the two where `base` does not end in
/// one.
#[verifier::external_body]
pub(crate) fn join(base: &str, rest: &str) -> (r: String)
    ensures
        r@ == joined(base@, rest@),
{
    std::path::Path::new(base).join(rest).to_string_lossy().into_owned()
}

/// `path` lies under one of `bases`.
pub open spec fn is_under_any(path: Seq<char>, bases: Seq<Seq<char>>) -> bool {
    exists|i: int| 0 <= i < bases.len() && is_under(path, #[trigger] bases[i])
}

/// Whether `path` lies under one of `bases`.
pub fn under_any(path: &str, bases: &Vec<String>) -> (r: bool)
    ensures
        r == is_under_any(path@, crate::plugin::traits::texts(bases@)),
{
    let ghost all = crate::plugin::traits::texts(bases@);
    let mut i: usize = 0;
    while i < bases.len()
        invariant
            i <= bases@.len(),
            all == crate::plugin::traits::texts(bases@),
            forall|k: int| 0 <= k < i ==> !is_under(path@, #[trigger] all[k]),
        decreases bases.len() - i,
    {
        if starts_with(path, bases[i].as_str()) {
            assert(is_under(path@, all[i as int]));
            return true;
        }
        i += 1;
    }
    false
}

/// The file name of `path` begins with a dot.
pub open spec fn has_dot_name(path: Seq<char>) -> bool {
    match file_name_of(path) {
        Some(name) => name.len() > 0 && name[0] == '.',
        None => false,
    }
}

/// Whether the file name of `path` begins with a dot.
pub fn is_dot_name(path: &str) -> (r: bool)
    ensures
        r == has_dot_name(path@),
{
    match file_name(path) {
        Some(name) => {
            let chars = to_chars(name.as_str());
            chars.len() > 0 && chars[0] == '.'
        },
        None => false,
    }
}

/// The file name of `path`, or `fallback` where it has none.
pub open spec fn name_or(path: Seq<char>, fallback: Seq<char>) -> Seq<char> {
    match file_name_of(path) {
        Some(name) => name,
        None => fallback,
    }
}

/// The file name of `path`, or `fallback` where it has none.
pub fn file_name_or(path: &str, fallback: &str) -> (r: String)
    ensures
        r@ == name_or(path@, fallback@),
{
    match file_name(path) {
        Some(name) => name,
        None => String::from_str(fallback),
    }
}

} // verus!
