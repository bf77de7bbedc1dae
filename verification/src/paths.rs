//! File paths as the library sees them: strings, taken apart with the
//! standard library's `Path`. A track is identified by the exact path string
//! the scanner produced.

use vstd::prelude::*;
use std::path::Path;

verus! {

/// What `Path::extension` gives for a path: the part of the file name after
/// its last `.`, if the name has one that does not start it.
pub uninterp spec fn spec_extension(p: Seq<char>) -> Option<Seq<char>>;

#[verifier::external_body]
pub(crate) fn path_extension(p: &str) -> (r: Option<String>)
    ensures
        r matches Some(e) ==> spec_extension(p@) == Some(e@),
        r is None ==> spec_extension(p@) is None,
{
    Path::new(p).extension().map(|e| e.to_string_lossy().into_owned())
}

/// What `Path::parent` gives: the path without its final component, or None
/// for a root or an empty path.
pub uninterp spec fn spec_parent(p: Seq<char>) -> Option<Seq<char>>;

#[verifier::external_body]
pub(crate) fn path_parent(p: &str) -> (r: Option<String>)
    ensures
        r matches Some(q) ==> spec_parent(p@) == Some(q@),
        r is None ==> spec_parent(p@) is None,
{
    Path::new(p).parent().map(|q| q.to_string_lossy().into_owned())
}

/// What `Path::file_name` gives: the final component, unless it is `..`.
pub uninterp spec fn spec_file_name(p: Seq<char>) -> Option<Seq<char>>;

#[verifier::external_body]
pub(crate) fn path_file_name(p: &str) -> (r: Option<String>)
    ensures
        r matches Some(q) ==> spec_file_name(p@) == Some(q@),
        r is None ==> spec_file_name(p@) is None,
{
    Path::new(p).file_name().map(|q| q.to_string_lossy().into_owned())
}

/// What `Path::file_stem` gives: the file name without its extension.
pub uninterp spec fn spec_file_stem(p: Seq<char>) -> Option<Seq<char>>;

#[verifier::external_body]
pub(crate) fn path_file_stem(p: &str) -> (r: Option<String>)
    ensures
        r matches Some(q) ==> spec_file_stem(p@) == Some(q@),
        r is None ==> spec_file_stem(p@) is None,
{
    Path::new(p).file_stem().map(|q| q.to_string_lossy().into_owned())
}

/// What `Path::strip_prefix` gives: the rest of `p` after the components of
/// `base`, when `p` starts with them.
pub uninterp spec fn spec_strip_prefix(p: Seq<char>, base: Seq<char>) -> Option<Seq<char>>;

#[verifier::external_body]
pub(crate) fn path_strip_prefix(p: &str, base: &str) -> (r: Option<String>)
    ensures
        r matches Some(q) ==> spec_strip_prefix(p@, base@) == Some(q@),
        r is None ==> spec_strip_prefix(p@, base@) is None,
{
    Path::new(p).strip_prefix(base).ok().map(|q| q.to_string_lossy().into_owned())
}

/// What the first of `Path::components` is, as a string.
pub uninterp spec fn spec_first_component(p: Seq<char>) -> Option<Seq<char>>;

#[verifier::external_body]
pub(crate) fn path_first_component(p: &str) -> (r: Option<String>)
    ensures
        r matches Some(q) ==> spec_first_component(p@) == Some(q@),
        r is None ==> spec_first_component(p@) is None,
{
    Path::new(p).components().next().map(|c| c.as_os_str().to_string_lossy().into_owned())
}

/// What `Path::join` gives: `name` appended as a further component, or `name`
/// itself when it is absolute.
pub uninterp spec fn spec_join(p: Seq<char>, name: Seq<char>) -> Seq<char>;

#[verifier::external_body]
pub(crate) fn path_join(p: &str, name: &str) -> (r: String)
    ensures
        r@ == spec_join(p@, name@),
{
    Path::new(p).join(name).to_string_lossy().into_owned()
}

} // verus!
