//! Text functions of the standard library that the list functions call, and
//! what is taken for granted of each.

use vstd::prelude::*;

verus! {

/// What `str::to_lowercase` makes of a text.
pub uninterp spec fn lowercase_of(text: Seq<char>) -> Seq<char>;

/// True when `needle` occurs in `text` as a run of neighbouring characters.
pub open spec fn is_infix(needle: Seq<char>, text: Seq<char>) -> bool {
    exists|at: int|
        0 <= at && at + needle.len() <= text.len() && #[trigger] text.subrange(
            at,
            at + needle.len(),
        ) == needle
}

/// True when `text` begins with `prefix`.
pub open spec fn is_prefix(prefix: Seq<char>, text: Seq<char>) -> bool {
    prefix.len() <= text.len() && text.subrange(0, prefix.len() as int) == prefix
}

/// `str::starts_with` with a text as the pattern: whether `text` begins
/// with `prefix`.
#[verifier::external_body]
pub(crate) fn starts_with(text: &str, prefix: &str) -> (begins: bool)
    ensures
        begins == is_prefix(prefix@, text@),
{
    text.starts_with(prefix)
}

/// `str::to_lowercase`: the lowercase form of `text`. The result is a
/// function of `text` alone and is taken as given under the name
/// `lowercase_of`.
#[verifier::external_body]
pub(crate) fn to_lowercase(text: &str) -> (lower: String)
    ensures
        lower@ == lowercase_of(text@),
{
    text.to_lowercase()
}

/// `str::contains` with a text as the pattern: whether `needle` occurs in
/// `text`.
#[verifier::external_body]
pub(crate) fn contains(text: &str, needle: &str) -> (found: bool)
    ensures
        found == is_infix(needle@, text@),
{
    text.contains(needle)
}

/// `Path::starts_with`: whether the path `path` lies at or below the folder
/// `folder`, by whole components as this platform splits them. Nothing is
/// claimed of the answer.
#[verifier::external_body]
pub(crate) fn path_starts_with(path: &str, folder: &str) -> (below: bool) {
    std::path::Path::new(path).starts_with(folder)
}

/// `Path::join`: the path of `name` below `folder`, as this platform writes
/// it. Nothing is claimed of the text that comes back.
#[verifier::external_body]
pub(crate) fn join_path(folder: &str, name: &str) -> (joined: String) {
    std::path::Path::new(folder).join(name).to_string_lossy().into_owned()
}

} // verus!
