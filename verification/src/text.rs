//! Searching text: where a pattern stands in a string, and how a string is
//! split at the leftmost occurrence of one.

use vstd::prelude::*;

verus! {

/// `pattern` stands in `text` at position `at`, counted in characters.
pub open spec fn occurs_at(text: Seq<char>, pattern: Seq<char>, at: int) -> bool {
    &&& 0 <= at
    &&& at + pattern.len() <= text.len()
    &&& text.subrange(at, at + pattern.len()) == pattern
}

/// `pattern` stands somewhere in `text`.
pub open spec fn occurs(text: Seq<char>, pattern: Seq<char>) -> bool {
    exists|at: int| occurs_at(text, pattern, at)
}

/// `at` is the leftmost position at which `pattern` stands in `text`.
pub open spec fn first_occurs_at(text: Seq<char>, pattern: Seq<char>, at: int) -> bool {
    &&& occurs_at(text, pattern, at)
    &&& forall|before: int| 0 <= before < at ==> !occurs_at(text, pattern, before)
}

/// The leftmost position at which `pattern` stands in `text`, if there is one.
pub open spec fn first_occurrence(text: Seq<char>, pattern: Seq<char>) -> Option<int> {
    if occurs(text, pattern) {
        Some(choose|at: int| first_occurs_at(text, pattern, at))
    } else {
        None
    }
}

/// What lies before and after the leftmost occurrence of `pattern` in `text`.
pub open spec fn split_first(text: Seq<char>, pattern: Seq<char>) -> Option<
    (Seq<char>, Seq<char>),
> {
    match first_occurrence(text, pattern) {
        Some(at) => Some(
            (text.subrange(0, at), text.subrange(at + pattern.len(), text.len() as int)),
        ),
        None => None,
    }
}

/// `str::split_once` with a string as the delimiter: the text before and the
/// text after the first occurrence of the delimiter, and nothing where the
/// delimiter does not occur.
#[verifier::external_body]
pub(crate) fn split_once<'a>(text: &'a str, pattern: &str) -> (parts: Option<(&'a str, &'a str)>)
    ensures
        match parts {
            Some((head, tail)) => split_first(text@, pattern@) == Some((head@, tail@)),
            None => split_first(text@, pattern@) is None,
        },
{
    text.split_once(pattern)
}

/// `str::contains` with a string as the pattern: whether the pattern matches
/// a part of the text.
#[verifier::external_body]
pub(crate) fn contains(text: &str, pattern: &str) -> (found: bool)
    ensures
        found == occurs(text@, pattern@),
{
    text.contains(pattern)
}

/// The lines that `str::lines` gives for a text, in their order.
pub uninterp spec fn lines_in(text: Seq<char>) -> Seq<Seq<char>>;

/// `str::lines`, which gives the lines of the text without their line
/// endings. Claimed is only that the text fixes the result, which goes by
/// the name `lines_in`.
#[verifier::external_body]
pub(crate) fn lines<'a>(text: &'a str) -> (all: Vec<&'a str>)
    ensures
        all.deep_view() == lines_in(text@),
{
    text.lines().collect()
}

/// `str::starts_with` with a string as the pattern: whether the text
/// begins with the pattern.
#[verifier::external_body]
pub(crate) fn starts_with(text: &str, prefix: &str) -> (starts: bool)
    ensures
        starts == occurs_at(text@, prefix@, 0),
{
    text.starts_with(prefix)
}

} // verus!
