//! The boundary to the `regex` crate.
//!
//! What the engine computes is not modelled here: each of its three entry
//! points that this library uses gets an uninterpreted name, and the
//! wrappers below are trusted to return exactly what that name denotes.
//! Everything else in the library is stated over these names and proved.

use regex::Regex;
use vstd::prelude::*;

verus! {

/// Whether `Regex::new` accepts `pattern`.
pub uninterp spec fn regex_compiles(pattern: Seq<char>) -> bool;

/// Whether the regex written as `pattern` matches anywhere in `haystack`
/// (`Regex::is_match`).
pub uninterp spec fn regex_is_match(pattern: Seq<char>, haystack: Seq<char>) -> bool;

/// The matched substrings that `Regex::find_iter` yields for `pattern` on
/// `haystack`: successive non-overlapping matches, leftmost first.
pub uninterp spec fn regex_find_iter(pattern: Seq<char>, haystack: Seq<char>) -> Seq<Seq<char>>;

/// The character content of each string of a sequence.
pub open spec fn texts(strings: Seq<String>) -> Seq<Seq<char>> {
    strings.map_values(|s: String| s@)
}

/// Calls `Regex::new` and reports whether it returned `Ok`.
///
/// Trusted: the answer is `regex_compiles` of the pattern, that is,
/// compiling depends on the pattern text alone.
#[verifier::external_body]
pub(crate) fn compiles(pattern: &str) -> (ok: bool)
    ensures
        ok == regex_compiles(pattern@),
{
    Regex::new(pattern).is_ok()
}

/// Compiles `pattern` with `Regex::new` and calls `Regex::is_match` on
/// `haystack`.
///
/// Trusted: the answer is `regex_is_match` of the two texts. The
/// precondition excludes the patterns that `Regex::new` rejects, for which
/// the body would panic.
#[verifier::external_body]
pub(crate) fn is_match(pattern: &str, haystack: &str) -> (found: bool)
    requires
        regex_compiles(pattern@),
    ensures
        found == regex_is_match(pattern@, haystack@),
{
    Regex::new(pattern).unwrap().is_match(haystack)
}

/// Compiles `pattern` with `Regex::new`, runs `Regex::find_iter` over
/// `haystack` and copies out the text of every match (`Match::as_str`), in
/// the order in which the iterator yields them.
///
/// Trusted: the texts are `regex_find_iter` of the two arguments. The
/// precondition excludes the patterns that `Regex::new` rejects, for which
/// the body would panic.
#[verifier::external_body]
pub(crate) fn find_all(pattern: &str, haystack: &str) -> (found: Vec<String>)
    requires
        regex_compiles(pattern@),
    ensures
        texts(found@) == regex_find_iter(pattern@, haystack@),
{
    Regex::new(pattern).unwrap().find_iter(haystack).map(|m| m.as_str().to_string()).collect()
}

} // verus!
