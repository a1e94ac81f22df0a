//! The boundary to the regular-expression engine. The engine is an opaque,
//! reliable collaborator: compilation and matching are named here and the
//! library's contracts are stated over those names.

use vstd::prelude::*;

verus! {

#[verifier::external_type_specification]
#[verifier::external_body]
pub struct ExRegex(regex::Regex);

#[verifier::external_type_specification]
#[verifier::external_body]
pub struct ExRegexError(regex::Error);

/// The pattern texts that the engine's default configuration compiles;
/// a pattern outside this set is rejected at construction.
pub uninterp spec fn regex_valid(pattern: Seq<char>) -> bool;

/// The pattern text that a compiled regular expression was built from.
pub uninterp spec fn compiled_pattern(re: regex::Regex) -> Seq<char>;

/// Whether the pattern matches somewhere in the input; a function of the
/// pattern text and the input alone.
pub uninterp spec fn regex_match(pattern: Seq<char>, input: Seq<char>) -> bool;

/// Relies on regex::Regex::new: it returns Ok exactly on the pattern texts
/// that the engine's default configuration accepts, and the compiled value
/// keeps its pattern text (regex::Regex::as_str returns it unchanged).
#[verifier::external_body]
pub(crate) fn regex_new(pattern: &str) -> (r: Result<regex::Regex, regex::Error>)
    ensures
        r is Ok <==> regex_valid(pattern@),
        r matches Ok(re) ==> compiled_pattern(re) == pattern@,
{
    regex::Regex::new(pattern)
}

/// Relies on regex::Regex::is_match: true if and only if there is a match
/// for the compiled pattern anywhere in the input.
#[verifier::external_body]
pub(crate) fn regex_is_match(re: &regex::Regex, input: &str) -> (r: bool)
    ensures
        r == regex_match(compiled_pattern(*re), input@),
{
    re.is_match(input)
}

} // verus!
