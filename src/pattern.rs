//! Regular expressions, as the regex crate provides them.
use vstd::prelude::*;

verus! {

/// What matching `pattern` against `text` gives: whether it matches anywhere
/// in the text, or `None` when the pattern does not compile.
pub uninterp spec fn regex_result(pattern: Seq<char>, text: Seq<char>) -> Option<bool>;

/// Relies on regex::Regex::new, which fails exactly when the pattern does not
/// compile, and on Regex::is_match, which tells whether the pattern matches
/// anywhere in the text.
#[verifier::external_body]
pub(crate) fn regex_is_match(pattern: &str, text: &str) -> (r: Option<bool>)
    ensures
        r == regex_result(pattern@, text@),
{
    match regex::Regex::new(pattern) {
        Ok(re) => Some(re.is_match(text)),
        Err(_) => None,
    }
}

} // verus!
