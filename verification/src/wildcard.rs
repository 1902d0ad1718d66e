//! Wildcard patterns: `*` stands for any run of characters, `?` for one character.

use vstd::prelude::*;

use wildmatch::WildMatch;

verus! {

/// Whether `pattern` matches the whole of `input`: `*` matches any run of characters
/// (also an empty one), `?` matches one character, any other character itself.
pub open spec fn glob_match(pattern: Seq<char>, input: Seq<char>) -> bool
    decreases pattern.len() + input.len(),
{
    if pattern.len() == 0 {
        input.len() == 0
    } else if pattern[0] == '*' {
        glob_match(pattern.drop_first(), input) || (input.len() > 0 && glob_match(pattern, input.drop_first()))
    } else if input.len() == 0 {
        false
    } else if pattern[0] == '?' || pattern[0] == input[0] {
        glob_match(pattern.drop_first(), input.drop_first())
    } else {
        false
    }
}

/// Whether `pattern` matches the whole of `input`.
///
/// Trusted: `wildmatch::WildMatch::new(pattern).matches(input)`, whose documentation
/// says that the pattern must match the entirety of the input, `?` matching exactly one
/// character and `*` any number (including zero) of characters, case-sensitively and
/// without escapes; this is [`glob_match`].
#[verifier::external_body]
pub(crate) fn wildcard_matches(pattern: &str, input: &str) -> (r: bool)
    ensures
        r == glob_match(pattern@, input@),
{
    WildMatch::new(pattern).matches(input)
}

} // verus!
