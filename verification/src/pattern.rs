//! Regular expressions, as the `regex` crate matches them.

use vstd::prelude::*;

verus! {

/// The error type `regex::Error`: why a pattern was refused. Nothing is
/// known of what is inside one.
#[verifier::external_type_specification]
#[verifier::external_body]
pub struct ExRegexError(regex::Error);

/// Whether `regex::Regex::new` accepts the pattern.
pub uninterp spec fn regex_compiles(pattern: Seq<char>) -> bool;

/// Whether the pattern, once compiled, matches somewhere in the text.
pub uninterp spec fn regex_matches(pattern: Seq<char>, text: Seq<char>) -> bool;

/// The capture groups of the pattern's leftmost match in the text, group 0
/// (the whole match) first; a group that took no part in the match is `None`.
pub uninterp spec fn regex_groups(pattern: Seq<char>, text: Seq<char>) -> Option<
    Seq<Option<Seq<char>>>,
>;

/// What a list of optional strings holds.
pub open spec fn group_views(v: Seq<Option<String>>) -> Seq<Option<Seq<char>>> {
    Seq::new(
        v.len(),
        |i: int|
            match v[i] {
                Some(s) => Some(s@),
                None => None,
            },
    )
}

/// Compiles the pattern with `regex::Regex::new` and asks `Regex::is_match`
/// whether it matches somewhere in the text. The contract gives both answers
/// a name: they depend on the pattern and the text alone.
#[verifier::external_body]
pub(crate) fn is_match(pattern: &str, text: &str) -> (r: Result<bool, regex::Error>)
    ensures
        r is Ok == regex_compiles(pattern@),
        r matches Ok(b) ==> b == regex_matches(pattern@, text@),
{
    Ok(regex::Regex::new(pattern)?.is_match(text))
}

/// Compiles the pattern with `regex::Regex::new` and takes the groups of its
/// leftmost match in the text from `Regex::captures`, each as an owned
/// string. The contract gives the outcome a name.
#[verifier::external_body]
pub(crate) fn captures(pattern: &str, text: &str) -> (r: Result<
    Option<Vec<Option<String>>>,
    regex::Error,
>)
    ensures
        r is Ok == regex_compiles(pattern@),
        r matches Ok(found) ==> (found is Some == regex_groups(pattern@, text@) is Some),
        r matches Ok(Some(groups)) ==> regex_groups(pattern@, text@) == Some(
            group_views(groups@),
        ),
{
    let re = regex::Regex::new(pattern)?;
    Ok(re.captures(text).map(|c| c.iter().map(|m| m.map(|m| m.as_str().to_string())).collect()))
}

} // verus!
