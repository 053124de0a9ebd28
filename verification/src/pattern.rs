//! Regular-expression matching, done by the `regex` crate.
//!
//! What a pattern matches is the crate's business: this module gives its
//! answers a name, so that the functions built on them can say exactly what
//! they do with an answer.

use vstd::prelude::*;

verus! {

#[verifier::external_type_specification]
#[verifier::external_body]
pub struct ExRegexError(regex::Error);

/// Whether `regex::Regex::new` accepts `pattern`.
pub uninterp spec fn regex_compiles(pattern: Seq<char>) -> bool;

/// The capture groups of the leftmost match of `pattern` in `text`, as
/// `regex::Regex::captures` reports them: `None` where nothing matches,
/// else one entry per group, group 0 being the whole match, and an entry
/// `None` for a group that took no part in the match.
pub uninterp spec fn regex_captures(pattern: Seq<char>, text: Seq<char>) -> Option<
    Seq<Option<Seq<char>>>,
>;

/// The characters of each group of a match.
pub open spec fn group_texts(groups: Seq<Option<String>>) -> Seq<Option<Seq<char>>> {
    groups.map_values(|g: Option<String>| crate::text::optional_text(g))
}

/// The characters of the groups of an optional match.
pub open spec fn captures_view(found: Option<Vec<Option<String>>>) -> Option<
    Seq<Option<Seq<char>>>,
> {
    match found {
        Some(groups) => Some(group_texts(groups@)),
        None => None,
    }
}

/// Compiles `pattern` with `regex::Regex::new` and searches `text` with
/// `regex::Regex::captures`, copying each group of the match out as a
/// string (`Captures::iter`, `Match::as_str`).
///
/// Trusted: the error comes back exactly when the pattern does not compile,
/// and otherwise the result is the crate's answer for this pattern and
/// text, which depends on nothing else.
#[verifier::external_body]
pub(crate) fn captures(pattern: &str, text: &str) -> (found: Result<
    Option<Vec<Option<String>>>,
    regex::Error,
>)
    ensures
        found is Ok <==> regex_compiles(pattern@),
        found matches Ok(groups) ==> captures_view(groups) == regex_captures(pattern@, text@),
{
    let compiled = regex::Regex::new(pattern)?;
    Ok(
        compiled.captures(text).map(
            |caps| caps.iter().map(|group| group.map(|m| m.as_str().to_string())).collect(),
        ),
    )
}

/// The text of group `index` of a match, if the match has such a group and
/// it took part.
pub open spec fn group_of(found: Option<Seq<Option<Seq<char>>>>, index: int) -> Option<Seq<char>> {
    match found {
        Some(groups) => if 0 <= index < groups.len() {
            groups[index]
        } else {
            None
        },
        None => None,
    }
}

/// Copies group `index` out of a match.
pub fn group(found: &Option<Vec<Option<String>>>, index: usize) -> (text: Option<String>)
    ensures
        crate::text::optional_text(text) == group_of(captures_view(*found), index as int),
{
    match found {
        Some(groups) => {
            if index < groups.len() {
                match &groups[index] {
                    Some(t) => Some(t.clone()),
                    None => None,
                }
            } else {
                None
            }
        },
        None => None,
    }
}

} // verus!
