//! The recognition rules as regular expressions, and the one entry point into
//! the regular-expression engine.

use vstd::prelude::*;

verus! {

/// A handler signature: HTTP verb, path, access modifier, return type,
/// function name and parameter-list text, in that order.
pub const SIGNATURE_PATTERN: &'static str = "@(Post|Put|Get)Mapping\\(path\\s*=\\s*\"(.+?)\".+?\\)\\s+(public|private|protected)\\s+(\\S+)\\s+([^(]+)\\((.+?)\\)";

/// A request parameter: its type, then its name (letters only).
pub const PARAM_PATTERN: &'static str = "@RequestParam\\s+(.+?)\\s+([A-Za-z]+)";

/// The inner type of a generic response wrapper.
pub const NESTED_TYPE_PATTERN: &'static str = "DataModelResponse<(.+?)>";

#[verifier::external_type_specification]
#[verifier::external_body]
pub struct ExRegexError(regex::Error);

/// What the regular-expression engine yields for `pattern` over `text`:
/// `None` when the pattern does not compile, otherwise the successive
/// non-overlapping matches from left to right, each as the list of its
/// groups (group 0 is the whole match; a group that took no part in the
/// match is the empty text).
pub uninterp spec fn regex_captures(pattern: Seq<char>, text: Seq<char>) -> Option<Seq<Seq<Seq<char>>>>;

/// The text of group `i` of one match, empty where the match has no such group.
pub open spec fn group(c: Seq<Seq<char>>, i: int) -> Seq<char> {
    if 0 <= i < c.len() {
        c[i]
    } else {
        Seq::empty()
    }
}

/// Relies on `regex::Regex::new` (compiles the pattern or reports why not) and
/// `regex::Regex::captures_iter` (successive non-overlapping matches, left to
/// right), with `Captures::iter` giving each match's groups in order.
#[verifier::external_body]
pub(crate) fn all_captures(pattern: &str, text: &str) -> (r: Result<Vec<Vec<String>>, regex::Error>)
    ensures
        match r {
            Ok(v) => regex_captures(pattern@, text@) == Some(v.deep_view()),
            Err(_) => regex_captures(pattern@, text@).is_none(),
        },
{
    regex::Regex::new(pattern).map(|re| {
        re.captures_iter(text).map(|c| {
            c.iter().map(|m| m.map_or(String::new(), |m| m.as_str().to_string())).collect()
        }).collect()
    })
}

/// Group `i` of one match.
pub(crate) fn group_at(c: &Vec<String>, i: usize) -> (r: String)
    ensures
        r@ == group(c.deep_view(), i as int),
{
    if i < c.len() {
        c[i].clone()
    } else {
        String::new()
    }
}

} // verus!
