use vstd::prelude::*;
use regex::Regex;
use crate::text::views;

verus! {

/// Whether `pattern` is an expression the regular-expression engine accepts.
pub uninterp spec fn regex_valid(pattern: Seq<char>) -> bool;

/// The pieces of `text` between the matches of the regular expression
/// `pattern`.
pub uninterp spec fn regex_split_of(pattern: Seq<char>, text: Seq<char>) -> Seq<Seq<char>>;

/// Whether the regular expression `pattern` matches somewhere in `text`.
pub uninterp spec fn regex_match_of(pattern: Seq<char>, text: Seq<char>) -> bool;

/// Relies on `regex::Regex::new` and `regex::Regex::split`: the pieces of
/// `text` between the matches of `pattern`, or nothing when `pattern` is not a
/// valid expression.
#[verifier::external_body]
pub(crate) fn regex_split(pattern: &str, text: &str) -> (r: Option<Vec<String>>)
    ensures
        r is Some <==> regex_valid(pattern@),
        r is Some ==> views(r->0@) == regex_split_of(pattern@, text@),
{
    match Regex::new(pattern) {
        Ok(re) => Some(re.split(text).map(String::from).collect()),
        Err(_) => None,
    }
}

/// Relies on `regex::Regex::new` and `regex::Regex::is_match`: whether
/// `pattern` matches somewhere in `text`, or nothing when `pattern` is not a
/// valid expression.
#[verifier::external_body]
pub(crate) fn regex_is_match(pattern: &str, text: &str) -> (r: Option<bool>)
    ensures
        r is Some <==> regex_valid(pattern@),
        r is Some ==> r->0 == regex_match_of(pattern@, text@),
{
    match Regex::new(pattern) {
        Ok(re) => Some(re.is_match(text)),
        Err(_) => None,
    }
}

} // verus!
