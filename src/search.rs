use vstd::prelude::*;
use crate::text::{ascii_lower, ascii_lower_spec, chars_of, contains_chars, contains_spec};

verus! {

/// Whether the plain search for `value` keeps the package `qualified_name`:
/// an empty search keeps everything; otherwise the name must contain the
/// search text with its ASCII capitals made small.
pub open spec fn simple_match_spec(value: Seq<char>, qualified_name: Seq<char>) -> bool {
    value.len() == 0 || contains_spec(qualified_name, ascii_lower_spec(value))
}

/// The plain search filter.
pub fn simple_search(value: &str, qualified_name: &str) -> (r: bool)
    ensures
        r == simple_match_spec(value@, qualified_name@),
{
    let v = ascii_lower(value);
    let vc = chars_of(v.as_str());
    if vc.len() == 0 {
        return true;
    }
    contains_chars(&chars_of(qualified_name), &vc)
}

/// The order that lists installed packages first: negative when `a` comes
/// before `b`, positive when after, zero when they tie.
pub fn installed_first(a: bool, b: bool) -> (r: i8)
    ensures
        r == (if a == b { 0i8 } else if a { -1i8 } else { 1i8 }),
{
    if a == b {
        0
    } else if a {
        -1
    } else {
        1
    }
}

} // verus!
