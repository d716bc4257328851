//! The regular expressions the library matches text against, through the `regex` crate.

use crate::utils::user_agent::{all_ascii, keep_tag_chars};
use vstd::prelude::*;

verus! {

/// The pattern that recognizes a URL scheme at the start of a host: `^[a-zA-Z]+://`.
pub open spec fn scheme_pattern() -> Seq<char> {
    "^[a-zA-Z]+://"@
}

/// The pattern that recognizes a port at the end of a host: `:\d+$`.
pub open spec fn port_pattern() -> Seq<char> {
    ":\\d+$"@
}

/// The pattern of the characters a source tag may not hold: `[^a-z0-9_: ]`.
pub open spec fn tag_filter_pattern() -> Seq<char> {
    "[^a-z0-9_: ]"@
}

/// `c` is one of `a`..`z`, `A`..`Z`.
pub open spec fn ascii_letter(c: char) -> bool {
    ('a' <= c && c <= 'z') || ('A' <= c && c <= 'Z')
}

/// `c` is one of `0`..`9`.
pub open spec fn ascii_digit(c: char) -> bool {
    '0' <= c && c <= '9'
}

/// `s` starts with one or more ASCII letters followed by `://`.
pub open spec fn scheme_prefixed(s: Seq<char>) -> bool {
    exists|n: int|
        1 <= n && n + 3 <= s.len() && (forall|i: int| 0 <= i < n ==> ascii_letter(#[trigger] s[i]))
            && #[trigger] s[n] == ':' && s[n + 1] == '/' && s[n + 2] == '/'
}

/// `s` ends with `:` followed by one or more ASCII digits.
pub open spec fn ascii_port_suffix(s: Seq<char>) -> bool {
    exists|k: int|
        0 <= k && k + 1 < s.len() && #[trigger] s[k] == ':' && (forall|i: int|
            k < i < s.len() ==> ascii_digit(#[trigger] s[i]))
}

/// Whether `regex::Regex::new(pattern)` matches somewhere in `text`.
pub uninterp spec fn regex_is_match(pattern: Seq<char>, text: Seq<char>) -> bool;

/// Compiles `pattern` with `regex::Regex::new` and asks `Regex::is_match` whether it matches
/// anywhere in `text`. The answer is named `regex_is_match(pattern, text)`. Of the two patterns
/// it admits, the contract states what the regex crate's syntax documents: `^` and `$` anchor
/// at the start and the end of the text, `[a-zA-Z]` is an ASCII letter, and `\d` is a Unicode
/// decimal digit, among which `0`..`9` are the only ASCII ones; which other Unicode digits
/// `\d` admits is not stated.
#[verifier::external_body]
pub(crate) fn regex_match(pattern: &str, text: &str) -> (r: bool)
    requires
        pattern@ == scheme_pattern() || pattern@ == port_pattern(),
    ensures
        r == regex_is_match(pattern@, text@),
        pattern@ == scheme_pattern() ==> (r <==> scheme_prefixed(text@)),
        pattern@ == port_pattern() && ascii_port_suffix(text@) ==> r,
        pattern@ == port_pattern() && all_ascii(text@) ==> (r <==> ascii_port_suffix(text@)),
{
    regex::Regex::new(pattern).unwrap().is_match(text)
}

/// Compiles `pattern` with `regex::Regex::new` and removes every match of it from `text`
/// with `Regex::replace_all` and an empty replacement. For the one pattern it admits,
/// `[^a-z0-9_: ]`, every match is a single character outside that set, so what remains is
/// `keep_tag_chars(text)`.
#[verifier::external_body]
pub(crate) fn regex_remove_all(pattern: &str, text: &str) -> (r: String)
    requires
        pattern@ == tag_filter_pattern(),
    ensures
        r@ == keep_tag_chars(text@),
{
    regex::Regex::new(pattern).unwrap().replace_all(text, "").into_owned()
}

} // verus!
