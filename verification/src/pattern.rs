//! Regular expressions: matching and rewriting, done by the `regex` crate.
use crate::text::text_of;
use regex::Regex;
use vstd::prelude::*;
use vstd::string::*;

verus! {

/// Whether `regex::Regex::new` accepts `pattern`.
pub uninterp spec fn regex_compiles(pattern: Seq<char>) -> bool;

/// What `regex::Regex::is_match` answers for the regular expression
/// compiled from `pattern`, searching `text`.
pub uninterp spec fn regex_is_match(pattern: Seq<char>, text: Seq<char>) -> bool;

/// What `regex::Regex::replace_all` returns for the regular expression
/// compiled from `pattern`, the haystack `text` and the replacement string
/// `replacement`.
pub uninterp spec fn regex_replace_all(
    pattern: Seq<char>,
    text: Seq<char>,
    replacement: Seq<char>,
) -> Seq<char>;

/// Compiles `pattern` with `regex::Regex::new` and asks
/// `regex::Regex::is_match` whether it matches somewhere in `text`. The
/// result is `None` exactly where the pattern does not compile; otherwise
/// it holds the answer of `is_match`, which depends on the pattern and the
/// text alone.
#[verifier::external_body]
fn is_match(pattern: &str, text: &str) -> (r: Option<bool>)
    ensures
        r == (if regex_compiles(pattern@) {
            Some(regex_is_match(pattern@, text@))
        } else {
            None::<bool>
        }),
{
    match Regex::new(pattern) {
        Ok(re) => Some(re.is_match(text)),
        Err(_) => None,
    }
}

/// Compiles `pattern` with `regex::Regex::new` and has
/// `regex::Regex::replace_all` replace every match in `text` by the
/// expansion of `replacement`. The result is `None` exactly where the
/// pattern does not compile; otherwise it holds the text that
/// `replace_all` returned, which depends on the three arguments alone.
#[verifier::external_body]
fn replace_all(pattern: &str, text: &str, replacement: &str) -> (r: Option<String>)
    ensures
        text_of(r) == (if regex_compiles(pattern@) {
            Some(regex_replace_all(pattern@, text@, replacement@))
        } else {
            None::<Seq<char>>
        }),
{
    match Regex::new(pattern) {
        Ok(re) => Some(re.replace_all(text, replacement).into_owned()),
        Err(_) => None,
    }
}

/// Whether `pattern` is a regular expression that matches somewhere in
/// `text`.
pub open spec fn pattern_matches(pattern: Seq<char>, text: Seq<char>) -> bool {
    regex_compiles(pattern) && regex_is_match(pattern, text)
}

/// `text` with every match of `pattern` replaced by the expansion of
/// `replacement`; `text` itself where `pattern` is no regular expression.
pub open spec fn pattern_rewrites(
    pattern: Seq<char>,
    text: Seq<char>,
    replacement: Seq<char>,
) -> Seq<char> {
    if regex_compiles(pattern) {
        regex_replace_all(pattern, text, replacement)
    } else {
        text
    }
}

/// Whether `pattern` matches somewhere in `text`.
pub fn finds(pattern: &str, text: &str) -> (r: bool)
    ensures
        r == pattern_matches(pattern@, text@),
{
    match is_match(pattern, text) {
        Some(found) => found,
        None => false,
    }
}

/// Replaces every match of `pattern` in `text`.
pub fn rewrite(pattern: &str, text: &str, replacement: &str) -> (r: String)
    ensures
        r@ == pattern_rewrites(pattern@, text@, replacement@),
{
    match replace_all(pattern, text, replacement) {
        Some(changed) => changed,
        None => String::from_str(text),
    }
}

} // verus!
