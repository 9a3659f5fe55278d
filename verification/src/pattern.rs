//! Pattern matching by the `regex` crate.

use regex::Regex;
use vstd::prelude::*;

verus! {

/// The characters that mean something in a pattern.
pub open spec fn is_meta_character(c: char) -> bool {
    c == '\\' || c == '.' || c == '+' || c == '*' || c == '?' || c == '(' || c == ')' || c == '|'
        || c == '[' || c == ']' || c == '{' || c == '}' || c == '^' || c == '$' || c == '#' || c
        == '&' || c == '-' || c == '~'
}

/// A text with a backslash before each of its meta characters: the pattern
/// that matches the text literally.
pub open spec fn escaped_text(text: Seq<char>) -> Seq<char>
    decreases text.len(),
{
    if text.len() == 0 {
        Seq::empty()
    } else if is_meta_character(text.last()) {
        escaped_text(text.drop_last()).push('\\').push(text.last())
    } else {
        escaped_text(text.drop_last()).push(text.last())
    }
}

/// Whether `pattern` matches somewhere in `haystack`, or `None` where the
/// crate refuses to compile the pattern. The crate's matching rules, with
/// their Unicode classes, take far more than a few lines to state: the result
/// only has a name.
pub uninterp spec fn pattern_match(pattern: Seq<char>, haystack: Seq<char>) -> Option<bool>;

/// Calls `regex::escape`, which copies the text and puts a backslash before
/// each character that `regex_syntax::is_meta_character` lists.
#[verifier::external_body]
pub(crate) fn escape(text: &str) -> (escaped: String)
    ensures
        escaped@ == escaped_text(text@),
{
    regex::escape(text)
}

/// Compiles `pattern` with `Regex::new` and searches `haystack` with
/// `Regex::is_match`. Both depend on their arguments alone; a pattern that
/// does not compile gives `None`.
#[verifier::external_body]
pub(crate) fn search(pattern: &str, haystack: &str) -> (found: Option<bool>)
    ensures
        found == pattern_match(pattern@, haystack@),
{
    match Regex::new(pattern) {
        Ok(compiled) => Some(compiled.is_match(haystack)),
        Err(_) => None,
    }
}

} // verus!
