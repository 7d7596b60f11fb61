//! The two regular expressions the library applies: one that finds a
//! placeholder in a template, one that recognises a `git checkout -b` command.

use vstd::prelude::*;

verus! {

/// A placeholder: an opening brace and, later on the same line, a closing one.
pub open spec fn placeholder_pattern() -> Seq<char> {
    "\\{.*?\\}"@
}

/// A whole `git checkout -b <name>` command.
pub open spec fn checkout_pattern() -> Seq<char> {
    "^git checkout -b [a-zA-Z0-9_.-]+$"@
}

/// `s` has a `{` followed, later on the same line, by a `}`.
pub open spec fn has_braced_span(s: Seq<char>) -> bool {
    exists|i: int, j: int|
        0 <= i < j < s.len() && s[i] == '{' && s[j] == '}' && forall|k: int|
            i < k < j ==> s[k] != '\n'
}

/// The fixed start of a checkout command.
pub open spec fn checkout_prefix() -> Seq<char> {
    "git checkout -b "@
}

/// A character that may stand in a branch name taken from the clipboard.
pub open spec fn is_branch_name_char(c: char) -> bool {
    ||| 'a' <= c <= 'z'
    ||| 'A' <= c <= 'Z'
    ||| '0' <= c <= '9'
    ||| c == '_'
    ||| c == '.'
    ||| c == '-'
}

/// `s` is `git checkout -b ` followed by a non-empty branch name and nothing else.
pub open spec fn is_checkout_command(s: Seq<char>) -> bool {
    &&& s.len() > checkout_prefix().len()
    &&& s.subrange(0, checkout_prefix().len() as int) == checkout_prefix()
    &&& forall|k: int| checkout_prefix().len() <= k < s.len() ==> is_branch_name_char(s[k])
}

/// Relies on `regex::Regex::new` and `regex::Regex::is_match` of the regex crate:
/// both patterns that the library uses compile, and `is_match` tells whether
/// the pattern matches anywhere in the text. In them `.` matches any character
/// but a line feed, and `^` and `$` match only at the start and the end of the text.
#[verifier::external_body]
pub(crate) fn regex_is_match(pattern: &str, haystack: &str) -> (r: bool)
    requires
        pattern@ == placeholder_pattern() || pattern@ == checkout_pattern(),
    ensures
        pattern@ == placeholder_pattern() ==> r == has_braced_span(haystack@),
        pattern@ == checkout_pattern() ==> r == is_checkout_command(haystack@),
{
    match regex::Regex::new(pattern) {
        Ok(re) => re.is_match(haystack),
        Err(_) => false,
    }
}

} // verus!
