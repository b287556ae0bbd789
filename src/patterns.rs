//! The regular expressions of the crate and what their matches are.

use vstd::prelude::*;

verus! {

/// A trailing annotation of a song name: " - " and all that follows.
pub const ANNOTATION_PATTERN: &'static str = " - (?s:.*)$";

/// Line breaks and the punctuation that separates words.
pub const PUNCTUATION_PATTERN: &'static str = "(\\r?\\n)|([-.!?,()])";

/// A run of ASCII letters or digits.
pub const WORD_PATTERN: &'static str = "[0-9a-zA-Z]+";

pub open spec fn separator_at(s: Seq<char>, i: int) -> bool {
    0 <= i && i + 3 <= s.len() && s[i] == ' ' && s[i + 1] == '-' && s[i + 2] == ' '
}

/// `i` is the first position of a separator in `s`.
pub open spec fn first_separator_at(s: Seq<char>, i: int) -> bool {
    separator_at(s, i) && forall|j: int| 0 <= j < i ==> !separator_at(s, j)
}

/// `s` without its trailing annotation: everything from the first " - " to
/// the end of the text, line breaks included.
pub open spec fn without_annotation(s: Seq<char>) -> Seq<char> {
    if exists|i: int| first_separator_at(s, i) {
        s.subrange(0, choose|i: int| first_separator_at(s, i))
    } else {
        s
    }
}

pub open spec fn is_punctuation(c: char) -> bool {
    c == '-' || c == '.' || c == '!' || c == '?' || c == ',' || c == '(' || c == ')' || c == '\n'
}

/// `s` with each line break (`\r\n` or `\n`) and each punctuation mark
/// replaced by one space.
pub open spec fn punctuation_to_spaces(s: Seq<char>) -> Seq<char>
    decreases s.len(),
{
    if s.len() == 0 {
        s
    } else if s.len() >= 2 && s[0] == '\r' && s[1] == '\n' {
        seq![' '] + punctuation_to_spaces(s.subrange(2, s.len() as int))
    } else if is_punctuation(s[0]) {
        seq![' '] + punctuation_to_spaces(s.subrange(1, s.len() as int))
    } else {
        seq![s[0]] + punctuation_to_spaces(s.subrange(1, s.len() as int))
    }
}

pub open spec fn is_ascii_alphanumeric(c: char) -> bool {
    ('0' <= c && c <= '9') || ('a' <= c && c <= 'z') || ('A' <= c && c <= 'Z')
}

pub open spec fn has_ascii_alphanumeric(s: Seq<char>) -> bool {
    exists|i: int| 0 <= i < s.len() && is_ascii_alphanumeric(s[i])
}

/// Relies on `regex::Regex::new` and `Regex::replace_all`: both patterns
/// compile, and replacing their leftmost-first matches gives the texts above
/// (with the `s` flag `.` matches line breaks too, and `$` is the end of text).
#[verifier::external_body]
pub(crate) fn replace_all_matches(pattern: &str, hay: &str, rep: &str) -> (r: String)
    requires
        (pattern@ == ANNOTATION_PATTERN@ && rep@ == ""@) || (pattern@ == PUNCTUATION_PATTERN@
            && rep@ == " "@),
    ensures
        pattern@ == ANNOTATION_PATTERN@ ==> r@ == without_annotation(hay@),
        pattern@ == PUNCTUATION_PATTERN@ ==> r@ == punctuation_to_spaces(hay@),
{
    regex::Regex::new(pattern).unwrap().replace_all(hay, rep).into_owned()
}

/// Relies on `regex::Regex::new` and `Regex::is_match`: the word pattern
/// compiles and matches a text exactly when it holds an ASCII letter or digit.
#[verifier::external_body]
pub(crate) fn is_match(pattern: &str, hay: &str) -> (r: bool)
    requires
        pattern@ == WORD_PATTERN@,
    ensures
        r == has_ascii_alphanumeric(hay@),
{
    regex::Regex::new(pattern).unwrap().is_match(hay)
}

} // verus!
