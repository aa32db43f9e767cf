//! Regular-expression matching, through the `regex` crate.
//!
//! The matches a pattern finds are named, not restated: [`regex_capture_groups`]
//! stands for what `regex` computes; escaping is stated in full. Everything done with the matches is
//! verified against that name.
use crate::security::flat_map_chars;
use crate::text::{trim, trim_text};
use vstd::prelude::*;

verus! {

/// The capture groups of one match: group 0 is the whole match, and a group
/// that took no part in the match is `None`.
pub type Groups = Seq<Option<Seq<char>>>;

/// What `regex` finds for `pattern` in `text`: `None` when the pattern does
/// not compile, else, for each successive non-overlapping match, its capture
/// groups.
pub uninterp spec fn regex_capture_groups(pattern: Seq<char>, text: Seq<char>) -> Option<
    Seq<Seq<Option<Seq<char>>>>,
>;

/// Whether `c` has a meaning of its own in a regular expression.
pub open spec fn is_regex_meta(c: char) -> bool {
    c == '\\' || c == '.' || c == '+' || c == '*' || c == '?' || c == '(' || c == ')' || c == '|'
        || c == '[' || c == ']' || c == '{' || c == '}' || c == '^' || c == '$' || c == '#' || c
        == '&' || c == '-' || c == '~'
}

/// `text` with a backslash in front of each regular-expression
/// metacharacter: what `regex::escape` makes of it.
pub open spec fn regex_escaped(text: Seq<char>) -> Seq<char> {
    flat_map_chars(
        text,
        |c: char|
            if is_regex_meta(c) {
                seq!['\\', c]
            } else {
                seq![c]
            },
    )
}

/// Compiles `pattern` with `regex::Regex::new` and collects, for each match
/// that `Regex::captures_iter` yields on `text`, the text of every capture
/// group as `Captures::iter` gives them. The contract claims only that the
/// result is the named function of the pattern and the text.
#[verifier::external_body]
fn capture_groups(pattern: &str, text: &str) -> (r: Option<Vec<Vec<Option<String>>>>)
    ensures
        r.deep_view() == regex_capture_groups(pattern@, text@),
{
    let re = match regex::Regex::new(pattern) {
        Ok(re) => re,
        Err(_) => return None,
    };
    let mut all = Vec::new();
    for caps in re.captures_iter(text) {
        let mut groups = Vec::new();
        for m in caps.iter() {
            groups.push(m.map(|m| m.as_str().to_string()));
        }
        all.push(groups);
    }
    Some(all)
}

/// `regex::escape`: the text with a backslash put in front of every
/// regular-expression metacharacter (`regex_syntax::is_meta_character`).
#[verifier::external_body]
pub(crate) fn escape_pattern(text: &str) -> (r: String)
    ensures
        r@ == regex_escaped(text@),
{
    regex::escape(text)
}

/// The matches of `pattern` in `text`; none when the pattern does not compile.
pub open spec fn all_matches(pattern: Seq<char>, text: Seq<char>) -> Seq<Groups> {
    match regex_capture_groups(pattern, text) {
        Some(ms) => ms,
        None => Seq::empty(),
    }
}

/// The matches of `pattern` in `text`.
pub fn matches_of(pattern: &str, text: &str) -> (r: Vec<Vec<Option<String>>>)
    ensures
        r.deep_view() == all_matches(pattern@, text@),
{
    match capture_groups(pattern, text) {
        Some(ms) => ms,
        None => {
            let r: Vec<Vec<Option<String>>> = Vec::new();
            assert(r.deep_view() =~= Seq::<Groups>::empty());
            r
        },
    }
}

/// The text of group `i`, or nothing when the group took no part.
pub open spec fn group_text(c: Groups, i: int) -> Seq<char> {
    if 0 <= i < c.len() && c[i] is Some {
        c[i]->0
    } else {
        Seq::empty()
    }
}

/// Whether group `i` took part in the match.
pub open spec fn group_present(c: Groups, i: int) -> bool {
    0 <= i < c.len() && c[i] is Some
}

/// The trimmed text of group `i`, or nothing when the group took no part.
pub open spec fn group_trimmed(c: Groups, i: int) -> Seq<char> {
    if group_present(c, i) {
        trim_text(c[i]->0)
    } else {
        Seq::empty()
    }
}

pub fn group_string(c: &Vec<Option<String>>, i: usize) -> (r: String)
    ensures
        r@ == group_text(c.deep_view(), i as int),
{
    if i < c.len() {
        match &c[i] {
            Some(s) => s.clone(),
            None => String::new(),
        }
    } else {
        String::new()
    }
}

pub fn group_is_present(c: &Vec<Option<String>>, i: usize) -> (r: bool)
    ensures
        r == group_present(c.deep_view(), i as int),
{
    i < c.len() && c[i].is_some()
}

pub fn group_trimmed_string(c: &Vec<Option<String>>, i: usize) -> (r: String)
    ensures
        r@ == group_trimmed(c.deep_view(), i as int),
{
    if i < c.len() {
        match &c[i] {
            Some(s) => trim(s.as_str()),
            None => String::new(),
        }
    } else {
        String::new()
    }
}

} // verus!
