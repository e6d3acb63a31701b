//! Pattern matching by the `regex` crate.
//!
//! What a pattern matches in a text is computed by `regex` and only named
//! here: the functions of this library state their results over these names.

use vstd::prelude::*;

verus! {

/// The groups of the leftmost match of `pattern` in `text`, as
/// `regex::Regex::captures` reports them: the whole match first, then one
/// entry per group of the pattern, `None` for a group that took no part.
/// `None` where the pattern does not match, or is no pattern.
pub uninterp spec fn captures_of(pattern: Seq<char>, text: Seq<char>) -> Option<
    Seq<Option<Seq<char>>>,
>;

/// The successive non-overlapping matches of `pattern` in `text`, as
/// `regex::Regex::find_iter` yields them; `None` where `pattern` is no
/// pattern.
pub uninterp spec fn matches_of(pattern: Seq<char>, text: Seq<char>) -> Option<Seq<Seq<char>>>;

/// The stretches of `text` between the matches of `pattern`, as
/// `regex::Regex::split` yields them, from the stretch before the first match
/// to the one behind the last; `None` where `pattern` is no pattern.
pub uninterp spec fn pieces_of(pattern: Seq<char>, text: Seq<char>) -> Option<Seq<Seq<char>>>;

/// Calls `regex::Regex::new` and `regex::Regex::captures`. The contract
/// claims only that the groups handed back are those that `regex` finds for
/// this pattern and this text, each as the matched text.
#[verifier::external_body]
pub(crate) fn regex_captures(pattern: &str, text: &str) -> (groups: Option<Vec<Option<String>>>)
    ensures
        groups.deep_view() == captures_of(pattern@, text@),
{
    let re = regex::Regex::new(pattern).ok()?;
    let found = re.captures(text)?;
    Some(found.iter().map(|g| g.map(|m| m.as_str().to_string())).collect())
}

/// Calls `regex::Regex::new` and `regex::Regex::find_iter`. The contract
/// claims only that the texts handed back are the matches that `regex`
/// yields for this pattern and this text, in order.
#[verifier::external_body]
pub(crate) fn regex_matches(pattern: &str, text: &str) -> (found: Option<Vec<String>>)
    ensures
        found.deep_view() == matches_of(pattern@, text@),
{
    let re = regex::Regex::new(pattern).ok()?;
    Some(re.find_iter(text).map(|m| m.as_str().to_string()).collect())
}

/// Calls `regex::Regex::new` and `regex::Regex::split`. The contract claims
/// only that the texts handed back are the stretches that `regex` yields
/// for this pattern and this text, in order.
#[verifier::external_body]
pub(crate) fn regex_pieces(pattern: &str, text: &str) -> (pieces: Option<Vec<String>>)
    ensures
        pieces.deep_view() == pieces_of(pattern@, text@),
{
    let re = regex::Regex::new(pattern).ok()?;
    Some(re.split(text).map(|piece| piece.to_string()).collect())
}

/// The text of group `index` among `groups`, if the group took part in the
/// match.
pub open spec fn group_text(groups: Seq<Option<Seq<char>>>, index: int) -> Option<Seq<char>> {
    if 0 <= index < groups.len() {
        groups[index]
    } else {
        None
    }
}

/// The text of group `index` among `groups`, if the group took part in the
/// match.
pub fn group_of(groups: &Vec<Option<String>>, index: usize) -> (text: Option<String>)
    ensures
        text.deep_view() == group_text(groups.deep_view(), index as int),
{
    if index < groups.len() {
        match &groups[index] {
            Some(text) => Some(text.clone()),
            None => None,
        }
    } else {
        None
    }
}

/// A run of word characters between two word boundaries.
pub const WORD: &'static str = "\\b\\w+\\b";

/// The words of `text`, in order.
pub open spec fn words_in(text: Seq<char>) -> Seq<Seq<char>> {
    match matches_of(WORD@, text) {
        Some(words) => words,
        None => Seq::empty(),
    }
}

/// The words of `text`, in order.
pub fn word_tokens(text: &str) -> (words: Vec<String>)
    ensures
        words.deep_view() == words_in(text@),
{
    match regex_matches(WORD, text) {
        Some(words) => words,
        None => Vec::new(),
    }
}

} // verus!
