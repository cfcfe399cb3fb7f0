//! What the library has from other crates. The functions here make the calls; their
//! contracts are believed, not proved.

use crate::protocol::Timestamp;
use crate::text::first_index;
use itertools::Itertools;
use vstd::prelude::*;

verus! {

/// The pattern of a message that starts with the type of its exception.
pub const TYPE_VALUE_PATTERN: &'static str = r"^(\w+):(.*)$";

/// Whether the class `\w` of the crate `regex` holds a character beyond ASCII.
pub uninterp spec fn unicode_word(c: char) -> bool;

/// Whether a character belongs to a word: an ASCII letter, digit or underscore,
/// or one of those that are given beyond ASCII.
pub open spec fn word_char(c: char, beyond_ascii: spec_fn(char) -> bool) -> bool {
    if c <= '\u{7f}' {
        'a' <= c <= 'z' || 'A' <= c <= 'Z' || '0' <= c <= '9' || c == '_'
    } else {
        beyond_ascii(c)
    }
}

/// Whether `text` is a word, then a colon at that index, then the rest of one line.
pub open spec fn type_ends_at(text: Seq<char>, at: int, beyond_ascii: spec_fn(char) -> bool) -> bool {
    &&& 0 < at < text.len()
    &&& text[at] == ':'
    &&& forall|i: int| 0 <= i < at ==> #[trigger] word_char(text[i], beyond_ascii)
    &&& forall|i: int| at < i < text.len() ==> #[trigger] text[i] != '\n'
}

/// The two groups of [`TYPE_VALUE_PATTERN`] where it matches `text`: what stands
/// before the first colon and what stands after it.
pub open spec fn type_and_value(text: Seq<char>, beyond_ascii: spec_fn(char) -> bool) -> Option<
    (Seq<char>, Seq<char>),
> {
    let at = first_index(text, ':');
    if type_ends_at(text, at, beyond_ascii) {
        Some((text.take(at), text.skip(at + 1)))
    } else {
        None
    }
}

/// Compiles the pattern with `regex::Regex::new`, which takes it, calls
/// `regex::Regex::captures_iter` and hands out the first two groups of each
/// match.
///
/// The pattern starts at the start of the text and ends at its end, so there is at
/// most one match. A colon is in no word, so the first group ends at the first
/// colon. The dot matches every character but a line feed. Which characters beyond
/// ASCII are in a word is left to the tables of the crate.
#[verifier::external_body]
pub(crate) fn captures(pattern: &str, text: &str) -> (res: Vec<(String, String)>)
    requires
        pattern@ == TYPE_VALUE_PATTERN@,
    ensures
        res.deep_view() == (match type_and_value(text@, |c: char| unicode_word(c)) {
            Some(groups) => seq![groups],
            None => Seq::empty(),
        }),
{
    regex::Regex::new(pattern)
        .unwrap()
        .captures_iter(text)
        .map(|groups| (groups[1].to_string(), groups[2].to_string()))
        .collect()
}

/// Calls `itertools::Itertools::collect_tuple` for one item: it is there if and
/// only if there is exactly one.
#[verifier::external_body]
pub(crate) fn collect_single(items: Vec<(String, String)>) -> (res: Option<((String, String),)>)
    ensures
        res == (if items@.len() == 1 {
            Some((items@[0],))
        } else {
            None
        }),
{
    items.into_iter().collect_tuple()
}

/// Calls `itertools::Itertools::collect_tuple` for two items: they are there, in
/// order, if and only if there are exactly two.
#[verifier::external_body]
pub(crate) fn collect_pair(items: Vec<String>) -> (res: Option<(String, String)>)
    ensures
        res == (if items@.len() == 2 {
            Some((items@[0], items@[1]))
        } else {
            None
        }),
{
    items.into_iter().collect_tuple()
}

/// The path of the URL that a text is, if it is one: what `url::Url::path` returns
/// of the result of `url::Url::parse`.
pub uninterp spec fn url_path(text: Seq<char>) -> Option<Seq<char>>;

/// Calls `url::Url::parse` and, where that gives a URL, `url::Url::path`.
///
/// Claimed is only that the outcome depends on nothing but the text.
#[verifier::external_body]
pub(crate) fn parse_url_path(text: &str) -> (res: Option<String>)
    ensures
        res.deep_view() == url_path(text@),
{
    match url::Url::parse(text) {
        Ok(url) => Some(url.path().to_string()),
        Err(_) => None,
    }
}

/// Calls `chrono::Utc::now`, which reads the clock of the machine.
///
/// The call returns only where the clock does not stand before the start of 1970;
/// where it does, the call panics. Nothing is claimed of how two readings compare.
#[verifier::external_body]
pub(crate) fn utc_now() -> (res: Timestamp)
    ensures
        res.well_formed(),
{
    let now = chrono::Utc::now();
    Timestamp { seconds: now.timestamp(), nanoseconds: now.timestamp_subsec_nanos() }
}

} // verus!
