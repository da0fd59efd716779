//! What the bot looks for in a message: invites, emojis, links, and addresses.
use regex::Regex;
use vstd::prelude::*;

use crate::text::texts;

verus! {

/// An invite to a server, with its code in one of two groups.
pub const INVITE: &'static str = r"(?i)discord\.gg/([a-zA-Z0-9]+)|discord(?:app)?\.com/invite/([a-zA-Z0-9]+)";

/// A custom emoji, or one of the Unicode emoticons.
pub const EMOJI: &'static str = r"<:[^:]+:\d+>|[\u{1F600}-\u{1F64F}]";

/// A link.
pub const LINK: &'static str = r"https?://[^\s]+";

/// A whole text that is an IPv4 address.
pub const IPV4: &'static str = r"^(?:(?:25[0-5]|2[0-4][0-9]|[01]?[0-9][0-9]?)\.){3}(?:25[0-5]|2[0-4][0-9]|[01]?[0-9][0-9]?)$";

/// The patterns above. Each of them is a regular expression of the syntax that `regex` reads.
pub open spec fn pattern(p: Seq<char>) -> bool {
    p == INVITE@ || p == EMOJI@ || p == LINK@ || p == IPV4@
}

/// The text behind a string that may be missing.
pub open spec fn opt_text(s: Option<String>) -> Option<Seq<char>> {
    match s {
        Some(t) => Some(t@),
        None => None,
    }
}

/// The first two groups of the leftmost match of a pattern in a text.
pub uninterp spec fn regex_groups(pattern: Seq<char>, text: Seq<char>) -> Option<
    (Option<Seq<char>>, Option<Seq<char>>),
>;

/// The matches of a pattern in a text, from left to right, without overlap.
pub uninterp spec fn regex_finds(pattern: Seq<char>, text: Seq<char>) -> Seq<Seq<char>>;

/// Whether a pattern matches somewhere in a text.
pub uninterp spec fn regex_matches(pattern: Seq<char>, text: Seq<char>) -> bool;

/// `Regex::captures`: a function of pattern and text. The pattern compiles, being one of those of
/// this module.
#[verifier::external_body]
pub(crate) fn first_groups(p: &str, text: &str) -> (res: Option<(Option<String>, Option<String>)>)
    requires
        pattern(p@),
    ensures
        match res {
            Some(groups) => regex_groups(p@, text@) == Some(
                (opt_text(groups.0), opt_text(groups.1)),
            ),
            None => regex_groups(p@, text@) is None,
        },
{
    let found = Regex::new(p).unwrap();
    let groups = found.captures(text)?;
    let group = |i: usize| groups.get(i).map(|m| m.as_str().to_string());
    Some((group(1), group(2)))
}

/// `Regex::find_iter`: a function of pattern and text. The pattern compiles, being one of those of
/// this module.
#[verifier::external_body]
pub(crate) fn find_all(p: &str, text: &str) -> (res: Vec<String>)
    requires
        pattern(p@),
    ensures
        texts(res@) == regex_finds(p@, text@),
{
    Regex::new(p).unwrap().find_iter(text).map(|m| m.as_str().to_string()).collect()
}

/// `Regex::is_match`: a function of pattern and text. The pattern compiles, being one of those of
/// this module.
#[verifier::external_body]
pub(crate) fn is_match(p: &str, text: &str) -> (res: bool)
    requires
        pattern(p@),
    ensures
        res == regex_matches(p@, text@),
{
    Regex::new(p).unwrap().is_match(text)
}

/// Whether a text is an IPv4 address.
pub fn is_ipv4(text: &str) -> (res: bool)
    ensures
        res == regex_matches(IPV4@, text@),
{
    is_match(IPV4, text)
}

/// How many emojis a text has.
pub fn count_emojis(text: &str) -> (n: usize)
    ensures
        n == regex_finds(EMOJI@, text@).len(),
{
    let found = find_all(EMOJI, text);
    assert(texts(found@).len() == found@.len());
    found.len()
}

/// The links of a text.
pub fn find_links(text: &str) -> (res: Vec<String>)
    ensures
        texts(res@) == regex_finds(LINK@, text@),
{
    find_all(LINK, text)
}

/// There is a text exactly where there is a string, and it is the one of the string.
pub proof fn text_is_that_of_the_string(s: Option<String>)
    ensures
        opt_text(s) is Some <==> s is Some,
        opt_text(s) matches Some(t) ==> t == s->0@,
{
}

} // verus!
