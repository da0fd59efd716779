//! JSON: lists of texts, and the texts in an answer of a web service.
use vstd::prelude::*;

use crate::pattern::opt_text;
use crate::text::texts;

verus! {

/// A list of texts as JSON.
pub uninterp spec fn json_of(list: Seq<Seq<char>>) -> Seq<char>;

/// The list of texts that a JSON text holds.
pub uninterp spec fn json_list(text: Seq<char>) -> Option<Seq<Seq<char>>>;

/// `serde_json::to_string` on a list of strings, which never fails: a function of the texts in the
/// list, and `serde_json::from_str` reads the same texts back from it.
#[verifier::external_body]
pub(crate) fn write_list(list: &Vec<String>) -> (res: String)
    ensures
        res@ == json_of(texts(list@)),
        json_list(res@) == Some(texts(list@)),
{
    serde_json::to_string(list).unwrap()
}

/// `serde_json::from_str` into a list of strings: a function of the text alone.
#[verifier::external_body]
pub(crate) fn read_list(text: &str) -> (res: Option<Vec<String>>)
    ensures
        match res {
            Some(list) => json_list(text@) == Some(texts(list@)),
            None => json_list(text@) is None,
        },
{
    serde_json::from_str(text).ok()
}

/// The text under a key of the object that a JSON text holds.
pub uninterp spec fn json_text(body: Seq<char>, key: Seq<char>) -> Option<Seq<char>>;

/// `serde_json::from_str` into a `Value`, and `Value::get` and `Value::as_str` on that: a function
/// of the text and the key. Nothing is said of which texts are JSON.
#[verifier::external_body]
pub(crate) fn read_text(body: &str, key: &str) -> (res: Option<String>)
    ensures
        opt_text(res) == json_text(body@, key@),
{
    let value: serde_json::Value = serde_json::from_str(body).ok()?;
    value.get(key)?.as_str().map(|s| s.to_string())
}

} // verus!
