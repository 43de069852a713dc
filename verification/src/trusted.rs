//! The trusted boundary of the crate: thin wrappers around outside
//! functions, together with the named results their contracts speak of.
//! Everything else in the crate is verified against these contracts.

use vstd::prelude::*;

verus! {

/// Relies on `String::push`: appends the single character `c`.
#[verifier::external_body]
pub(crate) fn push_char(s: &mut String, c: char)
    ensures
        final(s)@ == old(s)@.push(c),
{
    s.push(c)
}

/// The characters that `b` decodes to when it is valid UTF-8, and nothing
/// when it is not. UTF-8 decoding depends on the bytes alone.
pub uninterp spec fn utf8_chars(b: Seq<u8>) -> Option<Seq<char>>;

/// Relies on `String::from_utf8`: returns the decoded text exactly when
/// the bytes are valid UTF-8.
#[verifier::external_body]
pub(crate) fn bytes_to_string(b: Vec<u8>) -> (r: Option<String>)
    ensures
        match r {
            Some(s) => utf8_chars(b@) == Some(s@),
            None => utf8_chars(b@) is None,
        },
{
    String::from_utf8(b).ok()
}

/// The ordered content strings of a completion-response text: present
/// exactly when the text parses as a JSON object holding a `choices`
/// list whose every entry has a nested `message` object with a string
/// `content` field. Parsing depends on the text alone.
pub uninterp spec fn chunk_choices(t: Seq<char>) -> Option<Seq<Seq<char>>>;

/// Relies on `serde_json::from_str` and the `serde_json::Value` accessors
/// `get`, `as_array` and `as_str`: extracts the content string of every
/// choice entry, in order, and fails on any text that does not have the
/// expected shape.
#[verifier::external_body]
pub(crate) fn extract_choices(text: &str) -> (r: Option<Vec<String>>)
    ensures
        match r {
            Some(v) => chunk_choices(text@) == Some(v.deep_view()),
            None => chunk_choices(text@) is None,
        },
{
    let top: serde_json::Value = match serde_json::from_str(text) {
        Ok(v) => v,
        Err(_) => return None,
    };
    let entries = top.get("choices")?.as_array()?;
    let mut contents = Vec::new();
    for entry in entries {
        contents.push(entry.get("message")?.get("content")?.as_str()?.to_string());
    }
    Some(contents)
}

/// The context string of a retrieval-response text: present exactly when
/// the text parses as a JSON object with a string `data` field. Parsing
/// depends on the text alone.
pub uninterp spec fn retrieval_data(t: Seq<char>) -> Option<Seq<char>>;

/// Relies on `serde_json::from_str` and the `serde_json::Value` accessors
/// `get` and `as_str`: extracts the `data` field and fails on any text
/// that does not have the expected shape.
#[verifier::external_body]
pub(crate) fn extract_data(text: &str) -> (r: Option<String>)
    ensures
        match r {
            Some(s) => retrieval_data(text@) == Some(s@),
            None => retrieval_data(text@) is None,
        },
{
    let top: serde_json::Value = match serde_json::from_str(text) {
        Ok(v) => v,
        Err(_) => return None,
    };
    Some(top.get("data")?.as_str()?.to_string())
}

} // verus!
