//! JSON, as `serde_json` reads and writes it.

use crate::hosts::pairs;
use vstd::prelude::*;

verus! {

/// The strings that `text` holds as a JSON array of strings, as
/// `serde_json::from_str` reads them; `None` where it reads no such array.
pub uninterp spec fn json_string_list(text: Seq<char>) -> Option<Seq<Seq<char>>>;

/// The JSON text that `serde_json::to_string` writes for a list of
/// (address, domain) pairs, or the text of the error with which it fails.
pub uninterp spec fn json_of_pairs(hosts: Seq<(Seq<char>, Seq<char>)>) -> Result<
    Seq<char>,
    Seq<char>,
>;

/// The strings of `list` as character sequences.
pub open spec fn strings(list: Seq<String>) -> Seq<Seq<char>> {
    Seq::new(list.len(), |i: int| list[i]@)
}

/// Reads `text` as a JSON array of strings with `serde_json::from_str`.
/// Trusted: the result is what [`json_string_list`] names, a function of
/// the text alone.
#[verifier::external_body]
pub(crate) fn parse_string_list(text: &str) -> (r: Option<Vec<String>>)
    ensures
        match r {
            Some(list) => json_string_list(text@) == Some(strings(list@)),
            None => json_string_list(text@) is None,
        },
{
    serde_json::from_str::<Vec<String>>(text).ok()
}

/// Writes `hosts` as JSON with `serde_json::to_string`: an array with one
/// two-element array per pair. Trusted: the text, or the text of the error,
/// is what [`json_of_pairs`] names, a function of the pairs alone.
#[verifier::external_body]
pub(crate) fn pairs_to_json(hosts: &[(String, String)]) -> (r: Result<String, String>)
    ensures
        match r {
            Ok(text) => json_of_pairs(pairs(hosts@)) == Ok::<Seq<char>, Seq<char>>(text@),
            Err(message) => json_of_pairs(pairs(hosts@)) == Err::<Seq<char>, Seq<char>>(message@),
        },
{
    match serde_json::to_string(hosts) {
        Ok(text) => Ok(text),
        Err(e) => Err(e.to_string()),
    }
}

} // verus!
