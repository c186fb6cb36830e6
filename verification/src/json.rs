//! Incoming websocket text read as JSON with `serde_json`.

use vstd::prelude::*;
use crate::weburl::opt_text;

verus! {

/// A JSON value of `serde_json`.
#[verifier::external_type_specification]
#[verifier::external_body]
pub struct ExJsonValue(serde_json::Value);

/// What `serde_json::from_str::<serde_json::Value>` makes of `text`, seen
/// through its `channel` member: nothing where the text is no JSON, and for a
/// JSON value the text of its `channel` member where that member is a string.
pub uninterp spec fn json_channel(text: Seq<char>) -> Option<Option<Seq<char>>>;

/// The JSON value that `serde_json::from_str::<serde_json::Value>` makes of
/// `text` where it parses: a function of the text alone.
pub uninterp spec fn json_value(text: Seq<char>) -> serde_json::Value;

/// Parses `text` with `serde_json::from_str` into a `serde_json::Value` and
/// reads its `channel` member as a string (`value["channel"].as_str()`). The
/// contract claims that the outcome is the named reading of the text: no value
/// where the parse fails, and otherwise the named value of the text with its
/// channel, if that is a string. What the value holds is left to the name.
#[verifier::external_body]
pub(crate) fn parse_ws_text(text: &str) -> (r: Option<(serde_json::Value, Option<String>)>)
    ensures
        match r {
            Some((_, c)) => json_channel(text@) == Some(opt_text(c)),
            None => json_channel(text@) is None,
        },
        r matches Some((v, _)) ==> v == json_value(text@),
{
    match serde_json::from_str::<serde_json::Value>(text) {
        Ok(v) => {
            let channel = v["channel"].as_str().map(str::to_string);
            Some((v, channel))
        },
        Err(_) => None,
    }
}

} // verus!
