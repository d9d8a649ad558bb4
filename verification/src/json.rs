//! The one JSON service the library takes from `serde_json`: normalising the text of a
//! JSON value.

use vstd::prelude::*;

verus! {

/// What `serde_json` yields for a JSON text read as a `serde_json::Value`: the value
/// printed back as compact JSON text, or the parse error's message.
pub uninterp spec fn json_value_text(text: Seq<char>) -> Result<Seq<char>, Seq<char>>;

/// Parses `text` with `serde_json::from_str::<serde_json::Value>` and prints the value back
/// with its `Display` impl; on a parse failure returns the `serde_json::Error` message.
///
/// Trusted: the contract only says that the result is `json_value_text` of the input;
/// nothing is claimed about which texts parse or what the printed text looks like.
#[verifier::external_body]
pub(crate) fn normalize_json_value(text: &str) -> (r: Result<String, String>)
    ensures
        match r {
            Ok(s) => json_value_text(text@) == Ok::<Seq<char>, Seq<char>>(s@),
            Err(m) => json_value_text(text@) == Err::<Seq<char>, Seq<char>>(m@),
        },
{
    match serde_json::from_str::<serde_json::Value>(text) {
        Ok(value) => Ok(value.to_string()),
        Err(error) => Err(error.to_string()),
    }
}

} // verus!
