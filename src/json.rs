use vstd::prelude::*;

verus! {

/// Whether a text is one well-formed JSON document, as serde_json reads it.
pub uninterp spec fn is_json_text(s: Seq<char>) -> bool;

/// Relies on `serde_json::from_str` (into `serde_json::Value`): whether a text
/// parses as one JSON document depends on the text alone.
#[verifier::external_body]
pub(crate) fn parses_as_json(s: &str) -> (r: bool)
    ensures
        r == is_json_text(s@),
{
    serde_json::from_str::<serde_json::Value>(s).is_ok()
}

} // verus!
