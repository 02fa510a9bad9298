//! The boundary to `serde_json`: the document type that the gateway carries
//! and the one call it makes to obtain one from text.

use vstd::prelude::*;

verus! {

/// `serde_json::Value`, a parsed JSON document. The gateway never looks inside
/// one; it carries the document from the text it was read from to the request
/// body that embeds it.
#[verifier::external_type_specification]
#[verifier::external_body]
pub struct ExJsonValue(serde_json::Value);

/// `serde_json::Error`, the reason why a text is no JSON document.
#[verifier::external_type_specification]
#[verifier::external_body]
pub struct ExJsonError(serde_json::Error);

/// The outcome of `serde_json::from_str::<serde_json::Value>` on a text. The
/// parser reads nothing but the text, so equal texts have equal outcomes; what
/// the outcome is for a given text is left to `serde_json`.
pub uninterp spec fn json_from_text(text: Seq<char>) -> Result<serde_json::Value, serde_json::Error>;

/// Calls `serde_json::from_str::<serde_json::Value>`. Trusted: the result is
/// the parser's outcome for this text, the document on success and the
/// parser's error otherwise. Nothing is claimed about which texts parse.
#[verifier::external_body]
pub(crate) fn parse_json(text: &str) -> (parsed: Result<serde_json::Value, serde_json::Error>)
    ensures
        parsed == json_from_text(text@),
{
    serde_json::from_str::<serde_json::Value>(text)
}

} // verus!
