//! Rendering an event payload as a chat message: the JSON body is
//! pretty-printed and wrapped in a fenced code block.  Parsing and
//! pretty-printing are delegated to serde_json; everything around the two
//! calls is verified.

use vstd::prelude::*;

verus! {

/// Whether the byte sequence is a well-formed JSON document, as decided by
/// serde_json's parser: a function of the bytes alone.
pub uninterp spec fn json_wf(body: Seq<u8>) -> bool;

/// The pretty-printed rendering of a well-formed JSON document: a function
/// of the bytes alone.
pub uninterp spec fn json_pretty(body: Seq<u8>) -> Seq<char>;

/// Relies on serde_json::from_slice and serde_json::to_string_pretty:
/// parsing accepts a byte sequence or refuses it on the bytes alone, and
/// pretty-printing the parsed document is deterministic in those bytes.
#[verifier::external_body]
fn render_pretty(body: &[u8]) -> (r: Option<String>)
    ensures
        r is Some <==> json_wf(body@),
        r matches Some(p) ==> p@ == json_pretty(body@),
{
    match serde_json::from_slice::<serde_json::Value>(body) {
        Ok(v) => serde_json::to_string_pretty(&v).ok(),
        Err(_) => None,
    }
}

/// Whether the body would be accepted by the payload parser.
pub fn json_body_ok(body: &[u8]) -> (r: bool)
    ensures
        r == json_wf(body@),
{
    render_pretty(body).is_some()
}

/// What the chat message for a well-formed payload looks like: the
/// pretty-printed document inside a fenced `json` code block.
pub open spec fn spec_message(body: Seq<u8>) -> Seq<char> {
    "```json\n"@ + json_pretty(body) + "\n```"@
}

/// Format an event payload as the chat message to deliver: deterministic for
/// identical input, and refused exactly when the payload is not well-formed
/// JSON (the ingestor never admits such a payload).
pub fn format_message(body: &[u8]) -> (r: Option<String>)
    ensures
        r is Some <==> json_wf(body@),
        r matches Some(m) ==> m@ == spec_message(body@),
{
    match render_pretty(body) {
        Some(pretty) => {
            let mut out = String::from_str("```json\n");
            out.append(pretty.as_str());
            out.append("\n```");
            Some(out)
        },
        None => None,
    }
}

} // verus!
