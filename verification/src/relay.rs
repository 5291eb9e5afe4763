//! Response relay: turning what came back from the outbound send — or the
//! reason no send was attempted — into the response for the original caller.
//! A backend body that parses as JSON is relayed structurally; any other body
//! is relayed as raw text; failures synthesize a bad-gateway response.

use vstd::prelude::*;
use vstd::string::*;
use crate::forward::SelectError;

verus! {

/// Status of every synthesized error response: selection failed or the
/// outbound send failed.
pub const BAD_GATEWAY: u16 = 502;

#[verifier::external_type_specification]
#[verifier::external_body]
pub struct ExValue(serde_json::Value);

/// Whether a string parses as a JSON value.
pub uninterp spec fn json_parses(text: Seq<char>) -> bool;

/// Relies on serde_json::from_str::<Value>: whether a string parses as a
/// JSON value depends on the string alone.
#[verifier::external_body]
fn parse_json(text: &str) -> (r: Option<serde_json::Value>)
    ensures
        r is Some <==> json_parses(text@),
{
    match serde_json::from_str::<serde_json::Value>(text) {
        Ok(v) => Some(v),
        Err(_) => None,
    }
}

/// The response relayed to the original caller: the backend's status with
/// its body re-serialized from JSON or passed along as raw text.
#[allow(inconsistent_fields)]
pub enum ProxyResponse {
    /// The body parsed as JSON and is relayed structurally.
    Json { status: u16, body: serde_json::Value },
    /// The body is relayed as plain text.
    Text { status: u16, body: String },
}

/// What the outbound send produced: a response whose status was read (and
/// whose body text, where reading it succeeded), or a transport failure —
/// connect error, timeout, DNS or TLS failure — described by its text.
pub enum SendOutcome {
    Delivered { status: u16, body: Option<String> },
    TransportFailed { message: String },
}

/// The synthesized message when selection fails: one cause, one text.
pub open spec fn select_error_message(e: SelectError) -> Seq<char> {
    match e {
        SelectError::NoBackend => "Request failed: No block engine URLs available"@,
        SelectError::NoEgress => "Request failed: No egress clients available"@,
    }
}

/// The synthesized message when the outbound send fails, carrying the
/// underlying transport error's text.
pub open spec fn transport_error_message(detail: Seq<char>) -> Seq<char> {
    "Request failed: "@ + detail
}

/// The bad-gateway response for a failed selection, with a message naming
/// the cause.
pub fn select_error_response(e: &SelectError) -> (r: ProxyResponse)
    ensures
        (r matches ProxyResponse::Text { status, body } && status == BAD_GATEWAY && body@
            == select_error_message(*e)),
{
    let body = match e {
        SelectError::NoBackend => String::from_str(
            "Request failed: No block engine URLs available",
        ),
        SelectError::NoEgress => String::from_str("Request failed: No egress clients available"),
    };
    ProxyResponse::Text { status: BAD_GATEWAY, body }
}

/// The bad-gateway response for a failed outbound send, exposing the
/// transport error's text to the caller.
pub fn transport_error_response(detail: &str) -> (r: ProxyResponse)
    ensures
        (r matches ProxyResponse::Text { status, body } && status == BAD_GATEWAY && body@
            == transport_error_message(detail@)),
{
    let mut body = String::from_str("Request failed: ");
    body.append(detail);
    ProxyResponse::Text { status: BAD_GATEWAY, body }
}

/// Relays a backend response from its status, body text and parse result:
/// the status is always the backend's own; the body is the parsed JSON value
/// where one was found, else the raw text unchanged.
pub fn relay_decision(status: u16, text: String, parsed: Option<serde_json::Value>) -> (r:
    ProxyResponse)
    ensures
        (parsed matches Some(v) ==> r == (ProxyResponse::Json { status, body: v })),
        parsed is None ==> r == (ProxyResponse::Text { status, body: text }),
{
    match parsed {
        Some(v) => ProxyResponse::Json { status, body: v },
        None => ProxyResponse::Text { status, body: text },
    }
}

/// Relays a backend response from its status and body text, parsing the
/// body as JSON on a best-effort basis.
pub fn relay_response(status: u16, text: String) -> (r: ProxyResponse)
    ensures
        json_parses(text@) ==> (r matches ProxyResponse::Json { status: s, .. } && s == status),
        !json_parses(text@) ==> r == (ProxyResponse::Text { status, body: text }),
{
    let parsed = parse_json(text.as_str());
    relay_decision(status, text, parsed)
}

/// Turns the outcome of the outbound send into the caller's response: a
/// delivered response is relayed under the backend's own status (with the
/// placeholder body where reading the body failed), a transport failure
/// becomes a bad-gateway response carrying the failure's text.
pub fn relay_outcome(outcome: SendOutcome) -> (r: ProxyResponse)
    ensures
        (outcome matches SendOutcome::TransportFailed { message } ==> (r
            matches ProxyResponse::Text { status, body } && status == BAD_GATEWAY && body@
            == transport_error_message(message@))),
        (outcome matches SendOutcome::Delivered { status: st, body: Some(text) } ==> (json_parses(
            text@,
        ) ==> (r matches ProxyResponse::Json { status: s, .. } && s == st)) && (!json_parses(text@)
            ==> r == (ProxyResponse::Text { status: st, body: text }))),
        (outcome matches SendOutcome::Delivered { status: st, body: None } ==> (r
            matches ProxyResponse::Text { status, body } && status == st && body@ == "No body"@)),
{
    match outcome {
        SendOutcome::TransportFailed { message } => transport_error_response(message.as_str()),
        SendOutcome::Delivered { status, body: Some(text) } => relay_response(status, text),
        SendOutcome::Delivered { status, body: None } => ProxyResponse::Text {
            status,
            body: String::from_str("No body"),
        },
    }
}

} // verus!
