//! Classification of transport outcomes. The layer that actually speaks HTTP
//! hands the core one of these outcomes per request; the core turns it into
//! either decoded data or the exact user-visible error message.

use vstd::prelude::*;
use vstd::string::StringExecFns;

verus! {

/// Which server the launcher talks to: the fixed local loopback endpoint or
/// an operator-supplied address.
#[derive(Clone, Copy, PartialEq, Eq, Structural)]
pub enum Host {
    LocalHost,
    Custom,
}

impl Host {
    /// The text shown for this host choice.
    pub fn label(&self) -> (r: &str)
        ensures
            r@ == match *self {
                Host::LocalHost => "Local Server"@,
                Host::Custom => "Custom"@,
            },
    {
        match *self {
            Host::LocalHost => "Local Server",
            Host::Custom => "Custom",
        }
    }
}

/// What one request came to, as the transport layer saw it: a decoded body,
/// a body that would not decode (with the decoder's detail text), an HTTP
/// error status (with the response body, possibly empty), or no response
/// at all.
pub enum ResponseOutcome<T> {
    Decoded(T),
    DecodeFailure(String),
    ServerError(String),
    ConnectFailure,
}

/// Message shown when a response body would not decode; the decoder's own
/// detail text follows the fixed prefix.
pub open spec fn decode_failure_message(detail: Seq<char>) -> Seq<char> {
    "Failed to decode JSON response: "@ + detail
}

/// Message substituted when the server answers an error status with an
/// empty body.
pub open spec fn server_unavailable_message() -> Seq<char> {
    "Unable to connect to server, try again later"@
}

/// Message shown for an HTTP error status: the body verbatim, or the
/// substitute when the body is empty.
pub open spec fn server_error_message(body: Seq<char>) -> Seq<char> {
    if body.len() == 0 {
        server_unavailable_message()
    } else {
        body
    }
}

/// Message shown when no response arrived at all.
pub open spec fn connect_failure_message() -> Seq<char> {
    "Failed to connect to server"@
}

/// The user-visible error text for a failed outcome. (Decoded outcomes carry
/// no error; for them this is the empty text.)
pub open spec fn outcome_error_text<T>(outcome: ResponseOutcome<T>) -> Seq<char> {
    match outcome {
        ResponseOutcome::Decoded(_) => Seq::<char>::empty(),
        ResponseOutcome::DecodeFailure(detail) => decode_failure_message(detail@),
        ResponseOutcome::ServerError(body) => server_error_message(body@),
        ResponseOutcome::ConnectFailure => connect_failure_message(),
    }
}

/// Every failed outcome yields a non-empty message: the fixed texts are
/// non-empty, and the decode prefix keeps that message non-empty whatever
/// the detail.
pub proof fn lemma_error_text_nonempty<T>(outcome: ResponseOutcome<T>)
    requires
        !(outcome is Decoded),
    ensures
        outcome_error_text(outcome).len() > 0,
{
    reveal_strlit("Failed to decode JSON response: ");
    reveal_strlit("Unable to connect to server, try again later");
    reveal_strlit("Failed to connect to server");
}

/// Builds the decode-failure message around the decoder's detail text.
pub fn decode_failure_text(detail: &str) -> (r: String)
    ensures
        r@ == decode_failure_message(detail@),
{
    "Failed to decode JSON response: ".to_owned().concat(detail)
}

/// Builds the message for an HTTP error status from the response body.
pub fn server_error_text(body: String) -> (r: String)
    ensures
        r@ == server_error_message(body@),
{
    if body.as_str().is_empty() {
        "Unable to connect to server, try again later".to_owned()
    } else {
        body
    }
}

/// Builds the message for a connection-level failure.
pub fn connect_failure_text() -> (r: String)
    ensures
        r@ == connect_failure_message(),
{
    "Failed to connect to server".to_owned()
}

} // verus!
