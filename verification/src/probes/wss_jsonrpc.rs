//! JSON-RPC over a websocket: the first text frame must be a JSON document
//! that has a `result` member.

use crate::json::{check_member, check_url, checked_member, jsonrpc_payload, payload_text, url_complaint, JsonCheck, JsonCheckView};
use crate::model::{AttemptResult, AttemptView, Meta, MetaView};
use crate::probes::dns::{failed_with, failure_attempt, timed_out, timeout_attempt};
use vstd::prelude::*;

verus! {

/// Opens a websocket to `url` and sends a JSON-RPC request for `method`.
#[derive(Debug, Clone, PartialEq, Eq)]
pub struct WssJsonRpcProbe {
    pub url: String,
    pub method: String,
}

/// What a websocket exchange came to.
#[derive(Debug, Clone, PartialEq, Eq)]
pub enum WssOutcome {
    /// The first text frame that arrived.
    Text { frame: String },
    /// The connection closed before any text frame arrived.
    ClosedWithoutResponse,
    /// Connecting, sending or receiving failed; the transport's message.
    Failed { error: String },
    /// No text frame within the deadline.
    TimedOut,
}

/// The attempt that a text frame amounts to, given what it was found to be.
pub open spec fn frame_attempt(check: JsonCheckView, elapsed_ms: u128) -> AttemptView {
    match check {
        JsonCheckView::Malformed { message } => failed_with(
            Some(elapsed_ms),
            "wss_error: "@,
            message,
        ),
        JsonCheckView::Document { found, document } => AttemptView {
            ok: found,
            rtt_ms: Some(elapsed_ms),
            error: if found {
                None
            } else {
                Some("bad_jsonrpc_response"@)
            },
            meta: MetaView::JsonRpcWs { response: document },
        },
    }
}

/// Classifies a text frame that has been checked for a `result` member.
pub fn conclude_frame(check: JsonCheck, elapsed_ms: u128) -> (r: AttemptResult)
    ensures
        r@ == frame_attempt(check@, elapsed_ms),
{
    match check {
        JsonCheck::Malformed { message } => failure_attempt(
            Some(elapsed_ms),
            "wss_error: ",
            message.as_str(),
        ),
        JsonCheck::Document { found, document } => AttemptResult {
            ok: found,
            rtt_ms: Some(elapsed_ms),
            error: if found {
                None
            } else {
                Some(String::from_str("bad_jsonrpc_response"))
            },
            meta: Meta::JsonRpcWs { response: document },
        },
    }
}

impl WssJsonRpcProbe {
    /// The attempt reported without touching the network when the target
    /// is not a URL; `None` when it is one.
    pub open spec fn rejected(&self) -> Option<AttemptView> {
        match url_complaint(self.url@) {
            Some(message) => Some(failed_with(None, "bad_url: "@, message)),
            None => None,
        }
    }

    /// The attempt that an outcome amounts to.
    pub open spec fn concluded(outcome: WssOutcome, elapsed_ms: u128) -> AttemptView {
        match outcome {
            WssOutcome::Text { frame } => frame_attempt(
                checked_member(frame@, "result"@),
                elapsed_ms,
            ),
            WssOutcome::ClosedWithoutResponse => failed_with(
                Some(elapsed_ms),
                "wss_error: "@,
                "ws_closed_without_response"@,
            ),
            WssOutcome::Failed { error } => failed_with(Some(elapsed_ms), "wss_error: "@, error@),
            WssOutcome::TimedOut => timed_out(),
        }
    }

    /// Checks the target before any connection is made: a target that is
    /// not a URL fails at once, with no time measured.
    pub fn precheck(&self) -> (r: Option<AttemptResult>)
        ensures
            r is Some == self.rejected() is Some,
            r is Some ==> r->0@ == self.rejected()->0,
    {
        match check_url(self.url.as_str()) {
            Some(message) => Some(failure_attempt(None, "bad_url: ", message.as_str())),
            None => None,
        }
    }

    /// The text frame to send.
    pub fn payload(&self) -> (r: String)
        ensures
            r@ == payload_text(self.method@),
    {
        jsonrpc_payload(self.method.as_str())
    }

    /// Turns the outcome of one exchange into its attempt result.
    pub fn conclude(&self, outcome: WssOutcome, elapsed_ms: u128) -> (r: AttemptResult)
        ensures
            r@ == Self::concluded(outcome, elapsed_ms),
    {
        match outcome {
            WssOutcome::Text { frame } => {
                let check = check_member(frame.as_str(), "result");
                conclude_frame(check, elapsed_ms)
            },
            WssOutcome::ClosedWithoutResponse => failure_attempt(
                Some(elapsed_ms),
                "wss_error: ",
                "ws_closed_without_response",
            ),
            WssOutcome::Failed { error } => failure_attempt(
                Some(elapsed_ms),
                "wss_error: ",
                error.as_str(),
            ),
            WssOutcome::TimedOut => timeout_attempt(),
        }
    }
}

} // verus!
