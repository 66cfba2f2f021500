//! JSON-RPC over HTTPS: a POST that must answer 200 with a JSON document
//! that has a `result` member.

use crate::json::{check_member, checked_member, jsonrpc_payload, payload_text, JsonCheck, JsonCheckView};
use crate::model::{AttemptResult, AttemptView, Meta, MetaView};
use crate::probes::dns::{failed_with, failure_attempt, timed_out, timeout_attempt};
use crate::probes::http_control::HttpOutcome;
use crate::text::{decimal, decimal_string, join2};
use vstd::prelude::*;

verus! {

/// POSTs a JSON-RPC request for `method` to `url`.
#[derive(Debug, Clone, PartialEq, Eq)]
pub struct HttpsJsonRpcProbe {
    pub url: String,
    pub method: String,
}

/// Whether a response is a success: status 200 and a document with a
/// `result` member.
pub open spec fn response_accepted(status: u16, check: JsonCheckView) -> bool {
    status == 200 && check is Document && check->found
}

/// The attempt that a response amounts to, given what its body was found
/// to be. The diagnostics carry the document where the body is one and the
/// raw body where it is not.
pub open spec fn response_attempt(
    status: u16,
    body: Seq<char>,
    check: JsonCheckView,
    elapsed_ms: u128,
) -> AttemptView {
    AttemptView {
        ok: response_accepted(status, check),
        rtt_ms: Some(elapsed_ms),
        error: if response_accepted(status, check) {
            None
        } else {
            Some("bad_jsonrpc: status="@ + decimal(status as nat))
        },
        meta: match check {
            JsonCheckView::Document { document, .. } => MetaView::JsonRpcHttp {
                status,
                response: document,
            },
            JsonCheckView::Malformed { .. } => MetaView::JsonRpcRaw { status, raw: body },
        },
    }
}

/// Classifies a response whose body has been checked for a `result` member.
pub fn conclude_response(status: u16, body: String, check: JsonCheck, elapsed_ms: u128) -> (r:
    AttemptResult)
    ensures
        r@ == response_attempt(status, body@, check@, elapsed_ms),
{
    let (found, meta) = match check {
        JsonCheck::Document { found, document } => (
            found,
            Meta::JsonRpcHttp { status, response: document },
        ),
        JsonCheck::Malformed { .. } => (false, Meta::JsonRpcRaw { status, raw: body }),
    };
    let ok = status == 200 && found;
    let error = if ok {
        None
    } else {
        let code = decimal_string(status as u64);
        Some(join2("bad_jsonrpc: status=", code.as_str()))
    };
    AttemptResult { ok, rtt_ms: Some(elapsed_ms), error, meta }
}

impl HttpsJsonRpcProbe {
    /// The attempt that an outcome amounts to.
    pub open spec fn concluded(outcome: HttpOutcome, elapsed_ms: u128) -> AttemptView {
        match outcome {
            HttpOutcome::ClientBuildFailed { error } => failed_with(
                None,
                "client_build_error: "@,
                error@,
            ),
            HttpOutcome::Response { status, body } => response_attempt(
                status,
                body@,
                checked_member(body@, "result"@),
                elapsed_ms,
            ),
            HttpOutcome::Failed { error } => failed_with(
                Some(elapsed_ms),
                "https_jsonrpc_error: "@,
                error@,
            ),
            HttpOutcome::TimedOut => timed_out(),
        }
    }

    /// The request body to post.
    pub fn payload(&self) -> (r: String)
        ensures
            r@ == payload_text(self.method@),
    {
        jsonrpc_payload(self.method.as_str())
    }

    /// Turns the outcome of one exchange into its attempt result.
    pub fn conclude(&self, outcome: HttpOutcome, elapsed_ms: u128) -> (r: AttemptResult)
        ensures
            r@ == Self::concluded(outcome, elapsed_ms),
    {
        match outcome {
            HttpOutcome::ClientBuildFailed { error } => failure_attempt(
                None,
                "client_build_error: ",
                error.as_str(),
            ),
            HttpOutcome::Response { status, body } => {
                let check = check_member(body.as_str(), "result");
                conclude_response(status, body, check, elapsed_ms)
            },
            HttpOutcome::Failed { error } => failure_attempt(
                Some(elapsed_ms),
                "https_jsonrpc_error: ",
                error.as_str(),
            ),
            HttpOutcome::TimedOut => timeout_attempt(),
        }
    }
}

} // verus!
