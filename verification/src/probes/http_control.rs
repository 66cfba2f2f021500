//! The control HTTP probe: a GET that must answer 200, with the expected
//! body where one is configured.

use crate::model::{AttemptResult, AttemptView, Meta, MetaView};
use crate::probes::dns::{failed_with, failure_attempt, timed_out, timeout_attempt};
use crate::text::{decimal, decimal_string, join2};
use vstd::prelude::*;

verus! {

/// GETs `url`.
#[derive(Debug, Clone, PartialEq, Eq)]
pub struct HttpControlProbe {
    pub url: String,
    pub expect_body: Option<String>,
}

/// What an HTTP exchange came to.
#[derive(Debug, Clone, PartialEq, Eq)]
pub enum HttpOutcome {
    /// No client could be built; nothing was sent.
    ClientBuildFailed { error: String },
    /// A response arrived.
    Response { status: u16, body: String },
    /// The exchange failed; the transport's message.
    Failed { error: String },
    /// No response within the deadline.
    TimedOut,
}

impl HttpControlProbe {
    /// Success: status 200, and the body equal to the expected one where one
    /// is configured.
    pub open spec fn accepts(&self, status: u16, body: Seq<char>) -> bool {
        status == 200 && match self.expect_body {
            Some(e) => e@ == body,
            None => true,
        }
    }

    /// The attempt that an outcome amounts to.
    pub open spec fn concluded(&self, outcome: HttpOutcome, elapsed_ms: u128) -> AttemptView {
        match outcome {
            HttpOutcome::ClientBuildFailed { error } => failed_with(
                None,
                "client_build_error: "@,
                error@,
            ),
            HttpOutcome::Response { status, body } => AttemptView {
                ok: self.accepts(status, body@),
                rtt_ms: Some(elapsed_ms),
                error: if self.accepts(status, body@) {
                    None
                } else {
                    Some("unexpected_response: status="@ + decimal(status as nat))
                },
                meta: MetaView::Http { status, body: body@ },
            },
            HttpOutcome::Failed { error } => failed_with(Some(elapsed_ms), "http_error: "@, error@),
            HttpOutcome::TimedOut => timed_out(),
        }
    }

    /// Whether a response with this status and body is a success.
    pub fn is_expected(&self, status: u16, body: &String) -> (r: bool)
        ensures
            r == self.accepts(status, body@),
    {
        if status != 200 {
            return false;
        }
        match &self.expect_body {
            Some(e) => String::eq(e, body),
            None => true,
        }
    }

    /// Turns the outcome of one exchange into its attempt result.
    pub fn conclude(&self, outcome: HttpOutcome, elapsed_ms: u128) -> (r: AttemptResult)
        ensures
            r@ == self.concluded(outcome, elapsed_ms),
    {
        match outcome {
            HttpOutcome::ClientBuildFailed { error } => failure_attempt(
                None,
                "client_build_error: ",
                error.as_str(),
            ),
            HttpOutcome::Response { status, body } => {
                let ok = self.is_expected(status, &body);
                let error = if ok {
                    None
                } else {
                    let code = decimal_string(status as u64);
                    Some(join2("unexpected_response: status=", code.as_str()))
                };
                AttemptResult {
                    ok,
                    rtt_ms: Some(elapsed_ms),
                    error,
                    meta: Meta::Http { status, body },
                }
            },
            HttpOutcome::Failed { error } => failure_attempt(
                Some(elapsed_ms),
                "http_error: ",
                error.as_str(),
            ),
            HttpOutcome::TimedOut => timeout_attempt(),
        }
    }
}

} // verus!
