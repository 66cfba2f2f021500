//! The discovery ping: a pong must arrive before the deadline.

use crate::json::{enr_rejection, reject_enr};
use crate::model::{AttemptResult, AttemptView, Meta, MetaView};
use crate::probes::dns::{failed_with, failure_attempt, timed_out, timeout_attempt};
use vstd::prelude::*;

verus! {

/// Pings the node described by the record `enr`.
#[derive(Debug, Clone, PartialEq, Eq)]
pub struct Discv5PingProbe {
    pub enr: String,
}

/// What a discovery ping came to.
#[derive(Debug, Clone, PartialEq, Eq)]
pub enum Discv5Outcome {
    /// The node record is malformed; nothing was sent.
    BadRecord { error: String },
    /// The local listener could not be created; nothing was sent.
    SetupFailed { error: String },
    /// A pong arrived; its descriptor.
    Pong { pong: String },
    /// Starting the listener or pinging failed.
    Failed { error: String },
    /// No pong within the deadline.
    TimedOut,
}

impl Discv5PingProbe {
    /// The attempt that an outcome amounts to. Failures before anything is
    /// sent carry no time.
    pub open spec fn concluded(outcome: Discv5Outcome, elapsed_ms: u128) -> AttemptView {
        match outcome {
            Discv5Outcome::BadRecord { error } => failed_with(None, "bad_enr: "@, error@),
            Discv5Outcome::SetupFailed { error } => failed_with(
                None,
                "discv5_new_error: "@,
                error@,
            ),
            Discv5Outcome::Pong { pong } => AttemptView {
                ok: true,
                rtt_ms: Some(elapsed_ms),
                error: None,
                meta: MetaView::Pong { pong: pong@ },
            },
            Discv5Outcome::Failed { error } => failed_with(
                Some(elapsed_ms),
                "discv5_ping_error: "@,
                error@,
            ),
            Discv5Outcome::TimedOut => timed_out(),
        }
    }

    /// The attempt reported without touching the network when the node
    /// record is malformed; `None` when it is well-formed.
    pub open spec fn rejected(&self) -> Option<AttemptView> {
        match enr_rejection(self.enr@) {
            Some(message) => Some(failed_with(None, "bad_enr: "@, message)),
            None => None,
        }
    }

    /// Checks the node record before anything is sent: a malformed record
    /// fails at once, with no time measured.
    pub fn precheck(&self) -> (r: Option<AttemptResult>)
        ensures
            r is Some == self.rejected() is Some,
            r is Some ==> r->0@ == self.rejected()->0,
    {
        match reject_enr(self.enr.as_str()) {
            Some(message) => Some(failure_attempt(None, "bad_enr: ", message.as_str())),
            None => None,
        }
    }

    /// Turns the outcome of one ping into its attempt result.
    pub fn conclude(&self, outcome: Discv5Outcome, elapsed_ms: u128) -> (r: AttemptResult)
        ensures
            r@ == Self::concluded(outcome, elapsed_ms),
    {
        match outcome {
            Discv5Outcome::BadRecord { error } => failure_attempt(None, "bad_enr: ", error.as_str()),
            Discv5Outcome::SetupFailed { error } => failure_attempt(
                None,
                "discv5_new_error: ",
                error.as_str(),
            ),
            Discv5Outcome::Pong { pong } => AttemptResult {
                ok: true,
                rtt_ms: Some(elapsed_ms),
                error: None,
                meta: Meta::Pong { pong },
            },
            Discv5Outcome::Failed { error } => failure_attempt(
                Some(elapsed_ms),
                "discv5_ping_error: ",
                error.as_str(),
            ),
            Discv5Outcome::TimedOut => timeout_attempt(),
        }
    }
}

} // verus!
