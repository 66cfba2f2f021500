//! TCP connect: the handshake must complete.

use crate::model::{AttemptResult, AttemptView, Meta, MetaView};
use crate::probes::dns::{failed_with, failure_attempt, format_address, socket_address, timed_out, timeout_attempt};
use vstd::prelude::*;

verus! {

/// Opens a TCP connection to `host:port`.
#[derive(Debug, Clone, PartialEq, Eq)]
pub struct TcpConnectProbe {
    pub host: String,
    pub port: u16,
}

/// What a connection attempt came to.
#[derive(Debug, Clone, PartialEq, Eq)]
pub enum TcpOutcome {
    /// The handshake completed.
    Connected,
    /// The connection failed; the transport's message.
    Failed { error: String },
    /// No handshake within the deadline.
    TimedOut,
}

impl TcpConnectProbe {
    /// The attempt that an outcome amounts to.
    pub open spec fn concluded(outcome: TcpOutcome, elapsed_ms: u128) -> AttemptView {
        match outcome {
            TcpOutcome::Connected => AttemptView {
                ok: true,
                rtt_ms: Some(elapsed_ms),
                error: None,
                meta: MetaView::Empty,
            },
            TcpOutcome::Failed { error } => failed_with(Some(elapsed_ms), "tcp_error: "@, error@),
            TcpOutcome::TimedOut => timed_out(),
        }
    }

    /// The address to connect to.
    pub fn address(&self) -> (r: String)
        ensures
            r@ == socket_address(self.host@, self.port),
    {
        format_address(self.host.as_str(), self.port)
    }

    /// Turns the outcome of one connection attempt into its attempt result.
    pub fn conclude(&self, outcome: TcpOutcome, elapsed_ms: u128) -> (r: AttemptResult)
        ensures
            r@ == Self::concluded(outcome, elapsed_ms),
    {
        match outcome {
            TcpOutcome::Connected => AttemptResult {
                ok: true,
                rtt_ms: Some(elapsed_ms),
                error: None,
                meta: Meta::Empty,
            },
            TcpOutcome::Failed { error } => failure_attempt(
                Some(elapsed_ms),
                "tcp_error: ",
                error.as_str(),
            ),
            TcpOutcome::TimedOut => timeout_attempt(),
        }
    }
}

} // verus!
