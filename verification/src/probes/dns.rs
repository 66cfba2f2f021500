//! Name resolution: at least one address must come back.

use crate::model::{AttemptResult, AttemptView, Meta, MetaView};
use crate::text::{decimal, decimal_string, join2, join3};
use vstd::prelude::*;

verus! {

/// Resolves `host:port` to addresses.
#[derive(Debug, Clone, PartialEq, Eq)]
pub struct DnsResolveProbe {
    pub host: String,
    pub port: u16,
}

/// What a resolution came to.
#[derive(Debug, Clone, PartialEq, Eq)]
pub enum DnsOutcome {
    /// The resolver answered with these addresses (possibly none).
    Resolved { addrs: Vec<String> },
    /// The resolver failed; its message.
    Failed { error: String },
    /// No answer within the deadline.
    TimedOut,
}

/// `host:port`, the port in decimal.
pub open spec fn socket_address(host: Seq<char>, port: u16) -> Seq<char> {
    host + ":"@ + decimal(port as nat)
}

/// Renders `host:port`.
pub fn format_address(host: &str, port: u16) -> (r: String)
    ensures
        r@ == socket_address(host@, port),
{
    let p = decimal_string(port as u64);
    join3(host, ":", p.as_str())
}

/// The attempt that every probe reports when its deadline passes.
pub open spec fn timed_out() -> AttemptView {
    AttemptView { ok: false, rtt_ms: None, error: Some("timeout"@), meta: MetaView::Empty }
}

/// A failed attempt with the given time and a message made of a category
/// prefix and a detail.
pub open spec fn failed_with(rtt_ms: Option<u128>, prefix: Seq<char>, detail: Seq<char>)
    -> AttemptView {
    AttemptView { ok: false, rtt_ms, error: Some(prefix + detail), meta: MetaView::Empty }
}

/// Builds the timeout attempt.
pub fn timeout_attempt() -> (r: AttemptResult)
    ensures
        r@ == timed_out(),
{
    AttemptResult {
        ok: false,
        rtt_ms: None,
        error: Some(String::from_str("timeout")),
        meta: Meta::Empty,
    }
}

/// Builds a failed attempt whose message is `prefix` followed by `detail`.
pub fn failure_attempt(rtt_ms: Option<u128>, prefix: &str, detail: &str) -> (r: AttemptResult)
    ensures
        r@ == failed_with(rtt_ms, prefix@, detail@),
{
    AttemptResult { ok: false, rtt_ms, error: Some(join2(prefix, detail)), meta: Meta::Empty }
}

impl DnsResolveProbe {
    /// The attempt that an outcome amounts to: resolved with at least one
    /// address is a success; a resolver failure keeps the measured time; a
    /// timeout has none.
    pub open spec fn concluded(outcome: DnsOutcome, elapsed_ms: u128) -> AttemptView {
        match outcome {
            DnsOutcome::Resolved { addrs } => AttemptView {
                ok: addrs@.len() > 0,
                rtt_ms: Some(elapsed_ms),
                error: None,
                meta: MetaView::Addrs { addrs: addrs.deep_view() },
            },
            DnsOutcome::Failed { error } => failed_with(Some(elapsed_ms), "dns_error: "@, error@),
            DnsOutcome::TimedOut => timed_out(),
        }
    }

    /// The address to resolve.
    pub fn address(&self) -> (r: String)
        ensures
            r@ == socket_address(self.host@, self.port),
    {
        format_address(self.host.as_str(), self.port)
    }

    /// Turns the outcome of one resolution into its attempt result.
    pub fn conclude(&self, outcome: DnsOutcome, elapsed_ms: u128) -> (r: AttemptResult)
        ensures
            r@ == Self::concluded(outcome, elapsed_ms),
    {
        match outcome {
            DnsOutcome::Resolved { addrs } => AttemptResult {
                ok: addrs.len() > 0,
                rtt_ms: Some(elapsed_ms),
                error: None,
                meta: Meta::Addrs { addrs },
            },
            DnsOutcome::Failed { error } => failure_attempt(
                Some(elapsed_ms),
                "dns_error: ",
                error.as_str(),
            ),
            DnsOutcome::TimedOut => timeout_attempt(),
        }
    }
}

} // verus!
