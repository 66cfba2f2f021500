//! Delivery of a report: one attempt, then the durable queue.
//!
//! The transport and the store are the caller's; the rules are here. A
//! caller starts with [`begin_delivery`], performs the step it is handed,
//! and reports back with [`after_delivery`] and [`after_enqueue`] until an
//! outcome is reached.

use crate::config::ReportingConfig;
use crate::model::Report;
use vstd::prelude::*;
use vstd::string::StringExecFns;

verus! {

/// How the delivery of a report ended.
#[derive(Debug, Clone, PartialEq, Eq)]
pub enum SendOutcome {
    /// Delivered, or delivery was not wanted.
    Sent,
    /// Delivery failed and the report went to the queue.
    Queued { reason: String },
}

/// The mathematical value of a [`SendOutcome`].
pub ghost enum SendOutcomeView {
    Sent,
    Queued { reason: Seq<char> },
}

impl View for SendOutcome {
    type V = SendOutcomeView;

    open spec fn view(&self) -> SendOutcomeView {
        match *self {
            SendOutcome::Sent => SendOutcomeView::Sent,
            SendOutcome::Queued { reason } => SendOutcomeView::Queued { reason: reason@ },
        }
    }
}

/// A report together with how its delivery ended.
#[derive(Debug, Clone, PartialEq, Eq)]
pub struct RunResponse {
    pub report: Report,
    pub send: SendOutcome,
}

/// What the caller does next for a report.
#[derive(Debug, Clone, PartialEq, Eq)]
pub enum DeliveryStep {
    /// Make the single delivery attempt.
    Deliver,
    /// Append the report to the queue; delivery failed for `reason`.
    Enqueue { reason: String },
    /// Nothing more to do.
    Finished { outcome: SendOutcome },
}

/// The mathematical value of a [`DeliveryStep`].
pub ghost enum DeliveryStepView {
    Deliver,
    Enqueue { reason: Seq<char> },
    Finished { outcome: SendOutcomeView },
}

impl View for DeliveryStep {
    type V = DeliveryStepView;

    open spec fn view(&self) -> DeliveryStepView {
        match *self {
            DeliveryStep::Deliver => DeliveryStepView::Deliver,
            DeliveryStep::Enqueue { reason } => DeliveryStepView::Enqueue { reason: reason@ },
            DeliveryStep::Finished { outcome } => DeliveryStepView::Finished { outcome: outcome@ },
        }
    }
}

/// A delivery is wanted when reporting is enabled and the caller did not
/// suppress it.
pub open spec fn delivery_wanted(enabled: bool, no_send: bool) -> bool {
    enabled && !no_send
}

/// The first step: a delivery attempt where one is wanted; otherwise the
/// report counts as sent.
pub open spec fn first_step(enabled: bool, no_send: bool) -> DeliveryStepView {
    if delivery_wanted(enabled, no_send) {
        DeliveryStepView::Deliver
    } else {
        DeliveryStepView::Finished { outcome: SendOutcomeView::Sent }
    }
}

/// The step after the delivery attempt: finished as sent if it succeeded,
/// else the append to the queue, with the failure as reason.
pub open spec fn step_after_delivery(result: Result<(), String>) -> DeliveryStepView {
    match result {
        Ok(_) => DeliveryStepView::Finished { outcome: SendOutcomeView::Sent },
        Err(reason) => DeliveryStepView::Enqueue { reason: reason@ },
    }
}

/// The outcome after the append to the queue: queued in either case; where
/// the append failed too, the reason names both failures.
pub open spec fn outcome_after_enqueue(reason: Seq<char>, append: Result<(), String>)
    -> SendOutcomeView {
    SendOutcomeView::Queued {
        reason: match append {
            Ok(_) => reason,
            Err(queue_error) => compound_reason(reason, queue_error@),
        },
    }
}

/// The reason of a report that could be neither delivered nor stored.
pub open spec fn compound_reason(reason: Seq<char>, queue_error: Seq<char>) -> Seq<char> {
    reason + "; queue_failed="@ + queue_error
}

/// Decides the first step for a report.
pub fn begin_delivery(reporting: &ReportingConfig, no_send: bool) -> (step: DeliveryStep)
    ensures
        step@ == first_step(reporting.enabled, no_send),
{
    if reporting.enabled && !no_send {
        DeliveryStep::Deliver
    } else {
        DeliveryStep::Finished { outcome: SendOutcome::Sent }
    }
}

/// The success class of HTTP statuses: 200 to 299.
pub open spec fn success_status(status: u16) -> bool {
    200 <= status < 300
}

/// Whether a collector's status accepts the report.
pub fn is_success_status(status: u16) -> (r: bool)
    ensures
        r == success_status(status),
{
    200 <= status && status < 300
}

/// The reason recorded for a collector that answered without success.
pub open spec fn rejection_reason(status_line: Seq<char>, body: Seq<char>) -> Seq<char> {
    "report failed: status="@ + status_line + " body="@ + body
}

/// A report that is not wanted, or whose single delivery attempt succeeds,
/// ends as sent; one whose attempt fails ends as queued, whatever the
/// append to the queue came to.
pub proof fn lemma_delivery_ends_sent_or_queued(
    enabled: bool,
    no_send: bool,
    delivery: Result<(), String>,
    append: Result<(), String>,
)
    ensures
        !delivery_wanted(enabled, no_send) ==> first_step(enabled, no_send) == (
        DeliveryStepView::Finished { outcome: SendOutcomeView::Sent }),
        delivery_wanted(enabled, no_send) ==> first_step(enabled, no_send)
            == DeliveryStepView::Deliver,
        delivery is Ok ==> step_after_delivery(delivery) == (DeliveryStepView::Finished {
            outcome: SendOutcomeView::Sent,
        }),
        delivery is Err ==> step_after_delivery(delivery) is Enqueue && outcome_after_enqueue(
            step_after_delivery(delivery)->reason,
            append,
        ) is Queued,
{
}

/// Judges a collector's answer: success for a status of the success class,
/// otherwise a failure whose reason names the status line and the body.
pub fn delivery_verdict(status: u16, status_line: &str, body: &str) -> (r: Result<(), String>)
    ensures
        r is Ok == success_status(status),
        r is Err ==> r->Err_0@ == rejection_reason(status_line@, body@),
{
    if is_success_status(status) {
        Ok(())
    } else {
        let mut s = String::from_str("report failed: status=");
        s.append(status_line);
        s.append(" body=");
        s.append(body);
        Err(s)
    }
}

/// Decides the step after the delivery attempt.
pub fn after_delivery(result: Result<(), String>) -> (step: DeliveryStep)
    ensures
        step@ == step_after_delivery(result),
{
    match result {
        Ok(_) => DeliveryStep::Finished { outcome: SendOutcome::Sent },
        Err(reason) => DeliveryStep::Enqueue { reason },
    }
}

/// Decides the outcome after the append to the queue.
pub fn after_enqueue(reason: String, append: Result<(), String>) -> (outcome: SendOutcome)
    ensures
        outcome@ == outcome_after_enqueue(reason@, append),
{
    match append {
        Ok(_) => SendOutcome::Queued { reason },
        Err(queue_error) => {
            let mut s = reason;
            s.append("; queue_failed=");
            s.append(queue_error.as_str());
            SendOutcome::Queued { reason: s }
        },
    }
}

} // verus!
