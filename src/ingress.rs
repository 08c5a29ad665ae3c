//! The answer of the liveness endpoint, from what became of the message it tried to put
//! on the controller's queue.
use vstd::prelude::*;

verus! {

/// The status that acknowledges a queued liveness message.
pub const STATUS_OK: u16 = 200;

/// The status that asks the caller to retry later.
pub const STATUS_RETRY: u16 = 503;

/// What became of an attempt to queue a liveness message without waiting.
#[derive(PartialEq, Eq, Structural, Debug, Clone, Copy)]
pub enum EnqueueOutcome {
    /// The message is on the queue.
    Enqueued,
    /// The queue is full.
    Full,
    /// The queue no longer has a consumer: the controller is shutting down.
    Closed,
}

/// The status to answer: an acknowledgment only when the message is queued, a transient
/// failure otherwise.
pub fn ingress_status(outcome: EnqueueOutcome) -> (r: u16)
    ensures
        r == STATUS_OK <==> outcome == EnqueueOutcome::Enqueued,
        outcome != EnqueueOutcome::Enqueued ==> r == STATUS_RETRY,
{
    match outcome {
        EnqueueOutcome::Enqueued => STATUS_OK,
        EnqueueOutcome::Full => STATUS_RETRY,
        EnqueueOutcome::Closed => STATUS_RETRY,
    }
}

} // verus!
