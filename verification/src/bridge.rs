//! What a caller gets when it hands a job to the actor and waits.

use crate::error::{ServiceError, ServiceErrorView, WorkerFault};
use crate::protocol::{Reply, ReplyView};
use vstd::prelude::*;

verus! {

/// How handing a job to the actor ended.
#[derive(Debug, PartialEq, Eq)]
pub enum Handoff {
    /// The job could not be queued.
    Closed,
    /// Waiting for the reply was interrupted.
    WaitFailed,
    /// The actor let go of the reply channel without answering.
    NoReply,
    /// The actor answered.
    Replied(Reply),
}

/// What the caller gets for `handoff`, as a mathematical value.
pub open spec fn settled(handoff: Handoff) -> Result<ReplyView, ServiceErrorView> {
    match handoff {
        Handoff::Closed => Err(ServiceErrorView::WorkerUnavailable(WorkerFault::Closed)),
        Handoff::WaitFailed => Err(ServiceErrorView::WorkerUnavailable(WorkerFault::WaitFailed)),
        Handoff::NoReply => Err(ServiceErrorView::WorkerUnavailable(WorkerFault::NoReply)),
        Handoff::Replied(reply) => Ok(reply@),
    }
}

/// A result of the bridge as a mathematical value.
pub open spec fn settled_view(outcome: Result<Reply, ServiceError>) -> Result<
    ReplyView,
    ServiceErrorView,
> {
    match outcome {
        Ok(reply) => Ok(reply@),
        Err(error) => Err(error@),
    }
}

/// Tells the caller how its job ended: with the actor's reply, or with the
/// reason why the actor is not available. A failure inside a reply is the
/// operation's own and passes through untouched.
pub fn settle(handoff: Handoff) -> (outcome: Result<Reply, ServiceError>)
    ensures
        settled_view(outcome) == settled(handoff),
{
    match handoff {
        Handoff::Closed => Err(ServiceError::WorkerUnavailable(WorkerFault::Closed)),
        Handoff::WaitFailed => Err(ServiceError::WorkerUnavailable(WorkerFault::WaitFailed)),
        Handoff::NoReply => Err(ServiceError::WorkerUnavailable(WorkerFault::NoReply)),
        Handoff::Replied(reply) => Ok(reply),
    }
}

} // verus!
