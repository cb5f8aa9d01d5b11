//! The cancellation probe: a look at a broadcast channel that never waits.

use tokio::sync::broadcast::error::TryRecvError;
use tokio::sync::broadcast::Receiver;
use vstd::prelude::*;

verus! {

#[verifier::external_type_specification]
#[verifier::external_body]
#[verifier::reject_recursive_types(T)]
pub struct ExReceiver<T>(Receiver<T>);

/// What one look at the cancel channel found.
#[derive(Debug, Clone, Copy, PartialEq, Eq, Structural)]
pub enum CancelPoll {
    /// A value was waiting.
    Signalled,
    /// Nothing was waiting, and a sender is still there.
    Empty,
    /// Every sender is gone.
    Closed,
    /// The receiver fell behind and missed this many values.
    Lagged(u64),
}

impl CancelPoll {
    /// Whether the look asks the engine to stop: a value that was delivered
    /// does, whether it was found waiting or was missed. A channel with
    /// nothing in it does not, closed or not.
    pub fn requests_cancel(&self) -> (stop: bool)
        ensures
            stop == (*self is Signalled || *self is Lagged),
    {
        match self {
            CancelPoll::Signalled => true,
            CancelPoll::Lagged(_) => true,
            CancelPoll::Empty => false,
            CancelPoll::Closed => false,
        }
    }
}

/// Calls `tokio::sync::broadcast::Receiver::try_recv` and reports which of its
/// four outcomes came back. Nothing is claimed of the outcome: it depends on
/// what the senders have done.
#[verifier::external_body]
pub(crate) fn poll(receiver: &mut Receiver<()>) -> (seen: CancelPoll) {
    match receiver.try_recv() {
        Ok(()) => CancelPoll::Signalled,
        Err(TryRecvError::Empty) => CancelPoll::Empty,
        Err(TryRecvError::Closed) => CancelPoll::Closed,
        Err(TryRecvError::Lagged(missed)) => CancelPoll::Lagged(missed),
    }
}

/// Looks at the cancel channel, if there is one, without waiting, and
/// reports what was found. Without a channel nothing is reported.
pub fn probe(channel: &mut Option<Receiver<()>>) -> (seen: Option<CancelPoll>)
    ensures
        seen is None <==> *old(channel) is None,
        *old(channel) is None <==> *final(channel) is None,
{
    match channel {
        Some(receiver) => Some(poll(receiver)),
        None => None,
    }
}

/// Whether what a look at the cancel channel reported asks the engine to
/// stop: a delivered value does, and nothing else.
pub fn stops(seen: Option<CancelPoll>) -> (stop: bool)
    ensures
        stop == (seen matches Some(found) && (found is Signalled || found is Lagged)),
{
    match seen {
        Some(found) => found.requests_cancel(),
        None => false,
    }
}

/// Looks at the cancel channel, if there is one, and says whether to stop.
/// Without a channel the answer is always no.
pub fn cancel_requested(channel: &mut Option<Receiver<()>>) -> (stop: bool)
    ensures
        *old(channel) is None ==> !stop,
        *old(channel) is None <==> *final(channel) is None,
{
    stops(probe(channel))
}

} // verus!
