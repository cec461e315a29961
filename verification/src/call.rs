//! The life of one RPC call on the main thread.
//!
//! A pending call resolves to the worker's first correlated response. Until
//! it resolves it is armed: dropping it cancels the request (the runtime
//! posts a cancel message for its correlation ID and unregisters it). Once it
//! resolves, in any way, it is disarmed.

use vstd::prelude::*;

use crate::error::BridgeError;

verus! {

/// What the runtime observed on a pending call's completion channel.
pub enum Received<R> {
    /// The worker's response arrived.
    Response(R),
    /// The bridge rejected the call (for instance, the worker was terminated).
    Rejected(BridgeError),
    /// The sending side went away without completing the call.
    Dropped,
    /// Nothing yet.
    Waiting,
}

/// The outcome of polling a call.
pub enum CallPoll<R> {
    /// The call resolved.
    Ready(Result<R, BridgeError>),
    /// Still waiting.
    Pending,
}

/// Cancel-on-drop state of one call: the correlation ID to cancel while armed.
pub struct CallTracker {
    armed: Option<u64>,
}

impl View for CallTracker {
    type V = Option<u64>;

    closed spec fn view(&self) -> Option<u64> {
        self.armed
    }
}

/// How one observation settles a call.
pub open spec fn spec_settle<R>(armed: Option<u64>, received: Received<R>) -> (Option<u64>, CallPoll<R>) {
    match received {
        Received::Waiting => (armed, CallPoll::Pending),
        Received::Response(r) => (None, CallPoll::Ready(Ok(r))),
        Received::Rejected(e) => (None, CallPoll::Ready(Err(e))),
        Received::Dropped => (None, CallPoll::Ready(Err(BridgeError::ChannelClosed))),
    }
}

impl CallTracker {
    /// A call registered under `correlation_id` and waiting for its response.
    pub fn armed(correlation_id: u64) -> (r: Self)
        ensures
            r@ == Some(correlation_id),
    {
        CallTracker { armed: Some(correlation_id) }
    }

    /// A call that resolved at once (it was never sent), so nothing to cancel.
    pub fn settled() -> (r: Self)
        ensures
            r@ is None,
    {
        CallTracker { armed: None }
    }

    /// The correlation ID that dropping the call would cancel.
    pub fn correlation_id(&self) -> (r: Option<u64>)
        ensures
            r == self@,
    {
        self.armed
    }

    /// Settle the call with what was observed on its channel: any outcome
    /// but `Waiting` resolves the call and disarms its cancellation.
    pub fn settle<R>(&mut self, received: Received<R>) -> (r: CallPoll<R>)
        ensures
            (final(self)@, r) == spec_settle(old(self)@, received),
    {
        match received {
            Received::Waiting => CallPoll::Pending,
            Received::Response(r) => {
                self.armed = None;
                CallPoll::Ready(Ok(r))
            },
            Received::Rejected(e) => {
                self.armed = None;
                CallPoll::Ready(Err(e))
            },
            Received::Dropped => {
                self.armed = None;
                CallPoll::Ready(Err(BridgeError::ChannelClosed))
            },
        }
    }

    /// The call is being dropped: returns the correlation ID to cancel (the
    /// runtime posts the cancel message and rejects the pending call with
    /// `ChannelClosed`), or `None` if the call already resolved.
    pub fn disarm(&mut self) -> (r: Option<u64>)
        ensures
            r == old(self)@,
            final(self)@ is None,
    {
        let id: Option<u64> = self.armed;
        self.armed = None;
        id
    }
}

/// The result of a call that resolved at once: taken by the first poll; a
/// later poll finds the channel closed.
pub fn take_ready<R>(slot: &mut Option<Result<R, BridgeError>>) -> (r: Result<R, BridgeError>)
    ensures
        (*old(slot)) is Some ==> *old(slot) == Some(r),
        (*old(slot)) is None ==> (r matches Err(e) && e is ChannelClosed),
        (*final(slot)) is None,
{
    match slot.take() {
        Some(v) => v,
        None => Err(BridgeError::ChannelClosed),
    }
}

/// Only an unresolved call cancels on drop: once a call resolved in any way,
/// dropping it cancels nothing; while it waits, dropping it cancels exactly
/// its own correlation ID.
pub proof fn lemma_cancel_only_unresolved<R>(id: u64, received: Received<R>)
    ensures
        !(received is Waiting) ==> spec_settle(Some(id), received).0 is None,
        received is Waiting ==> spec_settle(Some(id), received).0 == Some(id),
{
}

} // verus!
