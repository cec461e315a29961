//! Decisions of the worker-side actor loop.
//!
//! The loop is two-phase: the first message is the actor's init payload;
//! every later message is a command or a cancel request. A message with a
//! correlation ID and a null payload cancels the command with that ID: the
//! loop drops the command's `CancelGuard`, which fires its token. The runtime
//! receives the messages, deserializes payloads and awaits the handlers; this
//! module keeps the phase and the guards of the commands in flight.

use std::collections::HashMap;
use vstd::prelude::*;

use crate::cancel::{CancelGuard, CancellationToken};
use crate::wire::WireHeader;

verus! {

broadcast use vstd::std_specs::hash::group_hash_axioms;

/// The phase of the actor loop.
#[derive(PartialEq, Eq, Structural, Clone, Copy, Debug)]
pub enum Phase {
    /// Waiting for the init payload.
    AwaitingInit,
    /// Processing commands.
    Running,
    /// Shut down (init failed or the channel closed).
    Stopped,
}

/// What to do with one received message.
pub enum Inbound {
    /// Deserialize the payload as the actor's init payload.
    Init,
    /// Cancel the command with this correlation ID.
    Cancel(u64),
    /// Drop the message.
    Ignore,
    /// Deserialize the payload as a command and run the handler.
    Command {
        /// Correlation ID of an RPC command.
        correlation_id: Option<u64>,
        /// Binary sidecar of the command.
        bytes: Option<Vec<u8>>,
    },
}

/// Worker-side dispatch state.
pub struct Dispatcher {
    phase: Phase,
    guards: HashMap<u64, CancelGuard>,
}

/// The abstract state of a `Dispatcher`.
pub struct DispatcherView {
    /// The loop's phase.
    pub phase: Phase,
    /// Correlation IDs of the in-flight commands that can be cancelled.
    pub cancellable: Set<u64>,
}

impl View for Dispatcher {
    type V = DispatcherView;

    closed spec fn view(&self) -> DispatcherView {
        DispatcherView { phase: self.phase, cancellable: self.guards@.dom() }
    }
}

/// The decision for a message with correlation ID `correlation_id` and a
/// payload that is present (not null or undefined) or not, in `phase`.
pub open spec fn spec_classify(phase: Phase, correlation_id: Option<u64>, payload_present: bool) -> Inbound {
    match phase {
        Phase::AwaitingInit => Inbound::Init,
        Phase::Stopped => Inbound::Ignore,
        Phase::Running => if !payload_present {
            match correlation_id {
                Some(id) => Inbound::Cancel(id),
                None => Inbound::Ignore,
            }
        } else {
            Inbound::Command { correlation_id, bytes: None }
        },
    }
}

/// `classify`'s result agrees with `spec_classify` up to the bytes it carries.
pub open spec fn classified_as(r: Inbound, expected: Inbound, bytes: Option<Vec<u8>>) -> bool {
    match expected {
        Inbound::Command { correlation_id, .. } => r == Inbound::Command { correlation_id, bytes },
        _ => r == expected,
    }
}

impl Dispatcher {
    /// The guard kept for the in-flight command with correlation ID `id`
    /// (meaningful when `id` is cancellable).
    pub closed spec fn spec_guard(&self, id: u64) -> CancelGuard {
        self.guards@[id]
    }

    /// A loop waiting for its init payload.
    pub fn new() -> (r: Self)
        ensures
            r@.phase == Phase::AwaitingInit,
            r@.cancellable == Set::<u64>::empty(),
    {
        Dispatcher { phase: Phase::AwaitingInit, guards: HashMap::new() }
    }

    /// The loop's phase.
    pub fn phase(&self) -> (r: Phase)
        ensures
            r == self@.phase,
    {
        self.phase
    }

    /// Decide what a received message is.
    pub fn classify(&self, header: WireHeader, payload_present: bool) -> (r: Inbound)
        ensures
            classified_as(r, spec_classify(self@.phase, header.correlation_id, payload_present), header.bytes),
            self@.phase == Phase::Running && payload_present ==> r == (Inbound::Command {
                correlation_id: header.correlation_id,
                bytes: header.bytes,
            }),
    {
        match self.phase {
            Phase::AwaitingInit => Inbound::Init,
            Phase::Stopped => Inbound::Ignore,
            Phase::Running => {
                if !payload_present {
                    match header.correlation_id {
                        Some(id) => Inbound::Cancel(id),
                        None => Inbound::Ignore,
                    }
                } else {
                    Inbound::Command { correlation_id: header.correlation_id, bytes: header.bytes }
                }
            },
        }
    }

    /// Record the outcome of the init phase: the command loop begins if the
    /// init payload was delivered, and the loop stops otherwise.
    pub fn finish_init(&mut self, delivered: bool)
        requires
            old(self)@.phase == Phase::AwaitingInit,
        ensures
            final(self)@.phase == (if delivered { Phase::Running } else { Phase::Stopped }),
            final(self)@.cancellable == old(self)@.cancellable,
            forall|j: u64| #[trigger] final(self).spec_guard(j) == old(self).spec_guard(j),
    {
        self.phase = if delivered { Phase::Running } else { Phase::Stopped };
    }

    /// The message channel closed: the loop shuts down.
    pub fn stop(&mut self)
        ensures
            final(self)@.phase == Phase::Stopped,
            final(self)@.cancellable == old(self)@.cancellable,
            forall|j: u64| #[trigger] final(self).spec_guard(j) == old(self).spec_guard(j),
    {
        self.phase = Phase::Stopped;
    }

    /// Start a command: makes its cancellation token. An RPC command's guard
    /// is kept under its correlation ID so a cancel request can fire it; a
    /// fire-and-forget command's guard is handed back, to live until the
    /// handler returns (it cannot be cancelled from outside).
    pub fn begin_command(&mut self, correlation_id: Option<u64>) -> (r: (CancellationToken, Option<CancelGuard>))
        ensures
            final(self)@.phase == old(self)@.phase,
            correlation_id matches Some(id) ==> final(self)@.cancellable == old(self)@.cancellable.insert(id)
                && r.1 is None,
            correlation_id is None ==> final(self)@.cancellable == old(self)@.cancellable && r.1 is Some,
            correlation_id matches Some(id) ==> r.0.is_paired_with(&final(self).spec_guard(id)),
            r.1 matches Some(g) ==> r.0.is_paired_with(&g),
            forall|j: u64|
                old(self)@.cancellable.contains(j) && correlation_id != Some(j) ==> #[trigger] final(self).spec_guard(j)
                    == old(self).spec_guard(j),
    {
        let (token, guard) = CancellationToken::new();
        match correlation_id {
            Some(id) => {
                self.guards.insert(id, guard);
                (token, None)
            },
            None => (token, Some(guard)),
        }
    }

    /// Handle a cancel request: drops the guard of the command with this
    /// correlation ID (`old(self).spec_guard(id)`, the one paired with the
    /// token its handler holds), which fires that token. Every other guard
    /// stays. Returns whether such a command was in flight.
    pub fn cancel(&mut self, id: u64) -> (r: bool)
        ensures
            r == old(self)@.cancellable.contains(id),
            final(self)@.cancellable == old(self)@.cancellable.remove(id),
            final(self)@.phase == old(self)@.phase,
            forall|j: u64|
                old(self)@.cancellable.contains(j) && j != id ==> #[trigger] final(self).spec_guard(j)
                    == old(self).spec_guard(j),
    {
        // The removed guard is dropped here, which fires the command's token.
        let removed = self.guards.remove(&id);
        removed.is_some()
    }

    /// The handler of a command returned: its guard is released.
    pub fn end_command(&mut self, correlation_id: Option<u64>)
        ensures
            final(self)@.phase == old(self)@.phase,
            correlation_id matches Some(id) ==> final(self)@.cancellable == old(self)@.cancellable.remove(id),
            correlation_id is None ==> final(self)@.cancellable == old(self)@.cancellable,
            forall|j: u64|
                old(self)@.cancellable.contains(j) && correlation_id != Some(j) ==> #[trigger] final(self).spec_guard(j)
                    == old(self).spec_guard(j),
    {
        if let Some(id) = correlation_id {
            let _ = self.cancel(id);
        }
    }
}

/// A cancel request that arrives after its command completed does nothing:
/// the completed command is no longer cancellable.
pub proof fn lemma_cancel_after_completion_is_noop(s: DispatcherView, id: u64)
    ensures
        !s.cancellable.remove(id).contains(id),
        s.cancellable.remove(id).remove(id) == s.cancellable.remove(id),
{
    assert(s.cancellable.remove(id).remove(id) =~= s.cancellable.remove(id));
}

/// In the command loop, every message with a payload is a command carrying
/// exactly the message's own correlation ID (so its first reply resolves that
/// call and a cancel request for that ID reaches it); a message without a
/// payload is a cancel request for its ID, or ignored if it has none. After
/// the loop stops, every message is ignored.
pub proof fn lemma_running_classification(c: Option<u64>, id: u64, payload_present: bool)
    ensures
        spec_classify(Phase::Running, c, true) == (Inbound::Command { correlation_id: c, bytes: None }),
        spec_classify(Phase::Running, Some(id), false) == Inbound::Cancel(id),
        spec_classify(Phase::Running, None, false) == Inbound::Ignore,
        spec_classify(Phase::Stopped, c, payload_present) == Inbound::Ignore,
{
}

/// The first message is always the init payload: whatever it holds, it is
/// never taken for a command or a cancel request.
pub proof fn lemma_first_message_is_init(correlation_id: Option<u64>, payload_present: bool)
    ensures
        spec_classify(Phase::AwaitingInit, correlation_id, payload_present) == Inbound::Init,
{
}

/// In the command loop, a message with a correlation ID and no payload is a
/// cancel request for exactly that ID, and a message with a payload is a command.
pub proof fn lemma_null_payload_cancels(id: u64, correlation_id: Option<u64>)
    ensures
        spec_classify(Phase::Running, Some(id), false) == Inbound::Cancel(id),
        spec_classify(Phase::Running, correlation_id, true) is Command,
{
}

} // verus!
