//! Cooperative cancellation: a token that handlers poll, and a guard whose
//! drop requests cancellation.

use std::sync::Arc;
use std::sync::atomic::{AtomicBool, Ordering};
use vstd::prelude::*;

verus! {

/// A cancellation token that can be checked synchronously.
///
/// Clones share one flag with each other and with the `CancelGuard` made
/// alongside it by `CancellationToken::new`.
pub struct CancellationToken {
    cancelled: Arc<AtomicBool>,
}

/// Dropping the guard cancels the associated token.
pub struct CancelGuard {
    cancelled: Arc<AtomicBool>,
}

/// A wait for a token's cancellation: ready once the token is cancelled.
pub struct CancelledFuture {
    token: CancellationToken,
}

/// Raises a shared cancellation flag.
///
/// Trusted: calls `AtomicBool::store(true, Ordering::Release)`; claims that the
/// store neither unwinds nor opens an invariant (std documents a panic only for
/// the `Acquire` and `AcqRel` orderings).
#[verifier::external_body]
fn raise_flag(flag: &AtomicBool)
    opens_invariants none
    no_unwind
{
    flag.store(true, Ordering::Release)
}

impl CancellationToken {
    /// Whether this token reads the flag that `guard` raises when dropped.
    pub closed spec fn is_paired_with(&self, guard: &CancelGuard) -> bool {
        self.cancelled == guard.cancelled
    }

    /// Whether two tokens read one flag.
    pub closed spec fn shares_flag(&self, other: &CancellationToken) -> bool {
        self.cancelled == other.cancelled
    }

    /// Create a new token/guard pair. The guard cancels the token when dropped.
    pub fn new() -> (r: (CancellationToken, CancelGuard))
        ensures
            r.0.is_paired_with(&r.1),
    {
        let cancelled = Arc::new(AtomicBool::new(false));
        let guard_flag = cancelled.clone();
        (CancellationToken { cancelled }, CancelGuard { cancelled: guard_flag })
    }

    /// Check if cancellation has been requested.
    pub fn is_cancelled(&self) -> (r: bool) {
        self.cancelled.load(Ordering::Acquire)
    }

    /// Returns a waiter that completes once cancellation is requested.
    pub fn cancelled(&self) -> (r: CancelledFuture)
        ensures
            r.spec_token().shares_flag(self),
    {
        CancelledFuture { token: self.clone() }
    }
}

impl Clone for CancellationToken {
    /// A clone reads the same flag.
    fn clone(&self) -> (r: Self)
        ensures
            r.shares_flag(self),
    {
        CancellationToken { cancelled: Arc::clone(&self.cancelled) }
    }
}

impl CancelledFuture {
    /// The token this waiter watches.
    pub closed spec fn spec_token(&self) -> CancellationToken {
        self.token
    }

    /// True once the token has been cancelled: a poll of the waiter is then ready.
    pub fn is_ready(&self) -> (r: bool) {
        self.token.is_cancelled()
    }
}

impl Drop for CancelGuard {
    fn drop(&mut self)
        opens_invariants none
        no_unwind
    {
        raise_flag(&self.cancelled);
    }
}

} // verus!
