//! Typed Web Worker bridge: the verified core.
//!
//! This crate holds the decision logic of a main-thread supervisor and a
//! worker-side actor loop: error classification, the wire header format,
//! correlation of RPC calls and responses, cancellation bookkeeping,
//! reply routing, builder validation and worker-pool routing.

pub mod builder;
pub mod call;
pub mod cancel;
pub mod context;
pub mod dispatch;
pub mod error;
pub mod message;
pub mod pool;
pub mod registry;
pub mod wire;
pub mod worker_error;

pub use builder::{SpawnConfig, SupervisorBuilder, DEFAULT_EVT_CAPACITY};
pub use call::{CallPoll, CallTracker, Received};
pub use cancel::{CancelGuard, CancellationToken, CancelledFuture};
pub use context::Context;
pub use dispatch::{Dispatcher, Inbound, Phase};
pub use error::BridgeError;
pub use message::WorkerEvent;
pub use pool::{RoutingStrategy, WorkerPool};
pub use registry::{CallRegistry, Route};
pub use wire::{Slot, WireHeader};
