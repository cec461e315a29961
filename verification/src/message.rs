//! Core message types.

use vstd::prelude::*;

verus! {

/// An event received from a Web Worker.
///
/// Contains the deserialized payload and an optional binary sidecar
/// that was transferred zero-copy via `ArrayBuffer`.
#[derive(Debug, Clone)]
pub struct WorkerEvent<T> {
    /// The deserialized event payload.
    pub payload: T,
    /// Optional binary data transferred zero-copy.
    pub bytes: Option<Vec<u8>>,
}

} // verus!
