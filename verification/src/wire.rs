//! The wire header exchanged between the main thread and a worker.
//!
//! Each message is a three-slot array: slot 0 holds the correlation ID (a
//! number for RPC traffic, null for fire-and-forget), slot 1 the typed
//! message, slot 2 a transferred byte buffer or null. The runtime reads the
//! JS slots into `Slot` values; this module decides what they mean.

use vstd::prelude::*;

use crate::error::BridgeError;

verus! {

/// One wire slot as read from the JS array.
pub enum Slot<T> {
    /// `null` or `undefined`.
    Absent,
    /// A value of the expected kind.
    Present(T),
    /// A value of another kind.
    Malformed,
}

/// The decoded header of a wire message.
pub struct WireHeader {
    /// Correlation ID of an RPC request or response.
    pub correlation_id: Option<u64>,
    /// Binary sidecar.
    pub bytes: Option<Vec<u8>>,
}

/// The byte slot seen through the view of its buffer.
pub open spec fn bytes_slot_view(s: Slot<Vec<u8>>) -> Slot<Seq<u8>> {
    match s {
        Slot::Absent => Slot::Absent,
        Slot::Present(b) => Slot::Present(b@),
        Slot::Malformed => Slot::Malformed,
    }
}

/// An optional buffer seen through its view.
pub open spec fn opt_bytes_view(b: Option<Vec<u8>>) -> Option<Seq<u8>> {
    match b {
        Some(v) => Some(v@),
        None => None,
    }
}

/// The slots a sender writes for a header.
pub open spec fn spec_frame(correlation_id: Option<u64>, bytes: Option<Seq<u8>>) -> (Slot<u64>, Slot<Seq<u8>>) {
    (
        match correlation_id {
            Some(id) => Slot::Present(id),
            None => Slot::Absent,
        },
        match bytes {
            Some(b) => Slot::Present(b),
            None => Slot::Absent,
        },
    )
}

/// The header a receiver reads from the slots of a message (`None` when the
/// message is not a three-slot array or a slot holds a value of the wrong kind).
pub open spec fn spec_decode(slots: Option<(Slot<u64>, Slot<Seq<u8>>)>) -> Option<(Option<u64>, Option<Seq<u8>>)> {
    match slots {
        None => None,
        Some((id_slot, bytes_slot)) => match (id_slot, bytes_slot) {
            (Slot::Malformed, _) => None,
            (_, Slot::Malformed) => None,
            (id_slot, bytes_slot) => Some((
                match id_slot { Slot::Present(id) => Some(id), _ => None },
                match bytes_slot { Slot::Present(b) => Some(b), _ => None },
            )),
        },
    }
}

/// The slots to write for a message with this correlation ID and sidecar.
/// The buffer is transferred exactly when the byte slot is `Present`.
pub fn frame(correlation_id: Option<u64>, bytes: Option<Vec<u8>>) -> (r: (Slot<u64>, Slot<Vec<u8>>))
    ensures
        (r.0, bytes_slot_view(r.1)) == spec_frame(correlation_id, opt_bytes_view(bytes)),
{
    let id_slot = match correlation_id {
        Some(id) => Slot::Present(id),
        None => Slot::Absent,
    };
    let bytes_slot = match bytes {
        Some(b) => Slot::Present(b),
        None => Slot::Absent,
    };
    (id_slot, bytes_slot)
}

/// Decode the header of a received message from its slots (`None` when the
/// message data is not an array).
pub fn decode_header(slots: Option<(Slot<u64>, Slot<Vec<u8>>)>) -> (r: Result<WireHeader, BridgeError>)
    ensures
        match spec_decode(match slots { Some((i, b)) => Some((i, bytes_slot_view(b))), None => None }) {
            Some((id, b)) => r matches Ok(h) && h.correlation_id == id && opt_bytes_view(h.bytes) == b,
            None => r is Err,
        },
        slots is None ==> (r matches Err(BridgeError::Serialisation(m)) && m@ == "expected JS Array"@),
        slots matches Some((Slot::Malformed, _)) ==> (r matches Err(BridgeError::Serialisation(m))
            && m@ == "correlation_id not a number"@),
        (slots matches Some((i, Slot::Malformed)) && !(i is Malformed)) ==> (r matches Err(
            BridgeError::Serialisation(m),
        ) && m@ == "expected Uint8Array"@),
{
    match slots {
        None => Err(BridgeError::Serialisation(String::from_str("expected JS Array"))),
        Some((id_slot, bytes_slot)) => {
            let correlation_id = match id_slot {
                Slot::Absent => None,
                Slot::Present(id) => Some(id),
                Slot::Malformed => {
                    return Err(BridgeError::Serialisation(String::from_str("correlation_id not a number")));
                },
            };
            let bytes = match bytes_slot {
                Slot::Absent => None,
                Slot::Present(b) => Some(b),
                Slot::Malformed => {
                    return Err(BridgeError::Serialisation(String::from_str("expected Uint8Array")));
                },
            };
            Ok(WireHeader { correlation_id, bytes })
        },
    }
}

/// What a receiver decodes is what the sender framed.
pub proof fn lemma_decode_inverts_frame(correlation_id: Option<u64>, bytes: Option<Seq<u8>>)
    ensures
        spec_decode(Some(spec_frame(correlation_id, bytes))) == Some((correlation_id, bytes)),
{
}

} // verus!
