use std::collections::HashMap;

use wasm_actor_bridge::builder::{SupervisorBuilder, DEFAULT_EVT_CAPACITY};
use wasm_actor_bridge::call::{take_ready, CallPoll, CallTracker, Received};
use wasm_actor_bridge::dispatch::{Dispatcher, Inbound, Phase};
use wasm_actor_bridge::pool::{RoutingStrategy, WorkerPool};
use wasm_actor_bridge::registry::{CallRegistry, Route};
use wasm_actor_bridge::wire::{decode_header, frame, Slot, WireHeader};
use wasm_actor_bridge::worker_error::{classify_lowered, classify_worker_error};
use wasm_actor_bridge::context::ReplyLog;
use wasm_actor_bridge::{BridgeError, Context};

// ── Error messages ──────────────────────────────────────────

#[test]
fn every_error_message_is_exact() {
    assert_eq!(BridgeError::Spawn("x".into()).to_string(), "worker spawn failed: x");
    assert_eq!(BridgeError::Serialisation("x".into()).to_string(), "serialisation failed: x");
    assert_eq!(BridgeError::PostMessage("x".into()).to_string(), "postMessage failed: x");
    assert_eq!(BridgeError::WorkerError("x".into()).to_string(), "worker script error: x");
    assert_eq!(BridgeError::ChannelFull.to_string(), "command channel full");
    assert_eq!(BridgeError::InvalidConfig("x".into()).to_string(), "invalid configuration: x");
}

#[test]
fn no_error_is_crash_and_permanent() {
    let all = vec![
        BridgeError::Spawn("a".into()),
        BridgeError::Serialisation("a".into()),
        BridgeError::PostMessage("a".into()),
        BridgeError::WorkerError("a".into()),
        BridgeError::WorkerCrashed,
        BridgeError::Terminated,
        BridgeError::ChannelClosed,
        BridgeError::ChannelFull,
        BridgeError::InvalidConfig("a".into()),
    ];
    for e in &all {
        assert!(!(e.is_crash() && e.is_permanent()));
    }
}

// ── Worker error classification ─────────────────────────────

#[test]
fn empty_error_message_is_crash() {
    assert!(matches!(classify_worker_error(""), BridgeError::WorkerCrashed));
}

#[test]
fn crash_patterns_are_crashes() {
    assert!(matches!(classify_worker_error("RuntimeError: unreachable executed"), BridgeError::WorkerCrashed));
    assert!(matches!(classify_worker_error("Maximum call stack size exceeded"), BridgeError::WorkerCrashed));
    assert!(matches!(classify_worker_error("too much recursion"), BridgeError::WorkerCrashed));
    assert!(matches!(classify_worker_error("memory access out of bounds"), BridgeError::WorkerCrashed));
}

#[test]
fn classification_lowercases_the_message() {
    // Only the lower-case form holds the pattern.
    assert!(matches!(classify_worker_error("OUT OF MEMORY"), BridgeError::WorkerCrashed));
    // The same check on the raw message finds nothing.
    assert!(matches!(classify_lowered("OUT OF MEMORY", "OUT OF MEMORY"), BridgeError::WorkerError(_)));
}

#[test]
fn script_error_keeps_message() {
    match classify_worker_error("SyntaxError: Unexpected token '<'") {
        BridgeError::WorkerError(m) => assert_eq!(m, "SyntaxError: Unexpected token '<'"),
        other => panic!("unexpected {other:?}"),
    }
}

#[test]
fn pattern_at_end_of_message_is_found() {
    assert!(matches!(classify_lowered("x", "a call stack"), BridgeError::WorkerCrashed));
    assert!(matches!(classify_lowered("x", "call stac"), BridgeError::WorkerError(_)));
}

// ── Wire header ─────────────────────────────────────────────

#[test]
fn frame_then_decode_round_trips() {
    let (id_slot, bytes_slot) = frame(Some(7), Some(vec![1, 2]));
    let h = decode_header(Some((id_slot, bytes_slot))).expect("decodes");
    assert_eq!(h.correlation_id, Some(7));
    assert_eq!(h.bytes, Some(vec![1, 2]));

    let (id_slot, bytes_slot) = frame(None, None);
    assert!(matches!(id_slot, Slot::Absent));
    assert!(matches!(bytes_slot, Slot::Absent));
    let h = decode_header(Some((id_slot, bytes_slot))).expect("decodes");
    assert_eq!(h.correlation_id, None);
    assert_eq!(h.bytes, None);
}

#[test]
fn decode_errors() {
    match decode_header(None) {
        Err(BridgeError::Serialisation(m)) => assert_eq!(m, "expected JS Array"),
        _ => panic!("expected error"),
    }
    match decode_header(Some((Slot::Malformed, Slot::Malformed))) {
        Err(BridgeError::Serialisation(m)) => assert_eq!(m, "correlation_id not a number"),
        _ => panic!("expected error"),
    }
    match decode_header(Some((Slot::Present(1), Slot::Malformed))) {
        Err(BridgeError::Serialisation(m)) => assert_eq!(m, "expected Uint8Array"),
        _ => panic!("expected error"),
    }
}

// ── Call registry ───────────────────────────────────────────

#[test]
fn response_completes_its_call_once() {
    let mut reg: CallRegistry<&str> = CallRegistry::new();
    let a = reg.register("a");
    let b = reg.register("b");
    assert_eq!((a, b), (0, 1));
    assert!(matches!(reg.route(Some(b)), Route::Response(1, Some("b"))));
    assert!(matches!(reg.route(Some(b)), Route::Response(1, None)));
    assert!(matches!(reg.route(None), Route::Event));
    assert_eq!(reg.take_pending(a), Some("a"));
    assert_eq!(reg.take_pending(a), None);
}

#[test]
fn terminate_drains_once_and_refuses_later() {
    let mut reg: CallRegistry<u8> = CallRegistry::new();
    reg.register(10);
    reg.register(20);
    assert!(reg.ensure_open().is_ok());
    let drained = reg.terminate().expect("first terminate drains");
    let mut values: Vec<u8> = drained.into_values().collect();
    values.sort();
    assert_eq!(values, vec![10, 20]);
    assert!(reg.is_terminated());
    assert!(reg.terminate().is_none());
    assert!(matches!(reg.ensure_open(), Err(BridgeError::Terminated)));
    assert!(matches!(reg.route(Some(0)), Route::Response(0, None)));
}

#[test]
fn close_reports_whether_worker_must_stop() {
    let mut reg: CallRegistry<u8> = CallRegistry::new();
    reg.register(1);
    let (was_open, drained) = reg.close();
    assert!(was_open);
    assert_eq!(drained, HashMap::from([(0u64, 1u8)]));
    let (was_open, drained) = reg.close();
    assert!(!was_open);
    assert!(drained.is_empty());
}

// ── Call tracker ────────────────────────────────────────────

#[test]
fn resolved_call_does_not_cancel() {
    let mut t = CallTracker::armed(5);
    assert!(matches!(t.settle::<u8>(Received::Waiting), CallPoll::Pending));
    assert_eq!(t.correlation_id(), Some(5));
    assert!(matches!(t.settle(Received::Response(3u8)), CallPoll::Ready(Ok(3))));
    assert_eq!(t.disarm(), None);
}

#[test]
fn dropped_unresolved_call_cancels_its_id() {
    let mut t = CallTracker::armed(9);
    assert_eq!(t.disarm(), Some(9));
    assert_eq!(t.disarm(), None);
}

#[test]
fn dropped_sender_resolves_to_channel_closed() {
    let mut t = CallTracker::armed(1);
    assert!(matches!(t.settle::<u8>(Received::Dropped), CallPoll::Ready(Err(BridgeError::ChannelClosed))));
    let mut t = CallTracker::armed(2);
    assert!(matches!(
        t.settle::<u8>(Received::Rejected(BridgeError::Terminated)),
        CallPoll::Ready(Err(BridgeError::Terminated))
    ));
    assert_eq!(CallTracker::settled().correlation_id(), None);
}

#[test]
fn ready_result_is_taken_once() {
    let mut slot: Option<Result<u8, BridgeError>> = Some(Err(BridgeError::Terminated));
    assert!(matches!(take_ready(&mut slot), Err(BridgeError::Terminated)));
    assert!(matches!(take_ready(&mut slot), Err(BridgeError::ChannelClosed)));
}

// ── Dispatcher ──────────────────────────────────────────────

fn header(id: Option<u64>) -> WireHeader {
    WireHeader { correlation_id: id, bytes: None }
}

#[test]
fn first_message_is_init() {
    let d = Dispatcher::new();
    assert_eq!(d.phase(), Phase::AwaitingInit);
    assert!(matches!(d.classify(header(Some(3)), false), Inbound::Init));
    assert!(matches!(d.classify(header(None), true), Inbound::Init));
}

#[test]
fn failed_init_stops_the_loop() {
    let mut d = Dispatcher::new();
    d.finish_init(false);
    assert_eq!(d.phase(), Phase::Stopped);
    assert!(matches!(d.classify(header(None), true), Inbound::Ignore));
}

#[test]
fn cancel_message_fires_only_its_command() {
    let mut d = Dispatcher::new();
    d.finish_init(true);
    assert!(matches!(d.classify(header(Some(4)), false), Inbound::Cancel(4)));
    assert!(matches!(d.classify(header(None), false), Inbound::Ignore));
    let cmd = d.classify(WireHeader { correlation_id: Some(4), bytes: Some(vec![1]) }, true);
    match cmd {
        Inbound::Command { correlation_id, bytes } => {
            assert_eq!(correlation_id, Some(4));
            assert_eq!(bytes, Some(vec![1]));
        }
        _ => panic!("expected a command"),
    }
    let (t4, held4) = d.begin_command(Some(4));
    assert!(held4.is_none());
    let (t5, held5) = d.begin_command(Some(5));
    assert!(held5.is_none());
    assert!(!t4.is_cancelled());
    assert!(d.cancel(4));
    assert!(t4.is_cancelled());
    assert!(!t5.is_cancelled());
    assert!(!d.cancel(4));
    d.end_command(Some(5));
    assert!(!d.cancel(5));
}

#[test]
fn fire_and_forget_guard_is_held_by_caller() {
    let mut d = Dispatcher::new();
    d.finish_init(true);
    let (token, guard) = d.begin_command(None);
    assert!(!token.is_cancelled());
    drop(guard);
    assert!(token.is_cancelled());
    d.stop();
    assert_eq!(d.phase(), Phase::Stopped);
}

// ── Worker pool ─────────────────────────────────────────────

#[test]
fn round_robin_wraps_around() {
    let mut pool = WorkerPool::new(vec!["a", "b"], RoutingStrategy::RoundRobin);
    assert_eq!(pool.size(), 2);
    assert_eq!(*pool.next_worker(), "a");
    assert_eq!(*pool.next_worker(), "b");
    assert_eq!(*pool.next_worker(), "a");
    assert_eq!(pool.pick(), 1);
    assert_eq!(*pool.worker(1), "b");
}

#[test]
fn pinned_always_first() {
    let mut pool = WorkerPool::new(vec![1, 2, 3], RoutingStrategy::Pinned);
    for _ in 0..5 {
        assert_eq!(pool.pick(), 0);
    }
    assert_eq!(pool.workers(), &[1, 2, 3]);
    assert_eq!(pool.strategy(), RoutingStrategy::Pinned);
}

#[test]
fn round_robin_three_workers_each_get_one_of_three() {
    let mut pool = WorkerPool::new(vec![0, 1, 2], RoutingStrategy::RoundRobin);
    let mut seen = vec![pool.pick(), pool.pick(), pool.pick()];
    seen.sort();
    assert_eq!(seen, vec![0, 1, 2]);
}

// ── Builder ─────────────────────────────────────────────────

#[test]
fn builder_defaults_and_validation() {
    let b = SupervisorBuilder::<u8, u8, u8>::new("/worker.js");
    match b.into_config() {
        Err(BridgeError::InvalidConfig(m)) => assert_eq!(m, "init payload is required"),
        _ => panic!("missing init must be refused"),
    }
    let b = SupervisorBuilder::<u8, u8, u8>::new("/worker.js").init(7).evt_capacity(0);
    match b.into_config() {
        Err(BridgeError::InvalidConfig(m)) => assert_eq!(m, "evt_capacity must be > 0"),
        _ => panic!("zero capacity must be refused"),
    }
    let cfg = SupervisorBuilder::<u8, u8, u8>::new("/w.js").init(7).into_config().expect("valid");
    assert_eq!(cfg.script_url, "/w.js");
    assert_eq!(cfg.evt_capacity, DEFAULT_EVT_CAPACITY);
    assert_eq!(cfg.evt_capacity, 16);
    assert_eq!(cfg.init, 7);
    let cfg = SupervisorBuilder::<u8, u8, u8>::new("/w.js").evt_capacity(32).init(1).into_config().expect("valid");
    assert_eq!(cfg.evt_capacity, 32);
}

// ── Context routing ─────────────────────────────────────────

#[test]
fn only_first_reply_carries_correlation() {
    let ctx = Context::<u8>::with_correlation(Some(11), Some(vec![9]));
    assert_eq!(ctx.correlation_id(), Some(11));
    ctx.respond(1);
    ctx.clone().respond_bytes(2, vec![3]);
    ctx.reply(4);
    assert_eq!(ctx.reply_count(), 3);
    let (replies, first) = ctx.drain_replies();
    assert!(first);
    assert_eq!(replies.len(), 3);
    assert_eq!(replies[0].correlation_id, Some(11));
    assert_eq!(replies[1].correlation_id, None);
    assert_eq!(replies[1].bytes, Some(vec![3]));
    assert_eq!(replies[2].correlation_id, None);
    ctx.reply_with_bytes(5, vec![]);
    let (later, first) = ctx.drain_replies();
    assert!(!first);
    assert_eq!(later[0].correlation_id, None);
    assert_eq!(ctx.response_count(), 0);
}

#[test]
fn take_responses_drains_in_order() {
    let ctx = Context::<&str>::new(None);
    ctx.respond("a");
    ctx.respond("b");
    assert_eq!(ctx.replies().len(), 2);
    let taken = ctx.take_responses();
    assert_eq!(taken.iter().map(|e| e.payload).collect::<Vec<_>>(), vec!["a", "b"]);
    assert_eq!(ctx.response_count(), 0);
}

#[test]
fn cancelled_future_ready_after_cancel() {
    let (token, guard) = wasm_actor_bridge::CancellationToken::new();
    let fut = token.cancelled();
    assert!(!fut.is_ready());
    drop(guard);
    assert!(fut.is_ready());
}

#[test]
fn reply_log_routes_first_reply_only() {
    let mut log: ReplyLog<u8> = ReplyLog::new();
    log.record(Some(3), 1, None);
    log.record(Some(3), 2, Some(vec![5]));
    let drained = log.drain();
    assert_eq!(drained.len(), 2);
    assert_eq!(drained[0].correlation_id, Some(3));
    assert_eq!(drained[0].payload, 1);
    assert_eq!(drained[1].correlation_id, None);
    assert_eq!(drained[1].bytes, Some(vec![5]));
    log.record(Some(3), 9, None);
    assert_eq!(log.drain()[0].correlation_id, None);
}

#[test]
fn open_call_refused_after_terminate() {
    let mut reg: CallRegistry<u8> = CallRegistry::new();
    assert_eq!(reg.open_call(1).ok(), Some(0));
    assert_eq!(reg.open_call(2).ok(), Some(1));
    let _ = reg.terminate();
    assert!(matches!(reg.open_call(3), Err(BridgeError::Terminated)));
    assert_eq!(reg.take_pending(2), None);
}

#[test]
fn many_calls_get_sequential_distinct_ids() {
    let mut reg: CallRegistry<u32> = CallRegistry::new();
    let ids: Vec<u64> = (0..5u32).map(|c| reg.open_call(c * 10).expect("open")).collect();
    assert_eq!(ids, vec![0, 1, 2, 3, 4]);
    for (i, id) in ids.iter().enumerate() {
        assert_eq!(reg.take_pending(*id), Some(i as u32 * 10));
    }
}

#[test]
fn repeated_terminate_then_close_stops_worker_once() {
    let mut reg: CallRegistry<u8> = CallRegistry::new();
    reg.open_call(1).expect("open");
    reg.open_call(2).expect("open");
    let mut stops = 0;
    let mut rejected = 0;
    for _ in 0..3 {
        if let Some(m) = reg.terminate() {
            stops += 1;
            rejected += m.len();
        }
    }
    let (was_open, rest) = reg.close();
    if was_open {
        stops += 1;
    }
    rejected += rest.len();
    assert_eq!(stops, 1);
    assert_eq!(rejected, 2);
}

#[test]
fn begin_command_token_is_fired_by_its_own_cancel() {
    let mut d = Dispatcher::new();
    d.finish_init(true);
    let (a, _) = d.begin_command(Some(1));
    let (b, _) = d.begin_command(Some(2));
    d.end_command(Some(2));
    assert!(b.is_cancelled());
    assert!(!a.is_cancelled());
    assert!(d.cancel(1));
    assert!(a.is_cancelled());
}

#[test]
fn drain_before_any_reply_is_not_first() {
    let ctx = Context::<u8>::with_correlation(Some(2), None);
    let (none, first) = ctx.drain_replies();
    assert!(none.is_empty());
    assert!(!first);
    ctx.respond(1);
    let (one, first) = ctx.drain_replies();
    assert!(first);
    assert_eq!(one[0].correlation_id, Some(2));
}

#[test]
fn context_is_shared_while_a_clone_lives() {
    let ctx = Context::<u8>::new(None);
    assert!(!ctx.is_shared());
    let other = ctx.clone();
    assert!(ctx.is_shared());
    drop(other);
    assert!(!ctx.is_shared());
}
