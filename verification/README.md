# wasm-actor-bridge

Typed Web Worker bridge for Rust/WASM actor systems, with its decision logic
verified by Verus.

- `src/` — the verified core:
  - `error` — `BridgeError`, crash/permanent classification, messages;
  - `worker_error` — classification of a worker `ErrorEvent` message;
  - `wire` — the three-slot wire header (framing and decoding);
  - `registry` — correlation IDs, pending RPC calls, termination;
  - `call` — cancel-on-drop state of one RPC call;
  - `dispatch` — the worker-side two-phase loop and cancel guards;
  - `context` — the reply context and correlation of the first reply;
  - `cancel` — cancellation token and guard;
  - `pool` — round-robin / pinned routing over a pool of workers;
  - `builder` — supervisor configuration and its validation;
  - `message` — `WorkerEvent`.
- `app/` — the browser runtime around it: spawning workers (`web-sys`),
  JS message arrays (`js-sys`), serde payloads (`serde-wasm-bindgen`),
  channels and futures, the actor loop, and the `Display` form of errors.
- `tests/` — tests of the core, run natively.
