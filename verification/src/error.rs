//! Errors of the bridge and their classification.

use vstd::prelude::*;
use vstd::string::*;

verus! {

/// Errors from the worker bridge.
#[derive(Debug, Clone)]
pub enum BridgeError {
    /// `Worker::new()` failed (invalid script URL, CSP, etc.).
    Spawn(String),
    /// Serialisation of a command or event failed.
    Serialisation(String),
    /// `postMessage` rejected by the browser.
    PostMessage(String),
    /// Script-level error (wrong URL, CSP, syntax error in worker script).
    /// Not automatically recoverable: the script itself is broken.
    WorkerError(String),
    /// Worker process crashed (WASM panic, OOM, unreachable trap).
    /// A supervisor should attempt respawn.
    WorkerCrashed,
    /// The worker handle has been terminated.
    Terminated,
    /// The event channel has been closed (receiver dropped).
    ChannelClosed,
    /// The command channel is full: the worker cannot accept more commands.
    ChannelFull,
    /// Builder configuration is invalid.
    InvalidConfig(String),
}

impl BridgeError {
    /// The worker died unexpectedly and a respawn may succeed.
    pub open spec fn spec_is_crash(self) -> bool {
        self is WorkerCrashed
    }

    /// Respawning will not help.
    pub open spec fn spec_is_permanent(self) -> bool {
        self is Spawn || self is WorkerError || self is InvalidConfig
    }

    /// The human-readable message of the error.
    pub open spec fn spec_message(self) -> Seq<char> {
        match self {
            BridgeError::Spawn(s) => "worker spawn failed: "@ + s@,
            BridgeError::Serialisation(s) => "serialisation failed: "@ + s@,
            BridgeError::PostMessage(s) => "postMessage failed: "@ + s@,
            BridgeError::WorkerError(s) => "worker script error: "@ + s@,
            BridgeError::WorkerCrashed => "worker crashed"@,
            BridgeError::Terminated => "bridge terminated"@,
            BridgeError::ChannelClosed => "event channel closed"@,
            BridgeError::ChannelFull => "command channel full"@,
            BridgeError::InvalidConfig(s) => "invalid configuration: "@ + s@,
        }
    }

    /// True if the error indicates the worker process died unexpectedly
    /// and respawn may succeed.
    pub fn is_crash(&self) -> (r: bool)
        ensures
            r == self.spec_is_crash(),
    {
        match self {
            BridgeError::WorkerCrashed => true,
            _ => false,
        }
    }

    /// True if the error is permanent and respawn will not help.
    pub fn is_permanent(&self) -> (r: bool)
        ensures
            r == self.spec_is_permanent(),
    {
        match self {
            BridgeError::Spawn(_) | BridgeError::WorkerError(_) | BridgeError::InvalidConfig(_) => true,
            _ => false,
        }
    }

    /// The error's message, as its `Display` form would print it.
    pub fn to_string(&self) -> (r: String)
        ensures
            r@ == self.spec_message(),
    {
        match self {
            BridgeError::Spawn(s) => String::from_str("worker spawn failed: ").concat(s.as_str()),
            BridgeError::Serialisation(s) => String::from_str("serialisation failed: ").concat(s.as_str()),
            BridgeError::PostMessage(s) => String::from_str("postMessage failed: ").concat(s.as_str()),
            BridgeError::WorkerError(s) => String::from_str("worker script error: ").concat(s.as_str()),
            BridgeError::WorkerCrashed => String::from_str("worker crashed"),
            BridgeError::Terminated => String::from_str("bridge terminated"),
            BridgeError::ChannelClosed => String::from_str("event channel closed"),
            BridgeError::ChannelFull => String::from_str("command channel full"),
            BridgeError::InvalidConfig(s) => String::from_str("invalid configuration: ").concat(s.as_str()),
        }
    }
}

/// No error is both a crash (respawn may help) and permanent (respawn will not help).
pub proof fn lemma_crash_excludes_permanent(e: BridgeError)
    ensures
        !(e.spec_is_crash() && e.spec_is_permanent()),
{
}

/// Which errors are crashes and which are permanent: only a worker crash is a
/// crash; spawn failures, script errors and invalid configuration are
/// permanent; serialisation and postMessage failures, termination, a closed
/// or full channel, and a crash are not permanent.
pub proof fn lemma_classification_per_variant(s: String)
    ensures
        BridgeError::WorkerCrashed.spec_is_crash(),
        !BridgeError::Spawn(s).spec_is_crash(),
        !BridgeError::Serialisation(s).spec_is_crash(),
        !BridgeError::PostMessage(s).spec_is_crash(),
        !BridgeError::WorkerError(s).spec_is_crash(),
        !BridgeError::Terminated.spec_is_crash(),
        !BridgeError::ChannelClosed.spec_is_crash(),
        !BridgeError::ChannelFull.spec_is_crash(),
        !BridgeError::InvalidConfig(s).spec_is_crash(),
        BridgeError::Spawn(s).spec_is_permanent(),
        BridgeError::WorkerError(s).spec_is_permanent(),
        BridgeError::InvalidConfig(s).spec_is_permanent(),
        !BridgeError::Serialisation(s).spec_is_permanent(),
        !BridgeError::PostMessage(s).spec_is_permanent(),
        !BridgeError::WorkerCrashed.spec_is_permanent(),
        !BridgeError::Terminated.spec_is_permanent(),
        !BridgeError::ChannelClosed.spec_is_permanent(),
        !BridgeError::ChannelFull.spec_is_permanent(),
{
}

} // verus!
