//! Builder for spawning a Web Worker with validated configuration.

use std::marker::PhantomData;
use vstd::prelude::*;

use crate::error::BridgeError;

verus! {

/// Event channel capacity used when none is configured.
pub const DEFAULT_EVT_CAPACITY: usize = 16;

/// Builder for spawning a typed Web Worker bridge.
///
/// Validates the configuration before the runtime spawns the worker; the
/// init payload is then sent as the first message to the worker, so the
/// dispatch loop receives it before any command.
pub struct SupervisorBuilder<'a, Cmd, Evt, Init> {
    script_url: &'a str,
    evt_capacity: usize,
    init: Option<Init>,
    _marker: PhantomData<(Cmd, Evt)>,
}

/// A validated spawn configuration.
pub struct SpawnConfig<'a, Init> {
    /// URL of the worker script.
    pub script_url: &'a str,
    /// Capacity of the bounded event channel (worker to main), at least 1.
    pub evt_capacity: usize,
    /// The init payload, sent first.
    pub init: Init,
}

impl<'a, Cmd, Evt, Init> SupervisorBuilder<'a, Cmd, Evt, Init> {
    /// The worker script URL.
    pub closed spec fn spec_script_url(&self) -> &'a str {
        self.script_url
    }

    /// The configured event channel capacity.
    pub closed spec fn spec_evt_capacity(&self) -> usize {
        self.evt_capacity
    }

    /// The configured init payload.
    pub closed spec fn spec_init(&self) -> Option<Init> {
        self.init
    }

    /// Create a new builder for the given worker script URL.
    ///
    /// Default event capacity is 16. Call `.evt_capacity()` to override.
    pub fn new(script_url: &'a str) -> (r: Self)
        ensures
            r.spec_script_url() == script_url,
            r.spec_evt_capacity() == DEFAULT_EVT_CAPACITY,
            r.spec_init() is None,
    {
        SupervisorBuilder { script_url, evt_capacity: DEFAULT_EVT_CAPACITY, init: None, _marker: PhantomData }
    }

    /// Set the bounded event channel capacity (worker to main).
    ///
    /// Must be > 0. Validated when the configuration is taken.
    pub fn evt_capacity(self, capacity: usize) -> (r: Self)
        ensures
            r.spec_script_url() == self.spec_script_url(),
            r.spec_evt_capacity() == capacity,
            r.spec_init() == self.spec_init(),
    {
        SupervisorBuilder { evt_capacity: capacity, ..self }
    }

    /// Set the init payload sent as the first message to the worker.
    pub fn init(self, init: Init) -> (r: Self)
        ensures
            r.spec_script_url() == self.spec_script_url(),
            r.spec_evt_capacity() == self.spec_evt_capacity(),
            r.spec_init() == Some(init),
    {
        SupervisorBuilder { init: Some(init), ..self }
    }

    /// Validate the configuration: the event capacity must be positive and the
    /// init payload must be set.
    pub fn into_config(self) -> (r: Result<SpawnConfig<'a, Init>, BridgeError>)
        ensures
            self.spec_evt_capacity() == 0 ==> (r matches Err(BridgeError::InvalidConfig(m))
                && m@ == "evt_capacity must be > 0"@),
            self.spec_evt_capacity() > 0 && self.spec_init() is None ==> (r matches Err(
                BridgeError::InvalidConfig(m),
            ) && m@ == "init payload is required"@),
            self.spec_evt_capacity() > 0 && self.spec_init() is Some ==> (r matches Ok(c)
                && c.script_url == self.spec_script_url()
                && c.evt_capacity == self.spec_evt_capacity()
                && Some(c.init) == self.spec_init()),
    {
        if self.evt_capacity == 0 {
            return Err(BridgeError::InvalidConfig(String::from_str("evt_capacity must be > 0")));
        }
        match self.init {
            None => Err(BridgeError::InvalidConfig(String::from_str("init payload is required"))),
            Some(init) => Ok(SpawnConfig { script_url: self.script_url, evt_capacity: self.evt_capacity, init }),
        }
    }
}

} // verus!
