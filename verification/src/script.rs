//! Process-global one-time initialization of the scripting subsystem.
//!
//! The scripting runtime must be initialized exactly once per process, on a
//! single thread, strictly before the orchestrator spawns worker threads;
//! violating that order is a fatal startup error, so the contracts rule it
//! out.  After initialization the runtime is handed the service-worker
//! manager senders produced by the orchestrator.

use vstd::prelude::*;

verus! {

/// Channels over which the scripting subsystem reaches the service-worker
/// manager: the orchestrator's own manager sender and the resource-fetch
/// sender.
#[derive(Clone, Copy, PartialEq, Eq, Structural, Debug)]
pub struct SwSenders {
    pub swmanager_sender: u64,
    pub resource_sender: u64,
}

/// The per-process state of the scripting subsystem.
pub struct ScriptRuntime {
    initialized: bool,
    sw: Option<SwSenders>,
}

impl ScriptRuntime {
    /// Whether the one-time global initialization has run.
    pub closed spec fn initialized(&self) -> bool {
        self.initialized
    }

    /// The service-worker manager senders handed over after the orchestrator
    /// started, if any.
    pub closed spec fn sw_senders(&self) -> Option<SwSenders> {
        self.sw
    }

    /// Whether the service-worker machinery has its channels.
    pub open spec fn service_workers_ready(&self) -> bool {
        self.sw_senders() is Some
    }

    /// A freshly spawned process: nothing initialized yet.
    pub fn new() -> (r: ScriptRuntime)
        ensures
            !r.initialized(),
            !r.service_workers_ready(),
    {
        ScriptRuntime { initialized: false, sw: None }
    }

    /// Process-global one-time scripting initialization.  It must complete,
    /// single-threaded, before the orchestrator spawns worker threads, and
    /// running it twice is a fatal ordering violation, so a caller must hold
    /// an uninitialized runtime.
    pub fn init(&mut self)
        requires
            !old(self).initialized(),
        ensures
            final(self).initialized(),
            final(self).sw_senders() == old(self).sw_senders(),
    {
        self.initialized = true;
    }

    /// Hands the orchestrator's service-worker manager senders to the
    /// scripting subsystem's own initialization; meaningful only once the
    /// global initialization has run.
    pub fn init_service_workers(&mut self, senders: SwSenders)
        requires
            old(self).initialized(),
        ensures
            final(self).initialized(),
            final(self).sw_senders() == Some(senders),
    {
        self.sw = Some(senders);
    }

    pub fn is_initialized(&self) -> (r: bool)
        ensures
            r == self.initialized(),
    {
        self.initialized
    }

    pub fn has_service_workers(&self) -> (r: bool)
        ensures
            r == self.service_workers_ready(),
    {
        self.sw.is_some()
    }
}

} // verus!
