//! Global configuration consumed by the composition root and delivered to
//! content processes: the option set parsed by the embedder, the embedder's
//! window capabilities, and preference snapshots.

use vstd::prelude::*;

verus! {

/// Global options, parsed from the command line by the embedder and handed
/// in as plain values.  Optional subsystems are selected here: a port that is
/// present means the matching listener is started.
pub struct Opts {
    /// Sampling period of the time telemetry collector, when enabled.
    pub time_profiling: Option<u64>,
    /// Reporting period of the memory telemetry collector, when enabled.
    pub mem_profiler_period: Option<u64>,
    /// Port of the optional debugger listener.
    pub debugger_port: Option<u16>,
    /// Port of the optional devtools listener.
    pub devtools_port: Option<u16>,
    /// Port of the optional remote-control listener.
    pub webdriver_port: Option<u16>,
    /// Whether content processes must run behind the process-isolation gate.
    pub sandbox: bool,
    /// Whether the VR subsystem is wired to the rendering backend.
    pub webvr_enabled: bool,
    /// Whether the rendering backend uses the software rasterizer.
    pub software_rendering: bool,
}

impl Default for Opts {
    /// The default option set: no telemetry, no optional listeners, no
    /// sandbox, hardware rendering.
    fn default() -> (r: Opts)
        ensures
            r.time_profiling is None,
            r.mem_profiler_period is None,
            r.debugger_port is None,
            r.devtools_port is None,
            r.webdriver_port is None,
            !r.sandbox,
            !r.webvr_enabled,
            !r.software_rendering,
    {
        Opts {
            time_profiling: None,
            mem_profiler_period: None,
            debugger_port: None,
            devtools_port: None,
            webdriver_port: None,
            sandbox: false,
            webvr_enabled: false,
            software_rendering: false,
        }
    }
}

/// One entry of a preference snapshot delivered to a content process.
pub struct Pref {
    pub key: String,
    pub enabled: bool,
}

/// The embedder's window capabilities, queried synchronously before startup
/// begins.
#[derive(Clone, Copy)]
pub struct WindowCaps {
    /// Width of the embedder's framebuffer, in device pixels.
    pub framebuffer_width: u32,
    /// Height of the embedder's framebuffer, in device pixels.
    pub framebuffer_height: u32,
    /// Whether the embedding window offers clipboard access.
    pub supports_clipboard: bool,
    /// The embedder's wake primitive, retained by the notification channel.
    pub waker: u64,
}

} // verus!
