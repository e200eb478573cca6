//! The composition root: the single entry point that provisions every
//! subsystem in strict order and yields the one engine handle.
//!
//! Startup order, each step feeding the next: prepare the embedder's
//! surface; create the notification channel, retaining the embedder's wake
//! primitive; start the time and memory telemetry collectors; start the
//! optional debugger and devtools listeners; initialize the rendering
//! backend with one logical surface sized to the embedder's framebuffer;
//! run the process-global one-time scripting initialization, single-threaded,
//! strictly before the orchestrator spawns worker threads; build the initial
//! engine state and start the orchestrator; hand the service-worker manager
//! senders to the scripting subsystem; start the optional remote-control
//! listener; construct the compositor.  Any failure aborts the whole
//! startup; no partial handle is ever exposed.

use vstd::prelude::*;

use crate::channel::{create_compositor_channel, CompositorProxy, NotificationChannel};
use crate::config::{Opts, WindowCaps};
use crate::log_sink::{set_logger, spec_max_filter, InstallError, LogFilter, LoggerRegistry};
use crate::script::{ScriptRuntime, SwSenders};

verus! {

/// A notification pumped to the compositor over the channel.
#[derive(Clone, Copy, PartialEq, Eq, Structural, Debug)]
pub enum CompositorMsg {
    /// A frame finished rendering and is ready to present.
    NewFrameReady,
    /// The page changed; a recomposite is needed.
    Recomposite,
    /// The orchestrator finished shutting down.
    ShutdownComplete,
}

/// An event the embedder feeds into the handle's pump.
#[derive(Clone, Copy, PartialEq, Eq, Structural, Debug)]
pub enum WindowEvent {
    Idle,
    Refresh,
    Quit,
}

/// Stop-control channel of the time telemetry collector.
#[derive(Clone, Copy)]
pub struct TimeProfilerChan {
    /// The sampling period the collector was started with, when enabled.
    pub period: Option<u64>,
}

/// Stop-control channel of the memory telemetry collector.
#[derive(Clone, Copy)]
pub struct MemProfilerChan {
    /// The reporting period the collector was started with, when enabled.
    pub period: Option<u64>,
}

/// The started debugger listener.
#[derive(Clone, Copy, PartialEq, Eq, Structural, Debug)]
pub struct DebuggerChan {
    pub port: u16,
}

/// The started devtools listener.
#[derive(Clone, Copy, PartialEq, Eq, Structural, Debug)]
pub struct DevtoolsChan {
    pub port: u16,
}

/// The started remote-control listener.
#[derive(Clone, Copy, PartialEq, Eq, Structural, Debug)]
pub struct WebdriverListener {
    pub port: u16,
}

/// The sender of the orchestrator's control channel.
#[derive(Clone, Copy, PartialEq, Eq, Structural, Debug)]
pub struct ConstellationChan {
    pub id: u64,
}

/// Starts the time telemetry collector as a background collector and
/// returns its stop-control channel.
pub fn create_time_profiler(period: Option<u64>) -> (r: TimeProfilerChan)
    ensures
        r.period == period,
{
    TimeProfilerChan { period }
}

/// Starts the memory telemetry collector as a background collector and
/// returns its stop-control channel.
pub fn create_mem_profiler(period: Option<u64>) -> (r: MemProfilerChan)
    ensures
        r.period == period,
{
    MemProfilerChan { period }
}

/// Starts the debugger listener on the configured port.
pub fn start_debugger(port: u16) -> (r: DebuggerChan)
    ensures
        r.port == port,
{
    DebuggerChan { port }
}

/// Starts the devtools listener on the configured port.
pub fn start_devtools(port: u16) -> (r: DevtoolsChan)
    ensures
        r.port == port,
{
    DevtoolsChan { port }
}

/// Starts the remote-control listener bound to the orchestrator's control
/// channel.
fn webdriver(port: u16, _constellation: ConstellationChan) -> (r: WebdriverListener)
    ensures
        r.port == port,
{
    WebdriverListener { port }
}

/// The GPU rendering backend, initialized synchronously with one logical
/// render surface sized to the embedder's framebuffer.
pub struct Renderer {
    document_width: u32,
    document_height: u32,
    software: bool,
    image_handler_wired: bool,
}

impl Renderer {
    /// Width of the backend's one logical render surface.
    pub closed spec fn document_width(&self) -> u32 {
        self.document_width
    }

    /// Height of the backend's one logical render surface.
    pub closed spec fn document_height(&self) -> u32 {
        self.document_height
    }

    /// Whether the software rasterizer was selected.
    pub closed spec fn software(&self) -> bool {
        self.software
    }

    /// Whether the external-image hook of the backend is wired to the WebGL
    /// threads.
    pub closed spec fn image_handler_wired(&self) -> bool {
        self.image_handler_wired
    }

    /// Initializes the backend (software or hardware, by configuration)
    /// with one logical render surface of the given size.
    pub fn new(software: bool, width: u32, height: u32) -> (r: Renderer)
        ensures
            r.document_width() == width,
            r.document_height() == height,
            r.software() == software,
            !r.image_handler_wired(),
    {
        Renderer { document_width: width, document_height: height, software, image_handler_wired: false }
    }

    /// Wires the backend's external-image hook to the WebGL threads'
    /// handler.
    pub fn set_external_image_handler(&mut self)
        ensures
            final(self).image_handler_wired(),
            final(self).document_width() == old(self).document_width(),
            final(self).document_height() == old(self).document_height(),
            final(self).software() == old(self).software(),
    {
        self.image_handler_wired = true;
    }

    pub fn surface_size(&self) -> (r: (u32, u32))
        ensures
            r.0 == self.document_width(),
            r.1 == self.document_height(),
    {
        (self.document_width, self.document_height)
    }

    pub fn is_software(&self) -> (r: bool)
        ensures
            r == self.software(),
    {
        self.software
    }
}

/// Everything needed to construct the orchestrator, built once and consumed
/// exactly once by the orchestrator's start.
pub struct InitialEngineState {
    pub compositor_proxy: CompositorProxy,
    pub debugger_chan: Option<DebuggerChan>,
    pub devtools_chan: Option<DevtoolsChan>,
    pub bluetooth_thread: u64,
    pub font_cache_thread: u64,
    pub public_resource_sender: u64,
    pub private_resource_sender: u64,
    pub time_profiler_chan: TimeProfilerChan,
    pub mem_profiler_chan: MemProfilerChan,
    pub supports_clipboard: bool,
    pub webgl_threads: u64,
    pub webvr_chan: Option<u64>,
}

/// Starts the orchestrator: builds its initial state — resource-fetch
/// threads, font cache, optional VR wired to the rendering backend's
/// external-image hook together with the WebGL threads, bluetooth access —
/// and hands it over, obtaining the control-channel sender and the
/// service-worker manager senders.  The one-time scripting initialization
/// must already have run, single-threaded, before this spawns worker
/// threads.  The state the orchestrator consumed is returned as a ghost
/// record of the wiring.
pub fn create_constellation(
    compositor_proxy: CompositorProxy,
    time_profiler_chan: TimeProfilerChan,
    mem_profiler_chan: MemProfilerChan,
    debugger_chan: Option<DebuggerChan>,
    devtools_chan: Option<DevtoolsChan>,
    supports_clipboard: bool,
    webrender: &mut Renderer,
    webvr_enabled: bool,
    rt: &ScriptRuntime,
) -> (r: (ConstellationChan, SwSenders, Ghost<InitialEngineState>))
    requires
        rt.initialized(),
    ensures
        final(webrender).image_handler_wired(),
        final(webrender).document_width() == old(webrender).document_width(),
        final(webrender).document_height() == old(webrender).document_height(),
        final(webrender).software() == old(webrender).software(),
        r.2@.compositor_proxy == compositor_proxy,
        r.2@.time_profiler_chan == time_profiler_chan,
        r.2@.mem_profiler_chan == mem_profiler_chan,
        r.2@.debugger_chan == debugger_chan,
        r.2@.devtools_chan == devtools_chan,
        r.2@.supports_clipboard == supports_clipboard,
        r.2@.webvr_chan is Some <==> webvr_enabled,
        r.1.resource_sender == r.2@.public_resource_sender,
        r.1.swmanager_sender != r.1.resource_sender,
{
    // Threads backing the orchestrator's services, as opaque handles.
    let bluetooth_thread: u64 = 1;
    let public_resource_sender: u64 = 2;
    let private_resource_sender: u64 = 3;
    let font_cache_thread: u64 = 4;
    let webgl_threads: u64 = 5;
    let swmanager_sender: u64 = 6;
    let constellation_id: u64 = 7;

    // Optional VR subsystem, wired only when the preference asks for it.
    let webvr_chan: Option<u64> = if webvr_enabled {
        Some(8)
    } else {
        None
    };

    // The backend presents WebGL textures through its external-image hook.
    webrender.set_external_image_handler();

    let ghost state = InitialEngineState {
        compositor_proxy,
        debugger_chan,
        devtools_chan,
        bluetooth_thread,
        font_cache_thread,
        public_resource_sender,
        private_resource_sender,
        time_profiler_chan,
        mem_profiler_chan,
        supports_clipboard,
        webgl_threads,
        webvr_chan,
    };

    let constellation_chan = ConstellationChan { id: constellation_id };
    let sw_senders = SwSenders { swmanager_sender, resource_sender: public_resource_sender };
    (constellation_chan, sw_senders, Ghost(state))
}

/// Everything the compositor is constructed from.
pub struct InitialCompositorState {
    pub sender: CompositorProxy,
    pub receiver: NotificationChannel<CompositorMsg>,
    pub constellation_chan: ConstellationChan,
    pub time_profiler_chan: TimeProfilerChan,
    pub mem_profiler_chan: MemProfilerChan,
    pub webrender: Renderer,
}

/// The compositor: pumps window events and presents frames.  Only its
/// construction and ownership are in scope here.
pub struct Compositor {
    sender: CompositorProxy,
    receiver: NotificationChannel<CompositorMsg>,
    constellation_chan: ConstellationChan,
    time_profiler_chan: TimeProfilerChan,
    mem_profiler_chan: MemProfilerChan,
    renderer: Renderer,
    running: bool,
}

impl Compositor {
    pub closed spec fn sender(&self) -> CompositorProxy {
        self.sender
    }

    pub closed spec fn receiver(&self) -> NotificationChannel<CompositorMsg> {
        self.receiver
    }

    pub closed spec fn constellation_chan(&self) -> ConstellationChan {
        self.constellation_chan
    }

    pub closed spec fn time_profiler_chan(&self) -> TimeProfilerChan {
        self.time_profiler_chan
    }

    pub closed spec fn mem_profiler_chan(&self) -> MemProfilerChan {
        self.mem_profiler_chan
    }

    pub closed spec fn renderer(&self) -> Renderer {
        self.renderer
    }

    pub closed spec fn running(&self) -> bool {
        self.running
    }

    /// Constructs the compositor from the notification channel's receiving
    /// end, the orchestrator's sender, the telemetry channels and the
    /// rendering backend.
    pub fn create(state: InitialCompositorState) -> (r: Compositor)
        ensures
            r.sender() == state.sender,
            r.receiver() == state.receiver,
            r.constellation_chan() == state.constellation_chan,
            r.time_profiler_chan() == state.time_profiler_chan,
            r.mem_profiler_chan() == state.mem_profiler_chan,
            r.renderer() == state.webrender,
            r.running(),
    {
        let InitialCompositorState {
            sender,
            receiver,
            constellation_chan,
            time_profiler_chan,
            mem_profiler_chan,
            webrender,
        } = state;
        Compositor {
            sender,
            receiver,
            constellation_chan,
            time_profiler_chan,
            mem_profiler_chan,
            renderer: webrender,
            running: true,
        }
    }

    /// Synchronous teardown; the compositor is gone afterwards.
    pub fn deinit(self) {
    }
}

/// The embedding this process hosts: at most one engine handle may ever be
/// created for it.
pub struct Embedding {
    handle_made: bool,
}

impl Embedding {
    /// Whether the one engine handle of this embedding has been created.
    pub closed spec fn handle_made(&self) -> bool {
        self.handle_made
    }

    pub fn new() -> (r: Embedding)
        ensures
            !r.handle_made(),
    {
        Embedding { handle_made: false }
    }

    pub fn has_handle(&self) -> (r: bool)
        ensures
            r == self.handle_made(),
    {
        self.handle_made
    }
}

/// A ghost record of what startup wired together, retained by the handle.
pub struct StartupWiring {
    /// The state the orchestrator was started with.
    pub state: InitialEngineState,
    /// The remote-control listener, when one was configured.
    pub webdriver: Option<WebdriverListener>,
}

/// Whether any of the events asks for shutdown.
pub open spec fn any_quit(events: Seq<WindowEvent>) -> bool {
    exists|i: int| 0 <= i < events.len() && events[i] == WindowEvent::Quit
}

/// The top-level engine handle: the compositor and the sender of the
/// orchestrator's control channel.  One per embedding; destroyed by
/// explicit teardown; never shared.
pub struct Servo {
    compositor: Compositor,
    constellation_chan: ConstellationChan,
    wiring: Ghost<StartupWiring>,
}

impl Servo {
    /// The sender of the orchestrator's control channel.
    pub closed spec fn constellation_chan(&self) -> ConstellationChan {
        self.constellation_chan
    }

    /// The compositor the handle owns.
    pub closed spec fn compositor(&self) -> Compositor {
        self.compositor
    }

    /// What startup wired together.
    pub closed spec fn wiring(&self) -> StartupWiring {
        self.wiring@
    }

    /// Whether the handle's pump is still running.
    pub open spec fn running(&self) -> bool {
        self.compositor().running()
    }

    /// Runs the whole startup sequence in its strict order and yields the
    /// embedding's one engine handle.  The scripting runtime must be
    /// untouched: its one-time initialization happens here, single-threaded,
    /// before the orchestrator spawns worker threads.
    pub fn new(window: WindowCaps, opts: Opts, embedding: &mut Embedding, rt: &mut ScriptRuntime) -> (r:
        Servo)
        requires
            !old(embedding).handle_made(),
            !old(rt).initialized(),
        ensures
            final(embedding).handle_made(),
            final(rt).initialized(),
            final(rt).service_workers_ready(),
            r.running(),
            r.compositor().renderer().document_width() == window.framebuffer_width,
            r.compositor().renderer().document_height() == window.framebuffer_height,
            r.compositor().renderer().software() == opts.software_rendering,
            r.compositor().renderer().image_handler_wired(),
            r.compositor().receiver().waker() == window.waker,
            r.compositor().receiver().receiver_live(),
            r.compositor().receiver().queue() == Seq::<(u64, CompositorMsg)>::empty(),
            r.compositor().receiver().wake_count() == 0,
            r.compositor().receiver().valid_proxy(r.compositor().sender()),
            r.compositor().receiver().valid_proxy(r.wiring().state.compositor_proxy),
            r.wiring().state.compositor_proxy.id() != r.compositor().sender().id(),
            r.compositor().constellation_chan() == r.constellation_chan(),
            r.compositor().time_profiler_chan() == r.wiring().state.time_profiler_chan,
            r.compositor().mem_profiler_chan() == r.wiring().state.mem_profiler_chan,
            r.wiring().state.time_profiler_chan.period == opts.time_profiling,
            r.wiring().state.mem_profiler_chan.period == opts.mem_profiler_period,
            r.wiring().state.debugger_chan == (match opts.debugger_port {
                Some(p) => Some(DebuggerChan { port: p }),
                None => None,
            }),
            r.wiring().state.devtools_chan == (match opts.devtools_port {
                Some(p) => Some(DevtoolsChan { port: p }),
                None => None,
            }),
            r.wiring().webdriver == (match opts.webdriver_port {
                Some(p) => Some(WebdriverListener { port: p }),
                None => None,
            }),
            r.wiring().state.webvr_chan is Some <==> opts.webvr_enabled,
            r.wiring().state.supports_clipboard == window.supports_clipboard,
    {
        // The special channel between the client window and the compositor,
        // retaining the embedder's wake primitive.
        let (compositor_proxy, mut compositor_receiver) = create_compositor_channel::<
            CompositorMsg,
        >(window.waker);
        let supports_clipboard = window.supports_clipboard;

        // Telemetry collectors, each yielding a stop-control channel.
        let time_profiler_chan = create_time_profiler(opts.time_profiling);
        let mem_profiler_chan = create_mem_profiler(opts.mem_profiler_period);

        // Optional listeners, each independent.
        let debugger_chan = match opts.debugger_port {
            Some(port) => Some(start_debugger(port)),
            None => None,
        };
        let devtools_chan = match opts.devtools_port {
            Some(port) => Some(start_devtools(port)),
            None => None,
        };

        // The rendering backend, with one logical surface sized to the
        // embedder's framebuffer.
        let mut webrender = Renderer::new(
            opts.software_rendering,
            window.framebuffer_width,
            window.framebuffer_height,
        );

        // One-time scripting initialization: single-threaded, and it cannot
        // be deferred past the orchestrator's start below.
        rt.init();

        // The orchestrator, fed a clone of the compositor's sending handle.
        let constellation_proxy = compositor_receiver.clone_compositor_proxy(&compositor_proxy);
        let (constellation_chan, sw_senders, wired_state) = create_constellation(
            constellation_proxy,
            time_profiler_chan,
            mem_profiler_chan,
            debugger_chan,
            devtools_chan,
            supports_clipboard,
            &mut webrender,
            opts.webvr_enabled,
            rt,
        );

        // The orchestrator's service-worker manager senders go to the
        // scripting subsystem's own initialization.
        rt.init_service_workers(sw_senders);

        // Optional remote-control listener bound to the control channel.
        let webdriver_listener = match opts.webdriver_port {
            Some(port) => Some(webdriver(port, constellation_chan)),
            None => None,
        };

        // The compositor closes the loop: it owns the channel's receiving
        // end, the control channel's sender and the rendering backend.
        let compositor = Compositor::create(
            InitialCompositorState {
                sender: compositor_proxy,
                receiver: compositor_receiver,
                constellation_chan,
                time_profiler_chan,
                mem_profiler_chan,
                webrender,
            },
        );

        embedding.handle_made = true;
        let ghost wiring = StartupWiring { state: wired_state@, webdriver: webdriver_listener };
        Servo { compositor, constellation_chan, wiring: Ghost(wiring) }
    }

    /// Pumps one batch of window events.  A quit request stops the pump;
    /// everything else leaves it as it was.  Returns whether the handle is
    /// still running afterwards.
    pub fn handle_events(&mut self, events: Vec<WindowEvent>) -> (r: bool)
        ensures
            final(self).running() == (old(self).running() && !any_quit(events@)),
            r == final(self).running(),
            final(self).compositor().renderer() == old(self).compositor().renderer(),
            final(self).compositor().receiver() == old(self).compositor().receiver(),
            final(self).compositor().sender() == old(self).compositor().sender(),
            final(self).compositor().time_profiler_chan() == old(self).compositor().time_profiler_chan(),
            final(self).compositor().mem_profiler_chan() == old(self).compositor().mem_profiler_chan(),
            final(self).constellation_chan() == old(self).constellation_chan(),
            final(self).wiring() == old(self).wiring(),
    {
        let n = events.len();
        let mut quit = false;
        let mut i: usize = 0;
        while i < n
            invariant
                n == events@.len(),
                i <= n,
                quit == any_quit(events@.subrange(0, i as int)),
            decreases n - i,
        {
            let is_quit = match events[i] {
                WindowEvent::Quit => true,
                _ => false,
            };
            proof {
                let pre = events@.subrange(0, i as int);
                let ext = events@.subrange(0, i as int + 1);
                assert(ext =~= pre.push(events@[i as int]));
                if quit || is_quit {
                    assert(any_quit(ext)) by {
                        if is_quit {
                            assert(ext[i as int] == WindowEvent::Quit);
                        } else {
                            let j = choose|j: int| 0 <= j < pre.len() && pre[j] == WindowEvent::Quit;
                            assert(ext[j] == WindowEvent::Quit);
                        }
                    }
                } else {
                    assert(!any_quit(ext)) by {
                        if any_quit(ext) {
                            let j = choose|j: int|
                                0 <= j < ext.len() && ext[j] == WindowEvent::Quit;
                            if j < i as int {
                                assert(pre[j] == WindowEvent::Quit);
                            }
                        }
                    }
                }
            }
            if is_quit {
                quit = true;
            }
            i = i + 1;
        }
        proof {
            assert(events@.subrange(0, n as int) =~= events@);
        }
        if quit {
            self.compositor.running = false;
        }
        self.compositor.running
    }

    /// Presents a frame synchronously; the handle's state is untouched.
    pub fn repaint_synchronously(&mut self)
        ensures
            *final(self) == *old(self),
    {
    }

    /// Installs the process-wide logger of the embedding process: the local
    /// sink configured from the environment and the remote sink bound to the
    /// orchestrator's control channel, whose own filter admits warnings.
    /// Fails, fatally for the caller, when a logger is already installed.
    pub fn setup_logging(&self, registry: &mut LoggerRegistry, env_filter: LogFilter) -> (r: Result<
        (),
        InstallError,
    >)
        ensures
            r is Ok <==> !old(registry).installed(),
            !old(registry).installed() ==> final(registry).installed() && final(registry).max_level()
                == spec_max_filter(env_filter, LogFilter::Warn),
            old(registry).installed() ==> final(registry).sink() == old(registry).sink(),
    {
        set_logger(registry, env_filter, LogFilter::Warn)
    }

    /// Synchronously tears the compositor down.  Taking the handle by value,
    /// this is necessarily its last use: teardown cannot happen twice.
    pub fn deinit(self) {
        self.compositor.deinit();
    }

    pub fn is_running(&self) -> (r: bool)
        ensures
            r == self.running(),
    {
        self.compositor.running
    }

    pub fn surface_size(&self) -> (r: (u32, u32))
        ensures
            r.0 == self.compositor().renderer().document_width(),
            r.1 == self.compositor().renderer().document_height(),
    {
        self.compositor.renderer.surface_size()
    }

    pub fn constellation_id(&self) -> (r: u64)
        ensures
            r == self.constellation_chan().id,
    {
        self.constellation_chan.id
    }

    pub fn pending_notifications(&self) -> (r: usize)
        ensures
            r == self.compositor().receiver().queue().len(),
    {
        self.compositor.receiver.pending()
    }
}

} // verus!
