//! Bootstrap and multi-process composition root of a browser engine host.
//!
//! The crate wires the engine's subsystems together in a strict order: it
//! creates the cross-thread notification channel between the embedding window
//! and the compositor, starts telemetry collectors and optional listeners,
//! initializes the rendering backend, starts the orchestrator, and finally
//! constructs the compositor, yielding the one `Servo` handle per embedding.
//! It also carries the token-based one-shot bootstrap protocol by which a
//! freshly spawned content process receives its initial configuration, the
//! dual-destination log sink that fans one record to a local and a remote
//! sink, and the process-isolation gate for sandboxed content processes.

pub mod bootstrap;
pub mod channel;
pub mod config;
pub mod log_sink;
pub mod root;
pub mod sandbox;
pub mod script;
