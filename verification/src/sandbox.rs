//! Process-isolation gate for content processes.
//!
//! On supported platforms activation installs an OS-enforced restriction
//! profile over the calling process; it must run before the process opens
//! descriptors it should not retain.  On unsupported platforms the request
//! fails: sandboxing that was asked for but is unavailable must never
//! silently degrade to unsandboxed execution, so callers treat the failure
//! as fatal.

use vstd::prelude::*;

verus! {

/// The platform the process runs on.
#[derive(Clone, Copy, PartialEq, Eq, Structural, Debug)]
pub enum Platform {
    Linux,
    MacOs,
    Android,
    Windows,
    Ios,
}

/// Whether OS-level process isolation is available: everywhere but Windows
/// and iOS.
pub open spec fn sandbox_supported(p: Platform) -> bool {
    !(p == Platform::Windows || p == Platform::Ios)
}

/// Whether OS-level process isolation is available on this platform.
pub fn is_sandbox_supported(p: Platform) -> (r: bool)
    ensures
        r == sandbox_supported(p),
{
    match p {
        Platform::Windows => false,
        Platform::Ios => false,
        _ => true,
    }
}

/// The restriction profile a sandboxed process keeps: which classes of
/// descriptors it may still open once isolation is active.
#[derive(Clone, Copy, PartialEq, Eq, Structural, Debug)]
pub struct SandboxProfile {
    /// Whether the restricted process may still read bundled resource files.
    pub allow_resource_read: bool,
    /// Whether the restricted process may still open network descriptors.
    pub allow_network: bool,
}

/// The profile installed over a freshly spawned content process: it may read
/// bundled resources but holds no network access of its own.
pub fn content_process_profile() -> (r: SandboxProfile)
    ensures
        r.allow_resource_read,
        !r.allow_network,
{
    SandboxProfile { allow_resource_read: true, allow_network: false }
}

/// Activation failed; the requesting process must abort rather
/// than continue unsandboxed.
#[derive(Clone, Copy, PartialEq, Eq, Structural, Debug)]
pub enum SandboxError {
    Unsupported,
}

/// An activated isolation gate.  Values of this type come only out of a
/// successful activation, so holding an active gate witnesses that the
/// OS-enforced restriction is in place.
pub struct IsolationGate {
    active: bool,
    profile: SandboxProfile,
}

/// A descriptor opened by a restricted process after its gate activated.
#[derive(Clone, Copy, PartialEq, Eq, Structural, Debug)]
pub struct Descriptor {
    pub id: u64,
}

impl IsolationGate {
    /// Whether the OS-enforced restriction is in place.
    pub closed spec fn is_active(&self) -> bool {
        self.active
    }

    /// The restriction profile that activation installed.
    pub closed spec fn profile(&self) -> SandboxProfile {
        self.profile
    }

    pub fn active(&self) -> (r: bool)
        ensures
            r == self.is_active(),
    {
        self.active
    }

    pub fn current_profile(&self) -> (r: SandboxProfile)
        ensures
            r == self.profile(),
    {
        self.profile
    }
}

/// Installs the OS-enforced restriction profile over the calling process.
/// Succeeds exactly on supported platforms; anywhere else the request is
/// refused and the caller must abort — requested sandboxing never degrades
/// silently.
pub fn activate(platform: Platform, profile: SandboxProfile) -> (r: Result<
    IsolationGate,
    SandboxError,
>)
    ensures
        r is Ok <==> sandbox_supported(platform),
        r matches Ok(g) ==> g.is_active() && g.profile() == profile,
        !sandbox_supported(platform) ==> r == Err::<IsolationGate, SandboxError>(
            SandboxError::Unsupported,
        ),
{
    if is_sandbox_supported(platform) {
        Ok(IsolationGate { active: true, profile })
    } else {
        Err(SandboxError::Unsupported)
    }
}

/// Enters the content-process sandbox: activates isolation under the
/// content-process profile.  Succeeds exactly on supported platforms; the
/// failure elsewhere is fatal to the requesting process.
pub fn create_sandbox(platform: Platform) -> (r: Result<IsolationGate, SandboxError>)
    ensures
        r is Ok <==> sandbox_supported(platform),
        r matches Ok(g) ==> g.is_active() && g.profile().allow_resource_read
            && !g.profile().allow_network,
        !sandbox_supported(platform) ==> r == Err::<IsolationGate, SandboxError>(
            SandboxError::Unsupported,
        ),
{
    activate(platform, content_process_profile())
}

/// Opens a descriptor from inside the restricted process.  An active gate
/// must be held — descriptor access is permitted only after a successful
/// activation — and the installed profile must admit the class of descriptor
/// being opened.
pub fn open_descriptor(gate: &IsolationGate, id: u64, network: bool) -> (r: Descriptor)
    requires
        gate.is_active(),
        network ==> gate.profile().allow_network,
        !network ==> gate.profile().allow_resource_read,
    ensures
        r.id == id,
{
    Descriptor { id }
}

} // verus!
