use servo::sandbox::{
    activate, content_process_profile, create_sandbox, is_sandbox_supported, open_descriptor,
    Platform, SandboxError, SandboxProfile,
};

#[test]
fn activate_succeeds_on_supported_platform_before_descriptor_access() {
    assert!(is_sandbox_supported(Platform::Linux));
    let gate = create_sandbox(Platform::Linux).expect("activation on a supported platform");
    assert!(gate.active());
    // descriptor access is permitted only now, through the active gate
    let d = open_descriptor(&gate, 3, false);
    assert_eq!(d.id, 3);
}

#[test]
fn activation_is_refused_where_unsupported() {
    assert!(!is_sandbox_supported(Platform::Windows));
    assert!(!is_sandbox_supported(Platform::Ios));
    assert!(matches!(
        create_sandbox(Platform::Windows),
        Err(SandboxError::Unsupported)
    ));
    assert!(matches!(
        create_sandbox(Platform::Ios),
        Err(SandboxError::Unsupported)
    ));
}

#[test]
fn gate_keeps_the_profile_it_was_activated_with() {
    let profile = SandboxProfile { allow_resource_read: true, allow_network: true };
    let gate = activate(Platform::MacOs, profile).expect("activation on a supported platform");
    assert_eq!(gate.current_profile(), profile);
    let d = open_descriptor(&gate, 8, true);
    assert_eq!(d.id, 8);
}

#[test]
fn content_process_profile_reads_resources_only() {
    let p = content_process_profile();
    assert!(p.allow_resource_read);
    assert!(!p.allow_network);
    let gate = create_sandbox(Platform::Android).expect("activation on a supported platform");
    assert!(gate.active());
    assert_eq!(gate.current_profile(), p);
}
