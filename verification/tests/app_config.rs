use gdcef::app_config::{browser_switches, child_process_switches, GodotRenderBackend, OsrApp, SecurityConfig};

fn names(v: &[gdcef::app_config::Switch]) -> Vec<(String, Option<String>)> {
    v.iter().map(|s| (s.name.clone(), s.value.clone())).collect()
}

#[test]
fn app_builders_keep_their_settings() {
    let app = OsrApp::new();
    assert_eq!(app.godot_backend(), GodotRenderBackend::Unknown);
    assert!(!app.enable_remote_debugging());
    assert!(app.gpu_device_ids().is_none());
    let app = OsrApp::with_options(GodotRenderBackend::Vulkan, true).with_gpu_device_ids(4318, 9860);
    assert_eq!(app.godot_backend(), GodotRenderBackend::Vulkan);
    assert!(app.enable_remote_debugging());
    let ids = app.gpu_device_ids().unwrap();
    assert_eq!((ids.vendor_id, ids.device_id), (4318, 9860));
    let sec = SecurityConfig { allow_insecure_content: true, ignore_certificate_errors: false, disable_web_security: true };
    let app = OsrApp::with_security_options(GodotRenderBackend::Metal, false, sec);
    assert_eq!(*app.security_config(), sec);
    assert_eq!(OsrApp::with_godot_backend(GodotRenderBackend::Direct3D12).godot_backend(), GodotRenderBackend::Direct3D12);
}

#[test]
fn browser_switches_add_devtools_port_only_when_asked() {
    let off = names(&browser_switches(false));
    assert_eq!(off.len(), 10);
    assert_eq!(off[0], ("no-sandbox".to_string(), None));
    assert!(!off.iter().any(|(n, _)| n == "remote-debugging-port"));
    let on = names(&browser_switches(true));
    assert_eq!(on.len(), 11);
    assert_eq!(on[10], ("remote-debugging-port".to_string(), Some("9229".to_string())));
}

#[test]
fn child_switches_follow_security_and_gpu() {
    let sec = SecurityConfig::default();
    let plain = names(&child_process_switches(&sec, None, None, None));
    assert_eq!(
        plain,
        vec![("disable-session-crashed-bubble".to_string(), None), ("enable-logging=stderr".to_string(), None)]
    );
    let all = SecurityConfig { allow_insecure_content: true, ignore_certificate_errors: true, disable_web_security: true };
    let ids = gdcef::gpu::GpuDeviceIds::new(4318, 9860);
    let v = names(&child_process_switches(&all, Some(ids), None, None));
    assert_eq!(v.len(), 8);
    assert_eq!(v[0].0, "disable-web-security");
    assert_eq!(v[1].0, "allow-running-insecure-content");
    assert_eq!(v[2].0, "ignore-certificate-errors");
    assert_eq!(v[3].0, "ignore-ssl-errors");
    assert_eq!(v[6], ("gpu-vendor-id".to_string(), Some("4318".to_string())));
    assert_eq!(v[7], ("gpu-device-id".to_string(), Some("9860".to_string())));
}

#[test]
fn child_switches_pass_the_godot_gpu_to_the_helper() {
    let app = OsrApp::new().with_adapter_luid(-1, 42).with_device_uuid([0xab; 16]);
    assert_eq!(app.adapter_luid(), Some(gdcef::gpu::AdapterLuid::new(-1, 42)));
    assert_eq!(app.device_uuid().map(|u| u.bytes), Some([0xab; 16]));
    let v = names(&child_process_switches(
        &SecurityConfig::default(),
        None,
        app.adapter_luid(),
        app.device_uuid(),
    ));
    assert_eq!(v[2], ("godot-adapter-luid".to_string(), Some("-1,42".to_string())));
    assert_eq!(v[3], ("godot-device-uuid".to_string(), Some("ab".repeat(16))));
}
