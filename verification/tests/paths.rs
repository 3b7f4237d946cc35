use gdcef::error::CefError;
use gdcef::keycode::TargetOs;
use gdcef::paths::{
    executable_candidates, executable_mode, get_arch_framework_path, get_framework_path,
    get_subprocess_path, permission_update,
};

#[test]
fn subprocess_path_on_linux_is_beside_the_library() {
    let p = get_subprocess_path(TargetOs::Linux, Some("/addon/bin/libgdcef.so")).unwrap();
    assert_eq!(p, "/addon/bin/libgdcef.so/../gdcef_helper");
}

#[test]
fn subprocess_path_on_windows_uses_backslash_and_exe() {
    let p = get_subprocess_path(TargetOs::Windows, Some("C:\\addon\\gdcef.dll")).unwrap();
    assert_eq!(p, "C:\\addon\\gdcef.dll\\../gdcef_helper.exe");
}

#[test]
fn subprocess_path_on_macos_goes_into_the_helper_app() {
    let p = get_subprocess_path(TargetOs::MacOs, Some("/b/Godot CEF.framework/libgdcef.dylib")).unwrap();
    assert_eq!(
        p,
        "/b/Godot CEF.framework/libgdcef.dylib/../../Godot CEF.app/Contents/Frameworks/Godot CEF Helper.app/Contents/MacOS/Godot CEF Helper"
    );
}

#[test]
fn join_adds_no_second_separator() {
    let p = get_subprocess_path(TargetOs::Linux, Some("/addon/bin/")).unwrap();
    assert_eq!(p, "/addon/bin/../gdcef_helper");
    let p = get_subprocess_path(TargetOs::Linux, Some("")).unwrap();
    assert_eq!(p, "../gdcef_helper");
}

#[test]
fn missing_library_path_is_resource_not_found() {
    match get_subprocess_path(TargetOs::Linux, None) {
        Err(CefError::ResourceNotFound(m)) => assert_eq!(m, "dylib path"),
        _ => panic!("expected ResourceNotFound"),
    }
    match get_framework_path(None) {
        Err(CefError::ResourceNotFound(m)) => assert_eq!(m, "dylib path"),
        _ => panic!("expected ResourceNotFound"),
    }
}

#[test]
fn framework_path_points_into_the_app_bundle() {
    let p = get_framework_path(Some("/b/F.framework/libgdcef.dylib")).unwrap();
    assert_eq!(
        p,
        "/b/F.framework/libgdcef.dylib/../../Godot CEF.app/Contents/Frameworks/Chromium Embedded Framework.framework"
    );
}

#[test]
fn arch_framework_path_per_architecture() {
    let p = get_arch_framework_path("aarch64", Some("/x/lib.dylib")).unwrap();
    assert!(p.ends_with("/Chromium Embedded Framework (ARM64).framework"));
    let p = get_arch_framework_path("x86_64", Some("/x/lib.dylib")).unwrap();
    assert!(p.ends_with("/Chromium Embedded Framework (X86_64).framework"));
    match get_arch_framework_path("riscv64", Some("/x/lib.dylib")) {
        Err(CefError::ResourceNotFound(m)) => assert_eq!(m, "Unsupported architecture: riscv64"),
        _ => panic!("expected an unsupported architecture"),
    }
    match get_arch_framework_path("riscv64", None) {
        Err(CefError::ResourceNotFound(m)) => assert_eq!(m, "dylib path"),
        _ => panic!("the missing library is reported first"),
    }
}

#[test]
fn executable_mode_adds_execute_where_readable() {
    assert_eq!(executable_mode(0o644), 0o755);
    assert_eq!(executable_mode(0o600), 0o700);
    assert_eq!(executable_mode(0o755), 0o755);
    assert_eq!(executable_mode(0o200), 0o200);
    assert_eq!(executable_mode(executable_mode(0o640)), executable_mode(0o640));
}

#[test]
fn permission_update_only_when_needed() {
    assert_eq!(permission_update(0o644), Some(0o755));
    assert_eq!(permission_update(0o755), None);
    assert_eq!(permission_update(0o000), None);
}

#[test]
fn executable_candidates_per_platform() {
    let linux = executable_candidates(TargetOs::Linux, "/a/libgdcef.so", "/a/gdcef_helper");
    assert_eq!(linux, vec!["/a/libgdcef.so/../chrome-sandbox".to_string(), "/a/libgdcef.so/../gdcef_helper".to_string()]);
    let mac = executable_candidates(
        TargetOs::MacOs,
        "/x/lib.dylib",
        "/b/App.app/Contents/Frameworks/Godot CEF Helper.app/Contents/MacOS/Godot CEF Helper",
    );
    assert_eq!(mac.len(), 4);
    assert_eq!(
        mac[0],
        "/b/App.app/Contents/Frameworks/Godot CEF Helper (GPU).app/Contents/MacOS/Godot CEF Helper (GPU)"
    );
    assert_eq!(
        mac[3],
        "/b/App.app/Contents/Frameworks/Godot CEF Helper (Alerts).app/Contents/MacOS/Godot CEF Helper (Alerts)"
    );
    assert!(executable_candidates(TargetOs::MacOs, "/x", "a/b").is_empty());
    assert!(executable_candidates(TargetOs::Windows, "C:\\x", "C:\\y").is_empty());
}

use gdcef::paths::{helper_framework_path, main_bundle_path, root_cache_path};

#[test]
fn helper_finds_the_framework_from_either_app() {
    assert_eq!(
        helper_framework_path("/A/Godot CEF.app/Contents/MacOS/Godot CEF"),
        "/A/Godot CEF.app/Contents/MacOS/Godot CEF/../../Frameworks/Chromium Embedded Framework.framework"
    );
    assert_eq!(
        helper_framework_path("/A/F/Godot CEF Helper.app/Contents/MacOS/Godot CEF Helper"),
        "/A/F/Godot CEF Helper.app/Contents/MacOS/Godot CEF Helper/../../../../Chromium Embedded Framework.framework"
    );
}

#[test]
fn cache_and_bundle_paths() {
    assert_eq!(root_cache_path(TargetOs::Linux, "/home/u/.local/share/godot/app_userdata/P"), "/home/u/.local/share/godot/app_userdata/P/Godot CEF/Cache");
    assert_eq!(root_cache_path(TargetOs::Windows, "C:\\Users\\u\\AppData"), "C:\\Users\\u\\AppData\\Godot CEF/Cache");
    assert_eq!(main_bundle_path("/A/helper"), "/A/helper/../../..");
}
