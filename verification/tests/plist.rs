use gdcef::plist::{AppInfoPlist, FrameworkInfoPlist};

#[test]
fn app_plist_for_helper_hides_the_dock_icon() {
    let p = AppInfoPlist::new("Godot CEF Helper", true);
    assert_eq!(p.cf_bundle_executable, "Godot CEF Helper");
    assert_eq!(p.cf_bundle_display_name, "Godot CEF Helper");
    assert_eq!(p.cf_bundle_identifier, "me.delton.gdcef.helper");
    assert_eq!(p.cf_bundle_package_type, "APPL");
    assert_eq!(p.ls_ui_element, Some("1".to_string()));
    assert_eq!(p.ls_environment, vec![("MallocNanoZone".to_string(), "0".to_string())]);
    assert_eq!(p.ls_minimum_system_version, "11.0");
    assert!(p.ls_file_quarantine_enabled);
    assert!(p.ns_supports_automatic_graphics_switching);
    assert_eq!(p.ns_camera_usage_description, "Godot CEF Helper");
}

#[test]
fn app_plist_for_main_app_has_no_ui_element() {
    let p = AppInfoPlist::new("Godot CEF", false);
    assert_eq!(p.ls_ui_element, None);
    assert_eq!(p.cf_bundle_version, "1.0.0");
    assert_eq!(p.cf_bundle_short_version_string, "1.0");
}

#[test]
fn framework_plist() {
    let p = FrameworkInfoPlist::new("libgdcef.dylib");
    assert_eq!(p.cf_bundle_executable, "libgdcef.dylib");
    assert_eq!(p.cf_bundle_identifier, "me.delton.gdcef.libgdcef");
    assert_eq!(p.cf_bundle_package_type, "FMWK");
    assert_eq!(p.cf_bundle_signature, "????");
    assert_eq!(p.ls_ui_element, None);
    assert_eq!(p.ls_environment.len(), 1);
}
