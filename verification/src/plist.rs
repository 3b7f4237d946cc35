//! The `Info.plist` contents of the macOS app and framework bundles.
//!
//! The values are plain data here; writing them out as a property list is
//! the bundler's job.

use vstd::prelude::*;

verus! {

/// The `Info.plist` of the helper and main app bundles.
pub struct AppInfoPlist {
    pub cf_bundle_development_region: String,
    pub cf_bundle_display_name: String,
    pub cf_bundle_executable: String,
    pub cf_bundle_identifier: String,
    pub cf_bundle_info_dictionary_version: String,
    pub cf_bundle_name: String,
    pub cf_bundle_package_type: String,
    pub cf_bundle_signature: String,
    pub cf_bundle_version: String,
    pub cf_bundle_short_version_string: String,
    /// The `LSEnvironment` dictionary, one entry per key.
    pub ls_environment: Vec<(String, String)>,
    pub ls_file_quarantine_enabled: bool,
    pub ls_minimum_system_version: String,
    /// `LSUIElement`, left out of the list where it is `None`.
    pub ls_ui_element: Option<String>,
    pub ns_bluetooth_always_usage_description: String,
    pub ns_supports_automatic_graphics_switching: bool,
    pub ns_web_browser_publickey_credential_usage_description: String,
    pub ns_camera_usage_description: String,
    pub ns_microphone_usage_description: String,
}

/// The `Info.plist` of the framework bundle that holds the extension library.
pub struct FrameworkInfoPlist {
    pub cf_bundle_development_region: String,
    pub cf_bundle_executable: String,
    pub cf_bundle_identifier: String,
    pub cf_bundle_info_dictionary_version: String,
    pub cf_bundle_name: String,
    pub cf_bundle_package_type: String,
    pub cf_bundle_signature: String,
    pub cf_bundle_version: String,
    pub cf_bundle_short_version_string: String,
    /// The `LSEnvironment` dictionary, one entry per key.
    pub ls_environment: Vec<(String, String)>,
    pub ls_file_quarantine_enabled: bool,
    pub ls_minimum_system_version: String,
    /// `LSUIElement`, left out of the list where it is `None`.
    pub ls_ui_element: Option<String>,
}

/// The environment both bundles set: `MallocNanoZone=0`.
pub open spec fn is_bundle_environment(env: Seq<(String, String)>) -> bool {
    &&& env.len() == 1
    &&& env[0].0@ == "MallocNanoZone"@
    &&& env[0].1@ == "0"@
}

/// The bundle environment, `MallocNanoZone=0`.
fn bundle_environment() -> (r: Vec<(String, String)>)
    ensures
        is_bundle_environment(r@),
{
    let mut env: Vec<(String, String)> = Vec::new();
    env.push(("MallocNanoZone".to_string(), "0".to_string()));
    env
}

impl AppInfoPlist {
    /// The property list of an app bundle whose executable is `exec_name`;
    /// a helper app is marked as a UI element (`LSUIElement` = `1`), so that
    /// it shows no Dock icon.
    pub fn new(exec_name: &str, is_helper: bool) -> (p: Self)
        ensures
            p.cf_bundle_development_region@ == "en"@,
            p.cf_bundle_display_name@ == exec_name@,
            p.cf_bundle_executable@ == exec_name@,
            p.cf_bundle_identifier@ == "me.delton.gdcef.helper"@,
            p.cf_bundle_info_dictionary_version@ == "6.0"@,
            p.cf_bundle_name@ == "gdcef"@,
            p.cf_bundle_package_type@ == "APPL"@,
            p.cf_bundle_signature@ == "????"@,
            p.cf_bundle_version@ == "1.0.0"@,
            p.cf_bundle_short_version_string@ == "1.0"@,
            is_bundle_environment(p.ls_environment@),
            p.ls_file_quarantine_enabled,
            p.ls_minimum_system_version@ == "11.0"@,
            is_helper ==> (p.ls_ui_element matches Some(s) && s@ == "1"@),
            !is_helper ==> p.ls_ui_element is None,
            p.ns_bluetooth_always_usage_description@ == exec_name@,
            p.ns_supports_automatic_graphics_switching,
            p.ns_web_browser_publickey_credential_usage_description@ == exec_name@,
            p.ns_camera_usage_description@ == exec_name@,
            p.ns_microphone_usage_description@ == exec_name@,
    {
        AppInfoPlist {
            cf_bundle_development_region: "en".to_string(),
            cf_bundle_display_name: exec_name.to_string(),
            cf_bundle_executable: exec_name.to_string(),
            cf_bundle_identifier: "me.delton.gdcef.helper".to_string(),
            cf_bundle_info_dictionary_version: "6.0".to_string(),
            cf_bundle_name: "gdcef".to_string(),
            cf_bundle_package_type: "APPL".to_string(),
            cf_bundle_signature: "????".to_string(),
            cf_bundle_version: "1.0.0".to_string(),
            cf_bundle_short_version_string: "1.0".to_string(),
            ls_environment: bundle_environment(),
            ls_file_quarantine_enabled: true,
            ls_minimum_system_version: "11.0".to_string(),
            ls_ui_element: if is_helper {
                Some("1".to_string())
            } else {
                None
            },
            ns_bluetooth_always_usage_description: exec_name.to_string(),
            ns_supports_automatic_graphics_switching: true,
            ns_web_browser_publickey_credential_usage_description: exec_name.to_string(),
            ns_camera_usage_description: exec_name.to_string(),
            ns_microphone_usage_description: exec_name.to_string(),
        }
    }
}

impl FrameworkInfoPlist {
    /// The property list of the framework bundle whose library is `lib_name`.
    pub fn new(lib_name: &str) -> (p: Self)
        ensures
            p.cf_bundle_development_region@ == "en"@,
            p.cf_bundle_executable@ == lib_name@,
            p.cf_bundle_identifier@ == "me.delton.gdcef.libgdcef"@,
            p.cf_bundle_info_dictionary_version@ == "6.0"@,
            p.cf_bundle_name@ == "gdcef"@,
            p.cf_bundle_package_type@ == "FMWK"@,
            p.cf_bundle_signature@ == "????"@,
            p.cf_bundle_version@ == "1.0.0"@,
            p.cf_bundle_short_version_string@ == "1.0"@,
            is_bundle_environment(p.ls_environment@),
            p.ls_file_quarantine_enabled,
            p.ls_minimum_system_version@ == "11.0"@,
            p.ls_ui_element is None,
    {
        FrameworkInfoPlist {
            cf_bundle_development_region: "en".to_string(),
            cf_bundle_executable: lib_name.to_string(),
            cf_bundle_identifier: "me.delton.gdcef.libgdcef".to_string(),
            cf_bundle_info_dictionary_version: "6.0".to_string(),
            cf_bundle_name: "gdcef".to_string(),
            cf_bundle_package_type: "FMWK".to_string(),
            cf_bundle_signature: "????".to_string(),
            cf_bundle_version: "1.0.0".to_string(),
            cf_bundle_short_version_string: "1.0".to_string(),
            ls_environment: bundle_environment(),
            ls_file_quarantine_enabled: true,
            ls_minimum_system_version: "11.0".to_string(),
            ls_ui_element: None,
        }
    }
}

} // verus!
