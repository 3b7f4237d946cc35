use gdcef::settings::{
    bool_setting, data_path_setting, default_bool_setting, insecure_setting_warnings, project_settings,
    security_config_from, SettingDefault, SETTING_ALLOW_INSECURE_CONTENT, SETTING_DATA_PATH,
};
use gdcef::app_config::SecurityConfig;

#[test]
fn registers_five_settings_with_defaults() {
    let s = project_settings();
    assert_eq!(s.len(), 5);
    assert_eq!(s[0].name, SETTING_DATA_PATH);
    match &s[0].default {
        SettingDefault::Directory(d) => assert_eq!(d, "user://cef-data"),
        _ => panic!("the data path is a directory"),
    }
    for spec in &s[1..] {
        match spec.default {
            SettingDefault::Flag(b) => assert!(!b),
            _ => panic!("the others are flags"),
        }
    }
    assert_eq!(s[4].name, "godot_cef/audio/enable_audio_capture");
}

#[test]
fn stored_values_win_over_defaults() {
    assert!(!default_bool_setting(SETTING_ALLOW_INSECURE_CONTENT));
    assert!(!default_bool_setting("some/other"));
    assert!(bool_setting(SETTING_ALLOW_INSECURE_CONTENT, Some(true)));
    assert!(!bool_setting(SETTING_ALLOW_INSECURE_CONTENT, None));
    assert_eq!(data_path_setting(None), "user://cef-data");
    assert_eq!(data_path_setting(Some("/tmp/x".to_string())), "/tmp/x");
    let c = security_config_from(Some(true), None, Some(false));
    assert_eq!(c, SecurityConfig { allow_insecure_content: true, ignore_certificate_errors: false, disable_web_security: false });
}

#[test]
fn warns_for_each_relaxation_that_is_on() {
    assert!(insecure_setting_warnings(&SecurityConfig::default()).is_empty());
    let all = SecurityConfig { allow_insecure_content: true, ignore_certificate_errors: true, disable_web_security: true };
    let w = insecure_setting_warnings(&all);
    assert_eq!(w.len(), 3);
    assert!(w[0].contains("'allow_insecure_content' is enabled"));
    assert!(w[1].contains("'ignore_certificate_errors' is enabled"));
    assert!(w[2].contains("'disable_web_security' is enabled"));
}
