//! The project settings the extension registers, their defaults, and what
//! is read back from them.
//!
//! Godot's `ProjectSettings` store the values; the caller looks them up and
//! hands over what it found (`None` where a setting holds nothing).

use vstd::prelude::*;
use crate::app_config::SecurityConfig;
use crate::mime::eq_literal;
use crate::text::chars_of;

verus! {

pub const SETTING_DATA_PATH: &'static str = "godot_cef/storage/data_path";
pub const SETTING_ALLOW_INSECURE_CONTENT: &'static str = "godot_cef/security/allow_insecure_content";
pub const SETTING_IGNORE_CERTIFICATE_ERRORS: &'static str =
    "godot_cef/security/ignore_certificate_errors";
pub const SETTING_DISABLE_WEB_SECURITY: &'static str = "godot_cef/security/disable_web_security";
pub const SETTING_ENABLE_AUDIO_CAPTURE: &'static str = "godot_cef/audio/enable_audio_capture";

pub const DEFAULT_DATA_PATH: &'static str = "user://cef-data";
pub const DEFAULT_ALLOW_INSECURE_CONTENT: bool = false;
pub const DEFAULT_IGNORE_CERTIFICATE_ERRORS: bool = false;
pub const DEFAULT_DISABLE_WEB_SECURITY: bool = false;
pub const DEFAULT_ENABLE_AUDIO_CAPTURE: bool = false;

/// The value a setting starts with.
#[derive(Debug)]
pub enum SettingDefault {
    /// A string, edited as a directory path.
    Directory(String),
    /// A boolean.
    Flag(bool),
}

/// A setting the extension registers.
#[derive(Debug)]
pub struct SettingSpec {
    pub name: String,
    pub default: SettingDefault,
}

/// A registered setting as text: its name, and its default (`Ok` for a
/// directory path, `Err` for a flag).
pub open spec fn setting_view(s: SettingSpec) -> (Seq<char>, Result<Seq<char>, bool>) {
    (
        s.name@,
        match s.default {
            SettingDefault::Directory(d) => Ok(d@),
            SettingDefault::Flag(b) => Err(b),
        },
    )
}

/// The settings registered, in order: the browser's data directory
/// (`user://cef-data`), then the security relaxations and audio capture,
/// all off.
pub open spec fn registered_settings() -> Seq<(Seq<char>, Result<Seq<char>, bool>)> {
    seq![
        (SETTING_DATA_PATH@, Ok(DEFAULT_DATA_PATH@)),
        (SETTING_ALLOW_INSECURE_CONTENT@, Err(false)),
        (SETTING_IGNORE_CERTIFICATE_ERRORS@, Err(false)),
        (SETTING_DISABLE_WEB_SECURITY@, Err(false)),
        (SETTING_ENABLE_AUDIO_CAPTURE@, Err(false)),
    ]
}

fn flag_setting(name: &str, default: bool) -> (r: SettingSpec)
    ensures
        setting_view(r) == (name@, Err::<Seq<char>, bool>(default)),
{
    SettingSpec { name: name.to_string(), default: SettingDefault::Flag(default) }
}

/// The project settings to register, with their defaults.
pub fn project_settings() -> (r: Vec<SettingSpec>)
    ensures
        r@.map_values(|s: SettingSpec| setting_view(s)) == registered_settings(),
{
    let mut v: Vec<SettingSpec> = Vec::new();
    v.push(
        SettingSpec {
            name: SETTING_DATA_PATH.to_string(),
            default: SettingDefault::Directory(DEFAULT_DATA_PATH.to_string()),
        },
    );
    v.push(flag_setting(SETTING_ALLOW_INSECURE_CONTENT, DEFAULT_ALLOW_INSECURE_CONTENT));
    v.push(flag_setting(SETTING_IGNORE_CERTIFICATE_ERRORS, DEFAULT_IGNORE_CERTIFICATE_ERRORS));
    v.push(flag_setting(SETTING_DISABLE_WEB_SECURITY, DEFAULT_DISABLE_WEB_SECURITY));
    v.push(flag_setting(SETTING_ENABLE_AUDIO_CAPTURE, DEFAULT_ENABLE_AUDIO_CAPTURE));
    assert(v@.map_values(|s: SettingSpec| setting_view(s)) =~= registered_settings());
    v
}

/// The default of a boolean setting: the default each flag the extension
/// registers was registered with, and off for any other name.
pub open spec fn bool_setting_default(name: Seq<char>) -> bool {
    if name == SETTING_ALLOW_INSECURE_CONTENT@ {
        DEFAULT_ALLOW_INSECURE_CONTENT
    } else if name == SETTING_IGNORE_CERTIFICATE_ERRORS@ {
        DEFAULT_IGNORE_CERTIFICATE_ERRORS
    } else if name == SETTING_DISABLE_WEB_SECURITY@ {
        DEFAULT_DISABLE_WEB_SECURITY
    } else if name == SETTING_ENABLE_AUDIO_CAPTURE@ {
        DEFAULT_ENABLE_AUDIO_CAPTURE
    } else {
        false
    }
}

/// The default of the boolean setting `name`.
pub fn default_bool_setting(name: &str) -> (r: bool)
    ensures
        r == bool_setting_default(name@),
{
    let n = chars_of(name);
    if eq_literal(&n, SETTING_ALLOW_INSECURE_CONTENT) {
        DEFAULT_ALLOW_INSECURE_CONTENT
    } else if eq_literal(&n, SETTING_IGNORE_CERTIFICATE_ERRORS) {
        DEFAULT_IGNORE_CERTIFICATE_ERRORS
    } else if eq_literal(&n, SETTING_DISABLE_WEB_SECURITY) {
        DEFAULT_DISABLE_WEB_SECURITY
    } else if eq_literal(&n, SETTING_ENABLE_AUDIO_CAPTURE) {
        DEFAULT_ENABLE_AUDIO_CAPTURE
    } else {
        false
    }
}

/// The value of the boolean setting `name`, given what the project stores
/// for it (`None` where it holds nothing).
pub fn bool_setting(name: &str, stored: Option<bool>) -> (r: bool)
    ensures
        r == match stored {
            Some(b) => b,
            None => bool_setting_default(name@),
        },
{
    match stored {
        Some(b) => b,
        None => default_bool_setting(name),
    }
}

/// The data directory setting, given what the project stores for it; the
/// caller turns it into an absolute path.
pub fn data_path_setting(stored: Option<String>) -> (r: String)
    ensures
        r@ == match stored {
            Some(s) => s@,
            None => DEFAULT_DATA_PATH@,
        },
{
    match stored {
        Some(s) => s,
        None => DEFAULT_DATA_PATH.to_string(),
    }
}

/// The security configuration from the stored values of the three
/// security settings.
pub fn security_config_from(
    allow_insecure_content: Option<bool>,
    ignore_certificate_errors: Option<bool>,
    disable_web_security: Option<bool>,
) -> (r: SecurityConfig)
    ensures
        r.allow_insecure_content == (allow_insecure_content == Some(true)),
        r.ignore_certificate_errors == (ignore_certificate_errors == Some(true)),
        r.disable_web_security == (disable_web_security == Some(true)),
{
    SecurityConfig {
        allow_insecure_content: bool_setting(SETTING_ALLOW_INSECURE_CONTENT, allow_insecure_content),
        ignore_certificate_errors: bool_setting(
            SETTING_IGNORE_CERTIFICATE_ERRORS,
            ignore_certificate_errors,
        ),
        disable_web_security: bool_setting(SETTING_DISABLE_WEB_SECURITY, disable_web_security),
    }
}

pub const WARNING_ALLOW_INSECURE_CONTENT: &'static str =
    "[GodotCef] Security Warning: 'allow_insecure_content' is enabled. This allows loading HTTP content in HTTPS pages.";
pub const WARNING_IGNORE_CERTIFICATE_ERRORS: &'static str =
    "[GodotCef] Security Warning: 'ignore_certificate_errors' is enabled. SSL/TLS certificate validation is disabled.";
pub const WARNING_DISABLE_WEB_SECURITY: &'static str =
    "[GodotCef] Security Warning: 'disable_web_security' is enabled. CORS and same-origin policy are disabled.";

/// The warnings for the security relaxations that are on, in this order:
/// insecure content, certificate errors, web security.
pub open spec fn insecure_warnings_of(c: SecurityConfig) -> Seq<Seq<char>> {
    let a: Seq<Seq<char>> = if c.allow_insecure_content {
        seq![WARNING_ALLOW_INSECURE_CONTENT@]
    } else {
        Seq::empty()
    };
    let b: Seq<Seq<char>> = if c.ignore_certificate_errors {
        seq![WARNING_IGNORE_CERTIFICATE_ERRORS@]
    } else {
        Seq::empty()
    };
    let d: Seq<Seq<char>> = if c.disable_web_security {
        seq![WARNING_DISABLE_WEB_SECURITY@]
    } else {
        Seq::empty()
    };
    a + b + d
}

/// The warnings to print for the security relaxations that are on.
pub fn insecure_setting_warnings(config: &SecurityConfig) -> (r: Vec<String>)
    ensures
        r@.map_values(|s: String| s@) == insecure_warnings_of(*config),
{
    let mut v: Vec<String> = Vec::new();
    if config.allow_insecure_content {
        v.push(WARNING_ALLOW_INSECURE_CONTENT.to_string());
    }
    if config.ignore_certificate_errors {
        v.push(WARNING_IGNORE_CERTIFICATE_ERRORS.to_string());
    }
    if config.disable_web_security {
        v.push(WARNING_DISABLE_WEB_SECURITY.to_string());
    }
    assert(v@.map_values(|s: String| s@) =~= insecure_warnings_of(*config));
    v
}

} // verus!
