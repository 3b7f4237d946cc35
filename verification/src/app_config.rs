//! How the CEF application is configured: the render backend it shares
//! textures with, the security relaxations the project allows, the GPU it
//! should use, and the command-line switches that follow from them.

use vstd::prelude::*;
use crate::gpu::{hex_text, luid_arg, AdapterLuid, DeviceUuid, GpuDeviceIds};
use crate::text::decimal;

verus! {

/// The rendering backend Godot runs on.
#[derive(Clone, Copy, Debug, Default, PartialEq, Eq, Structural)]
pub enum GodotRenderBackend {
    #[default]
    Unknown,
    Direct3D12,
    Metal,
    Vulkan,
}

/// Security relaxations, all off unless the project turns them on.
#[derive(Clone, Copy, Debug, PartialEq, Eq, Structural)]
pub struct SecurityConfig {
    /// Allow loading insecure (HTTP) content in HTTPS pages.
    pub allow_insecure_content: bool,
    /// Ignore SSL/TLS certificate errors.
    pub ignore_certificate_errors: bool,
    /// Disable web security (CORS, same-origin policy).
    pub disable_web_security: bool,
}

impl Default for SecurityConfig {
    fn default() -> (r: Self)
        ensures
            !r.allow_insecure_content,
            !r.ignore_certificate_errors,
            !r.disable_web_security,
    {
        SecurityConfig {
            allow_insecure_content: false,
            ignore_certificate_errors: false,
            disable_web_security: false,
        }
    }
}

/// The settings of the CEF application object.
#[derive(Clone, Copy, Debug)]
pub struct OsrApp {
    godot_backend: GodotRenderBackend,
    enable_remote_debugging: bool,
    security_config: SecurityConfig,
    /// GPU device IDs for GPU selection (all platforms).
    gpu_device_ids: Option<GpuDeviceIds>,
    /// The adapter Godot renders on (Windows).
    adapter_luid: Option<AdapterLuid>,
    /// The Vulkan device Godot renders on (Linux).
    device_uuid: Option<DeviceUuid>,
}

impl Default for OsrApp {
    fn default() -> (r: Self)
        ensures
            r.backend() == GodotRenderBackend::Unknown,
            !r.remote_debugging(),
            r.security() == SecurityConfig::default_spec(),
            r.gpu_ids() is None,
            r.luid() is None,
            r.uuid() is None,
    {
        Self::new()
    }
}

impl SecurityConfig {
    /// The configuration with every relaxation off.
    pub open spec fn default_spec() -> SecurityConfig {
        SecurityConfig {
            allow_insecure_content: false,
            ignore_certificate_errors: false,
            disable_web_security: false,
        }
    }
}

impl OsrApp {
    pub closed spec fn backend(self) -> GodotRenderBackend {
        self.godot_backend
    }

    pub closed spec fn remote_debugging(self) -> bool {
        self.enable_remote_debugging
    }

    pub closed spec fn security(self) -> SecurityConfig {
        self.security_config
    }

    pub closed spec fn gpu_ids(self) -> Option<GpuDeviceIds> {
        self.gpu_device_ids
    }

    pub closed spec fn luid(self) -> Option<AdapterLuid> {
        self.adapter_luid
    }

    pub closed spec fn uuid(self) -> Option<DeviceUuid> {
        self.device_uuid
    }

    /// Unknown backend, no remote debugging, default security, no GPU choice.
    pub fn new() -> (r: Self)
        ensures
            r.backend() == GodotRenderBackend::Unknown,
            !r.remote_debugging(),
            r.security() == SecurityConfig::default_spec(),
            r.gpu_ids() is None,
            r.luid() is None,
            r.uuid() is None,
    {
        Self {
            godot_backend: GodotRenderBackend::Unknown,
            enable_remote_debugging: false,
            security_config: SecurityConfig::default(),
            gpu_device_ids: None,
            adapter_luid: None,
            device_uuid: None,
        }
    }

    /// The application for a Godot renderer, with every other option at its default.
    pub fn with_godot_backend(godot_backend: GodotRenderBackend) -> (r: Self)
        ensures
            r.backend() == godot_backend,
            !r.remote_debugging(),
            r.security() == SecurityConfig::default_spec(),
            r.gpu_ids() is None,
            r.luid() is None,
            r.uuid() is None,
    {
        Self {
            godot_backend,
            enable_remote_debugging: false,
            security_config: SecurityConfig::default(),
            gpu_device_ids: None,
            adapter_luid: None,
            device_uuid: None,
        }
    }

    /// Creates an app with the given Godot render backend and remote
    /// debugging setting. Remote debugging should only be enabled in debug
    /// builds or when running from the editor.
    pub fn with_options(godot_backend: GodotRenderBackend, enable_remote_debugging: bool) -> (r: Self)
        ensures
            r.backend() == godot_backend,
            r.remote_debugging() == enable_remote_debugging,
            r.security() == SecurityConfig::default_spec(),
            r.gpu_ids() is None,
            r.luid() is None,
            r.uuid() is None,
    {
        Self {
            godot_backend,
            enable_remote_debugging,
            security_config: SecurityConfig::default(),
            gpu_device_ids: None,
            adapter_luid: None,
            device_uuid: None,
        }
    }

    /// The application with the given renderer, debugging and security options.
    pub fn with_security_options(
        godot_backend: GodotRenderBackend,
        enable_remote_debugging: bool,
        security_config: SecurityConfig,
    ) -> (r: Self)
        ensures
            r.backend() == godot_backend,
            r.remote_debugging() == enable_remote_debugging,
            r.security() == security_config,
            r.gpu_ids() is None,
            r.luid() is None,
            r.uuid() is None,
    {
        Self {
            godot_backend,
            enable_remote_debugging,
            security_config,
            gpu_device_ids: None,
            adapter_luid: None,
            device_uuid: None,
        }
    }

    /// The same settings, with the GPU to use.
    pub fn with_gpu_device_ids(self, vendor_id: u32, device_id: u32) -> (r: Self)
        ensures
            r.backend() == self.backend(),
            r.remote_debugging() == self.remote_debugging(),
            r.security() == self.security(),
            r.gpu_ids() == Some(GpuDeviceIds { vendor_id, device_id }),
            r.luid() == self.luid(),
            r.uuid() == self.uuid(),
    {
        let mut app = self;
        app.gpu_device_ids = Some(GpuDeviceIds::new(vendor_id, device_id));
        app
    }

    /// The same settings, with the adapter to pass to the subprocesses.
    pub fn with_adapter_luid(self, high: i32, low: u32) -> (r: Self)
        ensures
            r.backend() == self.backend(),
            r.remote_debugging() == self.remote_debugging(),
            r.security() == self.security(),
            r.gpu_ids() == self.gpu_ids(),
            r.luid() == Some(AdapterLuid { high, low }),
            r.uuid() == self.uuid(),
    {
        let mut app = self;
        app.adapter_luid = Some(AdapterLuid::new(high, low));
        app
    }

    /// The same settings, with the Vulkan device to pass to the subprocesses.
    pub fn with_device_uuid(self, uuid: [u8; 16]) -> (r: Self)
        ensures
            r.backend() == self.backend(),
            r.remote_debugging() == self.remote_debugging(),
            r.security() == self.security(),
            r.gpu_ids() == self.gpu_ids(),
            r.luid() == self.luid(),
            r.uuid() matches Some(u) && u.bytes == uuid,
    {
        let mut app = self;
        app.device_uuid = Some(DeviceUuid::new(uuid));
        app
    }

    /// The LUID of the GPU adapter Godot renders on, where known.
    pub fn adapter_luid(&self) -> (r: Option<AdapterLuid>)
        ensures
            r == self.luid(),
    {
        self.adapter_luid
    }

    /// The UUID of the Vulkan device Godot renders on, where known.
    pub fn device_uuid(&self) -> (r: Option<DeviceUuid>)
        ensures
            r == self.uuid(),
    {
        self.device_uuid
    }

    /// Godot's rendering backend.
    pub fn godot_backend(&self) -> (r: GodotRenderBackend)
        ensures
            r == self.backend(),
    {
        self.godot_backend
    }

    /// Whether the DevTools port is opened.
    pub fn enable_remote_debugging(&self) -> (r: bool)
        ensures
            r == self.remote_debugging(),
    {
        self.enable_remote_debugging
    }

    /// The security options handed to the browser processes.
    pub fn security_config(&self) -> (r: &SecurityConfig)
        ensures
            *r == self.security(),
    {
        &self.security_config
    }

    /// The vendor and device ids of Godot's GPU, where known.
    pub fn gpu_device_ids(&self) -> (r: Option<GpuDeviceIds>)
        ensures
            r == self.gpu_ids(),
    {
        self.gpu_device_ids
    }
}

/// A command-line switch, with its value where it has one.
#[derive(Debug)]
pub struct Switch {
    pub name: String,
    pub value: Option<String>,
}

/// A switch as text: its name and its value.
pub open spec fn switch_view(s: Switch) -> (Seq<char>, Option<Seq<char>>) {
    (
        s.name@,
        match s.value {
            Some(v) => Some(v@),
            None => None,
        },
    )
}

/// The text of a list of switches.
pub open spec fn switches_view(v: Seq<Switch>) -> Seq<(Seq<char>, Option<Seq<char>>)> {
    v.map_values(|s: Switch| switch_view(s))
}

/// The switches of the browser process: no sandbox, no startup window, no
/// error dialogs, off-screen rendering with zero-copy transparent painting,
/// logging to stderr; and the DevTools port 9229 where remote debugging is
/// on.
pub open spec fn browser_switches_spec(enable_remote_debugging: bool) -> Seq<
    (Seq<char>, Option<Seq<char>>),
> {
    let base = seq![
        ("no-sandbox"@, None),
        ("no-startup-window"@, None),
        ("noerrdialogs"@, None),
        ("hide-crash-restore-bubble"@, None),
        ("use-mock-keychain"@, None),
        ("enable-logging=stderr"@, None),
        ("transparent-painting-enabled"@, None),
        ("enable-zero-copy"@, None),
        ("off-screen-rendering-enabled"@, None),
        ("use-views"@, None),
    ];
    if enable_remote_debugging {
        base.push(("remote-debugging-port"@, Some("9229"@)))
    } else {
        base
    }
}

fn flag(name: &str) -> (r: Switch)
    ensures
        switch_view(r) == (name@, None::<Seq<char>>),
{
    Switch { name: name.to_string(), value: None }
}

fn valued(name: &str, value: String) -> (r: Switch)
    ensures
        switch_view(r) == (name@, Some(value@)),
{
    Switch { name: name.to_string(), value: Some(value) }
}

/// The switches added to the browser's command line before CEF processes it.
pub fn browser_switches(enable_remote_debugging: bool) -> (r: Vec<Switch>)
    ensures
        switches_view(r@) == browser_switches_spec(enable_remote_debugging),
{
    let mut v: Vec<Switch> = Vec::new();
    v.push(flag("no-sandbox"));
    v.push(flag("no-startup-window"));
    v.push(flag("noerrdialogs"));
    v.push(flag("hide-crash-restore-bubble"));
    v.push(flag("use-mock-keychain"));
    v.push(flag("enable-logging=stderr"));
    v.push(flag("transparent-painting-enabled"));
    v.push(flag("enable-zero-copy"));
    v.push(flag("off-screen-rendering-enabled"));
    v.push(flag("use-views"));
    if enable_remote_debugging {
        v.push(valued("remote-debugging-port", "9229".to_string()));
    }
    assert(switches_view(v@) =~= browser_switches_spec(enable_remote_debugging));
    v
}

/// The switches for each child process: those of the security relaxations
/// that are on, crash bubbles off, logging to stderr, the GPU to use (vendor
/// and device ID in decimal) where one was chosen, and the adapter LUID and
/// Vulkan device UUID of Godot's GPU where they are known, for the helper to
/// select the same device.
pub open spec fn child_process_switches_spec(
    security: SecurityConfig,
    gpu: Option<GpuDeviceIds>,
    luid: Option<AdapterLuid>,
    uuid: Option<DeviceUuid>,
) -> Seq<(Seq<char>, Option<Seq<char>>)> {
    let s1: Seq<(Seq<char>, Option<Seq<char>>)> = if security.disable_web_security {
        seq![("disable-web-security"@, None)]
    } else {
        Seq::empty()
    };
    let s2: Seq<(Seq<char>, Option<Seq<char>>)> = if security.allow_insecure_content {
        seq![("allow-running-insecure-content"@, None)]
    } else {
        Seq::empty()
    };
    let s3: Seq<(Seq<char>, Option<Seq<char>>)> = if security.ignore_certificate_errors {
        seq![("ignore-certificate-errors"@, None), ("ignore-ssl-errors"@, None)]
    } else {
        Seq::empty()
    };
    let s4: Seq<(Seq<char>, Option<Seq<char>>)> = seq![
        ("disable-session-crashed-bubble"@, None),
        ("enable-logging=stderr"@, None),
    ];
    let s5: Seq<(Seq<char>, Option<Seq<char>>)> = match gpu {
        Some(ids) => seq![
            ("gpu-vendor-id"@, Some(decimal(ids.vendor_id as nat))),
            ("gpu-device-id"@, Some(decimal(ids.device_id as nat))),
        ],
        None => Seq::empty(),
    };
    let s6: Seq<(Seq<char>, Option<Seq<char>>)> = match luid {
        Some(l) => seq![("godot-adapter-luid"@, Some(luid_arg(l)))],
        None => Seq::empty(),
    };
    let s7: Seq<(Seq<char>, Option<Seq<char>>)> = match uuid {
        Some(u) => seq![("godot-device-uuid"@, Some(hex_text(u.bytes@)))],
        None => Seq::empty(),
    };
    s1 + s2 + s3 + s4 + s5 + s6 + s7
}

/// The switches added to the command line of each child process before it
/// is launched.
pub fn child_process_switches(
    security: &SecurityConfig,
    gpu: Option<GpuDeviceIds>,
    luid: Option<AdapterLuid>,
    uuid: Option<DeviceUuid>,
) -> (r: Vec<Switch>)
    ensures
        switches_view(r@) == child_process_switches_spec(*security, gpu, luid, uuid),
{
    let mut v: Vec<Switch> = Vec::new();
    if security.disable_web_security {
        v.push(flag("disable-web-security"));
    }
    if security.allow_insecure_content {
        v.push(flag("allow-running-insecure-content"));
    }
    if security.ignore_certificate_errors {
        v.push(flag("ignore-certificate-errors"));
        v.push(flag("ignore-ssl-errors"));
    }
    v.push(flag("disable-session-crashed-bubble"));
    v.push(flag("enable-logging=stderr"));
    match gpu {
        Some(ids) => {
            v.push(valued("gpu-vendor-id", ids.to_vendor_arg()));
            v.push(valued("gpu-device-id", ids.to_device_arg()));
        },
        None => {},
    }
    match luid {
        Some(l) => {
            v.push(valued("godot-adapter-luid", l.to_arg_string()));
        },
        None => {},
    }
    match uuid {
        Some(u) => {
            v.push(valued("godot-device-uuid", u.to_arg_string()));
        },
        None => {},
    }
    assert(switches_view(v@) =~= child_process_switches_spec(*security, gpu, luid, uuid));
    v
}

} // verus!
