//! Which rendering backend Godot runs on, whether textures can be shared
//! with CEF on it, and whether the browser may open a DevTools port.

use vstd::prelude::*;
use crate::app_config::GodotRenderBackend;
use crate::keycode::TargetOs;
use crate::mime::{to_lowercase, unicode_lowercase};
use crate::text::{chars_of, has_prefix_at, starts_with};

verus! {

/// The rendering drivers Godot may run on.
#[derive(Clone, Copy, Debug, PartialEq, Eq, Structural)]
pub enum RenderBackend {
    Metal,
    Vulkan,
    D3D12,
    OpenGL,
    Unknown,
}

/// Whether `p` occurs in `s`.
pub open spec fn contains_seq(s: Seq<char>, p: Seq<char>) -> bool {
    exists|i: int| 0 <= i <= s.len() - p.len() && #[trigger] s.skip(i).take(p.len() as int) == p
}

/// Whether `lit` occurs in `s`.
fn contains_str(s: &Vec<char>, lit: &str) -> (r: bool)
    ensures
        r == contains_seq(s@, lit@),
{
    let p = chars_of(lit);
    let n = s.len();
    if p.len() > n {
        assert(!contains_seq(s@, lit@));
        return false;
    }
    let last = n - p.len();
    let mut i: usize = 0;
    loop
        invariant
            p@ == lit@,
            n == s@.len(),
            p@.len() <= n,
            last == n - p@.len(),
            i <= last,
            forall|j: int| 0 <= j < i ==> #[trigger] s@.skip(j).take(p@.len() as int) != p@,
        decreases last - i,
    {
        assert(s@.subrange(i as int, n as int).take(p@.len() as int) =~= s@.skip(i as int).take(
            p@.len() as int,
        ));
        if has_prefix_at(s, i, n, &p) {
            return true;
        }
        if i == last {
            return false;
        }
        i = i + 1;
    }
}

/// The backend a rendering driver name stands for, judged on its lowercase
/// form: Metal, Vulkan or Direct3D 12 by name, OpenGL for `opengl` or
/// `gl_`, unknown otherwise.
pub open spec fn backend_of_lowercase(name: Seq<char>) -> RenderBackend {
    if contains_seq(name, "metal"@) {
        RenderBackend::Metal
    } else if contains_seq(name, "vulkan"@) {
        RenderBackend::Vulkan
    } else if contains_seq(name, "d3d12"@) {
        RenderBackend::D3D12
    } else if contains_seq(name, "opengl"@) || contains_seq(name, "gl_"@) {
        RenderBackend::OpenGL
    } else {
        RenderBackend::Unknown
    }
}

/// The backend of the rendering driver Godot reports (such as `vulkan`,
/// `metal`, `d3d12` or `opengl3`).
pub fn render_backend_of(driver_name: &str) -> (r: RenderBackend)
    ensures
        r == backend_of_lowercase(unicode_lowercase(driver_name@)),
{
    let lower = to_lowercase(driver_name);
    let c = chars_of(lower.as_str());
    if contains_str(&c, "metal") {
        RenderBackend::Metal
    } else if contains_str(&c, "vulkan") {
        RenderBackend::Vulkan
    } else if contains_str(&c, "d3d12") {
        RenderBackend::D3D12
    } else if contains_str(&c, "opengl") || contains_str(&c, "gl_") {
        RenderBackend::OpenGL
    } else {
        RenderBackend::Unknown
    }
}

/// Whether textures can be shared with CEF on a backend: Metal on macOS,
/// Direct3D 12 on Windows, Vulkan on x86-64 Windows and Linux.
pub open spec fn accelerated_osr_supported(b: RenderBackend, os: TargetOs, x86_64: bool) -> bool {
    match b {
        RenderBackend::Metal => os == TargetOs::MacOs,
        RenderBackend::D3D12 => os == TargetOs::Windows,
        RenderBackend::Vulkan => x86_64 && (os == TargetOs::Windows || os == TargetOs::Linux),
        _ => false,
    }
}

impl RenderBackend {
    /// Whether accelerated off-screen rendering works on this backend, for
    /// the given operating system and whether the CPU is x86-64.
    pub fn supports_accelerated_osr(&self, os: TargetOs, x86_64: bool) -> (r: bool)
        ensures
            r == accelerated_osr_supported(*self, os, x86_64),
    {
        match self {
            RenderBackend::Metal => os == TargetOs::MacOs,
            RenderBackend::D3D12 => os == TargetOs::Windows,
            RenderBackend::Vulkan => x86_64 && (os == TargetOs::Windows || os == TargetOs::Linux),
            _ => false,
        }
    }
}

/// The backend as the CEF application knows it.
pub open spec fn godot_backend_of(b: RenderBackend) -> GodotRenderBackend {
    match b {
        RenderBackend::Metal => GodotRenderBackend::Metal,
        RenderBackend::Vulkan => GodotRenderBackend::Vulkan,
        RenderBackend::D3D12 => GodotRenderBackend::Direct3D12,
        _ => GodotRenderBackend::Unknown,
    }
}

/// The backend as the CEF application knows it.
pub fn godot_render_backend(b: RenderBackend) -> (r: GodotRenderBackend)
    ensures
        r == godot_backend_of(b),
{
    match b {
        RenderBackend::Metal => GodotRenderBackend::Metal,
        RenderBackend::Vulkan => GodotRenderBackend::Vulkan,
        RenderBackend::D3D12 => GodotRenderBackend::Direct3D12,
        _ => GodotRenderBackend::Unknown,
    }
}

/// Remote debugging is only enabled in debug builds of Godot or when running
/// from the editor, never in exported release builds.
pub fn should_enable_remote_debugging(is_debug_build: bool, is_editor_hint: bool) -> (r: bool)
    ensures
        r == (is_debug_build || is_editor_hint),
{
    is_debug_build || is_editor_hint
}

} // verus!
