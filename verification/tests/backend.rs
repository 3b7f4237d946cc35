use gdcef::app_config::GodotRenderBackend;
use gdcef::backend::{godot_render_backend, render_backend_of, should_enable_remote_debugging, RenderBackend};
use gdcef::keycode::TargetOs;

#[test]
fn driver_names_map_to_backends() {
    assert_eq!(render_backend_of("vulkan"), RenderBackend::Vulkan);
    assert_eq!(render_backend_of("Metal"), RenderBackend::Metal);
    assert_eq!(render_backend_of("d3d12"), RenderBackend::D3D12);
    assert_eq!(render_backend_of("opengl3"), RenderBackend::OpenGL);
    assert_eq!(render_backend_of("opengl3_es"), RenderBackend::OpenGL);
    assert_eq!(render_backend_of("some_gl_driver"), RenderBackend::OpenGL);
    assert_eq!(render_backend_of("dummy"), RenderBackend::Unknown);
    assert_eq!(render_backend_of(""), RenderBackend::Unknown);
}

#[test]
fn accelerated_rendering_support_per_platform() {
    assert!(RenderBackend::Metal.supports_accelerated_osr(TargetOs::MacOs, false));
    assert!(!RenderBackend::Metal.supports_accelerated_osr(TargetOs::Linux, true));
    assert!(RenderBackend::D3D12.supports_accelerated_osr(TargetOs::Windows, false));
    assert!(RenderBackend::Vulkan.supports_accelerated_osr(TargetOs::Linux, true));
    assert!(!RenderBackend::Vulkan.supports_accelerated_osr(TargetOs::Linux, false));
    assert!(!RenderBackend::Vulkan.supports_accelerated_osr(TargetOs::MacOs, true));
    assert!(!RenderBackend::OpenGL.supports_accelerated_osr(TargetOs::Windows, true));
}

#[test]
fn backend_as_the_app_knows_it() {
    assert_eq!(godot_render_backend(RenderBackend::D3D12), GodotRenderBackend::Direct3D12);
    assert_eq!(godot_render_backend(RenderBackend::OpenGL), GodotRenderBackend::Unknown);
    assert!(should_enable_remote_debugging(false, true));
    assert!(!should_enable_remote_debugging(false, false));
}
