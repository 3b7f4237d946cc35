use gdcef::vulkan_ext::{device_extensions, extension_listed};

fn v(names: &[&str]) -> Vec<String> {
    names.iter().map(|s| s.to_string()).collect()
}

#[test]
fn listed_extensions() {
    let l = v(&["VK_KHR_swapchain", "VK_KHR_external_memory"]);
    assert!(extension_listed(&l, "VK_KHR_external_memory"));
    assert!(!extension_listed(&l, "VK_KHR_external_memory_fd"));
    assert!(!extension_listed(&[], "VK_KHR_swapchain"));
}

#[test]
fn missing_supported_extensions_are_appended() {
    let supported = v(&[
        "VK_KHR_swapchain",
        "VK_KHR_external_memory",
        "VK_KHR_external_memory_fd",
        "VK_EXT_external_memory_dma_buf",
    ]);
    let enabled = v(&["VK_KHR_swapchain", "VK_KHR_external_memory"]);
    assert_eq!(
        device_extensions(&supported, &enabled),
        Some(v(&[
            "VK_KHR_swapchain",
            "VK_KHR_external_memory",
            "VK_KHR_external_memory_fd",
            "VK_EXT_external_memory_dma_buf",
        ]))
    );
}

#[test]
fn nothing_to_add_keeps_godots_list() {
    let supported = v(&["VK_KHR_swapchain"]);
    let enabled = v(&["VK_KHR_swapchain"]);
    assert_eq!(device_extensions(&supported, &enabled), None);
    let all = v(&["VK_KHR_external_memory", "VK_KHR_external_memory_fd", "VK_EXT_external_memory_dma_buf"]);
    assert_eq!(device_extensions(&all, &all), None);
}
