//! The device extensions added to Godot's Vulkan device so that CEF's
//! textures can be imported through DMA-BUF file descriptors (Linux).
//!
//! The hook that intercepts `vkCreateDevice` asks the driver which
//! extensions the device supports and reads the ones Godot enables; the
//! extension list the device is then created with is computed here.

use vstd::prelude::*;
use crate::mime::eq_literal;
use crate::text::chars_of;

verus! {

pub const VK_KHR_EXTERNAL_MEMORY_NAME: &'static str = "VK_KHR_external_memory";
pub const VK_KHR_EXTERNAL_MEMORY_FD_NAME: &'static str = "VK_KHR_external_memory_fd";
pub const VK_EXT_EXTERNAL_MEMORY_DMA_BUF_NAME: &'static str = "VK_EXT_external_memory_dma_buf";

/// The text of a list of extension names.
pub open spec fn names_view(v: Seq<String>) -> Seq<Seq<char>> {
    v.map_values(|s: String| s@)
}

/// Whether the extension `name` is in the list `list`.
pub fn extension_listed(list: &[String], name: &str) -> (r: bool)
    ensures
        r == names_view(list@).contains(name@),
{
    let mut i: usize = 0;
    while i < list.len()
        invariant
            i <= list@.len(),
            forall|j: int| 0 <= j < i ==> #[trigger] list@[j]@ != name@,
        decreases list.len() - i,
    {
        let c = chars_of(list[i].as_str());
        if eq_literal(&c, name) {
            assert(names_view(list@)[i as int] == name@);
            return true;
        }
        i = i + 1;
    }
    assert(!names_view(list@).contains(name@)) by {
        if names_view(list@).contains(name@) {
            let j = choose|j: int| 0 <= j < names_view(list@).len() && names_view(list@)[j] == name@;
            assert(list@[j]@ == name@);
        }
    }
    false
}

/// Whether an extension must be added: the device supports it and it is not
/// enabled yet.
pub open spec fn needs(supported: Seq<Seq<char>>, enabled: Seq<Seq<char>>, name: Seq<char>) -> bool {
    supported.contains(name) && !enabled.contains(name)
}

/// The extensions to add, in this order: external memory, external memory
/// file descriptors, DMA-BUF external memory, each where it is needed.
pub open spec fn missing_extensions(supported: Seq<Seq<char>>, enabled: Seq<Seq<char>>) -> Seq<
    Seq<char>,
> {
    let a: Seq<Seq<char>> = if needs(supported, enabled, VK_KHR_EXTERNAL_MEMORY_NAME@) {
        seq![VK_KHR_EXTERNAL_MEMORY_NAME@]
    } else {
        Seq::empty()
    };
    let b: Seq<Seq<char>> = if needs(supported, enabled, VK_KHR_EXTERNAL_MEMORY_FD_NAME@) {
        seq![VK_KHR_EXTERNAL_MEMORY_FD_NAME@]
    } else {
        Seq::empty()
    };
    let c: Seq<Seq<char>> = if needs(supported, enabled, VK_EXT_EXTERNAL_MEMORY_DMA_BUF_NAME@) {
        seq![VK_EXT_EXTERNAL_MEMORY_DMA_BUF_NAME@]
    } else {
        Seq::empty()
    };
    a + b + c
}

/// The extension list to create the device with, given those the device
/// supports and those Godot enables: Godot's list followed by the missing
/// external-memory extensions; `None` where none is missing, and the device
/// is created as Godot asked.
pub fn device_extensions(supported: &[String], enabled: &[String]) -> (r: Option<Vec<String>>)
    ensures
        missing_extensions(names_view(supported@), names_view(enabled@)).len() == 0 ==> r is None,
        missing_extensions(names_view(supported@), names_view(enabled@)).len() > 0 ==> (r matches Some(
            v,
        ) && names_view(v@) == names_view(enabled@) + missing_extensions(
            names_view(supported@),
            names_view(enabled@),
        )),
{
    let need_external_memory = extension_listed(supported, VK_KHR_EXTERNAL_MEMORY_NAME)
        && !extension_listed(enabled, VK_KHR_EXTERNAL_MEMORY_NAME);
    let need_external_memory_fd = extension_listed(supported, VK_KHR_EXTERNAL_MEMORY_FD_NAME)
        && !extension_listed(enabled, VK_KHR_EXTERNAL_MEMORY_FD_NAME);
    let need_dma_buf = extension_listed(supported, VK_EXT_EXTERNAL_MEMORY_DMA_BUF_NAME)
        && !extension_listed(enabled, VK_EXT_EXTERNAL_MEMORY_DMA_BUF_NAME);
    if !need_external_memory && !need_external_memory_fd && !need_dma_buf {
        return None;
    }
    let mut out: Vec<String> = Vec::new();
    let mut i: usize = 0;
    while i < enabled.len()
        invariant
            i <= enabled@.len(),
            out@.len() == i,
            forall|k: int| 0 <= k < i ==> #[trigger] out@[k]@ == enabled@[k]@,
        decreases enabled.len() - i,
    {
        let name = enabled[i].clone();
        out.push(name);
        i = i + 1;
    }
    assert(names_view(out@) =~= names_view(enabled@));
    let ghost base = out@;
    if need_external_memory {
        out.push(VK_KHR_EXTERNAL_MEMORY_NAME.to_string());
    }
    if need_external_memory_fd {
        out.push(VK_KHR_EXTERNAL_MEMORY_FD_NAME.to_string());
    }
    if need_dma_buf {
        out.push(VK_EXT_EXTERNAL_MEMORY_DMA_BUF_NAME.to_string());
    }
    assert(names_view(out@) =~= names_view(enabled@) + missing_extensions(
        names_view(supported@),
        names_view(enabled@),
    ));
    Some(out)
}

/// Every extension in the list a device is created with is either one
/// Godot enabled or one the device supports.
pub proof fn lemma_injected_extensions_supported(
    supported: Seq<Seq<char>>,
    enabled: Seq<Seq<char>>,
    name: Seq<char>,
)
    requires
        (enabled + missing_extensions(supported, enabled)).contains(name),
    ensures
        enabled.contains(name) || supported.contains(name),
{
    let all = enabled + missing_extensions(supported, enabled);
    let j = choose|j: int| 0 <= j < all.len() && all[j] == name;
    if j >= enabled.len() {
        assert(missing_extensions(supported, enabled)[j - enabled.len()] == name);
    } else {
        assert(enabled[j] == name);
    }
}

} // verus!
