use vstd::prelude::*;

use crate::vulkan::{surface_extension, surface_extension_name, swapchain_extension, swapchain_extension_name};

verus! {

/// The views of a list of names.
pub open spec fn names_view(names: Seq<String>) -> Seq<Seq<char>> {
    names.map_values(|s: String| s@)
}

/// What the caller asks of a context before it is built.
#[derive(Debug)]
pub struct VkConfig {
    /// Lowest acceptable API version, as (major, minor).
    pub minimum_version: (u8, u8),
    /// Enable the Khronos validation layer on the instance.
    pub request_validation_layers: bool,
    /// Install a debug messenger that logs validation and driver messages.
    pub use_default_debug_messenger: bool,
    /// Prefer a transfer queue family distinct from the graphics one.
    pub required_dedicated_transfer_queue: bool,
    /// Device extensions a physical device must offer to be selected.
    pub required_device_extensions: Vec<String>,
}

impl VkConfig {
    /// The views of the required device extension names.
    pub open spec fn required_names(&self) -> Seq<Seq<char>> {
        names_view(self.required_device_extensions@)
    }
}

impl Clone for VkConfig {
    fn clone(&self) -> (r: VkConfig)
        ensures
            r.minimum_version == self.minimum_version,
            r.request_validation_layers == self.request_validation_layers,
            r.use_default_debug_messenger == self.use_default_debug_messenger,
            r.required_dedicated_transfer_queue == self.required_dedicated_transfer_queue,
            r.required_names() == self.required_names(),
    {
        let mut exts: Vec<String> = Vec::new();
        let mut i: usize = 0;
        while i < self.required_device_extensions.len()
            invariant
                i <= self.required_device_extensions@.len(),
                exts@.len() == i,
                forall|j: int| 0 <= j < i ==> #[trigger] exts@[j]@ == self.required_device_extensions@[j]@,
            decreases self.required_device_extensions@.len() - i,
        {
            exts.push(self.required_device_extensions[i].clone());
            i = i + 1;
        }
        assert(names_view(exts@) =~= names_view(self.required_device_extensions@));
        VkConfig {
            minimum_version: self.minimum_version,
            request_validation_layers: self.request_validation_layers,
            use_default_debug_messenger: self.use_default_debug_messenger,
            required_dedicated_transfer_queue: self.required_dedicated_transfer_queue,
            required_device_extensions: exts,
        }
    }
}

impl Default for VkConfig {
    fn default() -> (r: VkConfig)
        ensures
            r.minimum_version == (1u8, 2u8),
            !r.request_validation_layers,
            r.use_default_debug_messenger,
            !r.required_dedicated_transfer_queue,
            r.required_names() == seq![swapchain_extension(), surface_extension()],
    {
        let mut exts: Vec<String> = Vec::new();
        exts.push(swapchain_extension_name());
        exts.push(surface_extension_name());
        let r = VkConfig {
            minimum_version: (1, 2),
            request_validation_layers: false,
            use_default_debug_messenger: true,
            required_dedicated_transfer_queue: false,
            required_device_extensions: exts,
        };
        assert(r.required_names() =~= seq![swapchain_extension(), surface_extension()]);
        r
    }
}

} // verus!
