//! Instance negotiation: the version check and the extension and layer lists.
use vstd::prelude::*;

use crate::config::{names_view, VkConfig};
use crate::error::VkError;
use crate::selection::contains_name;
use crate::vulkan::{debug_utils_extension, debug_utils_extension_name, version_major, version_minor};

verus! {

/// Name of the Khronos validation layer.
pub open spec fn validation_layer() -> Seq<char> {
    "VK_LAYER_KHRONOS_validation"@
}

/// The packed version `reported` is at least `minimum` (major, minor).
pub open spec fn version_at_least(reported: u32, minimum: (u8, u8)) -> bool {
    ||| version_major(reported) > minimum.0
    ||| (version_major(reported) == minimum.0 && version_minor(reported) >= minimum.1)
}

/// The instance extensions to enable: those the surface needs, then the debug
/// utilities extension when a debug messenger is wanted and it is not already listed.
pub open spec fn merged_extensions(required: Seq<Seq<char>>, want_debug: bool) -> Seq<Seq<char>> {
    if want_debug && !required.contains(debug_utils_extension()) {
        required.push(debug_utils_extension())
    } else {
        required
    }
}

/// The API version to request at instance creation: the configured minimum.
pub open spec fn requested_version(minimum: (u8, u8)) -> u32 {
    ((minimum.0 as u32) << 22u32) | ((minimum.1 as u32) << 12u32)
}

/// Whether a runtime reporting the packed version `reported` meets `minimum`.
pub fn version_supported(reported: u32, minimum: (u8, u8)) -> (r: bool)
    ensures
        r == version_at_least(reported, minimum),
{
    let major = ash::vk::api_version_major(reported);
    let minor = ash::vk::api_version_minor(reported);
    major > minimum.0 as u32 || (major == minimum.0 as u32 && minor >= minimum.1 as u32)
}

/// Fails with `VersionNotSupported` exactly when the runtime's version is below the
/// configured minimum.
pub fn check_version(config: &VkConfig, reported: u32) -> (r: Result<(), VkError>)
    ensures
        r is Ok <==> version_at_least(reported, config.minimum_version),
        r is Err ==> r == Err::<(), VkError>(VkError::VersionNotSupported),
{
    if version_supported(reported, config.minimum_version) {
        Ok(())
    } else {
        Err(VkError::VersionNotSupported)
    }
}

/// The packed API version to ask for when the instance is created.
pub fn requested_api_version(config: &VkConfig) -> (r: u32)
    ensures
        r == requested_version(config.minimum_version),
{
    let (major, minor) = config.minimum_version;
    let (a, b) = (major as u32, minor as u32);
    let r = ash::vk::make_api_version(0, a, b, 0);
    assert(((0u32 << 29u32) | (a << 22u32) | (b << 12u32) | 0u32) == ((a << 22u32) | (b << 12u32)))
        by (bit_vector);
    r
}

/// The instance extensions to enable for a surface that needs `required`.
pub fn instance_extensions(config: &VkConfig, required: &Vec<String>) -> (r: Vec<String>)
    ensures
        names_view(r@) == merged_extensions(names_view(required@), config.use_default_debug_messenger),
{
    let mut r: Vec<String> = Vec::new();
    let mut i: usize = 0;
    while i < required.len()
        invariant
            i <= required@.len(),
            r@.len() == i,
            forall|j: int| 0 <= j < i ==> #[trigger] r@[j]@ == required@[j]@,
        decreases required@.len() - i,
    {
        r.push(required[i].clone());
        i = i + 1;
    }
    assert(names_view(r@) =~= names_view(required@));
    if config.use_default_debug_messenger {
        let debug = debug_utils_extension_name();
        if !contains_name(required, &debug) {
            r.push(debug);
            assert(names_view(r@) =~= names_view(required@).push(debug_utils_extension()));
        }
    }
    r
}

/// The instance layers to enable: the validation layer when it is requested.
pub fn instance_layers(config: &VkConfig) -> (r: Vec<String>)
    ensures
        names_view(r@) == (if config.request_validation_layers {
            seq![validation_layer()]
        } else {
            Seq::<Seq<char>>::empty()
        }),
{
    let mut r: Vec<String> = Vec::new();
    if config.request_validation_layers {
        r.push(String::from_str("VK_LAYER_KHRONOS_validation"));
        proof {
            reveal_strlit("VK_LAYER_KHRONOS_validation");
        }
    }
    assert(names_view(r@) =~= (if config.request_validation_layers {
        seq![validation_layer()]
    } else {
        Seq::<Seq<char>>::empty()
    }));
    r
}

} // verus!
