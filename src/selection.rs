//! Choosing a physical device and its queue families for one surface.
use vstd::prelude::*;

use crate::config::{names_view, VkConfig};
use crate::error::VkError;
use crate::vulkan::{has_flags, queue_flags_contain, QUEUE_GRAPHICS, QUEUE_TRANSFER};

verus! {

/// What the driver reports of one queue family, with its presentation support for
/// the surface being negotiated.
#[derive(Clone, Copy, Debug, PartialEq, Eq, Structural)]
pub struct QueueFamilyProfile {
    /// Raw `VkQueueFlags` of the family.
    pub flags: u32,
    /// Number of queues in the family.
    pub queue_count: u32,
    /// The family can present to the surface.
    pub presents: bool,
}

/// What the driver reports of one physical device: its queue families in index
/// order and the names of the device extensions it supports.
#[derive(Clone, Debug)]
pub struct DeviceProfile {
    pub queue_families: Vec<QueueFamilyProfile>,
    pub extensions: Vec<String>,
}

/// The outcome of a selection pass: the chosen device's position in the
/// enumeration and the families that serve graphics/presentation and transfer.
#[derive(Clone, Copy, Debug, PartialEq, Eq, Structural)]
pub struct Selection {
    pub device_index: usize,
    pub graphics_family: u32,
    pub transfer_family: u32,
}

/// The family can draw and present to the surface.
pub open spec fn is_present_candidate(f: QueueFamilyProfile) -> bool {
    has_flags(f.flags, QUEUE_GRAPHICS) && f.presents
}

/// The family at `i` can serve transfers apart from the graphics family `g`.
pub open spec fn is_transfer_candidate(fams: Seq<QueueFamilyProfile>, i: int, g: int) -> bool {
    i != g && has_flags(fams[i].flags, QUEUE_TRANSFER)
}

/// `i` is the lowest index of a family that satisfies `is_present_candidate`.
pub open spec fn is_first_present_family(fams: Seq<QueueFamilyProfile>, i: int) -> bool {
    &&& 0 <= i < fams.len()
    &&& is_present_candidate(fams[i])
    &&& forall|k: int| 0 <= k < i ==> !is_present_candidate(#[trigger] fams[k])
}

pub open spec fn has_present_family(fams: Seq<QueueFamilyProfile>) -> bool {
    exists|i: int| 0 <= i < fams.len() && is_present_candidate(#[trigger] fams[i])
}

/// `i` is the lowest index of a transfer family other than `g`.
pub open spec fn is_first_transfer_family(fams: Seq<QueueFamilyProfile>, i: int, g: int) -> bool {
    &&& 0 <= i < fams.len()
    &&& is_transfer_candidate(fams, i, g)
    &&& forall|k: int| 0 <= k < i ==> !is_transfer_candidate(fams, k, g)
}

pub open spec fn has_transfer_family(fams: Seq<QueueFamilyProfile>, g: int) -> bool {
    exists|i: int| 0 <= i < fams.len() && is_transfer_candidate(fams, i, g)
}

/// Every required name is among the offered ones.
pub open spec fn offers_all(offered: Seq<Seq<char>>, required: Seq<Seq<char>>) -> bool {
    forall|j: int| 0 <= j < required.len() ==> offered.contains(#[trigger] required[j])
}

/// The device has a family that draws and presents, and every required extension.
pub open spec fn is_suitable(d: DeviceProfile, required: Seq<Seq<char>>) -> bool {
    has_present_family(d.queue_families@) && offers_all(names_view(d.extensions@), required)
}

/// `idx` is the first suitable device of the enumeration.
pub open spec fn is_first_suitable(devices: Seq<DeviceProfile>, required: Seq<Seq<char>>, idx: int) -> bool {
    &&& 0 <= idx < devices.len()
    &&& is_suitable(devices[idx], required)
    &&& forall|k: int| 0 <= k < idx ==> !is_suitable(#[trigger] devices[k], required)
}

pub open spec fn has_suitable(devices: Seq<DeviceProfile>, required: Seq<Seq<char>>) -> bool {
    exists|k: int| 0 <= k < devices.len() && is_suitable(#[trigger] devices[k], required)
}

/// The transfer family that goes with graphics family `g`: the first other family
/// with transfer support when a dedicated one is wanted and exists, else `g` itself.
pub open spec fn is_transfer_choice(fams: Seq<QueueFamilyProfile>, g: int, t: int, want_dedicated: bool) -> bool {
    if want_dedicated && has_transfer_family(fams, g) {
        is_first_transfer_family(fams, t, g)
    } else {
        t == g
    }
}

/// The selection that the algorithm owes for a set of devices and a configuration.
pub open spec fn is_selection_for(
    devices: Seq<DeviceProfile>,
    required: Seq<Seq<char>>,
    want_dedicated: bool,
    s: Selection,
) -> bool {
    let fams = devices[s.device_index as int].queue_families@;
    &&& is_first_suitable(devices, required, s.device_index as int)
    &&& is_first_present_family(fams, s.graphics_family as int)
    &&& is_transfer_choice(fams, s.graphics_family as int, s.transfer_family as int, want_dedicated)
}

/// Queue family indices are 32-bit in the API.
pub open spec fn families_indexable(devices: Seq<DeviceProfile>) -> bool {
    forall|k: int| 0 <= k < devices.len() ==> #[trigger] devices[k].queue_families@.len() <= u32::MAX
}

/// The lowest index of a family that can draw and present, if any.
pub fn find_present_family(fams: &Vec<QueueFamilyProfile>) -> (r: Option<u32>)
    requires
        fams@.len() <= u32::MAX,
    ensures
        match r {
            Some(i) => is_first_present_family(fams@, i as int),
            None => !has_present_family(fams@),
        },
{
    let mut i: usize = 0;
    while i < fams.len()
        invariant
            i <= fams@.len() <= u32::MAX,
            forall|k: int| 0 <= k < i ==> !is_present_candidate(#[trigger] fams@[k]),
        decreases fams@.len() - i,
    {
        let f = fams[i];
        if f.presents && queue_flags_contain(f.flags, QUEUE_GRAPHICS) {
            return Some(i as u32);
        }
        i = i + 1;
    }
    None
}

/// The lowest index of a family, other than `g`, that supports transfers, if any.
pub fn find_transfer_family(fams: &Vec<QueueFamilyProfile>, g: u32) -> (r: Option<u32>)
    requires
        fams@.len() <= u32::MAX,
    ensures
        match r {
            Some(i) => is_first_transfer_family(fams@, i as int, g as int),
            None => !has_transfer_family(fams@, g as int),
        },
{
    let mut i: usize = 0;
    while i < fams.len()
        invariant
            i <= fams@.len() <= u32::MAX,
            forall|k: int| 0 <= k < i ==> !is_transfer_candidate(fams@, k, g as int),
        decreases fams@.len() - i,
    {
        if i as u32 != g && queue_flags_contain(fams[i].flags, QUEUE_TRANSFER) {
            return Some(i as u32);
        }
        i = i + 1;
    }
    None
}

/// Whether `name` is one of `names`.
pub fn contains_name(names: &Vec<String>, name: &String) -> (r: bool)
    ensures
        r == names_view(names@).contains(name@),
{
    let mut i: usize = 0;
    while i < names.len()
        invariant
            i <= names@.len(),
            forall|k: int| 0 <= k < i ==> names@[k]@ != name@,
        decreases names@.len() - i,
    {
        if names[i] == *name {
            assert(names_view(names@)[i as int] == name@);
            return true;
        }
        i = i + 1;
    }
    proof {
        if names_view(names@).contains(name@) {
            let k = choose|k: int| 0 <= k < names_view(names@).len() && names_view(names@)[k] == name@;
            assert(names@[k]@ == name@);
        }
    }
    false
}

/// Whether every name of `required` is among `offered`.
pub fn offers_all_names(offered: &Vec<String>, required: &Vec<String>) -> (r: bool)
    ensures
        r == offers_all(names_view(offered@), names_view(required@)),
{
    let mut j: usize = 0;
    while j < required.len()
        invariant
            j <= required@.len(),
            forall|k: int| 0 <= k < j ==> names_view(offered@).contains(#[trigger] names_view(required@)[k]),
        decreases required@.len() - j,
    {
        if !contains_name(offered, &required[j]) {
            assert(!names_view(offered@).contains(names_view(required@)[j as int]));
            return false;
        }
        j = j + 1;
    }
    true
}

/// Picks the first device, in enumeration order, that has a family able to draw
/// and present to the surface and offers every required extension; within it, the
/// lowest such family, and a transfer family as `is_transfer_choice` describes.
pub fn select_device(devices: &Vec<DeviceProfile>, config: &VkConfig) -> (r: Result<Selection, VkError>)
    requires
        families_indexable(devices@),
    ensures
        match r {
            Ok(s) => is_selection_for(
                devices@,
                config.required_names(),
                config.required_dedicated_transfer_queue,
                s,
            ),
            Err(e) => {
                &&& devices@.len() == 0 ==> e == VkError::NoPhysicalDevices
                &&& devices@.len() > 0 ==> e == VkError::NoSuitableDevice
                &&& !has_suitable(devices@, config.required_names())
            },
        },
{
    if devices.len() == 0 {
        return Err(VkError::NoPhysicalDevices);
    }
    let mut d: usize = 0;
    while d < devices.len()
        invariant
            d <= devices@.len(),
            families_indexable(devices@),
            forall|k: int| 0 <= k < d ==> !is_suitable(#[trigger] devices@[k], config.required_names()),
        decreases devices@.len() - d,
    {
        let dev = &devices[d];
        assert(dev.queue_families@.len() <= u32::MAX);
        match find_present_family(&dev.queue_families) {
            Some(g) => {
                if offers_all_names(&dev.extensions, &config.required_device_extensions) {
                    let mut t = g;
                    if config.required_dedicated_transfer_queue {
                        match find_transfer_family(&dev.queue_families, g) {
                            Some(i) => {
                                t = i;
                            },
                            None => {},
                        }
                    }
                    return Ok(Selection { device_index: d, graphics_family: g, transfer_family: t });
                }
            },
            None => {},
        }
        d = d + 1;
    }
    Err(VkError::NoSuitableDevice)
}

} // verus!
