//! Planning the logical device: which queue families to request, which role each
//! queue serves, and which device extensions to enable.
use vstd::prelude::*;

use crate::config::{names_view, VkConfig};
use crate::selection::{contains_name, Selection};
use crate::vulkan::{swapchain_extension, swapchain_extension_name};

verus! {

/// The work a queue is handed out for.
#[derive(Clone, Copy, Debug, PartialEq, Eq, Structural)]
pub enum QueueRole {
    Graphics,
    Transfer,
    VideoDecode,
    VideoEncode,
}

/// One role served by the first queue of a family.
#[derive(Clone, Copy, Debug, PartialEq, Eq, Structural)]
pub struct QueueAllocation {
    pub family_index: u32,
    pub role: QueueRole,
}

/// What the logical device is created with, and how its queues are handed out.
#[derive(Clone, Debug)]
pub struct DevicePlan {
    /// Families to request one queue from, each listed once.
    pub queue_families: Vec<u32>,
    /// The role of each handed-out queue; roles sharing a family share its queue.
    pub allocations: Vec<QueueAllocation>,
    /// Device extensions to enable.
    pub extensions: Vec<String>,
}

/// The required device extensions, with the swapchain extension added when absent.
pub open spec fn with_swapchain(required: Seq<Seq<char>>) -> Seq<Seq<char>> {
    if required.contains(swapchain_extension()) {
        required
    } else {
        required.push(swapchain_extension())
    }
}

/// The families a selection requests: the graphics family, then the transfer
/// family when it differs.
pub open spec fn requested_families(s: Selection) -> Seq<u32> {
    if s.graphics_family == s.transfer_family {
        seq![s.graphics_family]
    } else {
        seq![s.graphics_family, s.transfer_family]
    }
}

/// The queue roles a selection hands out.
pub open spec fn role_allocations(s: Selection) -> Seq<QueueAllocation> {
    seq![
        QueueAllocation { family_index: s.graphics_family, role: QueueRole::Graphics },
        QueueAllocation { family_index: s.transfer_family, role: QueueRole::Transfer },
    ]
}

impl DevicePlan {
    /// The family whose queue serves `role`: that of the first allocation for it.
    pub fn family_for(&self, role: QueueRole) -> (r: Option<u32>)
        ensures
            match r {
                Some(f) => exists|k: int|
                    {
                        &&& 0 <= k < self.allocations@.len()
                        &&& #[trigger] self.allocations@[k] == (QueueAllocation { family_index: f, role })
                        &&& forall|j: int| 0 <= j < k ==> self.allocations@[j].role != role
                    },
                None => forall|k: int| 0 <= k < self.allocations@.len() ==> #[trigger] self.allocations@[k].role != role,
            },
    {
        let mut i: usize = 0;
        while i < self.allocations.len()
            invariant
                i <= self.allocations@.len(),
                forall|k: int| 0 <= k < i ==> #[trigger] self.allocations@[k].role != role,
            decreases self.allocations@.len() - i,
        {
            let a = self.allocations[i];
            if a.role == role {
                assert(self.allocations@[i as int] == (QueueAllocation { family_index: a.family_index, role }));
                return Some(a.family_index);
            }
            i = i + 1;
        }
        None
    }
}

/// The device extensions to enable for `config`.
pub fn device_extensions(config: &VkConfig) -> (r: Vec<String>)
    ensures
        names_view(r@) == with_swapchain(config.required_names()),
{
    let required = &config.required_device_extensions;
    let mut r: Vec<String> = Vec::new();
    let mut i: usize = 0;
    while i < required.len()
        invariant
            i <= required@.len(),
            r@.len() == i,
            forall|j: int| 0 <= j < i ==> #[trigger] r@[j]@ == required@[j]@,
        decreases required@.len() - i,
    {
        r.push(required[i].clone());
        i = i + 1;
    }
    assert(names_view(r@) =~= names_view(required@));
    let swapchain = swapchain_extension_name();
    if !contains_name(required, &swapchain) {
        r.push(swapchain);
        assert(names_view(r@) =~= names_view(required@).push(swapchain_extension()));
    }
    r
}

/// The logical-device plan for a selection: exactly the families that the handed
/// out queues use, each once, and the extensions of `device_extensions`.
pub fn plan_device(selection: &Selection, config: &VkConfig) -> (r: DevicePlan)
    ensures
        r.queue_families@ == requested_families(*selection),
        r.allocations@ == role_allocations(*selection),
        names_view(r.extensions@) == with_swapchain(config.required_names()),
        forall|k: int| 0 <= k < r.allocations@.len()
            ==> r.queue_families@.contains(#[trigger] r.allocations@[k].family_index),
        forall|i: int, j: int|
            0 <= i < j < r.queue_families@.len() ==> r.queue_families@[i] != r.queue_families@[j],
{
    let mut families: Vec<u32> = Vec::new();
    families.push(selection.graphics_family);
    if selection.transfer_family != selection.graphics_family {
        families.push(selection.transfer_family);
    }
    let mut allocations: Vec<QueueAllocation> = Vec::new();
    allocations.push(QueueAllocation { family_index: selection.graphics_family, role: QueueRole::Graphics });
    allocations.push(QueueAllocation { family_index: selection.transfer_family, role: QueueRole::Transfer });
    let r = DevicePlan { queue_families: families, allocations, extensions: device_extensions(config) };
    assert(r.queue_families@ =~= requested_families(*selection));
    assert(r.allocations@ =~= role_allocations(*selection));
    assert(r.queue_families@.contains(r.allocations@[0].family_index)) by {
        assert(r.queue_families@[0] == selection.graphics_family);
    }
    assert(r.queue_families@.contains(r.allocations@[1].family_index)) by {
        if selection.transfer_family == selection.graphics_family {
            assert(r.queue_families@[0] == selection.transfer_family);
        } else {
            assert(r.queue_families@[1] == selection.transfer_family);
        }
    }
    r
}

} // verus!
