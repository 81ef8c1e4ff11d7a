//! Properties of the bootstrap as a whole, proved over the contracts of the parts.
use vstd::prelude::*;

use crate::config::VkConfig;
use crate::error::VkError;
use crate::instance::version_at_least;
use crate::lifecycle::{holds_nothing, initial, run, run_state, Action, Event, InitStep, Lifecycle, Phase};
use crate::platform::{window_usable, NativeWindow, Platform};
use crate::lifecycle::transition;
use crate::selection::{
    has_present_family, has_suitable, has_transfer_family, is_present_candidate, is_selection_for,
    is_suitable, is_transfer_candidate, DeviceProfile, Selection,
};
use crate::vulkan::{has_flags, QUEUE_TRANSFER};

verus! {

/// A runtime reporting a version below the configured minimum ends bootstrap with
/// `VersionNotSupported` right after the version query: no creation is asked for and
/// nothing is held.
pub proof fn version_below_minimum_creates_nothing(
    config: VkConfig,
    platform: Platform,
    window: NativeWindow,
    reported: u32,
)
    requires
        window_usable(platform, window),
        !version_at_least(reported, config.minimum_version),
    ensures
        run(initial(config, platform), seq![Event::Begin(window), Event::Version(reported)])
            == seq![Action::QueryVersion, Action::Fail(VkError::VersionNotSupported)],
        run_state(initial(config, platform), seq![Event::Begin(window), Event::Version(reported)]).phase
            == Phase::Destroyed,
        holds_nothing(
            run_state(initial(config, platform), seq![Event::Begin(window), Event::Version(reported)]).held,
        ),
{
    let evs = seq![Event::Begin(window), Event::Version(reported)];
    assert(evs.drop_first() =~= seq![Event::Version(reported)]);
    assert(evs.drop_first().drop_first() =~= Seq::<Event>::empty());
    reveal_with_fuel(run, 3);
    reveal_with_fuel(run_state, 3);
    assert(run(initial(config, platform), evs) =~= seq![Action::QueryVersion, Action::Fail(VkError::VersionNotSupported)]);
}

/// When no device has a family that both draws and presents to the surface, no
/// device is suitable and no selection exists, whatever else is configured.
pub proof fn no_presenting_family_means_no_selection(
    devices: Seq<DeviceProfile>,
    required: Seq<Seq<char>>,
    want_dedicated: bool,
)
    requires
        forall|k: int| 0 <= k < devices.len() ==> !has_present_family(#[trigger] devices[k].queue_families@),
    ensures
        !has_suitable(devices, required),
        forall|s: Selection| !is_selection_for(devices, required, want_dedicated, s),
{
    assert forall|s: Selection| !is_selection_for(devices, required, want_dedicated, s) by {
        if is_selection_for(devices, required, want_dedicated, s) {
            let fams = devices[s.device_index as int].queue_families@;
            assert(is_present_candidate(fams[s.graphics_family as int]));
        }
    }
}

/// Selection is deterministic: two selections that both meet the algorithm's
/// description for the same input are the same.
pub proof fn selection_is_deterministic(
    devices: Seq<DeviceProfile>,
    required: Seq<Seq<char>>,
    want_dedicated: bool,
    a: Selection,
    b: Selection,
)
    requires
        is_selection_for(devices, required, want_dedicated, a),
        is_selection_for(devices, required, want_dedicated, b),
    ensures
        a == b,
{
    if a.device_index < b.device_index {
        assert(!is_suitable(devices[a.device_index as int], required));
    }
    if b.device_index < a.device_index {
        assert(!is_suitable(devices[b.device_index as int], required));
    }
    let fams = devices[a.device_index as int].queue_families@;
    if a.graphics_family < b.graphics_family {
        assert(!is_present_candidate(fams[a.graphics_family as int]));
    }
    if b.graphics_family < a.graphics_family {
        assert(!is_present_candidate(fams[b.graphics_family as int]));
    }
    let g = a.graphics_family as int;
    if a.transfer_family < b.transfer_family {
        assert(a.transfer_family as int != g);
    }
    if b.transfer_family < a.transfer_family {
        assert(b.transfer_family as int != g);
    }
}

/// Selection prefers the earliest: no suitable device comes before the chosen one,
/// and no family of the chosen device that draws and presents has a lower index
/// than the chosen graphics family.
pub proof fn selection_prefers_earliest(
    devices: Seq<DeviceProfile>,
    required: Seq<Seq<char>>,
    want_dedicated: bool,
    s: Selection,
    k: int,
    f: int,
)
    requires
        is_selection_for(devices, required, want_dedicated, s),
        0 <= k < devices.len(),
        is_suitable(devices[k], required),
    ensures
        s.device_index <= k,
        k == s.device_index && 0 <= f < devices[k].queue_families@.len() && is_present_candidate(
            devices[k].queue_families@[f],
        ) ==> s.graphics_family <= f,
{
}

/// Releasing a ready context waits for its queues, then destroys the debug
/// messenger (when installed), the device, the surface and the instance, in that
/// order, and ends with nothing held.
pub proof fn release_tears_down_in_order(s: Lifecycle)
    requires
        s.wf(),
        s.phase == Phase::Ready,
    ensures
        s.want_debug_messenger ==> run(
            s,
            seq![Event::Release, Event::Completed, Event::Completed, Event::Completed, Event::Completed, Event::Completed],
        ) == seq![
            Action::WaitIdle,
            Action::DestroyDebugMessenger,
            Action::DestroyDevice,
            Action::DestroySurface,
            Action::DestroyInstance,
            Action::Done,
        ],
        !s.want_debug_messenger ==> run(
            s,
            seq![Event::Release, Event::Completed, Event::Completed, Event::Completed, Event::Completed],
        ) == seq![
            Action::WaitIdle,
            Action::DestroyDevice,
            Action::DestroySurface,
            Action::DestroyInstance,
            Action::Done,
        ],
{
    reveal_with_fuel(run, 7);
    let c = Event::Completed;
    if s.want_debug_messenger {
        let evs = seq![Event::Release, c, c, c, c, c];
        assert(evs.drop_first() =~= seq![c, c, c, c, c]);
        assert(seq![c, c, c, c, c].drop_first() =~= seq![c, c, c, c]);
        assert(seq![c, c, c, c].drop_first() =~= seq![c, c, c]);
        assert(seq![c, c, c].drop_first() =~= seq![c, c]);
        assert(seq![c, c].drop_first() =~= seq![c]);
        assert(seq![c].drop_first() =~= Seq::<Event>::empty());
        assert(run(s, evs) =~= seq![
            Action::WaitIdle,
            Action::DestroyDebugMessenger,
            Action::DestroyDevice,
            Action::DestroySurface,
            Action::DestroyInstance,
            Action::Done,
        ]);
    } else {
        let evs = seq![Event::Release, c, c, c, c];
        assert(evs.drop_first() =~= seq![c, c, c, c]);
        assert(seq![c, c, c, c].drop_first() =~= seq![c, c, c]);
        assert(seq![c, c, c].drop_first() =~= seq![c, c]);
        assert(seq![c, c].drop_first() =~= seq![c]);
        assert(seq![c].drop_first() =~= Seq::<Event>::empty());
        assert(run(s, evs) =~= seq![
            Action::WaitIdle,
            Action::DestroyDevice,
            Action::DestroySurface,
            Action::DestroyInstance,
            Action::Done,
        ]);
    }
}

/// When the driver refuses the logical device, the surface and the instance that
/// were already made (and the debug messenger, if installed) are destroyed, in
/// reverse order, before the error is reported.
pub proof fn device_failure_cleans_up(s: Lifecycle, code: i32)
    requires
        s.wf(),
        s.phase == Phase::Initializing(InitStep::CreateDevice),
    ensures
        s.want_debug_messenger ==> run(
            s,
            seq![Event::DriverError(code), Event::Completed, Event::Completed, Event::Completed],
        ) == seq![
            Action::DestroyDebugMessenger,
            Action::DestroySurface,
            Action::DestroyInstance,
            Action::Fail(VkError::DeviceCreationFailed(code)),
        ],
        !s.want_debug_messenger ==> run(
            s,
            seq![Event::DriverError(code), Event::Completed, Event::Completed],
        ) == seq![
            Action::DestroySurface,
            Action::DestroyInstance,
            Action::Fail(VkError::DeviceCreationFailed(code)),
        ],
{
    reveal_with_fuel(run, 5);
    let c = Event::Completed;
    if s.want_debug_messenger {
        let evs = seq![Event::DriverError(code), c, c, c];
        assert(evs.drop_first() =~= seq![c, c, c]);
        assert(seq![c, c, c].drop_first() =~= seq![c, c]);
        assert(seq![c, c].drop_first() =~= seq![c]);
        assert(seq![c].drop_first() =~= Seq::<Event>::empty());
        assert(run(s, evs) =~= seq![
            Action::DestroyDebugMessenger,
            Action::DestroySurface,
            Action::DestroyInstance,
            Action::Fail(VkError::DeviceCreationFailed(code)),
        ]);
    } else {
        let evs = seq![Event::DriverError(code), c, c];
        assert(evs.drop_first() =~= seq![c, c]);
        assert(seq![c, c].drop_first() =~= seq![c]);
        assert(seq![c].drop_first() =~= Seq::<Event>::empty());
        assert(run(s, evs) =~= seq![
            Action::DestroySurface,
            Action::DestroyInstance,
            Action::Fail(VkError::DeviceCreationFailed(code)),
        ]);
    }
}

/// When selection fails, the failure is recorded and no device is made: the
/// surface and the instance (and the debug messenger, if installed) are destroyed
/// in reverse order and the selection's error is reported unchanged.
pub proof fn failed_selection_creates_no_device(s: Lifecycle, e: VkError)
    requires
        s.wf(),
        s.phase == Phase::Initializing(InitStep::SelectDevice),
    ensures
        !transition(s, Event::Rejected(e)).0.held.device,
        transition(s, Event::Rejected(e)).0.failure == Some(e),
        s.want_debug_messenger ==> run(s, seq![Event::Rejected(e), Event::Completed, Event::Completed, Event::Completed])
            == seq![Action::DestroyDebugMessenger, Action::DestroySurface, Action::DestroyInstance, Action::Fail(e)],
        !s.want_debug_messenger ==> run(s, seq![Event::Rejected(e), Event::Completed, Event::Completed])
            == seq![Action::DestroySurface, Action::DestroyInstance, Action::Fail(e)],
{
    reveal_with_fuel(run, 5);
    let c = Event::Completed;
    if s.want_debug_messenger {
        let evs = seq![Event::Rejected(e), c, c, c];
        assert(evs.drop_first() =~= seq![c, c, c]);
        assert(seq![c, c, c].drop_first() =~= seq![c, c]);
        assert(seq![c, c].drop_first() =~= seq![c]);
        assert(seq![c].drop_first() =~= Seq::<Event>::empty());
        assert(run(s, evs) =~= seq![
            Action::DestroyDebugMessenger,
            Action::DestroySurface,
            Action::DestroyInstance,
            Action::Fail(e),
        ]);
    } else {
        let evs = seq![Event::Rejected(e), c, c];
        assert(evs.drop_first() =~= seq![c, c]);
        assert(seq![c, c].drop_first() =~= seq![c]);
        assert(seq![c].drop_first() =~= Seq::<Event>::empty());
        assert(run(s, evs) =~= seq![Action::DestroySurface, Action::DestroyInstance, Action::Fail(e)]);
    }
}

/// A dedicated transfer family is used when wanted: with graphics and presentation
/// chosen at family 0 and a transfer family at 1, transfer goes to family 1; when no
/// dedicated one is wanted, transfer shares the graphics family.
pub proof fn dedicated_transfer_preferred(
    devices: Seq<DeviceProfile>,
    required: Seq<Seq<char>>,
    want_dedicated: bool,
    s: Selection,
)
    requires
        is_selection_for(devices, required, want_dedicated, s),
        s.graphics_family == 0,
        devices[s.device_index as int].queue_families@.len() > 1,
        has_flags(devices[s.device_index as int].queue_families@[1].flags, QUEUE_TRANSFER),
    ensures
        want_dedicated ==> s.transfer_family == 1,
        !want_dedicated ==> s.transfer_family == 0,
{
    let fams = devices[s.device_index as int].queue_families@;
    if want_dedicated {
        assert(is_transfer_candidate(fams, 1, 0));
        assert(has_transfer_family(fams, 0));
        if s.transfer_family > 1 {
            assert(!is_transfer_candidate(fams, 1, 0));
        }
    }
}

/// A window that the platform cannot use, a null X11 display among them, ends
/// bootstrap with `InvalidWindowHandle` at once: no version query, no instance and
/// no surface is asked for, and nothing is held.
pub proof fn unusable_window_rejected(config: VkConfig, platform: Platform, window: NativeWindow)
    requires
        !window_usable(platform, window),
    ensures
        run(initial(config, platform), seq![Event::Begin(window)]) == seq![
            Action::Fail(VkError::InvalidWindowHandle),
        ],
        run_state(initial(config, platform), seq![Event::Begin(window)]).phase == Phase::Destroyed,
        holds_nothing(run_state(initial(config, platform), seq![Event::Begin(window)]).held),
{
    let evs = seq![Event::Begin(window)];
    assert(evs.drop_first() =~= Seq::<Event>::empty());
    reveal_with_fuel(run, 2);
    reveal_with_fuel(run_state, 2);
    assert(run(initial(config, platform), evs) =~= seq![Action::Fail(VkError::InvalidWindowHandle)]);
}

/// On X11 a null display pointer is never usable.
pub proof fn null_display_unusable(window: u64)
    ensures
        !window_usable(Platform::X11, NativeWindow::X11 { display: 0, window }),
{
}

} // verus!
