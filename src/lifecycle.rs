//! The context's lifecycle as a state machine. The host performs each action that
//! the machine asks for and feeds back what happened; the machine decides the next
//! creation step, and on release or on any failure the reverse-order teardown of
//! whatever exists.
use vstd::prelude::*;

use crate::config::VkConfig;
use crate::error::VkError;
use crate::instance::{version_at_least, version_supported};
use crate::platform::{check_window, window_usable, NativeWindow, Platform};

verus! {

/// A creation step of bootstrap, in the order they run.
#[derive(Clone, Copy, Debug, PartialEq, Eq, Structural)]
pub enum InitStep {
    QueryVersion,
    CreateInstance,
    InstallDebugMessenger,
    CreateSurface,
    SelectDevice,
    CreateDevice,
}

#[derive(Clone, Copy, Debug, PartialEq, Eq, Structural)]
pub enum Phase {
    Uninitialized,
    Initializing(InitStep),
    Ready,
    Destroying,
    Destroyed,
}

/// Which driver objects currently exist.
#[derive(Clone, Copy, Debug, PartialEq, Eq, Structural)]
pub struct Held {
    pub instance: bool,
    pub debug_messenger: bool,
    pub surface: bool,
    pub device: bool,
    /// The device's queues have been waited on during teardown.
    pub device_idle: bool,
}

/// What the host is asked to do next.
#[derive(Clone, Copy, Debug, PartialEq, Eq, Structural)]
pub enum Action {
    /// Report the runtime's API version with `Event::Version`.
    QueryVersion,
    CreateInstance,
    InstallDebugMessenger,
    CreateSurface,
    /// Enumerate the physical devices and run the selection.
    SelectDevice,
    CreateDevice,
    /// Nothing to do: the context is ready, or not begun.
    Idle,
    /// Wait until the device's queues are idle.
    WaitIdle,
    DestroyDebugMessenger,
    DestroyDevice,
    DestroySurface,
    DestroyInstance,
    /// Everything is destroyed after a release.
    Done,
    /// Everything created is destroyed after a failure; report this error.
    Fail(VkError),
}

/// What the host reports back.
#[derive(Clone, Copy, Debug, PartialEq, Eq, Structural)]
pub enum Event {
    /// Start bootstrap for this window.
    Begin(NativeWindow),
    /// The runtime's packed API version.
    Version(u32),
    /// The requested action succeeded.
    Completed,
    /// The driver refused the requested action with this result code.
    DriverError(i32),
    /// The requested step failed with this error.
    Rejected(VkError),
    /// The user releases the context.
    Release,
}

/// State of one context's lifecycle.
#[derive(Clone, Copy, Debug, PartialEq, Eq, Structural)]
pub struct Lifecycle {
    pub platform: Platform,
    pub minimum_major: u8,
    pub minimum_minor: u8,
    pub want_debug_messenger: bool,
    pub phase: Phase,
    pub held: Held,
    /// The error being reported, once bootstrap has failed.
    pub failure: Option<VkError>,
}

pub open spec fn nothing_held() -> Held {
    Held { instance: false, debug_messenger: false, surface: false, device: false, device_idle: false }
}

pub open spec fn holds_nothing(h: Held) -> bool {
    !h.instance && !h.debug_messenger && !h.surface && !h.device
}

/// The next teardown action for what is held: wait for the queues, then destroy the
/// debug messenger, the device, the surface and the instance, in that order.
pub open spec fn teardown_action(h: Held) -> Action {
    if h.device && !h.device_idle {
        Action::WaitIdle
    } else if h.debug_messenger {
        Action::DestroyDebugMessenger
    } else if h.device {
        Action::DestroyDevice
    } else if h.surface {
        Action::DestroySurface
    } else if h.instance {
        Action::DestroyInstance
    } else {
        Action::Done
    }
}

/// What is held once `teardown_action(h)` has been carried out.
pub open spec fn after_teardown(h: Held) -> Held {
    if h.device && !h.device_idle {
        Held { device_idle: true, ..h }
    } else if h.debug_messenger {
        Held { debug_messenger: false, ..h }
    } else if h.device {
        Held { device: false, device_idle: false, ..h }
    } else if h.surface {
        Held { surface: false, ..h }
    } else {
        Held { instance: false, ..h }
    }
}

/// The last action: the error when bootstrap failed, else `Done`.
pub open spec fn final_action(failure: Option<VkError>) -> Action {
    match failure {
        Some(e) => Action::Fail(e),
        None => Action::Done,
    }
}

/// Starts tearing down what `s` holds, or ends at once when nothing is held.
pub open spec fn enter_teardown(s: Lifecycle) -> (Lifecycle, Action) {
    if holds_nothing(s.held) {
        (Lifecycle { phase: Phase::Destroyed, held: nothing_held(), ..s }, final_action(s.failure))
    } else {
        (Lifecycle { phase: Phase::Destroying, ..s }, teardown_action(s.held))
    }
}

/// Records `e` as the failure and tears down what exists.
pub open spec fn fail_with(s: Lifecycle, e: VkError) -> (Lifecycle, Action) {
    enter_teardown(Lifecycle { failure: Some(e), ..s })
}

/// The error that a driver refusal means at each step.
pub open spec fn step_error(step: InitStep, code: i32) -> VkError {
    match step {
        InitStep::QueryVersion => VkError::InstanceCreationFailed(code),
        InitStep::CreateInstance => VkError::InstanceCreationFailed(code),
        InitStep::InstallDebugMessenger => VkError::InstanceCreationFailed(code),
        InitStep::CreateSurface => VkError::InvalidWindowHandle,
        InitStep::SelectDevice => VkError::NoPhysicalDevices,
        InitStep::CreateDevice => VkError::DeviceCreationFailed(code),
    }
}

/// The action that asks for creation step `step`.
pub open spec fn step_action(step: InitStep) -> Action {
    match step {
        InitStep::QueryVersion => Action::QueryVersion,
        InitStep::CreateInstance => Action::CreateInstance,
        InitStep::InstallDebugMessenger => Action::InstallDebugMessenger,
        InitStep::CreateSurface => Action::CreateSurface,
        InitStep::SelectDevice => Action::SelectDevice,
        InitStep::CreateDevice => Action::CreateDevice,
    }
}

/// Moves on to creation step `step`.
pub open spec fn go_to(s: Lifecycle, h: Held, step: InitStep) -> (Lifecycle, Action) {
    (Lifecycle { phase: Phase::Initializing(step), held: h, ..s }, step_action(step))
}

/// The state and action after creation step `step` succeeded.
pub open spec fn advance(s: Lifecycle, step: InitStep) -> (Lifecycle, Action) {
    let h = s.held;
    match step {
        InitStep::CreateInstance => {
            let h2 = Held { instance: true, ..h };
            if s.want_debug_messenger {
                go_to(s, h2, InitStep::InstallDebugMessenger)
            } else {
                go_to(s, h2, InitStep::CreateSurface)
            }
        },
        InitStep::InstallDebugMessenger => go_to(
            s,
            Held { debug_messenger: true, ..h },
            InitStep::CreateSurface,
        ),
        InitStep::CreateSurface => go_to(s, Held { surface: true, ..h }, InitStep::SelectDevice),
        InitStep::SelectDevice => go_to(s, h, InitStep::CreateDevice),
        InitStep::CreateDevice => (
            Lifecycle { phase: Phase::Ready, held: Held { device: true, ..h }, ..s },
            Action::Idle,
        ),
        InitStep::QueryVersion => (s, Action::QueryVersion),
    }
}

/// The action that `s` is waiting on.
pub open spec fn pending(s: Lifecycle) -> Action {
    match s.phase {
        Phase::Uninitialized => Action::Idle,
        Phase::Initializing(step) => step_action(step),
        Phase::Ready => Action::Idle,
        Phase::Destroying => teardown_action(s.held),
        Phase::Destroyed => final_action(s.failure),
    }
}

/// One transition: the next state and the action the host is to perform. An event
/// that does not fit the phase leaves the state as it is and repeats the pending
/// action.
pub open spec fn transition(s: Lifecycle, e: Event) -> (Lifecycle, Action) {
    match (s.phase, e) {
        (Phase::Uninitialized, Event::Begin(w)) => {
            if window_usable(s.platform, w) {
                go_to(s, s.held, InitStep::QueryVersion)
            } else {
                fail_with(s, VkError::InvalidWindowHandle)
            }
        },
        (Phase::Uninitialized, Event::Release) => enter_teardown(s),
        (Phase::Initializing(InitStep::QueryVersion), Event::Version(v)) => {
            if version_at_least(v, (s.minimum_major, s.minimum_minor)) {
                go_to(s, s.held, InitStep::CreateInstance)
            } else {
                fail_with(s, VkError::VersionNotSupported)
            }
        },
        (Phase::Initializing(step), Event::Completed) => {
            if step == InitStep::QueryVersion {
                (s, pending(s))
            } else {
                advance(s, step)
            }
        },
        (Phase::Initializing(step), Event::DriverError(code)) => fail_with(s, step_error(step, code)),
        (Phase::Initializing(_), Event::Rejected(err)) => fail_with(s, err),
        (Phase::Initializing(_), Event::Release) => enter_teardown(s),
        (Phase::Ready, Event::Release) => enter_teardown(s),
        (Phase::Destroying, Event::Completed) => enter_teardown(
            Lifecycle { held: after_teardown(s.held), ..s },
        ),
        (Phase::Destroying, Event::DriverError(_)) => enter_teardown(
            Lifecycle { held: after_teardown(s.held), ..s },
        ),
        _ => (s, pending(s)),
    }
}

/// The actions asked for while `events` are fed to `s` one after another.
pub open spec fn run(s: Lifecycle, events: Seq<Event>) -> Seq<Action>
    decreases events.len(),
{
    if events.len() == 0 {
        Seq::empty()
    } else {
        let (next, a) = transition(s, events[0]);
        seq![a] + run(next, events.drop_first())
    }
}

/// The state reached after feeding `events` to `s`.
pub open spec fn run_state(s: Lifecycle, events: Seq<Event>) -> Lifecycle
    decreases events.len(),
{
    if events.len() == 0 {
        s
    } else {
        run_state(transition(s, events[0]).0, events.drop_first())
    }
}

/// The lifecycle of a context configured by `config`, before it begins.
pub open spec fn initial(config: VkConfig, platform: Platform) -> Lifecycle {
    Lifecycle {
        platform,
        minimum_major: config.minimum_version.0,
        minimum_minor: config.minimum_version.1,
        want_debug_messenger: config.use_default_debug_messenger,
        phase: Phase::Uninitialized,
        held: nothing_held(),
        failure: None,
    }
}

/// Every transition keeps the lifecycle well formed.
pub proof fn lemma_transition_wf(s: Lifecycle, e: Event)
    requires
        s.wf(),
    ensures
        transition(s, e).0.wf(),
{
}

impl Held {
    /// The next teardown action for what is held.
    pub fn next_teardown(&self) -> (r: Action)
        ensures
            r == teardown_action(*self),
    {
        if self.device && !self.device_idle {
            Action::WaitIdle
        } else if self.debug_messenger {
            Action::DestroyDebugMessenger
        } else if self.device {
            Action::DestroyDevice
        } else if self.surface {
            Action::DestroySurface
        } else if self.instance {
            Action::DestroyInstance
        } else {
            Action::Done
        }
    }

    /// Records that the next teardown action was carried out.
    pub fn release_next(&mut self)
        ensures
            *final(self) == after_teardown(*old(self)),
    {
        if self.device && !self.device_idle {
            self.device_idle = true;
        } else if self.debug_messenger {
            self.debug_messenger = false;
        } else if self.device {
            self.device = false;
            self.device_idle = false;
        } else if self.surface {
            self.surface = false;
        } else {
            self.instance = false;
        }
    }

    pub fn is_empty(&self) -> (r: bool)
        ensures
            r == holds_nothing(*self),
    {
        !self.instance && !self.debug_messenger && !self.surface && !self.device
    }
}

impl Lifecycle {
    /// The objects held fit the phase: creation holds exactly what its earlier steps
    /// made, a ready context holds everything, and teardown never holds an object
    /// without the one it depends on.
    pub open spec fn wf(&self) -> bool {
        let h = self.held;
        &&& h.device_idle ==> h.device
        &&& match self.phase {
            Phase::Uninitialized => holds_nothing(h) && self.failure is None,
            Phase::Initializing(step) => {
                &&& self.failure is None
                &&& !h.device
                &&& match step {
                    InitStep::QueryVersion => holds_nothing(h),
                    InitStep::CreateInstance => holds_nothing(h),
                    InitStep::InstallDebugMessenger => {
                        h.instance && !h.debug_messenger && !h.surface && self.want_debug_messenger
                    },
                    InitStep::CreateSurface => {
                        h.instance && h.debug_messenger == self.want_debug_messenger && !h.surface
                    },
                    _ => h.instance && h.debug_messenger == self.want_debug_messenger && h.surface,
                }
            },
            Phase::Ready => {
                &&& h.instance && h.surface && h.device && !h.device_idle
                &&& h.debug_messenger == self.want_debug_messenger
                &&& self.failure is None
            },
            Phase::Destroying => {
                &&& !holds_nothing(h)
                &&& h.debug_messenger ==> h.instance
                &&& h.surface ==> h.instance
                &&& h.device ==> h.surface
            },
            Phase::Destroyed => holds_nothing(h) && !h.device_idle,
        }
    }

    /// A lifecycle for a context configured by `config` on `platform`.
    pub fn new(config: &VkConfig, platform: Platform) -> (r: Lifecycle)
        ensures
            r == initial(*config, platform),
            r.wf(),
    {
        Lifecycle {
            platform,
            minimum_major: config.minimum_version.0,
            minimum_minor: config.minimum_version.1,
            want_debug_messenger: config.use_default_debug_messenger,
            phase: Phase::Uninitialized,
            held: Held { instance: false, debug_messenger: false, surface: false, device: false, device_idle: false },
            failure: None,
        }
    }

    /// The action this lifecycle is waiting on.
    pub fn pending_action(&self) -> (r: Action)
        ensures
            r == pending(*self),
    {
        match self.phase {
            Phase::Uninitialized => Action::Idle,
            Phase::Initializing(step) => action_for(step),
            Phase::Ready => Action::Idle,
            Phase::Destroying => self.held.next_teardown(),
            Phase::Destroyed => self.last_action(),
        }
    }

    /// Accessors of the context (device, queues, resize) are allowed only when ready.
    pub fn is_ready(&self) -> (r: bool)
        ensures
            r == (self.phase == Phase::Ready),
    {
        match self.phase {
            Phase::Ready => true,
            _ => false,
        }
    }

    fn last_action(&self) -> (r: Action)
        ensures
            r == final_action(self.failure),
    {
        match self.failure {
            Some(e) => Action::Fail(e),
            None => Action::Done,
        }
    }

    fn teardown(&mut self) -> (r: Action)
        ensures
            (*final(self), r) == enter_teardown(*old(self)),
    {
        if self.held.is_empty() {
            self.phase = Phase::Destroyed;
            self.held = Held { instance: false, debug_messenger: false, surface: false, device: false, device_idle: false };
            self.last_action()
        } else {
            self.phase = Phase::Destroying;
            self.held.next_teardown()
        }
    }

    fn fail(&mut self, e: VkError) -> (r: Action)
        ensures
            (*final(self), r) == fail_with(*old(self), e),
    {
        self.failure = Some(e);
        self.teardown()
    }

    fn begin_step(&mut self, step: InitStep) -> (r: Action)
        ensures
            (*final(self), r) == go_to(*old(self), old(self).held, step),
    {
        self.phase = Phase::Initializing(step);
        action_for(step)
    }

    fn complete_step(&mut self, step: InitStep) -> (r: Action)
        ensures
            (*final(self), r) == advance(*old(self), step),
    {
        match step {
            InitStep::CreateInstance => {
                self.held.instance = true;
                if self.want_debug_messenger {
                    self.begin_step(InitStep::InstallDebugMessenger)
                } else {
                    self.begin_step(InitStep::CreateSurface)
                }
            },
            InitStep::InstallDebugMessenger => {
                self.held.debug_messenger = true;
                self.begin_step(InitStep::CreateSurface)
            },
            InitStep::CreateSurface => {
                self.held.surface = true;
                self.begin_step(InitStep::SelectDevice)
            },
            InitStep::SelectDevice => self.begin_step(InitStep::CreateDevice),
            InitStep::CreateDevice => {
                self.held.device = true;
                self.phase = Phase::Ready;
                Action::Idle
            },
            InitStep::QueryVersion => Action::QueryVersion,
        }
    }

    /// Feeds one event to the lifecycle and returns the action the host is to
    /// perform next.
    pub fn step(&mut self, event: Event) -> (r: Action)
        ensures
            (*final(self), r) == transition(*old(self), event),
            old(self).wf() ==> final(self).wf(),
    {
        proof {
            if self.wf() {
                lemma_transition_wf(*self, event);
            }
        }
        match (self.phase, event) {
            (Phase::Uninitialized, Event::Begin(w)) => {
                match check_window(self.platform, &w) {
                    Ok(()) => self.begin_step(InitStep::QueryVersion),
                    Err(e) => self.fail(e),
                }
            },
            (Phase::Uninitialized, Event::Release) => self.teardown(),
            (Phase::Initializing(InitStep::QueryVersion), Event::Version(v)) => {
                if version_supported(v, (self.minimum_major, self.minimum_minor)) {
                    self.begin_step(InitStep::CreateInstance)
                } else {
                    self.fail(VkError::VersionNotSupported)
                }
            },
            (Phase::Initializing(step), Event::Completed) => {
                match step {
                    InitStep::QueryVersion => self.pending_action(),
                    _ => self.complete_step(step),
                }
            },
            (Phase::Initializing(step), Event::DriverError(code)) => {
                let e = error_for(step, code);
                self.fail(e)
            },
            (Phase::Initializing(_), Event::Rejected(err)) => self.fail(err),
            (Phase::Initializing(_), Event::Release) => self.teardown(),
            (Phase::Ready, Event::Release) => self.teardown(),
            (Phase::Destroying, Event::Completed) => {
                self.held.release_next();
                self.teardown()
            },
            (Phase::Destroying, Event::DriverError(_)) => {
                self.held.release_next();
                self.teardown()
            },
            _ => self.pending_action(),
        }
    }
}

/// The action that asks for creation step `step`.
pub fn action_for(step: InitStep) -> (r: Action)
    ensures
        r == step_action(step),
{
    match step {
        InitStep::QueryVersion => Action::QueryVersion,
        InitStep::CreateInstance => Action::CreateInstance,
        InitStep::InstallDebugMessenger => Action::InstallDebugMessenger,
        InitStep::CreateSurface => Action::CreateSurface,
        InitStep::SelectDevice => Action::SelectDevice,
        InitStep::CreateDevice => Action::CreateDevice,
    }
}

/// The error that a driver refusal with `code` means at creation step `step`.
pub fn error_for(step: InitStep, code: i32) -> (r: VkError)
    ensures
        r == step_error(step, code),
{
    match step {
        InitStep::QueryVersion => VkError::InstanceCreationFailed(code),
        InitStep::CreateInstance => VkError::InstanceCreationFailed(code),
        InitStep::InstallDebugMessenger => VkError::InstanceCreationFailed(code),
        InitStep::CreateSurface => VkError::InvalidWindowHandle,
        InitStep::SelectDevice => VkError::NoPhysicalDevices,
        InitStep::CreateDevice => VkError::DeviceCreationFailed(code),
    }
}

} // verus!
