//! The single-instance arbiter: resolves a second launch attempt, delivered
//! by the OS-level single-instance guarantee, to exactly one action.
//!
//! On the supported platform the running instance's main window is focused;
//! a missing main window is an unrecoverable inconsistency. On any other
//! platform the attempt resolves to a fatal, logged exit request with a
//! non-zero status. The arbiter also fixes the two-state lifecycle of a
//! process under the guarantee: a primary instance terminates only on normal
//! shutdown, a secondary terminates right after signaling the primary.

use vstd::prelude::*;

verus! {

/// The fixed logical identifier under which the UI shell registers the
/// primary window of the running instance; the arbiter's window lookup goes
/// by this name and must not assume the window is always present.
pub fn main_window_label() -> (label: &'static str)
    ensures
        label@ == "main"@,
{
    "main"
}

/// The ephemeral record that a second launch attempt carries: the argument
/// list and working directory of the new attempt. The arbiter consumes it
/// without retaining it, and the action never depends on its contents.
pub struct LaunchEvent {
    /// The argument list that the second launch attempt was started with.
    pub args: Vec<String>,
    /// The working directory of the second launch attempt.
    pub cwd: String,
}

/// The single action that a relaunch attempt resolves to.
#[derive(Clone, Copy, PartialEq, Eq, Structural, Debug)]
pub enum RelaunchAction {
    /// Unsupported platform: log a fatal platform-restriction message and
    /// request application termination with `status`, attempting no focus.
    ExitUnsupported { status: i32 },
    /// A running instance has no main window under the expected identifier:
    /// fail loudly (abort-equivalent), never continue silently.
    AbortMissingWindow,
    /// Request OS input focus for the main window; a failure to focus is
    /// swallowed and does not affect the running instance.
    FocusMainWindow,
}

/// The action that a relaunch attempt resolves to, as a function of whether
/// the build targets the supported platform and whether the main window is
/// registered under its fixed identifier.
pub open spec fn spec_relaunch_action(
    platform_supported: bool,
    main_window_present: bool,
) -> RelaunchAction {
    if !platform_supported {
        RelaunchAction::ExitUnsupported { status: 1 }
    } else if !main_window_present {
        RelaunchAction::AbortMissingWindow
    } else {
        RelaunchAction::FocusMainWindow
    }
}

/// The relaunch callback's decision. The launch event is consumed and
/// deliberately not consulted: activation redirects to the running instance
/// whatever the second attempt asked for. On an unsupported platform the
/// window lookup is never made, so the action there does not depend on it.
pub fn on_relaunch(
    platform_supported: bool,
    main_window_present: bool,
    event: LaunchEvent,
) -> (action: RelaunchAction)
    ensures
        action == spec_relaunch_action(platform_supported, main_window_present),
        !platform_supported ==> action == (RelaunchAction::ExitUnsupported { status: 1 }),
        platform_supported && !main_window_present ==> action is AbortMissingWindow,
        platform_supported && main_window_present ==> action is FocusMainWindow,
{
    let _ = event;
    if !platform_supported {
        RelaunchAction::ExitUnsupported { status: 1 }
    } else if !main_window_present {
        RelaunchAction::AbortMissingWindow
    } else {
        RelaunchAction::FocusMainWindow
    }
}

/// The two per-process states under the single-instance guarantee, and the
/// terminated end state.
#[derive(Clone, Copy, PartialEq, Eq, Structural, Debug)]
pub enum InstanceState {
    /// Holds the OS-level single-instance lock and owns the main window.
    Primary,
    /// Detected an existing primary; signals it, then exits.
    Secondary,
    /// The process has ended.
    Terminated,
}

/// The events that move a process between instance states.
#[derive(Clone, Copy, PartialEq, Eq, Structural, Debug)]
pub enum InstanceEvent {
    /// Normal application shutdown of the primary instance.
    Shutdown,
    /// The secondary has signaled the primary (its relaunch callback ran).
    SignaledPrimary,
}

/// The only transitions the lifecycle admits: a primary terminates on normal
/// shutdown, a secondary terminates once it has signaled the primary.
/// Everything else is refused.
pub open spec fn spec_instance_transition(
    state: InstanceState,
    event: InstanceEvent,
) -> Option<InstanceState> {
    match (state, event) {
        (InstanceState::Primary, InstanceEvent::Shutdown) => Some(InstanceState::Terminated),
        (InstanceState::Secondary, InstanceEvent::SignaledPrimary) => Some(
            InstanceState::Terminated,
        ),
        _ => None,
    }
}

/// One step of the instance lifecycle: `None` means the event is not a
/// transition the lifecycle admits from this state.
pub fn instance_step(state: InstanceState, event: InstanceEvent) -> (next: Option<
    InstanceState,
>)
    ensures
        next == spec_instance_transition(state, event),
{
    match (state, event) {
        (InstanceState::Primary, InstanceEvent::Shutdown) => Some(InstanceState::Terminated),
        (InstanceState::Secondary, InstanceEvent::SignaledPrimary) => Some(
            InstanceState::Terminated,
        ),
        _ => None,
    }
}

/// Law: on an unsupported platform the attempt resolves to a termination
/// request with status 1, never to a focus attempt and never to an abort.
pub proof fn lemma_unsupported_exits_one(main_window_present: bool)
    ensures
        spec_relaunch_action(false, main_window_present) == (RelaunchAction::ExitUnsupported {
            status: 1,
        }),
        !(spec_relaunch_action(false, main_window_present) is FocusMainWindow),
{
}

/// Law: on the supported platform with the main window registered, the one
/// resolved action is the focus request against that window.
pub proof fn lemma_supported_focuses()
    ensures
        spec_relaunch_action(true, true) is FocusMainWindow,
{
}

/// Law: a missing main window on the supported platform is never a silent
/// no-op: the resolved action is the loud, unrecoverable failure.
pub proof fn lemma_missing_window_aborts()
    ensures
        spec_relaunch_action(true, false) is AbortMissingWindow,
{
}

/// Law: `Terminated` is final — no event moves a process out of it, and the
/// lifecycle admits no transition besides the two written above.
pub proof fn lemma_terminated_is_final(event: InstanceEvent)
    ensures
        spec_instance_transition(InstanceState::Terminated, event) is None,
{
}

/// Law: a secondary process terminates exactly on signaling the primary,
/// and a primary exactly on normal shutdown.
pub proof fn lemma_lifecycle_transitions(state: InstanceState, event: InstanceEvent)
    ensures
        spec_instance_transition(state, event) is Some <==> (state is Primary
            && event is Shutdown) || (state is Secondary && event is SignaledPrimary),
        spec_instance_transition(state, event) matches Some(next) ==> next is Terminated,
{
}

} // verus!
