//! What holds of the orchestrator whatever happens outside, in whatever order.

use crate::channel::ListenerState;
use crate::lifecycle::{Action, CoreState, Event, Phase};
use crate::shutdown::HandshakeState;
use crate::window::{label_for, ToggleLabel, WindowVisibility};
use vstd::prelude::*;

verus! {

/// The state that `start` has come to after the first `n` events of `events`.
pub open spec fn run(start: CoreState, events: Seq<Event>, n: int) -> CoreState
    decreases n,
{
    if n <= 0 {
        start
    } else {
        run(start, events, n - 1).step(events[n - 1]).0
    }
}

/// No event leads out of the well-formed states.
pub proof fn step_preserves_wf(state: CoreState, event: Event)
    requires
        state.wf(),
    ensures
        state.step(event).0.wf(),
{
}

/// Every state that a process comes to is well-formed.
pub proof fn reachable_states_are_wf(claimed: bool, events: Seq<Event>, n: int)
    requires
        0 <= n <= events.len(),
    ensures
        run(CoreState::initial(claimed), events, n).wf(),
    decreases n,
{
    if n > 0 {
        reachable_states_are_wf(claimed, events, n - 1);
        step_preserves_wf(run(CoreState::initial(claimed), events, n - 1), events[n - 1]);
    }
}

/// The tray's label follows the window. Whenever an event changes the
/// window's visibility, the label belongs to the new visibility afterwards:
/// `Hide` if the window is on screen and `Show` if not. A label that fits
/// stays fitting. And the host is told: every label among the actions is the
/// new one, and a changed label is among them.
pub proof fn label_follows_visibility(state: CoreState, event: Event)
    ensures
        ({
            let (next, actions) = state.step(event);
            &&& next.window != state.window ==> next.label == label_for(next.window)
            &&& next.window != state.window ==> actions.contains(Action::SetToggleLabel(next.label))
            &&& next.label != state.label ==> actions.contains(Action::SetToggleLabel(next.label))
            &&& state.synced() ==> next.synced()
            &&& forall|i: int|
                0 <= i < actions.len() ==> (#[trigger] actions[i] matches Action::SetToggleLabel(
                    label,
                ) ==> label == next.label)
        }),
{
    let (next, actions) = state.step(event);
    if next.window != state.window || next.label != state.label {
        let told = Action::SetToggleLabel(next.label);
        assert(actions[0] == told || actions[1] == told || actions[2] == told);
    }
}

/// Whatever happens, in whatever order: in every state that a process comes
/// to, from its first on, the tray's label is `Hide` exactly while a window is
/// on screen, and `Show` otherwise.
pub proof fn label_fits_in_every_state(claimed: bool, events: Seq<Event>, n: int)
    requires
        0 <= n <= events.len(),
    ensures
        run(CoreState::initial(claimed), events, n).synced(),
        run(CoreState::initial(claimed), events, n).label == ToggleLabel::Hide <==> run(
            CoreState::initial(claimed),
            events,
            n,
        ).window == WindowVisibility::Visible,
{
    reachable_states_are_wf(claimed, events, n);
}

/// An exit request marks the start of a close attempt. An event has
/// `exit-requested` emitted exactly when it starts an attempt; it is then
/// emitted once, after the acknowledgement is expected, and nothing else is
/// asked of the host.
pub proof fn exit_request_starts_an_attempt(state: CoreState, event: Event)
    ensures
        state.step(event).1.contains(Action::EmitExitRequested) <==> state.starts_wait(event),
        state.starts_wait(event) ==> state.step(event).1 == seq![
            Action::ExpectAcknowledgement,
            Action::EmitExitRequested,
        ],
{
}

/// Hiding the window of an active process, from any state in which it is on
/// screen and no close attempt is under way: the toggle has one exit request
/// emitted and leaves the window; the acknowledgement asks nothing of the
/// host; only the end of the wait has the window destroyed and the label set
/// to `Show`. The process stays active and its channel as it is.
pub proof fn hide_runs_the_handshake(state: CoreState)
    requires
        state.phase == Phase::Active,
        state.window == WindowVisibility::Visible,
        state.handshake == HandshakeState::Idle,
    ensures
        ({
            let (asked, on_toggle) = state.step(Event::Toggle);
            let (acknowledged, on_done) = asked.step(Event::FrontendDone);
            let (hidden, on_wake) = acknowledged.step(Event::WaitOver);
            &&& on_toggle == seq![Action::ExpectAcknowledgement, Action::EmitExitRequested]
            &&& asked.window == WindowVisibility::Visible
            &&& asked.handshake == HandshakeState::Requested
            &&& on_done.len() == 0
            &&& acknowledged.window == WindowVisibility::Visible
            &&& on_wake == seq![Action::DestroyWindow, Action::SetToggleLabel(ToggleLabel::Show)]
            &&& hidden.window == WindowVisibility::Hidden
            &&& hidden.label == ToggleLabel::Show
            &&& hidden.handshake == HandshakeState::Idle
            &&& hidden.phase == Phase::Active
            &&& hidden.channel == state.channel
        }),
{
}

/// Showing the window of an active process that has none: a new window is
/// built from scratch and shown, the label set to `Hide`, the window given
/// its title and the focus. Nothing else is asked of the host: the poller and
/// the channel are not touched.
pub proof fn show_builds_a_new_window(state: CoreState)
    requires
        state.phase == Phase::Active,
        state.window == WindowVisibility::Hidden,
    ensures
        ({
            let (shown, on_toggle) = state.step(Event::Toggle);
            &&& on_toggle == seq![
                Action::BuildWindow,
                Action::ShowWindow,
                Action::SetToggleLabel(ToggleLabel::Hide),
                Action::SetWindowTitle,
                Action::FocusWindow,
            ]
            &&& shown.window == WindowVisibility::Visible
            &&& shown.label == ToggleLabel::Hide
            &&& shown.phase == Phase::Active
            &&& shown.channel == state.channel
            &&& shown.handshake == state.handshake
        }),
{
}

/// A window is destroyed only by the event that ends an acknowledged close
/// attempt.
pub proof fn destruction_needs_acknowledgement(state: CoreState, event: Event)
    requires
        state.step(event).1.contains(Action::DestroyWindow),
    ensures
        event == Event::WaitOver,
        state.handshake == HandshakeState::Acknowledged,
{
}

/// A close attempt stands at `Acknowledged` only after a `frontend-done`
/// event that found it at `Requested`.
pub proof fn acknowledged_after_frontend_done(start: CoreState, events: Seq<Event>, n: int) -> (j:
    int)
    requires
        start.handshake == HandshakeState::Idle,
        0 <= n <= events.len(),
        run(start, events, n).handshake == HandshakeState::Acknowledged,
    ensures
        0 <= j < n,
        events[j] == Event::FrontendDone,
        run(start, events, j).handshake == HandshakeState::Requested,
        forall|k: int|
            j < k <= n ==> (#[trigger] run(start, events, k)).handshake
                == HandshakeState::Acknowledged,
    decreases n,
{
    let before = run(start, events, n - 1);
    if before.handshake == HandshakeState::Acknowledged {
        acknowledged_after_frontend_done(start, events, n - 1)
    } else {
        n - 1
    }
}

/// Whatever happens, in whatever order: when an event has the window
/// destroyed, the presentation layer has acknowledged that close attempt
/// before, and nothing has undone the acknowledgement since. So a window is
/// destroyed strictly after its acknowledgement, never before.
pub proof fn destruction_follows_frontend_done(claimed: bool, events: Seq<Event>, i: int) -> (j:
    int)
    requires
        0 <= i < events.len(),
        run(CoreState::initial(claimed), events, i).step(events[i]).1.contains(
            Action::DestroyWindow,
        ),
    ensures
        0 <= j < i,
        events[j] == Event::FrontendDone,
        events[i] == Event::WaitOver,
        run(CoreState::initial(claimed), events, j).handshake == HandshakeState::Requested,
        forall|k: int|
            j < k <= i ==> (#[trigger] run(CoreState::initial(claimed), events, k)).handshake
                == HandshakeState::Acknowledged,
{
    let start = CoreState::initial(claimed);
    destruction_needs_acknowledgement(run(start, events, i), events[i]);
    acknowledged_after_frontend_done(start, events, i)
}

/// While a process is active, hiding its window and showing it again touch
/// neither the poller nor the listener: the poller is not started, not ended,
/// and the channel stays as it is.
pub proof fn toggling_leaves_poller_and_listener_alone(state: CoreState, event: Event)
    requires
        state.phase == Phase::Active,
        event == Event::Toggle || event == Event::FrontendDone || event == Event::WaitOver,
    ensures
        state.step(event).0.phase == Phase::Active,
        state.step(event).0.channel == state.channel,
        !state.step(event).1.contains(Action::StartPoller),
        !state.step(event).1.contains(Action::StopPoller),
        !state.step(event).1.contains(Action::ReleaseEndpoint),
{
}

/// A process is told to exit only with code 0, only when it is done, and
/// never while a close attempt is under way. A process that is done holds no
/// endpoint.
pub proof fn exit_only_when_done(state: CoreState, event: Event, code: i32)
    requires
        state.wf(),
        state.step(event).1.contains(Action::Exit { code }),
    ensures
        code == 0,
        state.step(event).0.phase == Phase::Exited,
        state.step(event).0.handshake == HandshakeState::Idle,
        !state.step(event).0.channel.holds_endpoint,
{
}

/// Whether the state is that of a degraded process, or of one that was
/// degraded and has quit.
pub open spec fn dark(state: CoreState) -> bool {
    &&& state.phase == Phase::Degraded || state.phase == Phase::Exited
    &&& state.window == WindowVisibility::Closed
    &&& state.channel.listener == ListenerState::Stopped
    &&& !state.channel.armed
    &&& state.handshake == HandshakeState::Idle
}

/// A dark state stays dark, and no event has a window built or shown there.
pub proof fn dark_stays_dark(state: CoreState, event: Event)
    requires
        dark(state),
    ensures
        dark(state.step(event).0),
        !state.step(event).1.contains(Action::BuildWindow),
        !state.step(event).1.contains(Action::ShowWindow),
{
}

/// If the first attempt of a Primary to listen fails, then whatever happens
/// afterwards, in whatever order: its window is never on screen, its listener
/// is never `Listening`, and the host is never told to build or show a window.
pub proof fn failed_listen_shows_no_window(before: CoreState, events: Seq<Event>, n: int)
    requires
        before.wf(),
        before.awaits_listen(),
        0 <= n <= events.len(),
    ensures
        ({
            let failure = before.step(Event::ListenOutcome { accepted: false });
            let state = run(failure.0, events, n);
            &&& !failure.1.contains(Action::BuildWindow)
            &&& !failure.1.contains(Action::ShowWindow)
            &&& dark(state)
            &&& state.window != WindowVisibility::Visible
            &&& state.channel.listener != ListenerState::Listening
            &&& n < events.len() ==> !state.step(events[n]).1.contains(Action::BuildWindow)
                && !state.step(events[n]).1.contains(Action::ShowWindow)
        }),
    decreases n,
{
    let degraded = before.step(Event::ListenOutcome { accepted: false }).0;
    if n > 0 {
        failed_listen_shows_no_window(before, events, n - 1);
        dark_stays_dark(run(degraded, events, n - 1), events[n - 1]);
    }
    if n < events.len() {
        dark_stays_dark(run(degraded, events, n), events[n]);
    }
}

} // verus!
