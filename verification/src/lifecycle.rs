//! The lifecycle orchestrator: what a process does from its start to its exit.
//!
//! The orchestrator holds the state and decides. Every operation takes what
//! happened outside (how an attempt ended, what the user clicked) and answers
//! with the actions that the host has to perform, in order. The host performs
//! them and reports back; it decides nothing itself.

use crate::args::Invocation;
use crate::channel::{Channel, ChannelState, ListenerState, Role};
use crate::shutdown::{Handshake, HandshakeState};
use crate::window::{label_for, toggle_label, ToggleLabel, WindowVisibility};
use tokio::sync::oneshot::Receiver;
use vstd::prelude::*;

verus! {

/// Where a process stands in its life.
#[derive(Clone, Copy, Debug, PartialEq, Eq, Structural)]
pub enum Phase {
    /// Started; the outcome of listening is not known yet.
    Starting,
    /// A Primary that holds the endpoint and cannot accept batches. It shows
    /// no window.
    Degraded,
    /// A Primary that accepts batches and hosts the window.
    Active,
    /// Quitting: the window's close attempt is under way.
    ShuttingDown,
    /// Done: the process may exit.
    Exited,
}

/// One thing that the host has to do.
#[derive(Clone, Copy, Debug, PartialEq, Eq, Structural)]
pub enum Action {
    /// Print the usage text.
    PrintUsage,
    /// Send the invocation's batch to the process that is listening.
    ForwardBatch,
    /// Hand the invocation's batch to this process's own window.
    OpenBatch,
    /// Try to accept connections on the endpoint, and report how it ended.
    Listen,
    /// Drop a listener that never worked. The endpoint stays claimed.
    TearDownListener,
    /// Stop accepting and give the endpoint up.
    ReleaseEndpoint,
    /// Construct the main window from scratch, unseen.
    BuildWindow,
    /// Put the main window on screen.
    ShowWindow,
    /// Give the main window its title.
    SetWindowTitle,
    /// Move the focus to the main window.
    FocusWindow,
    /// Close the main window at once, if there is one.
    CloseWindow,
    /// Destroy the main window at the end of its close attempt.
    DestroyWindow,
    /// Put this label on the tray's toggle item.
    SetToggleLabel(ToggleLabel),
    /// Start taking the window's `frontend-done` events.
    ExpectAcknowledgement,
    /// Emit `exit-requested` to the window.
    EmitExitRequested,
    /// Let the poller supervisor run.
    StartPoller,
    /// End the poller supervisor.
    StopPoller,
    /// Start taking the global `listener-start` signal.
    RegisterRestartHandler,
    /// Leave the process with this exit code.
    Exit { code: i32 },
}

/// One thing that happened outside and is reported to the orchestrator.
#[derive(Clone, Copy, Debug, PartialEq, Eq, Structural)]
pub enum Event {
    /// The host is set up. `usage` says that the invocation asks for the usage
    /// text only.
    Setup { usage: bool },
    /// The attempt to accept connections ended.
    ListenOutcome { accepted: bool },
    /// The global `listener-start` signal came.
    RestartListener,
    /// The user asked to show or hide the window.
    Toggle,
    /// The user asked to quit, from the tray or by closing the window.
    Quit,
    /// The window's presentation layer emitted `frontend-done`.
    FrontendDone,
    /// The task that waited for the acknowledgement was woken.
    WaitOver,
}

/// The orchestrator's state as a plain value.
pub struct CoreState {
    pub phase: Phase,
    pub channel: ChannelState,
    pub window: WindowVisibility,
    /// The label that the tray's toggle item shows.
    pub label: ToggleLabel,
    pub handshake: HandshakeState,
}

impl CoreState {
    /// The state of a process that has just tried to claim the endpoint. No
    /// window exists yet, and the tray shows the label that belongs to that.
    pub open spec fn initial(claimed: bool) -> CoreState {
        CoreState {
            phase: Phase::Starting,
            channel: ChannelState::fresh().bound(claimed),
            window: WindowVisibility::Hidden,
            label: label_for(WindowVisibility::Hidden),
            handshake: HandshakeState::Idle,
        }
    }

    /// Whether a window object exists.
    pub open spec fn has_window(self) -> bool {
        self.window == WindowVisibility::Created || self.window == WindowVisibility::Visible
    }

    /// Whether the tray's label is the one that belongs to the window's
    /// visibility.
    pub open spec fn synced(self) -> bool {
        self.label == label_for(self.window)
    }

    /// Whether the process waits to hear how its first attempt to listen ended.
    pub open spec fn awaits_listen(self) -> bool {
        &&& self.phase == Phase::Starting
        &&& self.window == WindowVisibility::Created
        &&& self.channel.role == Some(Role::Primary)
        &&& self.channel.listener == ListenerState::Unbound
    }

    /// Whether an active process waits to hear how re-arming its listener
    /// ended.
    pub open spec fn can_rearm(self) -> bool {
        &&& self.phase == Phase::Active
        &&& self.channel.listener == ListenerState::Stopped
        &&& self.channel.armed
    }

    /// The host is set up. Only a process that has done nothing yet reacts.
    /// A request for the usage text is served and closes the window. A process
    /// that has to forward its batch does so and is done, without a window. A
    /// Primary gets its window built, unseen, and tries to listen.
    pub open spec fn after_setup(self, usage: bool) -> (CoreState, Seq<Action>) {
        if self.phase != Phase::Starting || self.window != WindowVisibility::Hidden {
            (self, seq![])
        } else if usage {
            (
                CoreState { window: WindowVisibility::Closed, label: ToggleLabel::Show, ..self },
                seq![
                    Action::PrintUsage,
                    Action::CloseWindow,
                    Action::SetToggleLabel(ToggleLabel::Show),
                ],
            )
        } else if self.channel.forwards() {
            (
                CoreState { phase: Phase::Exited, ..self },
                seq![Action::ForwardBatch, Action::Exit { code: 0 }],
            )
        } else {
            (
                CoreState { window: WindowVisibility::Created, label: ToggleLabel::Show, ..self },
                seq![
                    Action::BuildWindow,
                    Action::SetToggleLabel(ToggleLabel::Show),
                    Action::Listen,
                ],
            )
        }
    }

    /// The attempt to accept connections ended. At the start, success makes
    /// the process active: the window is shown, the poller started, the
    /// restart signal taken, the process's own batch opened. Failure makes it
    /// degraded: the listener is torn down and the window closed at once. For
    /// an active process whose listener was stopped, success re-arms it.
    pub open spec fn after_listen_outcome(self, accepted: bool) -> (CoreState, Seq<Action>) {
        if self.awaits_listen() {
            if accepted {
                (
                    CoreState {
                        phase: Phase::Active,
                        channel: self.channel.listened(true),
                        window: WindowVisibility::Visible,
                        label: ToggleLabel::Hide,
                        ..self
                    },
                    seq![
                        Action::ShowWindow,
                        Action::SetToggleLabel(ToggleLabel::Hide),
                        Action::StartPoller,
                        Action::RegisterRestartHandler,
                        Action::OpenBatch,
                    ],
                )
            } else {
                (
                    CoreState {
                        phase: Phase::Degraded,
                        channel: self.channel.listened(false),
                        window: WindowVisibility::Closed,
                        label: ToggleLabel::Show,
                        ..self
                    },
                    seq![
                        Action::TearDownListener,
                        Action::CloseWindow,
                        Action::SetToggleLabel(ToggleLabel::Show),
                    ],
                )
            }
        } else if self.can_rearm() {
            (CoreState { channel: self.channel.started(accepted), ..self }, seq![])
        } else {
            (self, seq![])
        }
    }

    /// The restart signal came. An active process whose listener was stopped
    /// tries to listen again; for any other the signal is dropped.
    pub open spec fn after_restart(self) -> (CoreState, Seq<Action>) {
        if self.can_rearm() {
            (self, seq![Action::Listen])
        } else {
            (self, seq![])
        }
    }

    /// A close attempt is asked for. It starts unless one is under way.
    pub open spec fn after_close_request(self) -> (CoreState, Seq<Action>) {
        if self.handshake == HandshakeState::Idle {
            (
                CoreState { handshake: HandshakeState::Requested, ..self },
                seq![Action::ExpectAcknowledgement, Action::EmitExitRequested],
            )
        } else {
            (self, seq![])
        }
    }

    /// The user asked to show or hide the window. Only an active process
    /// reacts. Where a window exists, its close attempt starts; where none
    /// exists, one is built from scratch and shown.
    pub open spec fn after_toggle(self) -> (CoreState, Seq<Action>) {
        if self.phase != Phase::Active {
            (self, seq![])
        } else if self.has_window() {
            self.after_close_request()
        } else if self.window == WindowVisibility::Hidden {
            (
                CoreState { window: WindowVisibility::Visible, label: ToggleLabel::Hide, ..self },
                seq![
                    Action::BuildWindow,
                    Action::ShowWindow,
                    Action::SetToggleLabel(ToggleLabel::Hide),
                    Action::SetWindowTitle,
                    Action::FocusWindow,
                ],
            )
        } else {
            (self, seq![])
        }
    }

    /// What ends a process that has no window left to close: the endpoint is
    /// given up, the poller ended, the process left with code 0.
    pub open spec fn farewell() -> Seq<Action> {
        seq![Action::ReleaseEndpoint, Action::StopPoller, Action::Exit { code: 0 }]
    }

    /// The user asked to quit. Where a window exists, the process goes on to
    /// shut down through the window's close attempt, joining one that is under
    /// way. Where none exists, the process is done at once.
    pub open spec fn after_quit(self) -> (CoreState, Seq<Action>) {
        if self.phase == Phase::ShuttingDown || self.phase == Phase::Exited {
            (self, seq![])
        } else if self.has_window() {
            (
                CoreState { phase: Phase::ShuttingDown, ..self.after_close_request().0 },
                self.after_close_request().1,
            )
        } else {
            (
                CoreState { phase: Phase::Exited, channel: self.channel.stopped(), ..self },
                Self::farewell(),
            )
        }
    }

    /// The presentation layer acknowledged. Only the first acknowledgement of
    /// a close attempt counts.
    pub open spec fn after_frontend_done(self) -> (CoreState, Seq<Action>) {
        (CoreState { handshake: self.handshake.acknowledged(), ..self }, seq![])
    }

    /// The waiting task was woken. If the close attempt was acknowledged, the
    /// window is destroyed; a process that is shutting down then takes its
    /// leave. Without an acknowledgement nothing happens.
    pub open spec fn after_wait(self) -> (CoreState, Seq<Action>) {
        if self.handshake != HandshakeState::Acknowledged {
            (self, seq![])
        } else if self.phase == Phase::ShuttingDown {
            (
                CoreState {
                    phase: Phase::Exited,
                    channel: self.channel.stopped(),
                    window: WindowVisibility::Closed,
                    label: ToggleLabel::Show,
                    handshake: HandshakeState::Idle,
                },
                seq![Action::DestroyWindow, Action::SetToggleLabel(ToggleLabel::Show)]
                    + Self::farewell(),
            )
        } else {
            (
                CoreState {
                    window: WindowVisibility::Hidden,
                    label: ToggleLabel::Show,
                    handshake: HandshakeState::Idle,
                    ..self
                },
                seq![Action::DestroyWindow, Action::SetToggleLabel(ToggleLabel::Show)],
            )
        }
    }

    /// The next state and the actions to perform, for any state and event.
    pub open spec fn step(self, event: Event) -> (CoreState, Seq<Action>) {
        match event {
            Event::Setup { usage } => self.after_setup(usage),
            Event::ListenOutcome { accepted } => self.after_listen_outcome(accepted),
            Event::RestartListener => self.after_restart(),
            Event::Toggle => self.after_toggle(),
            Event::Quit => self.after_quit(),
            Event::FrontendDone => self.after_frontend_done(),
            Event::WaitOver => self.after_wait(),
        }
    }

    /// Whether the event starts a close attempt, so that a task has to wait
    /// for its acknowledgement.
    pub open spec fn starts_wait(self, event: Event) -> bool {
        self.handshake == HandshakeState::Idle && self.step(event).0.handshake
            == HandshakeState::Requested
    }

    /// What holds of every state that a process can reach.
    pub open spec fn wf(self) -> bool {
        &&& self.channel.wf()
        &&& self.channel.role is Some
        &&& self.synced()
        &&& self.handshake != HandshakeState::Idle ==> self.has_window()
        &&& self.phase == Phase::Starting ==> {
            &&& self.channel.listener == ListenerState::Unbound
            &&& self.window != WindowVisibility::Visible
            &&& self.window == WindowVisibility::Created ==> self.channel.role == Some(
                Role::Primary,
            )
            &&& self.handshake == HandshakeState::Idle
        }
        &&& self.phase == Phase::Active ==> {
            &&& self.channel.role == Some(Role::Primary)
            &&& self.channel.armed
            &&& self.window == WindowVisibility::Visible || self.window
                == WindowVisibility::Hidden
        }
        &&& self.phase == Phase::Degraded ==> {
            &&& self.channel.role == Some(Role::Primary)
            &&& self.channel.listener == ListenerState::Stopped
            &&& !self.channel.armed
            &&& self.window == WindowVisibility::Closed
        }
        &&& self.phase == Phase::ShuttingDown ==> self.handshake != HandshakeState::Idle
        &&& self.phase == Phase::Exited ==> {
            &&& !self.has_window()
            &&& self.channel.listener != ListenerState::Listening
            &&& !self.channel.holds_endpoint
        }
    }
}

/// What an operation answers: the actions to perform, in order, and, where a
/// close attempt started, the receiver on which to wait for its
/// acknowledgement before reporting `Event::WaitOver`.
pub struct Reaction {
    pub actions: Vec<Action>,
    pub wait: Option<Receiver<()>>,
}

/// The lifecycle orchestrator of one process.
pub struct Orchestrator {
    phase: Phase,
    channel: Channel,
    window: WindowVisibility,
    label: ToggleLabel,
    handshake: Handshake,
}

impl View for Orchestrator {
    type V = CoreState;

    closed spec fn view(&self) -> CoreState {
        CoreState {
            phase: self.phase,
            channel: self.channel@,
            window: self.window,
            label: self.label,
            handshake: self.handshake@,
        }
    }
}

impl Orchestrator {
    /// The orchestrator of a process that has just tried to claim the
    /// endpoint: `claimed` decides its role for good.
    pub fn new(claimed: bool) -> (core: Orchestrator)
        ensures
            core@ == CoreState::initial(claimed),
            core@.wf(),
    {
        let mut channel = Channel::new();
        let _ = channel.try_bind(claimed);
        Orchestrator {
            phase: Phase::Starting,
            channel,
            window: WindowVisibility::Hidden,
            label: toggle_label(WindowVisibility::Hidden),
            handshake: Handshake::new(),
        }
    }

    /// Starts the process off, once the host is set up: serves a request for
    /// the usage text, forwards the batch of a Secondary, or builds the window
    /// of a Primary and has it try to listen.
    pub fn setup(&mut self, invocation: &Invocation) -> (actions: Vec<Action>)
        ensures
            final(self)@ == old(self)@.step(Event::Setup { usage: invocation is Usage }).0,
            actions@ == old(self)@.step(Event::Setup { usage: invocation is Usage }).1,
    {
        self.begin(invocation.is_usage())
    }

    /// Starts the process off; `usage` says that only the usage text is asked
    /// for.
    fn begin(&mut self, usage: bool) -> (actions: Vec<Action>)
        ensures
            final(self)@ == old(self)@.after_setup(usage).0,
            actions@ == old(self)@.after_setup(usage).1,
    {
        if self.phase != Phase::Starting || self.window != WindowVisibility::Hidden {
            Vec::new()
        } else if usage {
            self.window = WindowVisibility::Closed;
            self.label = ToggleLabel::Show;
            vec![Action::PrintUsage, Action::CloseWindow, Action::SetToggleLabel(ToggleLabel::Show)]
        } else if self.channel.forwards() {
            self.phase = Phase::Exited;
            vec![Action::ForwardBatch, Action::Exit { code: 0 }]
        } else {
            self.window = WindowVisibility::Created;
            self.label = ToggleLabel::Show;
            vec![Action::BuildWindow, Action::SetToggleLabel(ToggleLabel::Show), Action::Listen]
        }
    }

    /// Takes the outcome of an attempt to accept connections.
    pub fn on_listen_outcome(&mut self, accepted: bool) -> (actions: Vec<Action>)
        ensures
            final(self)@ == old(self)@.step(Event::ListenOutcome { accepted }).0,
            actions@ == old(self)@.step(Event::ListenOutcome { accepted }).1,
    {
        let primary = !self.channel.forwards();
        let listener = self.channel.listener_state();
        if self.phase == Phase::Starting && self.window == WindowVisibility::Created && primary
            && listener == ListenerState::Unbound {
            let _ = self.channel.listen(accepted);
            if accepted {
                self.phase = Phase::Active;
                self.window = WindowVisibility::Visible;
                self.label = ToggleLabel::Hide;
                vec![
                    Action::ShowWindow,
                    Action::SetToggleLabel(ToggleLabel::Hide),
                    Action::StartPoller,
                    Action::RegisterRestartHandler,
                    Action::OpenBatch,
                ]
            } else {
                self.phase = Phase::Degraded;
                self.window = WindowVisibility::Closed;
                self.label = ToggleLabel::Show;
                vec![
                    Action::TearDownListener,
                    Action::CloseWindow,
                    Action::SetToggleLabel(ToggleLabel::Show),
                ]
            }
        } else if self.rearms() {
            self.channel.start(accepted);
            Vec::new()
        } else {
            Vec::new()
        }
    }

    /// Whether the listener of an active process was stopped and can be
    /// re-armed.
    fn rearms(&self) -> (rearms: bool)
        ensures
            rearms == self@.can_rearm(),
    {
        self.phase == Phase::Active && self.channel.listener_state() == ListenerState::Stopped
            && self.channel.was_listening()
    }

    /// Takes the global restart signal.
    pub fn on_listener_start(&mut self) -> (actions: Vec<Action>)
        ensures
            final(self)@ == old(self)@.step(Event::RestartListener).0,
            actions@ == old(self)@.step(Event::RestartListener).1,
    {
        if self.rearms() {
            vec![Action::Listen]
        } else {
            Vec::new()
        }
    }

    /// Starts the close attempt of the window, unless one is under way: takes
    /// a fresh one-shot signal for its acknowledgement and has the exit request
    /// emitted.
    fn close_main(&mut self) -> (reaction: Reaction)
        ensures
            final(self)@ == old(self)@.after_close_request().0,
            reaction.actions@ == old(self)@.after_close_request().1,
            reaction.wait is Some <==> old(self)@.handshake == HandshakeState::Idle,
    {
        match self.handshake.request() {
            Some(receiver) => Reaction {
                actions: vec![Action::ExpectAcknowledgement, Action::EmitExitRequested],
                wait: Some(receiver),
            },
            None => Reaction { actions: Vec::new(), wait: None },
        }
    }

    /// Shows or hides the window, as the tray's toggle item asks.
    pub fn toggle_main_window(&mut self) -> (reaction: Reaction)
        ensures
            final(self)@ == old(self)@.step(Event::Toggle).0,
            reaction.actions@ == old(self)@.step(Event::Toggle).1,
            reaction.wait is Some <==> old(self)@.starts_wait(Event::Toggle),
    {
        if self.phase != Phase::Active {
            Reaction { actions: Vec::new(), wait: None }
        } else if self.window == WindowVisibility::Created || self.window
            == WindowVisibility::Visible {
            self.close_main()
        } else if self.window == WindowVisibility::Hidden {
            self.window = WindowVisibility::Visible;
            self.label = ToggleLabel::Hide;
            Reaction {
                actions: vec![
                    Action::BuildWindow,
                    Action::ShowWindow,
                    Action::SetToggleLabel(ToggleLabel::Hide),
                    Action::SetWindowTitle,
                    Action::FocusWindow,
                ],
                wait: None,
            }
        } else {
            Reaction { actions: Vec::new(), wait: None }
        }
    }

    /// Quits, as the tray's quit item or a request to close the window asks.
    pub fn exit(&mut self) -> (reaction: Reaction)
        ensures
            final(self)@ == old(self)@.step(Event::Quit).0,
            reaction.actions@ == old(self)@.step(Event::Quit).1,
            reaction.wait is Some <==> old(self)@.starts_wait(Event::Quit),
    {
        if self.phase == Phase::ShuttingDown || self.phase == Phase::Exited {
            Reaction { actions: Vec::new(), wait: None }
        } else if self.window == WindowVisibility::Created || self.window
            == WindowVisibility::Visible {
            self.phase = Phase::ShuttingDown;
            self.close_main()
        } else {
            self.phase = Phase::Exited;
            self.channel.stop();
            Reaction {
                actions: vec![
                    Action::ReleaseEndpoint,
                    Action::StopPoller,
                    Action::Exit { code: 0 },
                ],
                wait: None,
            }
        }
    }

    /// Takes a `frontend-done` event. The first one of a close attempt wakes
    /// the waiting task and is answered with `true`; any other is dropped.
    pub fn on_frontend_done(&mut self) -> (first: bool)
        ensures
            final(self)@ == old(self)@.step(Event::FrontendDone).0,
            first <==> old(self)@.handshake == HandshakeState::Requested,
    {
        self.handshake.acknowledge()
    }

    /// Ends the close attempt once the waiting task was woken. The window is
    /// destroyed exactly when the attempt was acknowledged.
    pub fn complete_close(&mut self) -> (actions: Vec<Action>)
        ensures
            final(self)@ == old(self)@.step(Event::WaitOver).0,
            actions@ == old(self)@.step(Event::WaitOver).1,
            actions@.contains(Action::DestroyWindow) <==> old(self)@.handshake
                == HandshakeState::Acknowledged,
    {
        if !self.handshake.complete() {
            Vec::new()
        } else if self.phase == Phase::ShuttingDown {
            self.phase = Phase::Exited;
            self.channel.stop();
            self.window = WindowVisibility::Closed;
            self.label = ToggleLabel::Show;
            vec![
                Action::DestroyWindow,
                Action::SetToggleLabel(ToggleLabel::Show),
                Action::ReleaseEndpoint,
                Action::StopPoller,
                Action::Exit { code: 0 },
            ]
        } else {
            self.window = WindowVisibility::Hidden;
            self.label = ToggleLabel::Show;
            vec![Action::DestroyWindow, Action::SetToggleLabel(ToggleLabel::Show)]
        }
    }

    /// Takes any event and answers with what to do.
    pub fn step(&mut self, event: Event) -> (reaction: Reaction)
        ensures
            final(self)@ == old(self)@.step(event).0,
            reaction.actions@ == old(self)@.step(event).1,
            reaction.wait is Some <==> old(self)@.starts_wait(event),
    {
        match event {
            Event::Setup { usage } => Reaction { actions: self.begin(usage), wait: None },
            Event::ListenOutcome { accepted } => Reaction {
                actions: self.on_listen_outcome(accepted),
                wait: None,
            },
            Event::RestartListener => Reaction { actions: self.on_listener_start(), wait: None },
            Event::Toggle => self.toggle_main_window(),
            Event::Quit => self.exit(),
            Event::FrontendDone => {
                let _ = self.on_frontend_done();
                Reaction { actions: Vec::new(), wait: None }
            },
            Event::WaitOver => Reaction { actions: self.complete_close(), wait: None },
        }
    }

    /// Whether the host may let the process exit: only once the orchestrator
    /// is done, never while a close attempt is under way.
    pub fn may_exit(&self) -> (allowed: bool)
        ensures
            allowed == (self@.phase == Phase::Exited),
    {
        self.phase == Phase::Exited
    }

    pub fn phase(&self) -> (phase: Phase)
        ensures
            phase == self@.phase,
    {
        self.phase
    }

    /// The single-instance channel of the process.
    pub fn channel(&self) -> (channel: &Channel)
        ensures
            channel@ == self@.channel,
    {
        &self.channel
    }

    pub fn window(&self) -> (window: WindowVisibility)
        ensures
            window == self@.window,
    {
        self.window
    }

    /// The label that the tray's toggle item shows.
    pub fn toggle_label(&self) -> (label: ToggleLabel)
        ensures
            label == self@.label,
    {
        self.label
    }

    pub fn handshake_state(&self) -> (state: HandshakeState)
        ensures
            state == self@.handshake,
    {
        self.handshake.state()
    }
}

} // verus!
