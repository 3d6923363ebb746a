use lifecycle_core::args::Invocation;
use lifecycle_core::channel::{ListenerState, Role};
use lifecycle_core::lifecycle::{Action, Event, Orchestrator, Phase};
use lifecycle_core::shutdown::HandshakeState;
use lifecycle_core::window::{toggle_label, ToggleLabel, WindowVisibility};
use tokio::sync::oneshot::error::TryRecvError;

fn launch_without_paths() -> Invocation {
    Invocation::Launch { batch: vec![] }
}

fn active() -> Orchestrator {
    let mut core = Orchestrator::new(true);
    core.setup(&launch_without_paths());
    core.on_listen_outcome(true);
    core
}

fn degraded() -> Orchestrator {
    let mut core = Orchestrator::new(true);
    core.setup(&launch_without_paths());
    core.on_listen_outcome(false);
    core
}

fn hidden() -> Orchestrator {
    let mut core = active();
    core.toggle_main_window();
    core.on_frontend_done();
    core.complete_close();
    core
}

fn label_fits(core: &Orchestrator) -> bool {
    core.toggle_label() == toggle_label(core.window())
}

#[test]
fn new_process_is_starting_without_a_window() {
    let core = Orchestrator::new(true);
    assert_eq!(core.phase(), Phase::Starting);
    assert_eq!(core.channel().role(), Some(Role::Primary));
    assert_eq!(core.channel().listener_state(), ListenerState::Unbound);
    assert_eq!(core.window(), WindowVisibility::Hidden);
    assert_eq!(core.toggle_label(), ToggleLabel::Show);
    assert_eq!(core.handshake_state(), HandshakeState::Idle);
    assert!(!core.may_exit());
    let core = Orchestrator::new(false);
    assert_eq!(core.channel().role(), Some(Role::Secondary));
    assert_eq!(core.phase(), Phase::Starting);
    assert_eq!(core.toggle_label(), ToggleLabel::Show);
}

#[test]
fn primary_setup_builds_the_window_and_listens() {
    let mut core = Orchestrator::new(true);
    let actions = core.setup(&launch_without_paths());
    assert_eq!(
        actions,
        vec![Action::BuildWindow, Action::SetToggleLabel(ToggleLabel::Show), Action::Listen]
    );
    assert_eq!(core.phase(), Phase::Starting);
    assert_eq!(core.window(), WindowVisibility::Created);
    assert!(label_fits(&core));
}

#[test]
fn setup_is_done_once() {
    let mut core = Orchestrator::new(true);
    core.setup(&launch_without_paths());
    assert_eq!(core.setup(&launch_without_paths()), vec![]);
    assert_eq!(core.window(), WindowVisibility::Created);
    let mut core = active();
    assert_eq!(core.setup(&launch_without_paths()), vec![]);
    assert_eq!(core.phase(), Phase::Active);
}

#[test]
fn secondary_forwards_and_is_done() {
    let mut core = Orchestrator::new(false);
    let actions = core.setup(&Invocation::Launch { batch: vec!["movie.torrent".to_string()] });
    assert_eq!(actions, vec![Action::ForwardBatch, Action::Exit { code: 0 }]);
    assert_eq!(core.phase(), Phase::Exited);
    assert_eq!(core.window(), WindowVisibility::Hidden);
    assert_eq!(core.toggle_label(), ToggleLabel::Show);
    assert!(core.may_exit());
}

#[test]
fn usage_is_printed_and_the_window_closed() {
    let mut core = Orchestrator::new(true);
    let actions = core.setup(&Invocation::Usage { text: "usage".to_string() });
    assert_eq!(
        actions,
        vec![Action::PrintUsage, Action::CloseWindow, Action::SetToggleLabel(ToggleLabel::Show)]
    );
    assert_eq!(core.phase(), Phase::Starting);
    assert_eq!(core.window(), WindowVisibility::Closed);
    assert!(label_fits(&core));
    assert_eq!(core.setup(&launch_without_paths()), vec![]);
    assert_eq!(core.on_listen_outcome(true), vec![]);
    assert_eq!(core.window(), WindowVisibility::Closed);
}

#[test]
fn usage_wins_for_a_secondary_too() {
    let mut core = Orchestrator::new(false);
    let actions = core.setup(&Invocation::Usage { text: "usage".to_string() });
    assert_eq!(
        actions,
        vec![Action::PrintUsage, Action::CloseWindow, Action::SetToggleLabel(ToggleLabel::Show)]
    );
    assert_eq!(core.phase(), Phase::Starting);
}

#[test]
fn accepted_listen_makes_the_process_active() {
    let mut core = Orchestrator::new(true);
    core.setup(&launch_without_paths());
    let actions = core.on_listen_outcome(true);
    assert_eq!(
        actions,
        vec![
            Action::ShowWindow,
            Action::SetToggleLabel(ToggleLabel::Hide),
            Action::StartPoller,
            Action::RegisterRestartHandler,
            Action::OpenBatch,
        ]
    );
    assert_eq!(core.phase(), Phase::Active);
    assert_eq!(core.channel().listener_state(), ListenerState::Listening);
    assert!(core.channel().holds_endpoint());
    assert_eq!(core.window(), WindowVisibility::Visible);
    assert_eq!(core.toggle_label(), ToggleLabel::Hide);
}

#[test]
fn refused_listen_makes_the_process_degraded() {
    let mut core = Orchestrator::new(true);
    core.setup(&launch_without_paths());
    let actions = core.on_listen_outcome(false);
    assert_eq!(
        actions,
        vec![
            Action::TearDownListener,
            Action::CloseWindow,
            Action::SetToggleLabel(ToggleLabel::Show),
        ]
    );
    assert_eq!(core.phase(), Phase::Degraded);
    assert_eq!(core.channel().listener_state(), ListenerState::Stopped);
    assert!(core.channel().holds_endpoint());
    assert_eq!(core.window(), WindowVisibility::Closed);
    assert_eq!(core.toggle_label(), ToggleLabel::Show);
}

#[test]
fn listen_outcome_before_setup_is_dropped() {
    let mut core = Orchestrator::new(true);
    assert_eq!(core.on_listen_outcome(true), vec![]);
    assert_eq!(core.phase(), Phase::Starting);
    assert_eq!(core.channel().listener_state(), ListenerState::Unbound);
    assert_eq!(core.window(), WindowVisibility::Hidden);
}

#[test]
fn degraded_process_never_shows_a_window_nor_listens() {
    let events = [
        Event::Toggle,
        Event::RestartListener,
        Event::ListenOutcome { accepted: true },
        Event::Setup { usage: false },
        Event::FrontendDone,
        Event::WaitOver,
        Event::Toggle,
        Event::Quit,
        Event::Toggle,
        Event::ListenOutcome { accepted: true },
        Event::RestartListener,
    ];
    let mut core = degraded();
    for event in events {
        let reaction = core.step(event);
        assert!(!reaction.actions.contains(&Action::BuildWindow));
        assert!(!reaction.actions.contains(&Action::ShowWindow));
        assert!(reaction.wait.is_none());
        assert_eq!(core.window(), WindowVisibility::Closed);
        assert_ne!(core.channel().listener_state(), ListenerState::Listening);
    }
    assert_eq!(core.phase(), Phase::Exited);
}

#[test]
fn degraded_process_can_quit() {
    let mut core = degraded();
    let reaction = core.exit();
    assert_eq!(
        reaction.actions,
        vec![Action::ReleaseEndpoint, Action::StopPoller, Action::Exit { code: 0 }]
    );
    assert!(reaction.wait.is_none());
    assert_eq!(core.phase(), Phase::Exited);
    assert!(!core.channel().holds_endpoint());
    assert!(core.may_exit());
}

#[test]
fn hide_runs_the_handshake_before_the_window_goes() {
    let mut core = active();
    let reaction = core.toggle_main_window();
    assert_eq!(reaction.actions, vec![Action::ExpectAcknowledgement, Action::EmitExitRequested]);
    let mut wait = reaction.wait.unwrap();
    assert_eq!(core.handshake_state(), HandshakeState::Requested);
    assert_eq!(core.window(), WindowVisibility::Visible);
    assert_eq!(core.toggle_label(), ToggleLabel::Hide);
    assert_eq!(wait.try_recv(), Err(TryRecvError::Empty));

    assert!(core.on_frontend_done());
    assert_eq!(wait.try_recv(), Ok(()));
    assert_eq!(core.handshake_state(), HandshakeState::Acknowledged);
    assert_eq!(core.window(), WindowVisibility::Visible);

    let actions = core.complete_close();
    assert_eq!(actions, vec![Action::DestroyWindow, Action::SetToggleLabel(ToggleLabel::Show)]);
    assert_eq!(core.window(), WindowVisibility::Hidden);
    assert_eq!(core.toggle_label(), ToggleLabel::Show);
    assert_eq!(core.handshake_state(), HandshakeState::Idle);
    assert_eq!(core.phase(), Phase::Active);
    assert_eq!(core.channel().listener_state(), ListenerState::Listening);
}

#[test]
fn window_is_not_destroyed_without_acknowledgement() {
    let mut core = active();
    assert_eq!(core.complete_close(), vec![]);
    let _wait = core.toggle_main_window().wait.unwrap();
    assert_eq!(core.complete_close(), vec![]);
    assert_eq!(core.window(), WindowVisibility::Visible);
    assert_eq!(core.handshake_state(), HandshakeState::Requested);
    assert_eq!(core.toggle_label(), ToggleLabel::Hide);
}

#[test]
fn second_hide_joins_the_attempt_under_way() {
    let mut core = active();
    let first = core.toggle_main_window();
    assert!(first.wait.is_some());
    let second = core.toggle_main_window();
    assert_eq!(second.actions, vec![]);
    assert!(second.wait.is_none());
    assert_eq!(core.handshake_state(), HandshakeState::Requested);
}

#[test]
fn later_acknowledgements_are_dropped() {
    let mut core = active();
    let _wait = core.toggle_main_window().wait.unwrap();
    assert!(core.on_frontend_done());
    assert!(!core.on_frontend_done());
    core.complete_close();
    assert!(!core.on_frontend_done());
    assert_eq!(core.handshake_state(), HandshakeState::Idle);
    assert_eq!(core.complete_close(), vec![]);
    assert_eq!(core.window(), WindowVisibility::Hidden);
}

#[test]
fn show_after_hide_builds_a_new_window() {
    let mut core = hidden();
    let reaction = core.toggle_main_window();
    assert_eq!(
        reaction.actions,
        vec![
            Action::BuildWindow,
            Action::ShowWindow,
            Action::SetToggleLabel(ToggleLabel::Hide),
            Action::SetWindowTitle,
            Action::FocusWindow,
        ]
    );
    assert!(reaction.wait.is_none());
    assert_eq!(core.window(), WindowVisibility::Visible);
    assert_eq!(core.toggle_label(), ToggleLabel::Hide);
    assert_eq!(core.phase(), Phase::Active);
}

#[test]
fn hide_and_show_leave_poller_and_listener_alone() {
    let mut core = active();
    let mut actions = core.toggle_main_window().actions;
    core.on_frontend_done();
    actions.extend(core.complete_close());
    actions.extend(core.toggle_main_window().actions);
    assert!(!actions.contains(&Action::StartPoller));
    assert!(!actions.contains(&Action::StopPoller));
    assert!(!actions.contains(&Action::ReleaseEndpoint));
    assert!(!actions.contains(&Action::Listen));
    assert_eq!(core.channel().listener_state(), ListenerState::Listening);
}

#[test]
fn quit_with_a_window_goes_through_the_handshake() {
    let mut core = active();
    let reaction = core.exit();
    assert_eq!(reaction.actions, vec![Action::ExpectAcknowledgement, Action::EmitExitRequested]);
    let mut wait = reaction.wait.unwrap();
    assert_eq!(core.phase(), Phase::ShuttingDown);
    assert!(!core.may_exit());
    assert_eq!(core.complete_close(), vec![]);
    assert!(!core.may_exit());

    assert!(core.on_frontend_done());
    assert_eq!(wait.try_recv(), Ok(()));
    assert!(!core.may_exit());
    let actions = core.complete_close();
    assert_eq!(
        actions,
        vec![
            Action::DestroyWindow,
            Action::SetToggleLabel(ToggleLabel::Show),
            Action::ReleaseEndpoint,
            Action::StopPoller,
            Action::Exit { code: 0 },
        ]
    );
    assert_eq!(core.phase(), Phase::Exited);
    assert_eq!(core.window(), WindowVisibility::Closed);
    assert_eq!(core.toggle_label(), ToggleLabel::Show);
    assert_eq!(core.channel().listener_state(), ListenerState::Stopped);
    assert!(!core.channel().holds_endpoint());
    assert!(core.may_exit());
}

#[test]
fn quit_without_a_window_is_done_at_once() {
    let mut core = hidden();
    let reaction = core.exit();
    assert_eq!(
        reaction.actions,
        vec![Action::ReleaseEndpoint, Action::StopPoller, Action::Exit { code: 0 }]
    );
    assert!(reaction.wait.is_none());
    assert_eq!(core.phase(), Phase::Exited);
    assert_eq!(core.channel().listener_state(), ListenerState::Stopped);
    assert!(!core.channel().holds_endpoint());
    assert_eq!(core.window(), WindowVisibility::Hidden);
}

#[test]
fn quit_joins_a_hide_under_way() {
    let mut core = active();
    let hide = core.toggle_main_window();
    assert!(hide.wait.is_some());
    let quit = core.exit();
    assert_eq!(quit.actions, vec![]);
    assert!(quit.wait.is_none());
    assert_eq!(core.phase(), Phase::ShuttingDown);
    assert!(core.on_frontend_done());
    let actions = core.complete_close();
    assert_eq!(
        actions,
        vec![
            Action::DestroyWindow,
            Action::SetToggleLabel(ToggleLabel::Show),
            Action::ReleaseEndpoint,
            Action::StopPoller,
            Action::Exit { code: 0 },
        ]
    );
    assert_eq!(core.phase(), Phase::Exited);
}

#[test]
fn quit_before_the_listen_outcome_closes_the_built_window() {
    let mut core = Orchestrator::new(true);
    core.setup(&launch_without_paths());
    let reaction = core.exit();
    assert_eq!(reaction.actions, vec![Action::ExpectAcknowledgement, Action::EmitExitRequested]);
    assert!(reaction.wait.is_some());
    assert_eq!(core.phase(), Phase::ShuttingDown);
    assert_eq!(core.on_listen_outcome(true), vec![]);
    assert_eq!(core.phase(), Phase::ShuttingDown);
    assert_eq!(core.window(), WindowVisibility::Created);
    assert!(core.on_frontend_done());
    core.complete_close();
    assert_eq!(core.phase(), Phase::Exited);
    assert_eq!(core.window(), WindowVisibility::Closed);
}

#[test]
fn nothing_happens_after_the_exit() {
    let mut core = hidden();
    core.exit();
    for event in [
        Event::Setup { usage: false },
        Event::ListenOutcome { accepted: true },
        Event::RestartListener,
        Event::Toggle,
        Event::Quit,
        Event::FrontendDone,
        Event::WaitOver,
    ] {
        let reaction = core.step(event);
        assert_eq!(reaction.actions, vec![]);
        assert!(reaction.wait.is_none());
        assert_eq!(core.phase(), Phase::Exited);
        assert_eq!(core.window(), WindowVisibility::Hidden);
    }
}

#[test]
fn toggle_is_ignored_outside_the_active_phase() {
    let mut core = Orchestrator::new(true);
    assert_eq!(core.toggle_main_window().actions, vec![]);
    core.setup(&launch_without_paths());
    let reaction = core.toggle_main_window();
    assert_eq!(reaction.actions, vec![]);
    assert!(reaction.wait.is_none());
    assert_eq!(core.window(), WindowVisibility::Created);
    let mut core = active();
    core.exit();
    assert_eq!(core.toggle_main_window().actions, vec![]);
    assert_eq!(core.phase(), Phase::ShuttingDown);
}

#[test]
fn restart_signal_is_dropped_while_listening() {
    let mut core = active();
    assert_eq!(core.on_listener_start(), vec![]);
    assert_eq!(core.channel().listener_state(), ListenerState::Listening);
    let mut core = Orchestrator::new(true);
    assert_eq!(core.on_listener_start(), vec![]);
    let mut core = degraded();
    assert_eq!(core.on_listener_start(), vec![]);
    assert_eq!(core.channel().listener_state(), ListenerState::Stopped);
}

#[test]
fn label_fits_in_every_state() {
    let events = [
        Event::Setup { usage: false },
        Event::Toggle,
        Event::ListenOutcome { accepted: true },
        Event::Toggle,
        Event::Toggle,
        Event::FrontendDone,
        Event::WaitOver,
        Event::RestartListener,
        Event::Toggle,
        Event::Toggle,
        Event::FrontendDone,
        Event::FrontendDone,
        Event::WaitOver,
        Event::Toggle,
        Event::Quit,
        Event::Toggle,
        Event::FrontendDone,
        Event::WaitOver,
        Event::Toggle,
    ];
    let mut core = Orchestrator::new(true);
    let mut shown = ToggleLabel::Show;
    assert!(label_fits(&core));
    for event in events {
        let before = core.window();
        let reaction = core.step(event);
        let mut told = false;
        for action in reaction.actions {
            if let Action::SetToggleLabel(label) = action {
                shown = label;
                told = true;
            }
        }
        assert_eq!(shown, core.toggle_label());
        assert!(label_fits(&core));
        assert_eq!(shown == ToggleLabel::Hide, core.window() == WindowVisibility::Visible);
        if core.window() != before {
            assert!(told);
        }
    }
    assert_eq!(core.phase(), Phase::Exited);
}

#[test]
fn label_fits_on_the_ways_without_a_window() {
    let mut secondary = Orchestrator::new(false);
    assert!(label_fits(&secondary));
    secondary.setup(&launch_without_paths());
    assert!(label_fits(&secondary));
    assert_eq!(secondary.toggle_label(), ToggleLabel::Show);

    let mut usage = Orchestrator::new(true);
    usage.setup(&Invocation::Usage { text: "usage".to_string() });
    assert!(label_fits(&usage));
    usage.exit();
    assert!(label_fits(&usage));

    let mut early = Orchestrator::new(true);
    early.exit();
    assert_eq!(early.phase(), Phase::Exited);
    assert!(label_fits(&early));
    assert_eq!(early.toggle_label(), ToggleLabel::Show);
}

#[test]
fn step_answers_like_the_named_operations() {
    let mut by_step = Orchestrator::new(true);
    let mut by_name = Orchestrator::new(true);
    assert_eq!(
        by_step.step(Event::Setup { usage: false }).actions,
        by_name.setup(&launch_without_paths())
    );
    assert_eq!(
        by_step.step(Event::ListenOutcome { accepted: true }).actions,
        by_name.on_listen_outcome(true)
    );
    assert_eq!(by_step.step(Event::RestartListener).actions, by_name.on_listener_start());
    let stepped = by_step.step(Event::Toggle);
    let named = by_name.toggle_main_window();
    assert_eq!(stepped.actions, named.actions);
    assert_eq!(stepped.wait.is_some(), named.wait.is_some());
    assert_eq!(by_step.step(Event::FrontendDone).actions, vec![]);
    assert!(by_name.on_frontend_done());
    assert_eq!(by_step.step(Event::WaitOver).actions, by_name.complete_close());
    let stepped = by_step.step(Event::Quit);
    let named = by_name.exit();
    assert_eq!(stepped.actions, named.actions);
    assert_eq!(by_step.phase(), by_name.phase());
    assert_eq!(by_step.window(), by_name.window());
}

#[test]
fn tray_hide_scenario() {
    let mut core = active();
    let reaction = core.toggle_main_window();
    assert!(reaction.actions.contains(&Action::EmitExitRequested));
    assert!(!reaction.actions.contains(&Action::DestroyWindow));
    assert!(core.on_frontend_done());
    let actions = core.complete_close();
    assert!(actions.contains(&Action::DestroyWindow));
    assert_eq!(core.window(), WindowVisibility::Hidden);
    assert_eq!(core.toggle_label().text(), "Show");
}

#[test]
fn tray_show_after_hide_scenario() {
    let mut core = hidden();
    let reaction = core.toggle_main_window();
    assert!(reaction.actions.contains(&Action::BuildWindow));
    assert!(!reaction.actions.contains(&Action::StartPoller));
    assert_eq!(core.window(), WindowVisibility::Visible);
    assert_eq!(core.toggle_label().text(), "Hide");
}
