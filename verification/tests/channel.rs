use lifecycle_core::channel::{Channel, ListenError, ListenerState, Role, SendError};

#[test]
fn fresh_channel_has_no_role() {
    let channel = Channel::new();
    assert_eq!(channel.role(), None);
    assert_eq!(channel.listener_state(), ListenerState::Unbound);
    assert!(!channel.holds_endpoint());
    assert!(!channel.is_listening());
    assert!(!channel.was_listening());
}

#[test]
fn successful_claim_makes_a_primary() {
    let mut channel = Channel::new();
    assert_eq!(channel.try_bind(true), Role::Primary);
    assert_eq!(channel.role(), Some(Role::Primary));
    assert!(channel.holds_endpoint());
    assert!(!channel.forwards());
}

#[test]
fn failed_claim_makes_a_secondary() {
    let mut channel = Channel::new();
    assert_eq!(channel.try_bind(false), Role::Secondary);
    assert_eq!(channel.role(), Some(Role::Secondary));
    assert!(!channel.holds_endpoint());
    assert!(channel.forwards());
}

#[test]
fn role_is_fixed_by_the_first_attempt() {
    let mut primary = Channel::new();
    primary.try_bind(true);
    assert_eq!(primary.try_bind(false), Role::Primary);
    assert!(primary.holds_endpoint());

    let mut secondary = Channel::new();
    secondary.try_bind(false);
    assert_eq!(secondary.try_bind(true), Role::Secondary);
    assert!(!secondary.holds_endpoint());
}

#[test]
fn primary_listens_when_accepted() {
    let mut channel = Channel::new();
    channel.try_bind(true);
    assert_eq!(channel.listen(true), Ok(()));
    assert_eq!(channel.listener_state(), ListenerState::Listening);
    assert!(channel.is_listening());
    assert!(channel.was_listening());
    assert_eq!(channel.listen(true), Ok(()));
    assert_eq!(channel.listen(false), Ok(()));
    assert_eq!(channel.listener_state(), ListenerState::Listening);
}

#[test]
fn refused_listen_degrades_the_primary() {
    let mut channel = Channel::new();
    channel.try_bind(true);
    assert_eq!(channel.listen(false), Err(ListenError::Refused));
    assert_eq!(channel.listener_state(), ListenerState::Stopped);
    assert!(channel.holds_endpoint());
    assert_eq!(channel.role(), Some(Role::Primary));
    assert!(!channel.was_listening());
}

#[test]
fn degraded_primary_never_listens_again() {
    let mut channel = Channel::new();
    channel.try_bind(true);
    let _ = channel.listen(false);
    assert_eq!(channel.listen(true), Err(ListenError::Stopped));
    channel.start(true);
    assert_eq!(channel.listener_state(), ListenerState::Stopped);
    channel.stop();
    channel.start(true);
    assert_eq!(channel.listener_state(), ListenerState::Stopped);
    assert!(!channel.is_listening());
}

#[test]
fn secondary_cannot_listen() {
    let mut channel = Channel::new();
    channel.try_bind(false);
    assert_eq!(channel.listen(true), Err(ListenError::NotPrimary));
    assert_eq!(channel.listener_state(), ListenerState::Unbound);
}

#[test]
fn unbound_channel_cannot_listen() {
    let mut channel = Channel::new();
    assert_eq!(channel.listen(true), Err(ListenError::NotPrimary));
    assert_eq!(channel.listener_state(), ListenerState::Unbound);
}

#[test]
fn secondary_send_follows_the_transport() {
    let mut channel = Channel::new();
    channel.try_bind(false);
    assert_eq!(channel.send(true), Ok(()));
    assert_eq!(channel.send(false), Err(SendError::NoListener));
}

#[test]
fn degraded_primary_send_is_a_silent_success() {
    let mut channel = Channel::new();
    channel.try_bind(true);
    let _ = channel.listen(false);
    assert_eq!(channel.send(false), Ok(()));
    assert_eq!(channel.send(true), Ok(()));
}

#[test]
fn stop_releases_the_endpoint() {
    let mut channel = Channel::new();
    channel.try_bind(true);
    let _ = channel.listen(true);
    channel.stop();
    assert_eq!(channel.listener_state(), ListenerState::Stopped);
    assert!(!channel.holds_endpoint());
    assert_eq!(channel.role(), Some(Role::Primary));
}

#[test]
fn stop_is_idempotent() {
    let mut channel = Channel::new();
    channel.try_bind(true);
    let _ = channel.listen(true);
    channel.stop();
    channel.stop();
    assert_eq!(channel.listener_state(), ListenerState::Stopped);
    assert!(!channel.holds_endpoint());
    assert!(channel.was_listening());
}

#[test]
fn start_rearms_a_stopped_listener() {
    let mut channel = Channel::new();
    channel.try_bind(true);
    let _ = channel.listen(true);
    channel.stop();
    channel.start(false);
    assert_eq!(channel.listener_state(), ListenerState::Stopped);
    assert!(!channel.holds_endpoint());
    channel.start(true);
    assert_eq!(channel.listener_state(), ListenerState::Listening);
    assert!(channel.holds_endpoint());
}

#[test]
fn start_is_idempotent() {
    let mut channel = Channel::new();
    channel.try_bind(true);
    let _ = channel.listen(true);
    channel.start(true);
    channel.start(false);
    assert_eq!(channel.listener_state(), ListenerState::Listening);
    assert!(channel.holds_endpoint());
}

#[test]
fn start_does_nothing_for_a_secondary() {
    let mut channel = Channel::new();
    channel.try_bind(false);
    channel.start(true);
    assert_eq!(channel.listener_state(), ListenerState::Unbound);
    channel.stop();
    channel.start(true);
    assert_eq!(channel.listener_state(), ListenerState::Stopped);
    assert!(!channel.holds_endpoint());
}
