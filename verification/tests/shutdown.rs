use lifecycle_core::shutdown::{Handshake, HandshakeState};
use tokio::sync::oneshot::error::TryRecvError;

#[test]
fn handshake_starts_idle() {
    let handshake = Handshake::new();
    assert_eq!(handshake.state(), HandshakeState::Idle);
}

#[test]
fn request_hands_out_a_receiver_once() {
    let mut handshake = Handshake::new();
    let first = handshake.request();
    assert!(first.is_some());
    assert_eq!(handshake.state(), HandshakeState::Requested);
    let second = handshake.request();
    assert!(second.is_none());
    assert_eq!(handshake.state(), HandshakeState::Requested);
}

#[test]
fn receiver_is_empty_until_the_acknowledgement() {
    let mut handshake = Handshake::new();
    let mut receiver = handshake.request().unwrap();
    assert_eq!(receiver.try_recv(), Err(TryRecvError::Empty));
    assert!(handshake.acknowledge());
    assert_eq!(receiver.try_recv(), Ok(()));
}

#[test]
fn only_the_first_acknowledgement_counts() {
    let mut handshake = Handshake::new();
    let mut receiver = handshake.request().unwrap();
    assert!(handshake.acknowledge());
    assert_eq!(handshake.state(), HandshakeState::Acknowledged);
    assert!(!handshake.acknowledge());
    assert!(!handshake.acknowledge());
    assert_eq!(handshake.state(), HandshakeState::Acknowledged);
    assert_eq!(receiver.try_recv(), Ok(()));
}

#[test]
fn acknowledgement_without_a_request_is_dropped() {
    let mut handshake = Handshake::new();
    assert!(!handshake.acknowledge());
    assert_eq!(handshake.state(), HandshakeState::Idle);
}

#[test]
fn destruction_is_refused_before_the_acknowledgement() {
    let mut handshake = Handshake::new();
    assert!(!handshake.complete());
    let _receiver = handshake.request().unwrap();
    assert!(!handshake.complete());
    assert_eq!(handshake.state(), HandshakeState::Requested);
    assert!(handshake.acknowledge());
    assert!(handshake.complete());
    assert_eq!(handshake.state(), HandshakeState::Idle);
    assert!(!handshake.complete());
}

#[test]
fn acknowledgement_survives_a_dropped_receiver() {
    let mut handshake = Handshake::new();
    let receiver = handshake.request().unwrap();
    drop(receiver);
    assert!(handshake.acknowledge());
    assert_eq!(handshake.state(), HandshakeState::Acknowledged);
    assert!(handshake.complete());
}

#[test]
fn each_close_attempt_gets_its_own_signal() {
    let mut handshake = Handshake::new();
    let mut first = handshake.request().unwrap();
    assert!(handshake.acknowledge());
    assert!(handshake.complete());
    let mut second = handshake.request().unwrap();
    assert_eq!(first.try_recv(), Ok(()));
    assert_eq!(second.try_recv(), Err(TryRecvError::Empty));
    assert!(handshake.acknowledge());
    assert_eq!(second.try_recv(), Ok(()));
}
