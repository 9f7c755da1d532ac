//! Handshake state machine scenarios.

use flipper_rpc::error::Error;
use flipper_rpc::session::{
    mode_switch_command, Handshake, HandshakeAction, HandshakeEvent, SessionMode,
};

#[test]
fn prompt_then_newline_reaches_rpc_active() {
    let mut h = Handshake::new();
    let r = h.step(HandshakeEvent::Bytes(b"some banner text\n>: ".to_vec()));
    assert!(matches!(r, HandshakeAction::SendModeSwitch));
    let r = h.step(HandshakeEvent::Bytes(b"ok\n".to_vec()));
    assert!(matches!(r, HandshakeAction::Established));
}

#[test]
fn noise_keeps_draining() {
    let mut h = Handshake::new();
    let r = h.step(HandshakeEvent::Bytes(b"booting...".to_vec()));
    assert!(matches!(r, HandshakeAction::KeepReading));
    let r = h.step(HandshakeEvent::Bytes(b"still booting".to_vec()));
    assert!(matches!(r, HandshakeAction::KeepReading));
    let r = h.step(HandshakeEvent::Bytes(b">: ".to_vec()));
    assert!(matches!(r, HandshakeAction::SendModeSwitch));
}

#[test]
fn prompt_split_across_chunks_is_found() {
    let mut h = Handshake::new();
    let r = h.step(HandshakeEvent::Bytes(b"banner>".to_vec()));
    assert!(matches!(r, HandshakeAction::KeepReading));
    let r = h.step(HandshakeEvent::Bytes(b": ".to_vec()));
    assert!(matches!(r, HandshakeAction::SendModeSwitch));
}

#[test]
fn timeout_waiting_for_prompt_fails_naming_the_marker() {
    let mut h = Handshake::new();
    let r = h.step(HandshakeEvent::TimedOut);
    match r {
        HandshakeAction::Fail(Error::Timeout(marker)) => assert_eq!(marker, ">: "),
        other => panic!("expected a timeout failure, got {:?}", other),
    }
}

#[test]
fn timeout_waiting_for_newline_fails_naming_the_marker() {
    let mut h = Handshake::new();
    let r = h.step(HandshakeEvent::Bytes(b">: ".to_vec()));
    assert!(matches!(r, HandshakeAction::SendModeSwitch));
    let r = h.step(HandshakeEvent::TimedOut);
    match r {
        HandshakeAction::Fail(Error::Timeout(marker)) => assert_eq!(marker, "\n"),
        other => panic!("expected a timeout failure, got {:?}", other),
    }
}

#[test]
fn the_mode_switch_command_ends_with_carriage_return() {
    assert_eq!(mode_switch_command(), "start_rpc_session\r");
}

#[test]
fn session_modes_are_distinct() {
    assert_ne!(SessionMode::Disconnected, SessionMode::RpcActive);
    assert_ne!(SessionMode::AwaitPrompt, SessionMode::AwaitNewline);
}
