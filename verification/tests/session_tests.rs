use aloha::error::ChatError;
use aloha::frame::FrameOutcome;
use aloha::session::{relay_step, HandlerAction, HandlerEvent, HandlerState, RelayAction, RelayEvent};

const JOINED: &str = "\x1b[1m\x1b[92mJoined!\x1b[39m\x1b[0m";
const LEFT: &str = "\x1b[1m\x1b[91mLeft!\x1b[39m\x1b[0m";

fn msg(s: &str) -> HandlerEvent {
    HandlerEvent::Read(FrameOutcome::Message(s.to_string()))
}

fn chatting(name: &str) -> HandlerState {
    let (s, _) = HandlerState::new().step(msg(name));
    let (s, _) = s.step(HandlerEvent::StreamCloned);
    s
}

#[test]
fn name_then_clone_then_join() {
    let (s, a) = HandlerState::new().step(msg("alice"));
    assert!(matches!(a, HandlerAction::CloneStream));
    assert!(matches!(&s, HandlerState::Joining(n) if n == "alice"));
    let (s, a) = s.step(HandlerEvent::StreamCloned);
    match a {
        HandlerAction::Join { username, notice } => {
            assert_eq!(username, "alice");
            assert_eq!(notice, JOINED);
        }
        _ => panic!("expected join"),
    }
    assert!(matches!(s, HandlerState::Chatting(n) if n == "alice"));
}

#[test]
fn early_disconnect_and_header_failure() {
    let (s, a) = HandlerState::new().step(HandlerEvent::Read(FrameOutcome::Closed));
    assert!(matches!(s, HandlerState::Finished));
    assert!(matches!(a, HandlerAction::Abort(ChatError::DisconnectedEarly)));
    let (_, a) = HandlerState::new().step(HandlerEvent::Read(FrameOutcome::Failed));
    assert!(matches!(a, HandlerAction::Abort(ChatError::HeaderReadFailed)));
}

#[test]
fn clone_failure_aborts() {
    let (s, _) = HandlerState::new().step(msg("alice"));
    let (s, a) = s.step(HandlerEvent::CloneFailed);
    assert!(matches!(s, HandlerState::Finished));
    assert!(matches!(a, HandlerAction::Abort(ChatError::CloneFailed)));
}

#[test]
fn messages_are_forwarded_under_own_name() {
    let (s, a) = chatting("alice").step(msg("hi"));
    match a {
        HandlerAction::Forward { username, message } => {
            assert_eq!(username, "alice");
            assert_eq!(message, "hi");
        }
        _ => panic!("expected forward"),
    }
    assert!(matches!(s, HandlerState::Chatting(n) if n == "alice"));
}

#[test]
fn client_close_departs() {
    let (s, a) = chatting("bob").step(HandlerEvent::Read(FrameOutcome::Closed));
    assert!(matches!(s, HandlerState::Finished));
    match a {
        HandlerAction::Depart { username, notice, error } => {
            assert_eq!(username, "bob");
            assert_eq!(notice, LEFT);
            assert_eq!(error, ChatError::ClientLeft);
        }
        _ => panic!("expected depart"),
    }
}

#[test]
fn read_failure_departs() {
    let (s, a) = chatting("bob").step(HandlerEvent::Read(FrameOutcome::Failed));
    assert!(matches!(s, HandlerState::Finished));
    match a {
        HandlerAction::Depart { username, notice, error } => {
            assert_eq!(username, "bob");
            assert_eq!(notice, LEFT);
            assert_eq!(error, ChatError::MessageReadFailed);
        }
        _ => panic!("expected depart"),
    }
}

#[test]
fn shutdown_and_forward_failure_leave() {
    for ev in [HandlerEvent::ShutdownRequested, HandlerEvent::ForwardFailed] {
        let (s, a) = chatting("carol").step(ev);
        assert!(matches!(s, HandlerState::Finished));
        match a {
            HandlerAction::Leave { username, notice } => {
                assert_eq!(username, "carol");
                assert_eq!(notice, LEFT);
            }
            _ => panic!("expected leave"),
        }
    }
}

#[test]
fn events_out_of_place_are_ignored() {
    let (s, a) = HandlerState::new().step(HandlerEvent::StreamCloned);
    assert!(matches!(s, HandlerState::AwaitingName));
    assert!(matches!(a, HandlerAction::Ignore));
    let (s, a) = HandlerState::Finished.step(msg("late"));
    assert!(matches!(s, HandlerState::Finished));
    assert!(matches!(a, HandlerAction::Ignore));
}

#[test]
fn session_keeps_first_name() {
    let mut s = HandlerState::new();
    let events = vec![HandlerEvent::ShutdownRequested, msg("dave"), msg("eve"), HandlerEvent::StreamCloned, msg("frank")];
    for e in events {
        s = s.step(e).0;
    }
    assert!(matches!(s, HandlerState::Chatting(n) if n == "dave"));
}

#[test]
fn relay_decisions() {
    assert!(matches!(relay_step(RelayEvent::Shutdown), RelayAction::Stop));
    assert!(matches!(relay_step(RelayEvent::Timeout), RelayAction::Wait));
    assert!(matches!(relay_step(RelayEvent::Disconnected), RelayAction::Close));
    match relay_step(RelayEvent::Received { sender: 4, from: "a".to_string(), message: "b".to_string() }) {
        RelayAction::Deliver { sender, from, message } => {
            assert_eq!(sender, 4);
            assert_eq!(from, "a");
            assert_eq!(message, "b");
        }
        _ => panic!("expected deliver"),
    }
}

#[test]
fn error_messages() {
    assert_eq!(ChatError::DisconnectedEarly.message(), "Server error: Disconnected early");
    assert_eq!(ChatError::HeaderReadFailed.message(), "Server error: Failed to read header");
    assert_eq!(ChatError::CloneFailed.message(), "Unable to clone stream");
    assert_eq!(ChatError::ClientLeft.message(), "client left");
    assert_eq!(ChatError::MessageReadFailed.message(), "Server error: Failed to read message");
    assert_eq!(ChatError::SendFailed.message(), "Error Sending message to server");
    assert_eq!(ChatError::ServerGone.message(), "\nRead error — assuming server is gone.");
}
