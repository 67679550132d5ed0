use fixture_server::state::{PublishError, ServerState, StartAction};

#[test]
fn new_state_is_idle() {
    let s = ServerState::new();
    assert!(!s.is_server_thread_spawned());
    assert!(!s.is_listening());
    assert_eq!(s.port(), 0);
    assert_eq!(s.host(), "127.0.0.1:0");
}

#[test]
fn state_start_spawns_once() {
    let mut s = ServerState::new();
    assert_eq!(s.start(), StartAction::Spawn);
    assert!(s.is_server_thread_spawned());
    assert_eq!(s.start(), StartAction::Wait);
    assert_eq!(s.start(), StartAction::Wait);
    assert!(s.is_server_thread_spawned());
    assert!(!s.is_listening());
}

#[test]
fn state_publish_errors() {
    let mut s = ServerState::new();
    assert_eq!(s.publish_port(0), Err(PublishError::ZeroPort));
    assert_eq!(s.publish_port(1234), Err(PublishError::NotSpawned));
    assert_eq!(s, ServerState { spawned: false, port: 0 });
    s.start();
    assert_eq!(s.publish_port(0), Err(PublishError::ZeroPort));
    assert_eq!(s.publish_port(1234), Ok(()));
    assert_eq!(s.publish_port(4321), Err(PublishError::AlreadyBound));
    assert_eq!(s, ServerState { spawned: true, port: 1234 });
}

#[test]
fn state_scenario() {
    let mut s = ServerState::new();
    s.start();
    s.publish_port(49152).unwrap();
    assert!(s.is_server_thread_spawned());
    assert!(s.is_listening());
    assert!(s.port() != 0);
    assert_eq!(s.host(), "127.0.0.1:49152");
    assert_eq!(s.host_with_protocol(), "http://127.0.0.1:49152");
    assert_eq!(s.start(), StartAction::Wait);
    assert_eq!(s.port(), 49152);
}
