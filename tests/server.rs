use fixture_server::server::{
    is_listening_port, listening_port_of, publish_outcome, start_action_after_swap, Server,
};
use fixture_server::state::{PublishError, StartAction};

#[test]
fn test_start_server() {
    let server = Server::new();
    assert!(!server.is_server_thread_spawned());
    assert!(!server.is_listening());
    assert_eq!(server.port(), 0);

    assert_eq!(server.begin_start(), StartAction::Spawn);
    assert_eq!(server.publish_port(40123), Ok(()));

    assert!(server.is_server_thread_spawned());
    assert!(server.is_listening());
    assert!(server.port() != 0);
}

#[test]
fn only_first_start_spawns() {
    let server = Server::new();
    assert_eq!(server.begin_start(), StartAction::Spawn);
    for _ in 0..10 {
        assert_eq!(server.begin_start(), StartAction::Wait);
    }
    assert!(server.is_server_thread_spawned());
}

#[test]
fn published_port_never_changes() {
    let server = Server::new();
    server.begin_start();
    assert_eq!(server.publish_port(5000), Ok(()));
    assert_eq!(server.publish_port(6000), Err(PublishError::AlreadyBound));
    assert_eq!(server.port(), 5000);
    assert_eq!(server.begin_start(), StartAction::Wait);
    assert_eq!(server.port(), 5000);
}

#[test]
fn publish_errors_on_atomic_server() {
    let server = Server::new();
    assert_eq!(server.publish_port(0), Err(PublishError::ZeroPort));
    assert_eq!(server.publish_port(7000), Err(PublishError::NotSpawned));
    assert_eq!(server.port(), 0);
    server.begin_start();
    assert_eq!(server.publish_port(0), Err(PublishError::ZeroPort));
    assert_eq!(server.port(), 0);
}

#[test]
fn listening_port_polls() {
    let server = Server::new();
    assert_eq!(server.listening_port(), None);
    server.begin_start();
    assert_eq!(server.listening_port(), None);
    server.publish_port(8080).unwrap();
    assert_eq!(server.listening_port(), Some(8080));
}

#[test]
fn server_host_strings() {
    let server = Server::new();
    assert_eq!(server.host(), "127.0.0.1:0");
    server.begin_start();
    server.publish_port(54321).unwrap();
    assert_eq!(server.host(), "127.0.0.1:54321");
    assert_eq!(server.host_with_protocol(), "http://127.0.0.1:54321");
}

#[test]
fn swap_outcome_decides_spawn() {
    assert_eq!(start_action_after_swap(Ok(false)), StartAction::Spawn);
    assert_eq!(start_action_after_swap(Err(true)), StartAction::Wait);
}

#[test]
fn publish_outcome_per_read_values() {
    assert_eq!(publish_outcome(0, true, 0), Err(PublishError::ZeroPort));
    assert_eq!(publish_outcome(0, false, 9), Err(PublishError::ZeroPort));
    assert_eq!(publish_outcome(80, false, 0), Err(PublishError::NotSpawned));
    assert_eq!(publish_outcome(80, true, 81), Err(PublishError::AlreadyBound));
    assert_eq!(publish_outcome(80, true, 0), Ok(()));
}

#[test]
fn poll_helpers() {
    assert!(!is_listening_port(0));
    assert!(is_listening_port(3000));
    assert_eq!(listening_port_of(0), None);
    assert_eq!(listening_port_of(3000), Some(3000));
}
