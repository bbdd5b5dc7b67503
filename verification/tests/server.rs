use echo_server::connection::{Client, ConnectionAction, ConnectionEvent};
use echo_server::message::EchoMessage;
use echo_server::server::{
    Lifecycle, Server, ServerAction, ServerEvent, StopOutcome, POLL_INTERVAL_MILLIS,
};

const EVENTS: [ServerEvent; 6] = [
    ServerEvent::Started,
    ServerEvent::Accepted,
    ServerEvent::WouldBlock,
    ServerEvent::AcceptFailed,
    ServerEvent::Served,
    ServerEvent::Waited,
];

fn running() -> Server {
    let mut server = Server::new();
    assert_eq!(server.run(ServerEvent::Started), ServerAction::Accept);
    server
}

#[test]
fn new_server_is_created() {
    assert_eq!(Server::new().state(), Lifecycle::Created);
}

#[test]
fn polling_interval_is_100_milliseconds() {
    assert_eq!(POLL_INTERVAL_MILLIS, 100);
}

#[test]
fn entering_the_loop_runs_and_polls() {
    let mut server = Server::new();
    assert_eq!(server.run(ServerEvent::Started), ServerAction::Accept);
    assert_eq!(server.state(), Lifecycle::Running);
}

#[test]
fn accepted_connection_is_served() {
    let mut server = running();
    assert_eq!(server.run(ServerEvent::Accepted), ServerAction::Serve);
    assert_eq!(server.run(ServerEvent::Served), ServerAction::Accept);
    assert_eq!(server.state(), Lifecycle::Running);
}

#[test]
fn idle_loop_waits_before_each_poll() {
    let mut server = running();
    for _ in 0..50 {
        assert_eq!(
            server.run(ServerEvent::WouldBlock),
            ServerAction::Wait { millis: 100 }
        );
        assert_eq!(server.run(ServerEvent::Waited), ServerAction::Accept);
    }
    assert_eq!(server.state(), Lifecycle::Running);
}

#[test]
fn accept_error_is_not_fatal() {
    let mut server = running();
    for _ in 0..10 {
        assert_eq!(server.run(ServerEvent::AcceptFailed), ServerAction::Accept);
        assert_eq!(server.state(), Lifecycle::Running);
    }
}

#[test]
fn stop_on_a_running_server_ends_the_loop() {
    for event in [
        ServerEvent::Started,
        ServerEvent::AcceptFailed,
        ServerEvent::Served,
        ServerEvent::Waited,
    ] {
        let mut server = running();
        assert_eq!(server.stop(), StopOutcome::Signalled);
        assert_eq!(server.state(), Lifecycle::Stopped);
        assert_eq!(server.run(event), ServerAction::Exit);
        assert_eq!(server.state(), Lifecycle::Stopped);
    }
}

#[test]
fn stop_during_the_wait_ends_the_loop_after_it() {
    let mut server = running();
    assert_eq!(
        server.run(ServerEvent::WouldBlock),
        ServerAction::Wait { millis: 100 }
    );
    assert_eq!(server.stop(), StopOutcome::Signalled);
    assert_eq!(server.run(ServerEvent::Waited), ServerAction::Exit);
}

#[test]
fn stop_before_an_empty_poll_is_seen_costs_one_wait() {
    let mut server = running();
    assert_eq!(server.stop(), StopOutcome::Signalled);
    assert_eq!(
        server.run(ServerEvent::WouldBlock),
        ServerAction::Wait { millis: 100 }
    );
    assert_eq!(server.run(ServerEvent::Waited), ServerAction::Exit);
}

#[test]
fn stop_does_not_drop_an_accepted_connection() {
    let mut server = running();
    assert_eq!(server.stop(), StopOutcome::Signalled);
    assert_eq!(server.run(ServerEvent::Accepted), ServerAction::Serve);
    assert_eq!(server.run(ServerEvent::Served), ServerAction::Exit);
}

#[test]
fn stop_while_a_connection_is_served() {
    let mut server = running();
    assert_eq!(server.run(ServerEvent::Accepted), ServerAction::Serve);
    assert_eq!(server.stop(), StopOutcome::Signalled);
    assert_eq!(server.run(ServerEvent::Served), ServerAction::Exit);
}

#[test]
fn stop_twice_warns_the_second_time() {
    let mut server = running();
    assert_eq!(server.stop(), StopOutcome::Signalled);
    assert_eq!(server.stop(), StopOutcome::AlreadyStopped);
    assert_eq!(server.stop(), StopOutcome::AlreadyStopped);
    assert_eq!(server.state(), Lifecycle::Stopped);
}

#[test]
fn stop_before_the_loop_is_entered() {
    let mut server = Server::new();
    assert_eq!(server.stop(), StopOutcome::Signalled);
    assert_eq!(server.state(), Lifecycle::Stopped);
    assert_eq!(server.run(ServerEvent::Started), ServerAction::Exit);
    assert_eq!(server.state(), Lifecycle::Stopped);
}

#[test]
fn stopped_server_never_polls() {
    for event in EVENTS {
        let mut server = running();
        server.stop();
        let action = server.run(event);
        assert_ne!(action, ServerAction::Accept);
        assert_eq!(server.state(), Lifecycle::Stopped);
    }
}

#[test]
fn every_event_on_a_created_server_starts_it() {
    for event in EVENTS {
        let mut server = Server::new();
        server.run(event);
        assert_eq!(server.state(), Lifecycle::Running);
    }
}

#[test]
fn a_session_from_bind_to_stop() {
    let mut server = Server::new();
    assert_eq!(server.run(ServerEvent::Started), ServerAction::Accept);
    assert_eq!(
        server.run(ServerEvent::WouldBlock),
        ServerAction::Wait { millis: 100 }
    );
    assert_eq!(server.run(ServerEvent::Waited), ServerAction::Accept);
    assert_eq!(server.run(ServerEvent::Accepted), ServerAction::Serve);

    // The first client sends a message, then garbage, then leaves.
    let mut client = Client::new();
    let hello = EchoMessage { content: "hello".to_string() }.encode_to_vec();
    match client.handle(ConnectionEvent::Received(&hello)) {
        ConnectionAction::Reply { payload, .. } => assert_eq!(payload, hello),
        other => panic!("no reply: {:?}", other),
    }
    assert_eq!(client.handle(ConnectionEvent::Replied), ConnectionAction::Read);
    assert!(matches!(
        client.handle(ConnectionEvent::Received(&[0xFF])),
        ConnectionAction::Reject(_)
    ));
    assert_eq!(client.handle(ConnectionEvent::Received(&[])), ConnectionAction::Close);
    assert_eq!(server.run(ServerEvent::Served), ServerAction::Accept);

    // The second client's socket fails; the server goes on.
    assert_eq!(server.run(ServerEvent::Accepted), ServerAction::Serve);
    let mut client = Client::new();
    assert_eq!(client.handle(ConnectionEvent::ReadFailed), ConnectionAction::Abort);
    assert_eq!(server.run(ServerEvent::Served), ServerAction::Accept);
    assert_eq!(server.state(), Lifecycle::Running);

    assert_eq!(
        server.run(ServerEvent::WouldBlock),
        ServerAction::Wait { millis: 100 }
    );
    assert_eq!(server.stop(), StopOutcome::Signalled);
    assert_eq!(server.run(ServerEvent::Waited), ServerAction::Exit);
    assert_eq!(server.stop(), StopOutcome::AlreadyStopped);
}
