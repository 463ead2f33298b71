use perftest::controler::{
    results_from_client_message, results_from_server_message, state_from_server_message,
    Controller, StateAction,
};
use perftest::messages_handler::{ClientMessage, ServerMessage, State, StreamData, TestResults};
use perftest::test_utils::{Direction, Role, Test, TestParameters};
use std::collections::HashMap;

fn params(direction: Direction, parallel: u16) -> TestParameters {
    TestParameters {
        direction,
        omit_seconds: 0,
        time_seconds: 10,
        parallel,
        block_size: 1024,
        client_version: "0.1.0".to_string(),
        no_delay: false,
        socket_buffer: None,
        mss: None,
    }
}

fn controller(direction: Direction, parallel: u16, role: Role) -> Controller<&'static str> {
    Controller::new(Test::new(None, "cookie".to_string(), role, params(direction, parallel)))
}

#[test]
fn each_stream_has_one_sender() {
    for direction in [Direction::ClientToServer, Direction::ServerToClient, Direction::Bidirectional] {
        let client = controller(direction, 3, Role::Client);
        let server = controller(direction, 3, Role::Server);
        let total = client.calculate_total_streams();
        assert_eq!(total, server.calculate_total_streams());
        for id in 0..total {
            assert_ne!(
                client.determine_stream_direction(id),
                server.determine_stream_direction(id)
            );
        }
    }
}

#[test]
fn stream_directions_in_bidirectional_test() {
    let client = controller(Direction::Bidirectional, 2, Role::Client);
    let server = controller(Direction::Bidirectional, 2, Role::Server);
    assert_eq!(client.calculate_total_streams(), 4);
    let c: Vec<bool> = (0..4).map(|i| client.determine_stream_direction(i)).collect();
    let s: Vec<bool> = (0..4).map(|i| server.determine_stream_direction(i)).collect();
    assert_eq!(c, vec![true, true, false, false]);
    assert_eq!(s, vec![false, false, true, true]);
}

#[test]
fn server_start_asks_for_streams_with_cookie() {
    let server = controller(Direction::ClientToServer, 1, Role::Server);
    assert_eq!(
        server.handle_state(),
        StateAction::SetState(State::CreateStreams { cookie: "cookie".to_string() })
    );
    let client = controller(Direction::ClientToServer, 1, Role::Client);
    assert_eq!(client.handle_state(), StateAction::Wait);
}

#[test]
fn actions_per_state() {
    let mut client = controller(Direction::ClientToServer, 1, Role::Client);
    let mut server = controller(Direction::ClientToServer, 1, Role::Server);
    client.test.state = State::CreateStreams { cookie: "cookie".to_string() };
    server.test.state = State::CreateStreams { cookie: "cookie".to_string() };
    assert_eq!(client.handle_state(), StateAction::CreateStreams);
    assert_eq!(server.handle_state(), StateAction::Wait);
    client.test.state = State::Running;
    assert_eq!(client.handle_state(), StateAction::Wait);
    client.register_stream(0, "s0");
    assert_eq!(client.handle_state(), StateAction::StartStreams);
    client.test.state = State::ExchangeResults;
    server.test.state = State::ExchangeResults;
    assert_eq!(client.handle_state(), StateAction::Finish);
    assert_eq!(server.handle_state(), StateAction::Finish);
    server.test.state = State::DisplayResults;
    assert_eq!(server.handle_state(), StateAction::Wait);
}

#[test]
fn streams_register_in_order_until_connected() {
    let mut server = controller(Direction::Bidirectional, 2, Role::Server);
    let total = server.calculate_total_streams();
    let names = ["a", "b", "c", "d"];
    for expected in 0..total {
        assert!(!server.all_streams_connected());
        let (id, _) = server.next_stream();
        assert_eq!(id, expected);
        server.register_stream(id, names[id]);
    }
    assert!(server.all_streams_connected());
    assert_eq!(server.test.streams.len(), 4);
}

#[test]
fn server_exchanges_results_after_last_stream() {
    let mut server = controller(Direction::ClientToServer, 2, Role::Server);
    server.register_stream(0, "a");
    server.register_stream(1, "b");
    assert_eq!(server.remove_stream(0), Some("a"));
    assert!(!server.should_exchange_results());
    assert_eq!(server.remove_stream(0), None);
    assert_eq!(server.remove_stream(1), Some("b"));
    assert!(server.should_exchange_results());

    let mut client = controller(Direction::ClientToServer, 1, Role::Client);
    client.register_stream(0, "a");
    client.remove_stream(0);
    assert!(!client.should_exchange_results());
}

#[test]
fn results_collect_stream_data() {
    let mut c = controller(Direction::ClientToServer, 1, Role::Client);
    assert!(c.test_results().streams.is_empty());
    let data = StreamData { sender: true, duration_millis: 10_000, bytes_transferred: 12345, syscalls: 7 };
    c.record_result(0, data.clone());
    let mut expected = HashMap::new();
    expected.insert(0usize, data);
    assert_eq!(c.test_results(), TestResults { streams: expected });
}

#[test]
fn message_extraction() {
    assert_eq!(state_from_server_message(ServerMessage::SetState(State::Running)).unwrap(), State::Running);
    assert_eq!(state_from_server_message(ServerMessage::Welcome).unwrap_err(), ServerMessage::Welcome);
    let r = TestResults { streams: HashMap::new() };
    assert_eq!(results_from_server_message(ServerMessage::SendResults(r.clone())).unwrap(), r);
    assert_eq!(
        results_from_server_message(ServerMessage::WelcomeDataStream).unwrap_err(),
        ServerMessage::WelcomeDataStream
    );
    assert_eq!(results_from_client_message(ClientMessage::SendResults(r.clone())).unwrap(), r);
    assert!(matches!(
        results_from_client_message(ClientMessage::Hello { cookie: "c".to_string() }),
        Err(ClientMessage::Hello { .. })
    ));
}
