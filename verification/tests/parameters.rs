use perftest::cli::{log_level, ClientArgs, LogLevel};
use perftest::test_utils::{parameters_from_message, Direction, Role, Test, TestParameters, CLIENT_VERSION};
use perftest::messages_handler::{ClientMessage, State};

fn args() -> ClientArgs {
    ClientArgs {
        client: Some("127.0.0.1".to_string()),
        length: None,
        parallel: 1,
        time: 10,
        biderctional: false,
        reverse: false,
        socket_buffers: None,
        nagle: false,
        mss: None,
    }
}

fn params(direction: Direction, parallel: u16) -> TestParameters {
    TestParameters {
        direction,
        omit_seconds: 0,
        time_seconds: 10,
        parallel,
        block_size: 1024,
        client_version: "0.1.0".to_string(),
        no_delay: false,
        socket_buffer: None,
        mss: None,
    }
}

#[test]
fn parameters_from_default_args() {
    let p = TestParameters::from_client_args(&args(), 2097152);
    assert_eq!(p.direction, Direction::ClientToServer);
    assert_eq!(p.omit_seconds, 0);
    assert_eq!(p.time_seconds, 10);
    assert_eq!(p.parallel, 1);
    assert_eq!(p.block_size, 2097152);
    assert_eq!(p.client_version, CLIENT_VERSION);
    assert_eq!(p.client_version, "0.1.0");
    assert!(!p.no_delay);
    assert_eq!(p.socket_buffer, None);
    assert_eq!(p.mss, None);
}

#[test]
fn parameters_follow_options() {
    let mut a = args();
    a.length = Some(4096);
    a.parallel = 8;
    a.time = 3;
    a.reverse = true;
    a.socket_buffers = Some(65536);
    a.nagle = true;
    a.mss = Some(1400);
    let p = TestParameters::from_client_args(&a, 2097152);
    assert_eq!(p.direction, Direction::ServerToClient);
    assert_eq!(p.block_size, 4096);
    assert_eq!(p.parallel, 8);
    assert_eq!(p.time_seconds, 3);
    assert!(p.no_delay);
    assert_eq!(p.socket_buffer, Some(65536));
    assert_eq!(p.mss, Some(1400));
}

#[test]
fn bidirectional_wins_over_reverse() {
    let mut a = args();
    a.biderctional = true;
    a.reverse = true;
    assert_eq!(TestParameters::from_client_args(&a, 1).direction, Direction::Bidirectional);
}

#[test]
fn parallel_keeps_low_sixteen_bits() {
    let mut a = args();
    a.parallel = 70000;
    assert_eq!(TestParameters::from_client_args(&a, 1).parallel, 4464);
}

#[test]
fn new_test_counts_streams_by_direction_and_role() {
    let cases = [
        (Direction::ClientToServer, Role::Client, 4, 0),
        (Direction::ClientToServer, Role::Server, 0, 4),
        (Direction::ServerToClient, Role::Client, 0, 4),
        (Direction::ServerToClient, Role::Server, 4, 0),
        (Direction::Bidirectional, Role::Client, 4, 4),
        (Direction::Bidirectional, Role::Server, 4, 4),
    ];
    for (direction, role, send, recv) in cases {
        let t: Test<()> = Test::new(None, "c".to_string(), role, params(direction, 4));
        assert_eq!(t.num_send_streams, send);
        assert_eq!(t.num_receive_streams, recv);
        assert_eq!(t.state, State::TestStart);
        assert!(t.streams.is_empty());
        assert_eq!(t.role, role);
        assert_eq!(t.cokie, "c");
    }
}

#[test]
fn server_announces_states_client_does_not() {
    let server: Test<()> = Test::new(None, "c".to_string(), Role::Server, params(Direction::ClientToServer, 1));
    let client: Test<()> = Test::new(Some("h:1".to_string()), "c".to_string(), Role::Client, params(Direction::ClientToServer, 1));
    assert_eq!(
        server.state_announcement(&State::Running),
        Some(perftest::messages_handler::ServerMessage::SetState(State::Running))
    );
    assert_eq!(client.state_announcement(&State::Running), None);
}

#[test]
fn parameters_only_from_send_parameters() {
    let p = params(Direction::Bidirectional, 2);
    assert_eq!(parameters_from_message(ClientMessage::SendParameters(p.clone())).unwrap(), p);
    match parameters_from_message(ClientMessage::Hello { cookie: "x".to_string() }) {
        Err(ClientMessage::Hello { cookie }) => assert_eq!(cookie, "x"),
        other => panic!("unexpected {:?}", other),
    }
}

#[test]
fn log_levels_by_verbosity() {
    assert_eq!(log_level(0), LogLevel::Warn);
    assert_eq!(log_level(1), LogLevel::Info);
    assert_eq!(log_level(2), LogLevel::Debug);
    assert_eq!(log_level(3), LogLevel::Trace);
    assert_eq!(log_level(200), LogLevel::Trace);
}
