use perftest::messages_handler::StreamData;
use perftest::tcptest::{
    control_step, is_start_signal, socket_buffer_size, ControlStep, IoOutcome, Meter, StreamMessage,
};

#[test]
fn meter_counts_transfers() {
    let mut m = Meter::new();
    assert!(m.record(IoOutcome::Transferred(100)));
    assert!(m.record(IoOutcome::TimedOut));
    assert!(m.record(IoOutcome::Failed));
    assert!(m.record(IoOutcome::Transferred(50)));
    assert_eq!(m.bytes_transferred, 150);
    assert_eq!(m.syscalls, 2);
    assert_eq!(m.interval_bytes, 150);
    assert_eq!(m.interval_syscalls, 2);
}

#[test]
fn meter_stops_when_peer_closes() {
    let mut m = Meter::new();
    m.record(IoOutcome::Transferred(10));
    let before = m;
    assert!(!m.record(IoOutcome::Transferred(0)));
    assert_eq!(m, before);
}

#[test]
fn interval_resets_but_totals_stay() {
    let mut m = Meter::new();
    m.record(IoOutcome::Transferred(10));
    m.record(IoOutcome::Transferred(20));
    assert_eq!(m.take_interval(), (30, 2));
    m.record(IoOutcome::Transferred(5));
    assert_eq!(m.take_interval(), (5, 1));
    assert_eq!(m.take_interval(), (0, 0));
    assert_eq!(m.bytes_transferred, 35);
    assert_eq!(m.syscalls, 3);
    assert_eq!(
        m.stream_data(false, 10_001),
        StreamData { sender: false, duration_millis: 10_001, bytes_transferred: 35, syscalls: 3 }
    );
}

#[test]
fn signals() {
    assert!(is_start_signal(&Some(StreamMessage::StartTest)));
    assert!(!is_start_signal(&Some(StreamMessage::Terminate)));
    assert!(!is_start_signal(&None));
    assert_eq!(control_step(&Some(StreamMessage::Terminate)), ControlStep::Stop);
    assert_eq!(control_step(&Some(StreamMessage::StartTest)), ControlStep::DuplicateStart);
    assert_eq!(control_step(&None), ControlStep::Proceed);
}

#[test]
fn socket_buffer_size_saturates() {
    assert_eq!(socket_buffer_size(65536), 65536);
    assert_eq!(socket_buffer_size(u32::MAX as usize), u32::MAX);
    if usize::BITS > 32 {
        assert_eq!(socket_buffer_size(u32::MAX as usize + 1), u32::MAX);
        assert_eq!(socket_buffer_size(usize::MAX), u32::MAX);
    }
}
