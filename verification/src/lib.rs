//! A network throughput tester: the control protocol and its framing, the
//! state of a test on either side, the controller's decisions, the counters
//! of a data stream, and the UDP packet header.
pub mod buffers;
pub mod cli;
pub mod client;
pub mod controler;
pub mod messages_handler;
pub mod server;
pub mod tcptest;
pub mod test_utils;
pub mod udp_utils;
