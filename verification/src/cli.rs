//! Command-line options, as plain values.
use vstd::prelude::*;

verus! {

/// Options that select server mode.
#[derive(Debug, Clone, PartialEq, Eq)]
pub struct ServerArgs {
    /// Server mode.
    pub server: bool,
}

/// Options of client mode.
#[derive(Debug, Clone, PartialEq, Eq)]
pub struct ClientArgs {
    /// Client mode: the host to connect to.
    pub client: Option<String>,
    /// Buffer size; 2 MiB (2097152) when unset.
    pub length: Option<usize>,
    /// Parallel streams.
    pub parallel: u32,
    /// Transmission time in seconds.
    pub time: u64,
    /// Traffic in both directions.
    pub biderctional: bool,
    /// Reverse mode: the server sends, the client receives.
    pub reverse: bool,
    /// SO_SNDBUF/SO_RCVBUF for the data streams; the system default when unset.
    pub socket_buffers: Option<usize>,
    /// Disables Nagle's algorithm.
    pub nagle: bool,
    /// The TCP maximum segment size to ask for.
    pub mss: Option<i32>,
}

/// Options common to both modes.
#[derive(Debug, Clone, Copy, PartialEq, Eq, Structural)]
pub struct Commands {
    /// Server port number.
    pub port: u16,
    /// Seconds between periodic throughput reports.
    pub interval: u16,
    /// How verbose the log is: each `-v` adds one.
    pub debug: u8,
}

/// All options of the tool.
#[derive(Debug, Clone, PartialEq, Eq)]
pub struct Cli {
    pub server_opts: ServerArgs,
    pub client_opts: ClientArgs,
    pub common_commands: Commands,
}

/// How much the tool logs.
#[derive(Debug, Clone, Copy, PartialEq, Eq, Structural)]
pub enum LogLevel {
    Warn,
    Info,
    Debug,
    Trace,
}

/// The log level for a count of `-v` flags: warnings by default, then info,
/// debug, and trace for three or more.
pub fn log_level(verbosity: u8) -> (level: LogLevel)
    ensures
        verbosity == 0 ==> level == LogLevel::Warn,
        verbosity == 1 ==> level == LogLevel::Info,
        verbosity == 2 ==> level == LogLevel::Debug,
        verbosity >= 3 ==> level == LogLevel::Trace,
{
    match verbosity {
        0 => LogLevel::Warn,
        1 => LogLevel::Info,
        2 => LogLevel::Debug,
        _ => LogLevel::Trace,
    }
}

} // verus!
