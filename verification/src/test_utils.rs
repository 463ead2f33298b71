//! The parameters of a test, and the plain state of one test on either side.
use vstd::prelude::*;

use std::collections::HashMap;

use crate::cli::ClientArgs;
use crate::messages_handler::{ClientMessage, ServerMessage, State};

verus! {

/// The version that a client announces with its parameters.
pub const CLIENT_VERSION: &'static str = "0.1.0";

/// Which way the data flows.
#[derive(Debug, Clone, Copy, PartialEq, Eq, Structural)]
pub enum Direction {
    /// Traffic flows from client to server (the default).
    ClientToServer,
    /// Traffic flows from server to client.
    ServerToClient,
    /// Both ways.
    Bidirectional,
}

/// The configuration of a test, as the client sends it.
#[derive(Debug, Clone, PartialEq, Eq)]
pub struct TestParameters {
    pub direction: Direction,
    /// Seconds to omit at the start.
    pub omit_seconds: u32,
    pub time_seconds: u64,
    /// The number of data streams.
    pub parallel: u16,
    pub block_size: usize,
    pub client_version: String,
    pub no_delay: bool,
    pub socket_buffer: Option<usize>,
    pub mss: Option<i32>,
}

/// The direction that the client's options ask for: both ways wins over
/// reverse, and client to server is the default.
pub open spec fn direction_of(opts: ClientArgs) -> Direction {
    if opts.biderctional {
        Direction::Bidirectional
    } else if opts.reverse {
        Direction::ServerToClient
    } else {
        Direction::ClientToServer
    }
}

impl TestParameters {
    /// The parameters that a client sends for its options.
    pub fn from_client_args(opts: &ClientArgs, default_block_size: usize) -> (res: Self)
        ensures
            res.direction == direction_of(*opts),
            opts.biderctional ==> res.direction == Direction::Bidirectional,
            !opts.biderctional && opts.reverse ==> res.direction == Direction::ServerToClient,
            !opts.biderctional && !opts.reverse ==> res.direction == Direction::ClientToServer,
            res.omit_seconds == 0,
            res.time_seconds == opts.time,
            res.parallel == opts.parallel as u16,
            res.block_size == (match opts.length {
                Some(len) => len,
                None => default_block_size,
            }),
            res.client_version@ == CLIENT_VERSION@,
            res.no_delay == opts.nagle,
            res.socket_buffer == opts.socket_buffers,
            res.mss == opts.mss,
    {
        let direction = if opts.biderctional {
            Direction::Bidirectional
        } else if opts.reverse {
            Direction::ServerToClient
        } else {
            Direction::ClientToServer
        };
        let block_size = match opts.length {
            Some(len) => len,
            None => default_block_size,
        };
        TestParameters {
            direction,
            omit_seconds: 0,
            time_seconds: opts.time,
            parallel: opts.parallel as u16,
            block_size,
            client_version: String::from_str(CLIENT_VERSION),
            no_delay: opts.nagle,
            socket_buffer: opts.socket_buffers,
            mss: opts.mss,
        }
    }
}


/// The direction that the options ask for: both ways whenever `-b` is
/// given, whatever `-R` says; server to client for `-R` alone; client to
/// server when neither is given.
pub proof fn lemma_direction_of_options(opts: ClientArgs)
    ensures
        opts.biderctional ==> direction_of(opts) == Direction::Bidirectional,
        !opts.biderctional && opts.reverse ==> direction_of(opts) == Direction::ServerToClient,
        !opts.biderctional && !opts.reverse ==> direction_of(opts) == Direction::ClientToServer,
{
}

/// The side of a test.
#[derive(Debug, Clone, Copy, PartialEq, Eq, Structural)]
pub enum Role {
    Server,
    Client,
}

/// How many streams one side sends on and receives on, for a test with
/// `parallel` streams per direction: the client's view follows the
/// direction, and the server's is the client's swapped.
pub open spec fn stream_counts(direction: Direction, parallel: u16, role: Role) -> (u16, u16) {
    let (send, recv) = match direction {
        Direction::ClientToServer => (parallel, 0u16),
        Direction::ServerToClient => (0u16, parallel),
        Direction::Bidirectional => (parallel, parallel),
    };
    if role == Role::Server {
        (recv, send)
    } else {
        (send, recv)
    }
}

/// The parameters carried by a `SendParameters` message, or the message
/// itself where it is another one.
pub fn parameters_from_message(msg: ClientMessage) -> (res: Result<TestParameters, ClientMessage>)
    ensures
        match msg {
            ClientMessage::SendParameters(p) => res == Ok::<TestParameters, ClientMessage>(p),
            _ => res == Err::<TestParameters, ClientMessage>(msg),
        },
{
    match msg {
        ClientMessage::SendParameters(params) => Ok(params),
        other => Err(other),
    }
}

/// How many streams each side sends and receives on, for a test with
/// `parallel` streams per direction: client to server, the client sends on
/// all and the server receives on all; server to client, the reverse; both
/// ways, each side sends on `parallel` and receives on `parallel`.
pub proof fn lemma_stream_count_values(parallel: u16)
    ensures
        stream_counts(Direction::ClientToServer, parallel, Role::Client) == (parallel, 0u16),
        stream_counts(Direction::ClientToServer, parallel, Role::Server) == (0u16, parallel),
        stream_counts(Direction::ServerToClient, parallel, Role::Client) == (0u16, parallel),
        stream_counts(Direction::ServerToClient, parallel, Role::Server) == (parallel, 0u16),
        stream_counts(Direction::Bidirectional, parallel, Role::Client) == (parallel, parallel),
        stream_counts(Direction::Bidirectional, parallel, Role::Server) == (parallel, parallel),
{
}

/// One test, as either side runs it: who it is, what was agreed, which
/// phase it is in, and its data streams by id (`H` is whatever a side keeps
/// per stream).
pub struct Test<H> {
    /// The address of the server's control port (client side only).
    pub client_addr: Option<String>,
    /// The cookie that identifies the test's connections.
    pub cokie: String,
    pub state: State,
    pub role: Role,
    pub params: TestParameters,
    pub streams: HashMap<usize, H>,
    /// The number of streams on which this side sends.
    pub num_send_streams: u16,
    /// The number of streams on which this side receives.
    pub num_receive_streams: u16,
}

impl<H> Test<H> {
    /// A test that starts in `TestStart` with no streams, sending and
    /// receiving on as many streams as its role and direction say.
    pub fn new(client_addr: Option<String>, cokie: String, role: Role, params: TestParameters) -> (t:
        Self)
        ensures
            t.client_addr == client_addr,
            t.cokie == cokie,
            t.state == State::TestStart,
            t.role == role,
            t.params == params,
            t.streams@ == Map::<usize, H>::empty(),
            (t.num_send_streams, t.num_receive_streams) == stream_counts(
                params.direction,
                params.parallel,
                role,
            ),
    {
        let (mut send, mut recv) = match params.direction {
            Direction::ClientToServer => (params.parallel, 0u16),
            Direction::ServerToClient => (0u16, params.parallel),
            Direction::Bidirectional => (params.parallel, params.parallel),
        };
        if role == Role::Server {
            let tmp = send;
            send = recv;
            recv = tmp;
        }
        Test {
            client_addr,
            cokie,
            state: State::TestStart,
            role,
            params,
            streams: HashMap::new(),
            num_send_streams: send,
            num_receive_streams: recv,
        }
    }

    /// The message that tells the peer about a new phase: the server
    /// announces each phase it enters, the client announces none.
    pub fn state_announcement(&self, state: &State) -> (msg: Option<ServerMessage>)
        ensures
            self.role == Role::Server ==> msg == Some(ServerMessage::SetState(*state)),
            self.role == Role::Client ==> msg is None,
    {
        if self.role == Role::Server {
            Some(ServerMessage::SetState(state.duplicate()))
        } else {
            None
        }
    }
}

} // verus!
