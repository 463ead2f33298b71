//! The decisions of a test's controller: which phase comes next, which data
//! streams send, when every stream is there and when all are done.
use vstd::prelude::*;

use std::collections::HashMap;

use crate::messages_handler::{ClientMessage, ServerMessage, State, StreamData, TestResults};
use crate::test_utils::{stream_counts, Direction, Role, Test};

verus! {

broadcast use vstd::std_specs::hash::group_hash_axioms;

/// What the controller does for the phase its test is in.
#[derive(Debug, Clone, PartialEq, Eq)]
pub enum StateAction {
    /// Move the test to this phase (and announce it, on the server).
    SetState(State),
    /// Open the data streams that are still missing.
    CreateStreams,
    /// Tell every data stream to start measuring.
    StartStreams,
    /// Stop the streams, exchange the results, and end the test.
    Finish,
    /// Nothing to do: wait for the next event.
    Wait,
}

/// Whether stream `id` sends, on a side that sends on `num_send` streams:
/// the first `num_send` streams send and the others receive, except on the
/// server of a test in both directions, where this is the other way round.
pub open spec fn stream_is_sending(num_send: u16, role: Role, direction: Direction, id: int) -> bool {
    if role == Role::Server && direction == Direction::Bidirectional {
        !(id < num_send)
    } else {
        id < num_send
    }
}

/// The action for a test in `state`, on the side `role`, whose cookie is
/// `cookie` and which holds streams or not.
pub open spec fn state_action(state: State, role: Role, cookie: String, has_streams: bool) -> StateAction {
    match state {
        State::TestStart => if role == Role::Server {
            StateAction::SetState(State::CreateStreams { cookie })
        } else {
            StateAction::Wait
        },
        State::CreateStreams { .. } => if role == Role::Client {
            StateAction::CreateStreams
        } else {
            StateAction::Wait
        },
        State::Running => if has_streams {
            StateAction::StartStreams
        } else {
            StateAction::Wait
        },
        State::ExchangeResults => StateAction::Finish,
        State::DisplayResults => StateAction::Wait,
    }
}

/// The controller of one test: the test itself and the statistics of the
/// streams that have ended.
pub struct Controller<H> {
    pub test: Test<H>,
    pub stream_results: HashMap<usize, StreamData>,
}

impl<H> Controller<H> {
    /// A controller for `test` that has no results yet.
    pub fn new(test: Test<H>) -> (c: Self)
        ensures
            c.test == test,
            c.stream_results@ == Map::<usize, StreamData>::empty(),
    {
        Controller { test, stream_results: HashMap::new() }
    }

    /// The number of data streams of the test, both directions together.
    pub open spec fn total_streams(&self) -> int {
        self.test.num_send_streams + self.test.num_receive_streams
    }

    /// The number of data streams of the test; the count is a `u16`, as the
    /// stream counts are.
    pub fn calculate_total_streams(&self) -> (total: usize)
        requires
            self.total_streams() <= u16::MAX,
        ensures
            total == self.total_streams(),
    {
        (self.test.num_send_streams + self.test.num_receive_streams) as usize
    }

    /// Whether stream `id` of this side sends.
    pub fn determine_stream_direction(&self, id: usize) -> (is_sending: bool)
        ensures
            !(self.test.role == Role::Server && self.test.params.direction
                == Direction::Bidirectional) ==> (is_sending <==> id < self.test.num_send_streams),
            (self.test.role == Role::Server && self.test.params.direction
                == Direction::Bidirectional) ==> (is_sending <==> id >= self.test.num_send_streams),
            is_sending == stream_is_sending(
                self.test.num_send_streams,
                self.test.role,
                self.test.params.direction,
                id as int,
            ),
    {
        let mut is_sending = id < self.test.num_send_streams as usize;
        if self.test.role == Role::Server && self.test.params.direction == Direction::Bidirectional {
            is_sending = !is_sending;
        }
        is_sending
    }

    /// What to do for the phase the test is in. A server that starts asks
    /// the client for the streams with the test's cookie; a client asked for
    /// streams opens them; a running test with streams starts them; a test
    /// that exchanges results finishes.
    pub fn handle_state(&self) -> (action: StateAction)
        ensures
            self.test.state == State::TestStart && self.test.role == Role::Server ==> action
                == StateAction::SetState(State::CreateStreams { cookie: self.test.cokie }),
            self.test.state == State::TestStart && self.test.role == Role::Client ==> action
                == StateAction::Wait,
            self.test.state is CreateStreams && self.test.role == Role::Client ==> action
                == StateAction::CreateStreams,
            self.test.state is CreateStreams && self.test.role == Role::Server ==> action
                == StateAction::Wait,
            self.test.state == State::Running && self.test.streams@.len() > 0 ==> action
                == StateAction::StartStreams,
            self.test.state == State::Running && self.test.streams@.len() == 0 ==> action
                == StateAction::Wait,
            self.test.state == State::ExchangeResults ==> action == StateAction::Finish,
            self.test.state == State::DisplayResults ==> action == StateAction::Wait,
            action == state_action(
                self.test.state,
                self.test.role,
                self.test.cokie,
                self.test.streams@.len() > 0,
            ),
    {
        match (&self.test.state, self.test.role) {
            (State::TestStart, Role::Server) => StateAction::SetState(
                State::CreateStreams { cookie: self.test.cokie.clone() },
            ),
            (State::CreateStreams { .. }, Role::Client) => StateAction::CreateStreams,
            (State::Running, _) => {
                if self.test.streams.is_empty() {
                    StateAction::Wait
                } else {
                    StateAction::StartStreams
                }
            },
            (State::ExchangeResults, _) => StateAction::Finish,
            _ => StateAction::Wait,
        }
    }

    /// The id and the direction of the next stream to register: ids count
    /// up from zero in the order the streams come.
    pub fn next_stream(&self) -> (next: (usize, bool))
        ensures
            next.0 == self.test.streams@.len(),
            next.1 == stream_is_sending(
                self.test.num_send_streams,
                self.test.role,
                self.test.params.direction,
                next.0 as int,
            ),
    {
        let id = self.test.streams.len();
        (id, self.determine_stream_direction(id))
    }

    /// Keeps `handle` as the stream with this id.
    pub fn register_stream(&mut self, id: usize, handle: H)
        ensures
            final(self).test.streams@ == old(self).test.streams@.insert(id, handle),
            final(self).test.client_addr == old(self).test.client_addr,
            final(self).test.state == old(self).test.state,
            final(self).test.role == old(self).test.role,
            final(self).test.params == old(self).test.params,
            final(self).test.cokie == old(self).test.cokie,
            final(self).test.num_send_streams == old(self).test.num_send_streams,
            final(self).test.num_receive_streams == old(self).test.num_receive_streams,
            final(self).stream_results == old(self).stream_results,
    {
        self.test.streams.insert(id, handle);
    }

    /// Whether the test has all its streams; a server then starts running.
    pub fn all_streams_connected(&self) -> (done: bool)
        requires
            self.total_streams() <= u16::MAX,
        ensures
            done == (self.test.streams@.len() == self.total_streams()),
    {
        self.test.streams.len() == self.calculate_total_streams()
    }

    /// Takes out the stream with this id, if the test holds it.
    pub fn remove_stream(&mut self, id: usize) -> (handle: Option<H>)
        ensures
            final(self).test.streams@ == old(self).test.streams@.remove(id),
            old(self).test.streams@.contains_key(id) ==> handle == Some(old(self).test.streams@[id]),
            !old(self).test.streams@.contains_key(id) ==> handle is None,
            final(self).test.client_addr == old(self).test.client_addr,
            final(self).test.state == old(self).test.state,
            final(self).test.role == old(self).test.role,
            final(self).test.params == old(self).test.params,
            final(self).test.cokie == old(self).test.cokie,
            final(self).test.num_send_streams == old(self).test.num_send_streams,
            final(self).test.num_receive_streams == old(self).test.num_receive_streams,
            final(self).stream_results == old(self).stream_results,
    {
        self.test.streams.remove(&id)
    }

    /// Keeps the statistics of the stream with this id.
    pub fn record_result(&mut self, id: usize, data: StreamData)
        ensures
            final(self).stream_results@ == old(self).stream_results@.insert(id, data),
            final(self).test == old(self).test,
    {
        self.stream_results.insert(id, data);
    }

    /// Whether the test moves on to exchanging results once a stream has
    /// ended: on the server, when no stream is left.
    pub fn should_exchange_results(&self) -> (exchange: bool)
        ensures
            exchange == (self.test.streams@.len() == 0 && self.test.role == Role::Server),
    {
        self.test.streams.is_empty() && self.test.role == Role::Server
    }

    /// The results of this side: the statistics of every stream that ended.
    pub fn test_results(&self) -> (results: TestResults)
        ensures
            results.streams@ == self.stream_results@,
    {
        TestResults { streams: self.stream_results.clone() }
    }
}

/// The phase that a `SetState` message asks for, or the message itself
/// where it is another one.
pub fn state_from_server_message(msg: ServerMessage) -> (res: Result<State, ServerMessage>)
    ensures
        match msg {
            ServerMessage::SetState(s) => res == Ok::<State, ServerMessage>(s),
            _ => res == Err::<State, ServerMessage>(msg),
        },
{
    match msg {
        ServerMessage::SetState(state) => Ok(state),
        other => Err(other),
    }
}

/// The server's results from its `SendResults` message, or the message
/// itself where it is another one.
pub fn results_from_server_message(msg: ServerMessage) -> (res: Result<TestResults, ServerMessage>)
    ensures
        match msg {
            ServerMessage::SendResults(r) => res == Ok::<TestResults, ServerMessage>(r),
            _ => res == Err::<TestResults, ServerMessage>(msg),
        },
{
    match msg {
        ServerMessage::SendResults(results) => Ok(results),
        other => Err(other),
    }
}

/// The client's results from its `SendResults` message, or the message
/// itself where it is another one.
pub fn results_from_client_message(msg: ClientMessage) -> (res: Result<TestResults, ClientMessage>)
    ensures
        match msg {
            ClientMessage::SendResults(r) => res == Ok::<TestResults, ClientMessage>(r),
            _ => res == Err::<TestResults, ClientMessage>(msg),
        },
{
    match msg {
        ClientMessage::SendResults(results) => Ok(results),
        other => Err(other),
    }
}

/// What each phase asks of each side: a starting server asks the client
/// for the streams with the test's cookie while a starting client waits; a
/// client asked for streams opens them while the server waits for them;
/// once running, either side with streams starts them and either side
/// without waits; both sides finish on exchanging results.
pub proof fn lemma_phase_actions(role: Role, cookie: String, has_streams: bool)
    ensures
        state_action(State::TestStart, Role::Server, cookie, has_streams) == StateAction::SetState(
            State::CreateStreams { cookie },
        ),
        state_action(State::TestStart, Role::Client, cookie, has_streams) == StateAction::Wait,
        state_action(State::CreateStreams { cookie }, Role::Client, cookie, has_streams)
            == StateAction::CreateStreams,
        state_action(State::CreateStreams { cookie }, Role::Server, cookie, has_streams)
            == StateAction::Wait,
        state_action(State::Running, role, cookie, true) == StateAction::StartStreams,
        state_action(State::Running, role, cookie, false) == StateAction::Wait,
        state_action(State::ExchangeResults, role, cookie, has_streams) == StateAction::Finish,
        state_action(State::DisplayResults, role, cookie, has_streams) == StateAction::Wait,
{
}

/// Which way each stream of a test with `parallel` streams per direction
/// flows, on each side: in a client-to-server test the client sends on
/// every stream and the server on none; in a server-to-client test the
/// other way round; in a test both ways the client sends on the first
/// `parallel` streams and receives on the next `parallel`, and the server
/// does the opposite.
pub proof fn lemma_stream_directions(parallel: u16, id: int)
    requires
        0 <= id,
    ensures
        id < parallel ==> stream_is_sending(
            stream_counts(Direction::ClientToServer, parallel, Role::Client).0,
            Role::Client,
            Direction::ClientToServer,
            id,
        ),
        !stream_is_sending(
            stream_counts(Direction::ClientToServer, parallel, Role::Server).0,
            Role::Server,
            Direction::ClientToServer,
            id,
        ),
        !stream_is_sending(
            stream_counts(Direction::ServerToClient, parallel, Role::Client).0,
            Role::Client,
            Direction::ServerToClient,
            id,
        ),
        id < parallel ==> stream_is_sending(
            stream_counts(Direction::ServerToClient, parallel, Role::Server).0,
            Role::Server,
            Direction::ServerToClient,
            id,
        ),
        stream_is_sending(
            stream_counts(Direction::Bidirectional, parallel, Role::Client).0,
            Role::Client,
            Direction::Bidirectional,
            id,
        ) <==> id < parallel,
        stream_is_sending(
            stream_counts(Direction::Bidirectional, parallel, Role::Server).0,
            Role::Server,
            Direction::Bidirectional,
            id,
        ) <==> id >= parallel,
{
}

/// Client and server of one test see the same streams from both ends: the
/// server's counts are the client's swapped, both count the same number of
/// streams, and for every stream id one of them sends and the other
/// receives.
pub proof fn lemma_each_stream_has_one_sender(direction: Direction, parallel: u16, id: int)
    ensures
        stream_counts(direction, parallel, Role::Server).0 == stream_counts(
            direction,
            parallel,
            Role::Client,
        ).1,
        stream_counts(direction, parallel, Role::Server).1 == stream_counts(
            direction,
            parallel,
            Role::Client,
        ).0,
        0 <= id < stream_counts(direction, parallel, Role::Client).0 + stream_counts(
            direction,
            parallel,
            Role::Client,
        ).1 ==> stream_is_sending(
            stream_counts(direction, parallel, Role::Client).0,
            Role::Client,
            direction,
            id,
        ) != stream_is_sending(
            stream_counts(direction, parallel, Role::Server).0,
            Role::Server,
            direction,
            id,
        ),
{
}

/// The ids of `streams` are exactly `0..streams.len()`.
pub open spec fn ids_are_dense<H>(streams: Map<usize, H>) -> bool {
    forall|k: usize| #[trigger] streams.contains_key(k) <==> (k as int) < streams.len()
}

/// Registering every stream under the id that `next_stream` hands out keeps
/// the ids `0..n` without a gap: each registration adds a stream that was
/// not there, so the test holds all its streams after exactly as many
/// registrations as it has streams.
pub proof fn lemma_registration_keeps_ids_dense<H>(streams: Map<usize, H>, handle: H)
    requires
        streams.dom().finite(),
        ids_are_dense(streams),
        streams.len() < usize::MAX,
    ensures
        !streams.contains_key(streams.len() as usize),
        streams.insert(streams.len() as usize, handle).len() == streams.len() + 1,
        ids_are_dense(streams.insert(streams.len() as usize, handle)),
{
    let n = streams.len() as usize;
    assert(!streams.contains_key(n));
    let after = streams.insert(n, handle);
    assert(after.dom() =~= streams.dom().insert(n));
    assert(after.len() == streams.len() + 1);
    assert forall|k: usize| #[trigger] after.contains_key(k) <==> (k as int) < after.len() by {
        if k == n {
        } else {
            assert(after.contains_key(k) <==> streams.contains_key(k));
        }
    }
}

} // verus!
