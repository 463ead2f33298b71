//! How a server treats an incoming connection: a new test, a data stream of
//! the running test, or a refusal.
use vstd::prelude::*;

use crate::messages_handler::{ClientMessage, ErrorControl, State};

verus! {

/// Why a server refuses a connection.
#[derive(Debug, Clone, Copy, PartialEq, Eq, Structural)]
pub enum RejectReason {
    /// A test runs and does not wait for data streams.
    TestInFlight,
    /// A data stream came with the wrong cookie.
    InvalidCookie,
}

/// The text of a refusal's reason.
pub open spec fn reject_text(reason: RejectReason) -> Seq<char> {
    match reason {
        RejectReason::TestInFlight => "Test already in-flight"@,
        RejectReason::InvalidCookie => "Invalid authentication cookie"@,
    }
}

impl RejectReason {
    /// The reason as text.
    pub fn text(&self) -> (t: &'static str)
        ensures
            t@ == reject_text(*self),
    {
        match self {
            RejectReason::TestInFlight => "Test already in-flight",
            RejectReason::InvalidCookie => "Invalid authentication cookie",
        }
    }

    /// The error that the server sends to the refused peer.
    pub fn rejection(&self) -> (e: ErrorControl)
        ensures
            e matches ErrorControl::AccessDenied(r) && r@ == reject_text(*self),
    {
        ErrorControl::AccessDenied(String::from_str(self.text()))
    }
}

/// What the server does with a new connection.
#[derive(Debug, Clone, PartialEq, Eq)]
pub enum ConnectionRoute {
    /// No test runs: the connection is the control connection of a new test.
    NewTest,
    /// The running test waits for its data streams: the connection is one,
    /// if it shows this cookie.
    DataStream { expected_cookie: String },
    /// Refuse the connection.
    Reject(RejectReason),
}

/// The route of a new connection, given the phase of the test in flight,
/// if there is one.
pub fn route_connection(in_flight: &Option<State>) -> (route: ConnectionRoute)
    ensures
        route == (match *in_flight {
            None => ConnectionRoute::NewTest,
            Some(State::CreateStreams { cookie }) => ConnectionRoute::DataStream {
                expected_cookie: cookie,
            },
            Some(_) => ConnectionRoute::Reject(RejectReason::TestInFlight),
        }),
{
    match in_flight {
        None => ConnectionRoute::NewTest,
        Some(State::CreateStreams { cookie }) => ConnectionRoute::DataStream {
            expected_cookie: cookie.clone(),
        },
        Some(_) => ConnectionRoute::Reject(RejectReason::TestInFlight),
    }
}

/// Whether a data stream that shows `client_cookie` belongs to the test
/// whose cookie is `expected_cookie`: only an equal cookie is let in.
pub fn authenticate_data_stream(client_cookie: &String, expected_cookie: &String) -> (res: Result<
    (),
    RejectReason,
>)
    ensures
        res is Ok <==> client_cookie@ == expected_cookie@,
        res is Err ==> res == Err::<(), RejectReason>(RejectReason::InvalidCookie),
{
    if *client_cookie == *expected_cookie {
        Ok(())
    } else {
        Err(RejectReason::InvalidCookie)
    }
}

/// The cookie of a `Hello` message, or the message itself where it is
/// another one.
pub fn cookie_from_hello(msg: ClientMessage) -> (res: Result<String, ClientMessage>)
    ensures
        match msg {
            ClientMessage::Hello { cookie } => res == Ok::<String, ClientMessage>(cookie),
            _ => res == Err::<String, ClientMessage>(msg),
        },
{
    match msg {
        ClientMessage::Hello { cookie } => Ok(cookie),
        other => Err(other),
    }
}

} // verus!
