//! The connection loop as a state machine, and the capability that it
//! dispatches to.
//!
//! One connection is served at a time: accept, read once, parse, dispatch,
//! write, and accept again. The machine decides; its caller holds the
//! socket, performs each action and reports what came of it.

use vstd::prelude::*;
use crate::http::request::{parse_bytes, ParseError, Request, RequestView};
use crate::http::response::{wire_bytes, Response};
use crate::http::status_code::StatusCode;

verus! {

/// The answer to every request that did not parse: "bad request", without
/// a body.
pub fn bad_request() -> (r: Response)
    ensures
        r@.status == StatusCode::BadRequest,
        r@.body is None,
{
    Response::new(StatusCode::BadRequest, None)
}

/// What answers the requests of a server.
pub trait Handler {
    /// Answers a request.
    fn handle_request(&mut self, request: &Request) -> Response;

    /// Answers a buffer that held no request. Unless a handler decides
    /// otherwise, the answer is that of `bad_request`: "bad request",
    /// without a body. A handler that answers for itself states its own
    /// answer.
    fn handle_bad_request(&mut self, e: &ParseError) -> (r: Response)
        default_ensures
            r@.status == StatusCode::BadRequest,
            r@.body is None,
    {
        bad_request()
    }
}

/// Where the loop stands.
#[derive(Debug, Clone, Copy, PartialEq, Eq, Structural)]
pub enum Stage {
    /// Waiting for a connection.
    Accepting,
    /// Waiting for the bytes of the one read.
    Reading,
    /// Waiting for the handler's response.
    Handling,
    /// Waiting for the response to be written.
    Writing,
}

/// What the caller reports.
#[derive(Debug)]
pub enum Event<'buf> {
    /// A connection was accepted.
    Accepted,
    /// The read gave these bytes.
    Received(&'buf [u8]),
    /// The handler gave this response.
    Replied(Response),
    /// The response was written.
    Written,
    /// The pending action failed.
    Failed,
}

/// What the caller is to do next.
#[derive(Debug)]
pub enum Action<'buf> {
    /// Accept the next connection.
    Accept,
    /// Read once from the connection.
    Read,
    /// Hand this request to the handler.
    HandleRequest(Request<'buf>),
    /// Hand this error to the handler.
    HandleBadRequest(ParseError),
    /// Write these bytes to the connection.
    Write(Vec<u8>),
}

/// A server: the address that it listens on.
#[derive(Debug, Clone, PartialEq, Eq)]
pub struct Server {
    addr: String,
}

impl View for Server {
    type V = Seq<char>;

    closed spec fn view(&self) -> Seq<char> {
        self.addr@
    }
}

/// Whether `action` hands the outcome of parsing to the handler: the
/// request where there is one, and else the error.
pub open spec fn hands_over(action: Action, parsed: Result<RequestView, ParseError>) -> bool {
    match parsed {
        Ok(v) => action matches Action::HandleRequest(q) && q@ == v,
        Err(e) => action matches Action::HandleBadRequest(f) && f == e,
    }
}

/// Whether `action` writes exactly `bytes`.
pub open spec fn writes(action: Action, bytes: Seq<u8>) -> bool {
    action matches Action::Write(b) && b@ == bytes
}

impl Server {
    /// A server for the address `addr`.
    pub fn new(addr: String) -> (r: Server)
        ensures
            r@ == addr@,
    {
        Server { addr }
    }

    /// The address that the server listens on.
    pub fn addr(&self) -> (r: &str)
        ensures
            r@ == self@,
    {
        self.addr.as_str()
    }

    /// The stage in which a server starts.
    pub fn start() -> (r: (Stage, Action<'static>))
        ensures
            r.0 == Stage::Accepting,
            r.1 is Accept,
    {
        (Stage::Accepting, Action::Accept)
    }

    /// Carries out an action that asks for the handler: the request goes to
    /// `handle_request`, the error to `handle_bad_request`. What the
    /// handler answers is its own decision; no other action reaches it.
    pub fn dispatch<'buf, H: Handler>(handler: &mut H, action: &Action<'buf>) -> (r: Option<
        Response,
    >)
        ensures
            r is Some <==> (action is HandleRequest || action is HandleBadRequest),
    {
        match action {
            Action::HandleRequest(request) => Some(handler.handle_request(request)),
            Action::HandleBadRequest(e) => Some(handler.handle_bad_request(e)),
            _ => None,
        }
    }

    /// One step of the loop. An accepted connection is read; what was read
    /// is parsed and goes to the handler, as a request or as the error;
    /// the handler's response is written, in its wire form. Everything
    /// else ends the connection, a failure at any stage too, and the next
    /// one is accepted.
    pub fn step<'buf>(stage: Stage, event: Event<'buf>) -> (r: (Stage, Action<'buf>))
        ensures
            match (stage, event) {
                (Stage::Accepting, Event::Accepted) => r.0 == Stage::Reading && r.1 is Read,
                (Stage::Reading, Event::Received(buf)) => r.0 == Stage::Handling && hands_over(
                    r.1,
                    parse_bytes(buf@),
                ),
                (Stage::Handling, Event::Replied(response)) => r.0 == Stage::Writing && writes(
                    r.1,
                    wire_bytes(response@),
                ),
                _ => r.0 == Stage::Accepting && r.1 is Accept,
            },
    {
        match (stage, event) {
            (Stage::Accepting, Event::Accepted) => (Stage::Reading, Action::Read),
            (Stage::Reading, Event::Received(buf)) => match Request::from_byte_array(buf) {
                Ok(request) => (Stage::Handling, Action::HandleRequest(request)),
                Err(e) => (Stage::Handling, Action::HandleBadRequest(e)),
            },
            (Stage::Handling, Event::Replied(response)) => {
                let mut bytes: Vec<u8> = Vec::new();
                response.send(&mut bytes);
                assert(bytes@ =~= wire_bytes(response@));
                (Stage::Writing, Action::Write(bytes))
            },
            _ => (Stage::Accepting, Action::Accept),
        }
    }
}

} // verus!
