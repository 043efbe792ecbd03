use server::http::status_code::StatusCode;
use server::http::{Method, ParseError, Request, Response};
use server::server::{bad_request, Action, Event, Handler, Server, Stage};

struct Echo {
    seen: usize,
}

impl Handler for Echo {
    fn handle_request(&mut self, request: &Request) -> Response {
        self.seen += 1;
        Response::new(StatusCode::Okay, Some(String::from(request.path())))
    }
}

struct Strict;

impl Handler for Strict {
    fn handle_request(&mut self, _request: &Request) -> Response {
        Response::new(StatusCode::NotFound, None)
    }

    fn handle_bad_request(&mut self, e: &ParseError) -> Response {
        Response::new(StatusCode::BadRequest, Some(String::from(e.message())))
    }
}

#[test]
fn a_server_keeps_its_address() {
    let server = Server::new(String::from("127.0.0.1:8080"));
    assert_eq!(server.addr(), "127.0.0.1:8080");
}

#[test]
fn a_server_starts_by_accepting() {
    let (stage, action) = Server::start();
    assert_eq!(stage, Stage::Accepting);
    assert!(matches!(action, Action::Accept));
}

#[test]
fn an_accepted_connection_is_read() {
    let (stage, action) = Server::step(Stage::Accepting, Event::Accepted);
    assert_eq!(stage, Stage::Reading);
    assert!(matches!(action, Action::Read));
}

#[test]
fn a_request_that_parses_goes_to_the_handler() {
    let (stage, action) = Server::step(
        Stage::Reading,
        Event::Received(b"GET /page HTTP/1.1\r\n\r\n"),
    );
    assert_eq!(stage, Stage::Handling);
    match action {
        Action::HandleRequest(request) => {
            assert_eq!(*request.method(), Method::GET);
            assert_eq!(request.path(), "/page");
        }
        other => panic!("unexpected action {:?}", other),
    }
}

#[test]
fn a_request_that_does_not_parse_goes_to_the_handler_as_its_error() {
    let (stage, action) = Server::step(Stage::Reading, Event::Received(b"GET / HTTP/2\r\n"));
    assert_eq!(stage, Stage::Handling);
    assert!(matches!(action, Action::HandleBadRequest(ParseError::InvalidProtocol)));
    let (_, action) = Server::step(Stage::Reading, Event::Received(b"\xff"));
    assert!(matches!(action, Action::HandleBadRequest(ParseError::InvalidEncoding)));
}

#[test]
fn the_response_is_written_in_its_wire_form() {
    let response = Response::new(StatusCode::Okay, Some(String::from("hi")));
    let (stage, action) = Server::step(Stage::Handling, Event::Replied(response));
    assert_eq!(stage, Stage::Writing);
    match action {
        Action::Write(bytes) => assert_eq!(bytes, b"HTTP/1.1 200 OK\n\nhi".to_vec()),
        other => panic!("unexpected action {:?}", other),
    }
}

#[test]
fn after_the_write_the_next_connection_is_accepted() {
    let (stage, action) = Server::step(Stage::Writing, Event::Written);
    assert_eq!(stage, Stage::Accepting);
    assert!(matches!(action, Action::Accept));
}

#[test]
fn a_failure_at_any_stage_ends_only_the_connection() {
    for stage in [Stage::Accepting, Stage::Reading, Stage::Handling, Stage::Writing].iter() {
        let (next, action) = Server::step(*stage, Event::Failed);
        assert_eq!(next, Stage::Accepting);
        assert!(matches!(action, Action::Accept));
    }
}

#[test]
fn an_event_out_of_turn_ends_the_connection() {
    let (next, action) = Server::step(Stage::Accepting, Event::Received(b"GET / HTTP/1.1\r\n"));
    assert_eq!(next, Stage::Accepting);
    assert!(matches!(action, Action::Accept));
    let (next, action) = Server::step(Stage::Reading, Event::Written);
    assert_eq!(next, Stage::Accepting);
    assert!(matches!(action, Action::Accept));
}

#[test]
fn the_default_answer_to_a_bad_request() {
    let mut handler = Echo { seen: 0 };
    let response = handler.handle_bad_request(&ParseError::InvalidMethod);
    assert_eq!(response, Response::new(StatusCode::BadRequest, None));
    assert_eq!(response, bad_request());
    assert_eq!(handler.seen, 0);
}

#[test]
fn a_handler_may_answer_bad_requests_itself() {
    let mut handler = Strict;
    let response = handler.handle_bad_request(&ParseError::InvalidRequest);
    assert_eq!(response.status_code(), StatusCode::BadRequest);
    assert_eq!(response.body(), Some("Invalid request"));
}

#[test]
fn only_the_two_handler_actions_are_dispatched() {
    let mut handler = Echo { seen: 0 };
    assert_eq!(Server::dispatch(&mut handler, &Action::Accept), None);
    assert_eq!(Server::dispatch(&mut handler, &Action::Read), None);
    assert_eq!(Server::dispatch(&mut handler, &Action::Write(vec![1, 2])), None);
    assert_eq!(handler.seen, 0);
    let request = Request::from_byte_array(b"GET /a HTTP/1.1\r\n").unwrap();
    let response = Server::dispatch(&mut handler, &Action::HandleRequest(request));
    assert_eq!(response, Some(Response::new(StatusCode::Okay, Some(String::from("/a")))));
    assert_eq!(handler.seen, 1);
    let response = Server::dispatch(&mut Strict, &Action::HandleBadRequest(ParseError::InvalidMethod));
    assert_eq!(
        response,
        Some(Response::new(StatusCode::BadRequest, Some(String::from("Invalid method"))))
    );
}

fn serve<H: Handler>(handler: &mut H, buffer: &[u8]) -> Vec<u8> {
    let (stage, _) = Server::step(Stage::Accepting, Event::Accepted);
    let (stage, action) = Server::step(stage, Event::Received(buffer));
    let response = Server::dispatch(handler, &action).unwrap();
    let (_, action) = Server::step(stage, Event::Replied(response));
    match action {
        Action::Write(bytes) => bytes,
        other => panic!("unexpected action {:?}", other),
    }
}

#[test]
fn one_connection_from_read_to_write() {
    let mut handler = Echo { seen: 0 };
    let out = serve(&mut handler, b"GET /echo?x=1 HTTP/1.1\r\nHost: h\r\n\r\n");
    assert_eq!(out, b"HTTP/1.1 200 OK\n\n/echo".to_vec());
    let out = serve(&mut handler, b"BREW /pot HTTP/1.1\r\n\r\n");
    assert_eq!(out, b"HTTP/1.1 400 Bad Request\n\n".to_vec());
    assert_eq!(handler.seen, 1);
}
