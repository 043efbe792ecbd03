//! The request line: three tokens, of which the first names the method,
//! the second is the target and the third the protocol version.

use vstd::prelude::*;
use vstd::string::*;
use vstd::utf8::*;
use crate::http::method::{method_of, Method, MethodError};
use crate::http::query_string::{query_map, QueryString, ValueView};
use crate::http::text::{find_first, first_of, lemma_first_of, same_text};

verus! {

/// Why a buffer holds no request that the engine serves.
#[derive(Debug, Clone, Copy, PartialEq, Eq, Structural)]
pub enum ParseError {
    /// Fewer than three tokens.
    InvalidRequest,
    /// The bytes are not UTF-8.
    InvalidEncoding,
    /// The protocol token is not `HTTP/1.1`.
    InvalidProtocol,
    /// The method token names no method.
    InvalidMethod,
}

/// The description of each error.
pub open spec fn message_of(e: ParseError) -> Seq<char> {
    match e {
        ParseError::InvalidRequest => "Invalid request"@,
        ParseError::InvalidEncoding => "Invalid encoding"@,
        ParseError::InvalidProtocol => "Invalid protocol"@,
        ParseError::InvalidMethod => "Invalid method"@,
    }
}

impl ParseError {
    /// The description of this error.
    pub fn message(&self) -> (r: &'static str)
        ensures
            r@ == message_of(*self),
    {
        match self {
            ParseError::InvalidRequest => "Invalid request",
            ParseError::InvalidEncoding => "Invalid encoding",
            ParseError::InvalidProtocol => "Invalid protocol",
            ParseError::InvalidMethod => "Invalid method",
        }
    }
}

impl From<MethodError> for ParseError {
    fn from(e: MethodError) -> (r: ParseError) {
        ParseError::InvalidMethod
    }
}

impl vstd::std_specs::convert::FromSpecImpl<MethodError> for ParseError {
    open spec fn obeys_from_spec() -> bool {
        true
    }

    open spec fn from_spec(e: MethodError) -> ParseError {
        ParseError::InvalidMethod
    }
}

/// `core::str::Utf8Error`: why bytes are not UTF-8. Nothing is read from it.
#[verifier::external_type_specification]
#[verifier::external_body]
pub struct ExUtf8Error(core::str::Utf8Error);

/// `core::str::from_utf8` succeeds on exactly the byte sequences that are
/// valid UTF-8, and the text it then gives is the one that these bytes
/// encode.
pub assume_specification[ core::str::from_utf8 ](v: &[u8]) -> (r: Result<
    &str,
    core::str::Utf8Error,
>)
    ensures
        r is Ok <==> valid_utf8(v@),
        r matches Ok(s) ==> encode_utf8(s@) == v@,
;

impl From<core::str::Utf8Error> for ParseError {
    fn from(e: core::str::Utf8Error) -> (r: ParseError) {
        ParseError::InvalidEncoding
    }
}

impl vstd::std_specs::convert::FromSpecImpl<core::str::Utf8Error> for ParseError {
    open spec fn obeys_from_spec() -> bool {
        true
    }

    open spec fn from_spec(e: core::str::Utf8Error) -> ParseError {
        ParseError::InvalidEncoding
    }
}

/// The first token of a text and what follows its delimiter. A token ends
/// before the first space or carriage return; a text without either holds
/// no token.
pub open spec fn next_word(s: Seq<char>) -> Option<(Seq<char>, Seq<char>)> {
    let i = first_of(s, ' ', '\r');
    if 0 <= i < s.len() {
        Some((s.take(i), s.skip(i + 1)))
    } else {
        None
    }
}

/// Splits a text at its first space or carriage return.
pub fn get_next_word(request: &str) -> (r: Option<(&str, &str)>)
    ensures
        match r {
            Some((word, rest)) => next_word(request@) == Some((word@, rest@)),
            None => next_word(request@) is None,
        },
{
    let n: usize = request.unicode_len();
    let i: usize = find_first(request, ' ', '\r');
    proof {
        lemma_first_of(request@, ' ', '\r');
    }
    if i < n {
        Some((request.substring_char(0, i), request.substring_char(i + 1, n)))
    } else {
        None
    }
}

/// The mathematical value of a `Request`.
pub struct RequestView {
    pub method: Method,
    pub path: Seq<char>,
    pub query: Option<Map<Seq<char>, ValueView>>,
}

/// The request that a target and a method make: the target up to its
/// first `?` is the path, what follows it the query text.
pub open spec fn request_of(method: Method, target: Seq<char>) -> RequestView {
    let q = first_of(target, '?', '?');
    if 0 <= q < target.len() {
        RequestView { method, path: target.take(q), query: Some(query_map(target.skip(q + 1))) }
    } else {
        RequestView { method, path: target, query: None }
    }
}

/// The three tokens of a request line: method, target and protocol. A
/// text with fewer has none.
pub open spec fn tokens(s: Seq<char>) -> Option<(Seq<char>, Seq<char>, Seq<char>)> {
    match next_word(s) {
        None => None,
        Some((method, after_method)) => match next_word(after_method) {
            None => None,
            Some((target, after_target)) => match next_word(after_target) {
                None => None,
                Some((protocol, _)) => Some((method, target, protocol)),
            },
        },
    }
}

/// What a text parses to. The tokens are looked for first, then the
/// protocol is checked, then the method.
pub open spec fn parse_text(s: Seq<char>) -> Result<RequestView, ParseError> {
    match tokens(s) {
        None => Err(ParseError::InvalidRequest),
        Some((method, target, protocol)) => if protocol != "HTTP/1.1"@ {
            Err(ParseError::InvalidProtocol)
        } else {
            match method_of(method) {
                None => Err(ParseError::InvalidMethod),
                Some(m) => Ok(request_of(m, target)),
            }
        },
    }
}

/// What a buffer parses to.
pub open spec fn parse_bytes(b: Seq<u8>) -> Result<RequestView, ParseError> {
    if valid_utf8(b) {
        parse_text(decode_utf8(b))
    } else {
        Err(ParseError::InvalidEncoding)
    }
}

/// Each error comes on its own inputs, and a buffer with none of these
/// faults parses: bytes that are no UTF-8 are an invalid encoding; a text
/// without three tokens is an invalid request; three tokens with another
/// protocol than `HTTP/1.1` are an invalid protocol; with that protocol
/// and a token that names no method, an invalid method.
pub proof fn lemma_errors(b: Seq<u8>)
    ensures
        parse_bytes(b) == Err::<RequestView, ParseError>(ParseError::InvalidEncoding)
            <==> !valid_utf8(b),
        parse_bytes(b) == Err::<RequestView, ParseError>(ParseError::InvalidRequest)
            <==> valid_utf8(b) && tokens(decode_utf8(b)) is None,
        parse_bytes(b) == Err::<RequestView, ParseError>(ParseError::InvalidProtocol)
            <==> valid_utf8(b) && tokens(decode_utf8(b)) is Some && tokens(
            decode_utf8(b),
        )->Some_0.2 != "HTTP/1.1"@,
        parse_bytes(b) == Err::<RequestView, ParseError>(ParseError::InvalidMethod)
            <==> valid_utf8(b) && tokens(decode_utf8(b)) is Some && tokens(
            decode_utf8(b),
        )->Some_0.2 == "HTTP/1.1"@ && method_of(tokens(decode_utf8(b))->Some_0.0) is None,
        parse_bytes(b) is Ok <==> valid_utf8(b) && tokens(decode_utf8(b)) is Some && tokens(
            decode_utf8(b),
        )->Some_0.2 == "HTTP/1.1"@ && method_of(tokens(decode_utf8(b))->Some_0.0) is Some,
{
}

/// The path of a request that parsed holds no delimiter of the request
/// line and no `?`.
pub proof fn lemma_path_is_clean(s: Seq<char>)
    requires
        parse_text(s) is Ok,
    ensures
        forall|i: int|
            0 <= i < parse_text(s)->Ok_0.path.len() ==> {
                let c = #[trigger] parse_text(s)->Ok_0.path[i];
                c != ' ' && c != '\r' && c != '?'
            },
{
    let (method, after_method) = next_word(s)->Some_0;
    let (target, after_target) = next_word(after_method)->Some_0;
    let path = parse_text(s)->Ok_0.path;
    lemma_first_of(after_method, ' ', '\r');
    lemma_first_of(target, '?', '?');
    assert forall|i: int| 0 <= i < path.len() implies {
        let c = #[trigger] path[i];
        c != ' ' && c != '\r' && c != '?'
    } by {
        assert(target[i] == after_method[i]);
    }
}

/// A parsed request. Its path and its query string point into the buffer
/// that it was parsed from.
#[derive(Debug)]
pub struct Request<'buf> {
    path: &'buf str,
    query_string: Option<QueryString<'buf>>,
    method: Method,
}

impl<'buf> View for Request<'buf> {
    type V = RequestView;

    closed spec fn view(&self) -> RequestView {
        RequestView {
            method: self.method,
            path: self.path@,
            query: match self.query_string {
                Some(q) => Some(q@),
                None => None,
            },
        }
    }
}

impl<'buf> Request<'buf> {
    /// Parses the request line of a decoded buffer.
    pub fn from_text(text: &'buf str) -> (r: Result<Request<'buf>, ParseError>)
        ensures
            match r {
                Ok(request) => parse_text(text@) == Ok::<RequestView, ParseError>(request@),
                Err(e) => parse_text(text@) == Err::<RequestView, ParseError>(e),
            },
    {
        let (method, rest) = match get_next_word(text) {
            Some(p) => p,
            None => { return Err(ParseError::InvalidRequest); },
        };
        let (target, rest) = match get_next_word(rest) {
            Some(p) => p,
            None => { return Err(ParseError::InvalidRequest); },
        };
        let (protocol, _) = match get_next_word(rest) {
            Some(p) => p,
            None => { return Err(ParseError::InvalidRequest); },
        };
        if !same_text(protocol, "HTTP/1.1") {
            return Err(ParseError::InvalidProtocol);
        }
        let method = match Method::from_str(method) {
            Ok(m) => m,
            Err(e) => { return Err(ParseError::from(e)); },
        };
        let n: usize = target.unicode_len();
        let q: usize = find_first(target, '?', '?');
        proof {
            lemma_first_of(target@, '?', '?');
        }
        if q < n {
            let query_string = Some(QueryString::parse(target.substring_char(q + 1, n)));
            let path = target.substring_char(0, q);
            Ok(Request { path, query_string, method })
        } else {
            Ok(Request { path: target, query_string: None, method })
        }
    }

    /// Parses the request that a buffer holds. Only the first line is
    /// read: headers and body are ignored.
    pub fn from_byte_array(buf: &'buf [u8]) -> (r: Result<Request<'buf>, ParseError>)
        ensures
            match r {
                Ok(request) => parse_bytes(buf@) == Ok::<RequestView, ParseError>(request@),
                Err(e) => parse_bytes(buf@) == Err::<RequestView, ParseError>(e),
            },
    {
        match core::str::from_utf8(buf) {
            Ok(text) => {
                proof {
                    encode_utf8_decode_utf8(text@);
                }
                Request::from_text(text)
            },
            Err(e) => Err(ParseError::from(e)),
        }
    }

    /// The method of the request.
    pub fn method(&self) -> (r: &Method)
        ensures
            *r == self@.method,
    {
        &self.method
    }

    /// The path of the request: its target without the query text.
    pub fn path(&self) -> (r: &'buf str)
        ensures
            r@ == self@.path,
    {
        self.path
    }

    /// The query string of the request, where its target holds a `?`.
    pub fn query_string(&self) -> (r: Option<&QueryString<'buf>>)
        ensures
            match r {
                Some(q) => self@.query == Some(q@),
                None => self@.query is None,
            },
    {
        self.query_string.as_ref()
    }
}

impl<'buf> TryFrom<&'buf [u8]> for Request<'buf> {
    type Error = ParseError;

    /// Parses the request that a buffer holds, as `from_byte_array` does.
    fn try_from(buf: &'buf [u8]) -> (r: Result<Request<'buf>, ParseError>)
        ensures
            match r {
                Ok(request) => parse_bytes(buf@) == Ok::<RequestView, ParseError>(request@),
                Err(e) => parse_bytes(buf@) == Err::<RequestView, ParseError>(e),
            },
    {
        Request::from_byte_array(buf)
    }
}

/// The conversion is described by the view of what it gives, not by one
/// chosen value.
impl<'buf> vstd::std_specs::convert::TryFromSpecImpl<&'buf [u8]> for Request<'buf> {
    open spec fn obeys_try_from_spec() -> bool {
        false
    }

    open spec fn try_from_spec(buf: &'buf [u8]) -> Result<Request<'buf>, ParseError> {
        match parse_bytes(buf@) {
            Ok(v) => Ok(choose|q: Request<'buf>| q@ == v),
            Err(e) => Err(e),
        }
    }
}

} // verus!
