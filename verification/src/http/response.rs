//! A response and its form on the wire.

use vstd::prelude::*;
use vstd::string::*;
use vstd::utf8::*;
use crate::http::status_code::{decimal3, StatusCode};

verus! {

/// What a handler answers: a status and, where there is one, a body.
#[derive(Debug, Clone, PartialEq, Eq)]
pub struct Response {
    status_code: StatusCode,
    body: Option<String>,
}

/// The mathematical value of a `Response`.
pub struct ResponseView {
    pub status: StatusCode,
    pub body: Option<Seq<char>>,
}

/// The text of a response on the wire: the status line, an empty line and
/// the body, with line feeds alone as line ends.
pub open spec fn wire_text(r: ResponseView) -> Seq<char> {
    "HTTP/1.1 "@ + decimal3(r.status.number() as int) + " "@ + r.status.reason() + "\n\n"@
        + match r.body {
        Some(b) => b,
        None => Seq::empty(),
    }
}

/// The bytes of a response on the wire.
pub open spec fn wire_bytes(r: ResponseView) -> Seq<u8> {
    encode_utf8(wire_text(r))
}

/// Appends `bytes` to `out`.
fn append_bytes(out: &mut Vec<u8>, bytes: &[u8])
    ensures
        final(out)@ == old(out)@ + bytes@,
{
    let mut i: usize = 0;
    while i < bytes.len()
        invariant
            i <= bytes@.len(),
            out@ == old(out)@ + bytes@.take(i as int),
        decreases bytes@.len() - i,
    {
        out.push(bytes[i]);
        assert(bytes@.take(i + 1) =~= bytes@.take(i as int).push(bytes@[i as int]));
        i += 1;
    }
    assert(bytes@.take(i as int) =~= bytes@);
}

impl View for Response {
    type V = ResponseView;

    closed spec fn view(&self) -> ResponseView {
        ResponseView {
            status: self.status_code,
            body: match self.body {
                Some(b) => Some(b@),
                None => None,
            },
        }
    }
}

impl Response {
    /// A response with the given status and body.
    pub fn new(status_code: StatusCode, body: Option<String>) -> (r: Response)
        ensures
            r@.status == status_code,
            r@.body == match body {
                Some(b) => Some(b@),
                None => None::<Seq<char>>,
            },
    {
        Response { status_code, body }
    }

    /// The status of the response.
    pub fn status_code(&self) -> (r: StatusCode)
        ensures
            r == self@.status,
    {
        self.status_code
    }

    /// The body of the response, where it has one.
    pub fn body(&self) -> (r: Option<&str>)
        ensures
            match r {
                Some(b) => self@.body == Some(b@),
                None => self@.body is None,
            },
    {
        match &self.body {
            Some(b) => Some(b.as_str()),
            None => None,
        }
    }

    /// The text of the response on the wire.
    pub fn serialize(&self) -> (r: String)
        ensures
            r@ == wire_text(self@),
    {
        let mut text = String::new();
        text.append("HTTP/1.1 ");
        text.append(self.status_code.code_text());
        text.append(" ");
        text.append(self.status_code.reason_phrase());
        text.append("\n\n");
        match &self.body {
            Some(b) => {
                text.append(b.as_str());
            },
            None => {
                assert(text@ + Seq::<char>::empty() =~= text@);
            },
        }
        assert(text@ =~= wire_text(self@));
        text
    }

    /// Puts the response on the wire: `stream` grows by its bytes.
    pub fn send(&self, stream: &mut Vec<u8>)
        ensures
            final(stream)@ == old(stream)@ + wire_bytes(self@),
    {
        let text = self.serialize();
        append_bytes(stream, text.as_str().as_bytes());
    }
}

/// Two responses of one value have the same bytes on the wire, so
/// serialising a response again gives the same bytes.
pub proof fn lemma_wire_stable(a: Response, b: Response)
    requires
        a@ == b@,
    ensures
        wire_bytes(a@) == wire_bytes(b@),
{
}

} // verus!
