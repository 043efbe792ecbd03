//! The status codes that the engine answers with.

use vstd::prelude::*;

verus! {

/// The status of a response.
#[derive(Debug, Clone, Copy, PartialEq, Eq, Structural)]
pub enum StatusCode {
    Okay,
    BadRequest,
    NotFound,
}

/// The three decimal digits of a number below 1000, as text.
pub open spec fn decimal3(n: int) -> Seq<char> {
    seq![
        ((48 + n / 100) as u8) as char,
        ((48 + (n / 10) % 10) as u8) as char,
        ((48 + n % 10) as u8) as char,
    ]
}

impl StatusCode {
    /// The numeric code.
    pub open spec fn number(self) -> u16 {
        match self {
            StatusCode::Okay => 200,
            StatusCode::BadRequest => 400,
            StatusCode::NotFound => 404,
        }
    }

    /// The reason phrase that accompanies the code.
    pub open spec fn reason(self) -> Seq<char> {
        match self {
            StatusCode::Okay => "OK"@,
            StatusCode::BadRequest => "Bad Request"@,
            StatusCode::NotFound => "Not Found"@,
        }
    }

    /// The numeric code.
    pub fn code(&self) -> (r: u16)
        ensures
            r == self.number(),
    {
        match self {
            StatusCode::Okay => 200,
            StatusCode::BadRequest => 400,
            StatusCode::NotFound => 404,
        }
    }

    /// The numeric code as it stands in a status line: its decimal digits.
    pub fn code_text(&self) -> (r: &'static str)
        ensures
            r@ == decimal3(self.number() as int),
    {
        proof {
            reveal_strlit("200");
            reveal_strlit("400");
            reveal_strlit("404");
        }
        let r = match self {
            StatusCode::Okay => "200",
            StatusCode::BadRequest => "400",
            StatusCode::NotFound => "404",
        };
        assert(r@ =~= decimal3(self.number() as int));
        r
    }

    /// The reason phrase that accompanies the code.
    pub fn reason_phrase(&self) -> (r: &'static str)
        ensures
            r@ == self.reason(),
    {
        match self {
            StatusCode::Okay => "OK",
            StatusCode::BadRequest => "Bad Request",
            StatusCode::NotFound => "Not Found",
        }
    }
}

} // verus!
