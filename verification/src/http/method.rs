//! The request methods that the engine knows.

use vstd::prelude::*;
use crate::http::text::same_text;

verus! {

/// An HTTP request method.
#[derive(Debug, Clone, Copy, PartialEq, Eq, Structural)]
pub enum Method {
    GET,
    POST,
    PUT,
    HEAD,
    CONNECT,
    OPTIONS,
    TRACE,
    PATCH,
}

/// The error of a token that names no method.
#[derive(Debug, Clone, Copy, PartialEq, Eq, Structural)]
pub struct MethodError;

/// The method that a token names: an exact, case-sensitive match.
pub open spec fn method_of(s: Seq<char>) -> Option<Method> {
    if s == "GET"@ {
        Some(Method::GET)
    } else if s == "POST"@ {
        Some(Method::POST)
    } else if s == "PUT"@ {
        Some(Method::PUT)
    } else if s == "HEAD"@ {
        Some(Method::HEAD)
    } else if s == "CONNECT"@ {
        Some(Method::CONNECT)
    } else if s == "OPTIONS"@ {
        Some(Method::OPTIONS)
    } else if s == "TRACE"@ {
        Some(Method::TRACE)
    } else if s == "PATCH"@ {
        Some(Method::PATCH)
    } else {
        None
    }
}

impl Method {
    /// Resolves a token to the method it names.
    pub fn from_str(s: &str) -> (r: Result<Method, MethodError>)
        ensures
            match r {
                Ok(m) => method_of(s@) == Some(m),
                Err(_) => method_of(s@) is None,
            },
    {
        if same_text(s, "GET") {
            Ok(Method::GET)
        } else if same_text(s, "POST") {
            Ok(Method::POST)
        } else if same_text(s, "PUT") {
            Ok(Method::PUT)
        } else if same_text(s, "HEAD") {
            Ok(Method::HEAD)
        } else if same_text(s, "CONNECT") {
            Ok(Method::CONNECT)
        } else if same_text(s, "OPTIONS") {
            Ok(Method::OPTIONS)
        } else if same_text(s, "TRACE") {
            Ok(Method::TRACE)
        } else if same_text(s, "PATCH") {
            Ok(Method::PATCH)
        } else {
            Err(MethodError)
        }
    }

    /// The token that names this method.
    pub fn as_str(&self) -> (r: &'static str)
        ensures
            method_of(r@) == Some(*self),
    {
        proof {
            lemma_names_distinct();
        }
        match self {
            Method::GET => "GET",
            Method::POST => "POST",
            Method::PUT => "PUT",
            Method::HEAD => "HEAD",
            Method::CONNECT => "CONNECT",
            Method::OPTIONS => "OPTIONS",
            Method::TRACE => "TRACE",
            Method::PATCH => "PATCH",
        }
    }
}

impl std::str::FromStr for Method {
    type Err = MethodError;

    fn from_str(s: &str) -> (r: Result<Method, MethodError>)
        ensures
            match r {
                Ok(m) => method_of(s@) == Some(m),
                Err(_) => method_of(s@) is None,
            },
    {
        Method::from_str(s)
    }
}

/// Each name resolves to its own method: no two names are the same text.
pub proof fn lemma_names_distinct()
    ensures
        method_of("GET"@) == Some(Method::GET),
        method_of("POST"@) == Some(Method::POST),
        method_of("PUT"@) == Some(Method::PUT),
        method_of("HEAD"@) == Some(Method::HEAD),
        method_of("CONNECT"@) == Some(Method::CONNECT),
        method_of("OPTIONS"@) == Some(Method::OPTIONS),
        method_of("TRACE"@) == Some(Method::TRACE),
        method_of("PATCH"@) == Some(Method::PATCH),
{
    reveal_strlit("GET");
    reveal_strlit("POST");
    reveal_strlit("PUT");
    reveal_strlit("HEAD");
    reveal_strlit("CONNECT");
    reveal_strlit("OPTIONS");
    reveal_strlit("TRACE");
    reveal_strlit("PATCH");
    assert("GET"@.len() == 3 && "GET"@[0] == 'G');
    assert("POST"@.len() == 4 && "POST"@[0] == 'P');
    assert("PUT"@.len() == 3 && "PUT"@[0] == 'P');
    assert("HEAD"@.len() == 4 && "HEAD"@[0] == 'H');
    assert("CONNECT"@.len() == 7 && "CONNECT"@[0] == 'C');
    assert("OPTIONS"@.len() == 7 && "OPTIONS"@[0] == 'O');
    assert("TRACE"@.len() == 5 && "TRACE"@[0] == 'T');
    assert("PATCH"@.len() == 5 && "PATCH"@[0] == 'P');
}

} // verus!
