//! A minimal HTTP/1.1 request-serving engine: request-line parsing, query
//! strings, response serialisation and the decisions of a static-file
//! handler and of the connection loop, each with a proved contract.

pub mod http;
pub mod server;
