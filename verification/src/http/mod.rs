pub mod method;
pub mod query_string;
pub mod request;
pub mod response;
pub mod status_code;
pub mod text;
pub mod website_handler;

pub use method::Method;
pub use query_string::{QueryString, Value as QueryStringValue};
pub use request::ParseError;
pub use request::Request;
pub use response::Response;
