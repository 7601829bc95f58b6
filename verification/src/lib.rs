//! A minimal HTTP/1.1 client core: request text is rendered from structured
//! input, a response is decoded from the lines a transport hands back, and a
//! `301` answer is turned into the next request. Sockets stay outside; every
//! function here works on plain values.

pub mod text;
pub mod method;
pub mod fields;
pub mod error;
pub mod address;
pub mod transport;
pub mod wire;
pub mod request;
pub mod grammar;
pub mod response;
pub mod source;
pub mod redirect;

pub use crate::address::ParsedUrl;
pub use crate::error::RequestError;
pub use crate::fields::StringMap;
pub use crate::method::HttpMethod;
pub use crate::redirect::Reply;
pub use crate::request::{Request, RequestConfig, MAX_REDIRECTS};
pub use crate::transport::{Dispatch, Transport};
pub use crate::response::Response;
pub use crate::source::LineSource;
