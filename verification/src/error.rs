//! What can go wrong between a URL string and a decoded response.

use vstd::prelude::*;

verus! {

/// The reason a request could not be built or a response could not be used.
#[derive(Debug, Clone, Copy, PartialEq, Eq)]
pub enum RequestError {
    /// The string is no absolute URL; the parser's own reason is inside.
    InvalidUrl(url::ParseError),
    /// The URL names no host, so there is nobody to send the request to.
    MissingHost,
    /// Lines were already taken from the source before the response was read.
    StaleSource,
    /// The source ended before the status line.
    EmptyResponse,
    /// The first line is no status line.
    MalformedStatusLine,
    /// A line of the header block is no `Key: Value` pair.
    MalformedHeader,
    /// A `301` response came without a `Location` header.
    MissingLocation,
    /// A `301` response arrived when every allowed redirect was already used.
    TooManyRedirects,
}

} // verus!
