//! The parts of a URL that a request is built from.

use vstd::prelude::*;
use vstd::string::*;
use crate::error::RequestError;

verus! {

/// The error type of the `url` crate's parser. Its inside is not looked at
/// here: a value is carried to the caller as it came.
#[verifier::external_type_specification]
#[verifier::external_body]
pub struct ExParseError(url::ParseError);

/// A URL's parts as specifications see them.
pub struct UrlParts {
    /// The scheme, without the colon.
    pub scheme: Seq<char>,
    /// The host, where the URL has one.
    pub host: Option<Seq<char>>,
    /// The path.
    pub path: Seq<char>,
    /// What follows `?`, where the URL has a query.
    pub query: Option<Seq<char>>,
}

/// The parts of a URL that a request reads, as plain strings.
#[derive(Debug)]
pub struct ParsedUrl {
    /// The scheme, without the colon.
    pub scheme: String,
    /// The host, where the URL has one.
    pub host: Option<String>,
    /// The path.
    pub path: String,
    /// What follows `?`, where the URL has a query.
    pub query: Option<String>,
}

/// The characters of an optional string.
pub open spec fn opt_text(s: Option<String>) -> Option<Seq<char>> {
    match s {
        Some(s) => Some(s@),
        None => None,
    }
}

impl View for ParsedUrl {
    type V = UrlParts;

    open spec fn view(&self) -> UrlParts {
        UrlParts {
            scheme: self.scheme@,
            host: opt_text(self.host),
            path: self.path@,
            query: opt_text(self.query),
        }
    }
}

/// What `url::Url::parse` makes of `input`: the scheme, host, path and query
/// of the URL it accepts, or the error with which it refuses the string.
pub uninterp spec fn url_parse(input: Seq<char>) -> Result<UrlParts, url::ParseError>;

/// Runs `url::Url::parse` on `input` and, where it accepts, reads the result
/// with `Url::scheme`, `Url::host_str`, `Url::path` and `Url::query`.
///
/// Trusted: that the outcome is the one `url_parse` names for these
/// characters, that is, that it depends on the input alone. Nothing is
/// claimed about which strings are accepted or what the parts hold.
#[verifier::external_body]
fn parse_with_url_crate(input: &str) -> (outcome: Result<ParsedUrl, url::ParseError>)
    ensures
        match outcome {
            Ok(parsed) => url_parse(input@) == Ok::<UrlParts, url::ParseError>(parsed@),
            Err(error) => url_parse(input@) == Err::<UrlParts, url::ParseError>(error),
        },
{
    let url = url::Url::parse(input)?;
    Ok(ParsedUrl {
        scheme: url.scheme().to_string(),
        host: url.host_str().map(str::to_string),
        path: url.path().to_string(),
        query: url.query().map(str::to_string),
    })
}

/// What `ParsedUrl::parse` returns for `input`.
pub open spec fn parse_outcome(input: Seq<char>) -> Result<UrlParts, RequestError> {
    match url_parse(input) {
        Ok(parts) => Ok(parts),
        Err(error) => Err(RequestError::InvalidUrl(error)),
    }
}

/// An optional string copied.
pub fn clone_opt(s: &Option<String>) -> (copy: Option<String>)
    ensures
        opt_text(copy) == opt_text(*s),
{
    match s {
        Some(s) => Some(s.clone()),
        None => None,
    }
}

impl ParsedUrl {
    /// Parses an absolute URL. A string that the parser refuses gives
    /// `InvalidUrl` with the parser's reason.
    pub fn parse(input: &str) -> (outcome: Result<ParsedUrl, RequestError>)
        ensures
            match outcome {
                Ok(parsed) => parse_outcome(input@) == Ok::<UrlParts, RequestError>(parsed@),
                Err(error) => parse_outcome(input@) == Err::<UrlParts, RequestError>(error),
            },
    {
        match parse_with_url_crate(input) {
            Ok(parsed) => Ok(parsed),
            Err(error) => Err(RequestError::InvalidUrl(error)),
        }
    }
}

} // verus!
