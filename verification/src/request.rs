//! A request: what the caller asked for, the text built from it, and what
//! is to be done with it.

use vstd::prelude::*;
use vstd::string::*;
use crate::address::{opt_text, parse_outcome, ParsedUrl, UrlParts};
use crate::error::RequestError;
use crate::fields::{Entries, StringMap};
use crate::method::HttpMethod;
use crate::transport::{transport_for, Dispatch, Transport};
use crate::wire::{opt_entries, render_headers, render_target, wire_text};

verus! {

/// How many `301` answers in a row are followed before the chain is given up.
pub const MAX_REDIRECTS: u32 = 10;

/// What the caller asked for, as specifications see it.
pub struct ConfigView {
    /// The parts of the URL.
    pub url: UrlParts,
    /// The query mapping, where one was given.
    pub query: Option<Entries>,
    /// The header mapping, where one was given.
    pub headers: Option<Entries>,
    /// The user agent, where one was given.
    pub user_agent: Option<Seq<char>>,
    /// The body, where one was given.
    pub raw_data: Option<Seq<char>>,
}

/// What the caller asked for. It is made once and not changed afterwards.
#[derive(Debug)]
pub struct RequestConfig {
    /// The parts of the URL.
    pub url: ParsedUrl,
    /// Pairs to put into the query string.
    pub query: Option<StringMap>,
    /// Headers to send.
    pub headers: Option<StringMap>,
    /// Kept for the caller; it is not written into the request text.
    pub user_agent: Option<String>,
    /// Kept for the caller; it is not written into the request text.
    pub raw_data: Option<String>,
}

impl View for RequestConfig {
    type V = ConfigView;

    open spec fn view(&self) -> ConfigView {
        ConfigView {
            url: self.url@,
            query: opt_entries(self.query),
            headers: opt_entries(self.headers),
            user_agent: opt_text(self.user_agent),
            raw_data: opt_text(self.raw_data),
        }
    }
}

/// A request as specifications see it.
pub struct RequestView {
    /// What the caller asked for.
    pub config: ConfigView,
    /// The text for the wire; empty until the request is set up.
    pub request_text: Seq<char>,
    /// The host taken from the URL when the request was set up.
    pub host: Seq<char>,
    /// The method of the last set-up, by which a redirect is replayed.
    pub method_used: Option<HttpMethod>,
    /// How many more `301` answers will be followed.
    pub redirects_left: nat,
}

/// The host that a request to `url` is sent to: the URL's host, unless it
/// has none or an empty one.
pub open spec fn host_of(url: UrlParts) -> Option<Seq<char>> {
    match url.host {
        Some(host) => if host.len() > 0 {
            Some(host)
        } else {
            None
        },
        None => None,
    }
}

impl RequestView {
    /// A request that was made and not yet set up.
    pub open spec fn fresh(config: ConfigView, redirects_left: nat) -> RequestView {
        RequestView {
            config,
            request_text: Seq::empty(),
            host: Seq::empty(),
            method_used: None,
            redirects_left,
        }
    }

    /// The text is the one that belongs to the recorded method and the URL's host.
    pub open spec fn prepared(self) -> bool {
        &&& self.method_used is Some
        &&& host_of(self.config.url) == Some(self.host)
        &&& self.request_text == wire_text(
            self.method_used.unwrap(),
            self.config.url,
            self.host,
            self.config.query,
            self.config.headers,
        )
    }

    /// The request text is either not built or belongs to the recorded method.
    pub open spec fn wf(self) -> bool {
        self.request_text.len() == 0 || self.prepared()
    }

    /// The request after it was set up for `method`. Where the URL names no
    /// host no text is built, and the text is empty.
    pub open spec fn set_up(self, method: HttpMethod) -> RequestView {
        match host_of(self.config.url) {
            Some(host) => RequestView {
                request_text: wire_text(
                    method,
                    self.config.url,
                    host,
                    self.config.query,
                    self.config.headers,
                ),
                host,
                method_used: Some(method),
                ..self
            },
            None => RequestView { request_text: Seq::empty(), method_used: Some(method), ..self },
        }
    }

    /// What is to be done with the request once it is set up: nothing where
    /// the scheme is not served, whatever else holds of the URL; else an
    /// error where the host is missing; else sending.
    pub open spec fn dispatch(self) -> Result<Dispatch, RequestError> {
        match transport_for(self.config.url.scheme) {
            None => Ok(Dispatch::Absent),
            Some(transport) => if host_of(self.config.url) is Some {
                Ok(Dispatch::Send(transport))
            } else {
                Err(RequestError::MissingHost)
            },
        }
    }
}

/// A request: what the caller asked for, and the text built from it.
#[derive(Debug)]
pub struct Request {
    config: RequestConfig,
    request: String,
    host: String,
    method_used: Option<HttpMethod>,
    redirects_left: u32,
}

impl View for Request {
    type V = RequestView;

    closed spec fn view(&self) -> RequestView {
        RequestView {
            config: self.config@,
            request_text: self.request@,
            host: self.host@,
            method_used: self.method_used,
            redirects_left: self.redirects_left as nat,
        }
    }
}

impl RequestConfig {
    /// Parses `url` and makes the request for it, not yet set up, with the
    /// full allowance of redirects. A string that is no absolute URL gives
    /// `InvalidUrl`, and nothing is made.
    pub fn new(
        url: &str,
        query: Option<StringMap>,
        headers: Option<StringMap>,
        user_agent: Option<String>,
        raw_data: Option<String>,
    ) -> (made: Result<Request, RequestError>)
        ensures
            match parse_outcome(url@) {
                Ok(parts) => made matches Ok(request) && request@ == RequestView::fresh(
                    ConfigView {
                        url: parts,
                        query: opt_entries(query),
                        headers: opt_entries(headers),
                        user_agent: opt_text(user_agent),
                        raw_data: opt_text(raw_data),
                    },
                    MAX_REDIRECTS as nat,
                ),
                Err(error) => made matches Err(e) && e == error,
            },
    {
        match ParsedUrl::parse(url) {
            Ok(parsed) => Ok(
                Request::from_parts(parsed, query, headers, user_agent, raw_data, MAX_REDIRECTS),
            ),
            Err(error) => Err(error),
        }
    }
}

impl Request {
    /// Every request in executable code has a text that is empty or belongs
    /// to its recorded method.
    #[verifier::type_invariant]
    pub open spec fn wf(&self) -> bool {
        self@.wf()
    }

    /// Makes the request for a URL that is already parsed, not yet set up,
    /// with `redirects` answers of `301` still to be followed.
    pub fn from_parts(
        url: ParsedUrl,
        query: Option<StringMap>,
        headers: Option<StringMap>,
        user_agent: Option<String>,
        raw_data: Option<String>,
        redirects: u32,
    ) -> (request: Request)
        ensures
            request@ == RequestView::fresh(
                ConfigView {
                    url: url@,
                    query: opt_entries(query),
                    headers: opt_entries(headers),
                    user_agent: opt_text(user_agent),
                    raw_data: opt_text(raw_data),
                },
                redirects as nat,
            ),
    {
        Request {
            config: RequestConfig { url, query, headers, user_agent, raw_data },
            request: String::new(),
            host: String::new(),
            method_used: None,
            redirects_left: redirects,
        }
    }

    /// What the caller asked for.
    pub fn config(&self) -> (config: &RequestConfig)
        ensures
            config@ == self@.config,
    {
        &self.config
    }

    /// The text for the wire; empty until the request is set up.
    pub fn request_text(&self) -> (text: &str)
        ensures
            text@ == self@.request_text,
    {
        self.request.as_str()
    }

    /// The host taken from the URL when the request was set up.
    pub fn host(&self) -> (host: &str)
        ensures
            host@ == self@.host,
    {
        self.host.as_str()
    }

    /// The method of the last set-up.
    pub fn method_used(&self) -> (method: Option<HttpMethod>)
        ensures
            method == self@.method_used,
    {
        self.method_used
    }

    /// How many more `301` answers will be followed.
    pub fn redirects_left(&self) -> (left: u32)
        ensures
            left == self@.redirects_left,
    {
        self.redirects_left
    }

    /// Records `method` and builds the request text for it. Where the URL
    /// has no host, or an empty one, the text is left empty and
    /// `MissingHost` is returned.
    pub fn setup_request(&mut self, method: HttpMethod) -> (outcome: Result<(), RequestError>)
        ensures
            final(self)@ == old(self)@.set_up(method),
            match outcome {
                Ok(_) => host_of(old(self)@.config.url) is Some && final(self)@.prepared(),
                Err(error) => host_of(old(self)@.config.url) is None && error
                    == RequestError::MissingHost,
            },
    {
        self.request = String::new();
        self.method_used = Some(method);
        let host = match &self.config.url.host {
            Some(host) => {
                if host.as_str().is_empty() {
                    return Err(RequestError::MissingHost);
                }
                host.clone()
            },
            None => {
                return Err(RequestError::MissingHost);
            },
        };
        let target = render_target(&self.config.url, &self.config.query);
        let block = render_headers(&self.config.headers);
        let mut text = method.to_string();
        text.append(" ");
        text.append(target.as_str());
        text.append(" HTTP/1.1\r\n");
        text.append("Host: ");
        text.append(host.as_str());
        text.append("\r\n");
        text.append(block.as_str());
        text.append("\r\n");
        self.host = host;
        self.request = text;
        Ok(())
    }

    /// Sets the request up for `method` and says what is to be done with
    /// it. A URL whose scheme is neither `http` nor `https` gives `Absent`,
    /// never an error.
    pub fn execute(&mut self, method: HttpMethod) -> (outcome: Result<Dispatch, RequestError>)
        ensures
            final(self)@ == old(self)@.set_up(method),
            outcome == old(self)@.dispatch(),
            transport_for(old(self)@.config.url.scheme) is None ==> outcome == Ok::<
                Dispatch,
                RequestError,
            >(Dispatch::Absent),
            outcome matches Ok(Dispatch::Send(_)) ==> final(self)@.prepared(),
            outcome matches Ok(Dispatch::Send(_)) ==> final(self)@.host.len() > 0,
    {
        let built = self.setup_request(method);
        match Transport::select(self.config.url.scheme.as_str()) {
            None => Ok(Dispatch::Absent),
            Some(transport) => match built {
                Ok(_) => Ok(Dispatch::Send(transport)),
                Err(error) => Err(error),
            },
        }
    }

    /// `execute` with `GET`.
    pub fn get(&mut self) -> (outcome: Result<Dispatch, RequestError>)
        ensures
            final(self)@ == old(self)@.set_up(HttpMethod::GET),
            outcome == old(self)@.dispatch(),
    {
        self.execute(HttpMethod::GET)
    }

    /// `execute` with `POST`.
    pub fn post(&mut self) -> (outcome: Result<Dispatch, RequestError>)
        ensures
            final(self)@ == old(self)@.set_up(HttpMethod::POST),
            outcome == old(self)@.dispatch(),
    {
        self.execute(HttpMethod::POST)
    }

    /// `execute` with `PUT`.
    pub fn put(&mut self) -> (outcome: Result<Dispatch, RequestError>)
        ensures
            final(self)@ == old(self)@.set_up(HttpMethod::PUT),
            outcome == old(self)@.dispatch(),
    {
        self.execute(HttpMethod::PUT)
    }

    /// `execute` with `DELETE`.
    pub fn delete(&mut self) -> (outcome: Result<Dispatch, RequestError>)
        ensures
            final(self)@ == old(self)@.set_up(HttpMethod::DELETE),
            outcome == old(self)@.dispatch(),
    {
        self.execute(HttpMethod::DELETE)
    }
}

} // verus!
