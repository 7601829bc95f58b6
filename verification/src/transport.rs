//! How a request travels: the transport is chosen by the URL's scheme.

use vstd::prelude::*;
use crate::text::same_text;

verus! {

/// How the bytes of a request travel.
#[derive(Clone, Copy, Debug, PartialEq, Eq, Structural)]
pub enum Transport {
    /// Plain TCP.
    Plain,
    /// TLS over TCP.
    Tls,
}

/// What the caller has to do with a request that was set up.
#[derive(Clone, Copy, Debug, PartialEq, Eq, Structural)]
pub enum Dispatch {
    /// Connect to the request's host in this way and write the request text.
    Send(Transport),
    /// The URL's scheme is not served: there will be no response.
    Absent,
}

/// The transport that serves `scheme`: TLS for `https`, plain TCP for
/// `http`, none for anything else.
pub open spec fn transport_for(scheme: Seq<char>) -> Option<Transport> {
    if scheme == "https"@ {
        Some(Transport::Tls)
    } else if scheme == "http"@ {
        Some(Transport::Plain)
    } else {
        None
    }
}

impl Transport {
    /// The port that is connected to: 443 for TLS, 80 for plain TCP. A port
    /// written in the URL is not looked at.
    pub open spec fn spec_port(self) -> u16 {
        match self {
            Transport::Plain => 80,
            Transport::Tls => 443,
        }
    }

    /// The port that is connected to.
    #[verifier::when_used_as_spec(spec_port)]
    pub fn port(self) -> (port: u16)
        ensures
            port == self.spec_port(),
    {
        match self {
            Transport::Plain => 80,
            Transport::Tls => 443,
        }
    }

    /// The transport that serves `scheme`, if any.
    pub fn select(scheme: &str) -> (transport: Option<Transport>)
        ensures
            transport == transport_for(scheme@),
    {
        if same_text(scheme, "https") {
            Some(Transport::Tls)
        } else if same_text(scheme, "http") {
            Some(Transport::Plain)
        } else {
            None
        }
    }
}

} // verus!
