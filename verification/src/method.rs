//! The request methods this client can send.

use vstd::prelude::*;
use vstd::string::*;
use crate::text::same_text;

verus! {

/// A request method. Each renders to its upper-case token on the wire.
#[derive(Clone, Copy, Debug, PartialEq, Eq, Structural)]
pub enum HttpMethod {
    GET,
    POST,
    PUT,
    DELETE,
}

impl HttpMethod {
    /// The token that stands first on the request line.
    pub open spec fn token(self) -> Seq<char> {
        match self {
            HttpMethod::GET => "GET"@,
            HttpMethod::POST => "POST"@,
            HttpMethod::PUT => "PUT"@,
            HttpMethod::DELETE => "DELETE"@,
        }
    }

    /// The method's token as a borrowed string.
    pub fn as_str(&self) -> (token: &'static str)
        ensures
            token@ == self.token(),
    {
        match self {
            HttpMethod::GET => "GET",
            HttpMethod::POST => "POST",
            HttpMethod::PUT => "PUT",
            HttpMethod::DELETE => "DELETE",
        }
    }

    /// The method's token as an owned string.
    pub fn to_string(&self) -> (token: String)
        ensures
            token@ == self.token(),
    {
        String::from_str(self.as_str())
    }

    /// The method whose token is `tag`, if there is one. Tokens are matched
    /// exactly: `"get"` names no method.
    pub fn from_tag(tag: &str) -> (method: Option<HttpMethod>)
        ensures
            match method {
                Some(m) => m.token() == tag@,
                None => forall|m: HttpMethod| m.token() != tag@,
            },
    {
        if same_text(tag, "GET") {
            Some(HttpMethod::GET)
        } else if same_text(tag, "POST") {
            Some(HttpMethod::POST)
        } else if same_text(tag, "PUT") {
            Some(HttpMethod::PUT)
        } else if same_text(tag, "DELETE") {
            Some(HttpMethod::DELETE)
        } else {
            None
        }
    }
}

/// No two methods share a token, so the token read back names the method.
pub proof fn lemma_tokens_distinct(a: HttpMethod, b: HttpMethod)
    ensures
        a.token() == b.token() <==> a == b,
{
    reveal_strlit("GET");
    reveal_strlit("POST");
    reveal_strlit("PUT");
    reveal_strlit("DELETE");
    if a != b {
        assert(a.token().len() != b.token().len() || a.token()[0] != b.token()[0]);
    }
}

} // verus!
