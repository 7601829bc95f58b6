//! What a response means for the request that it answers: it is the final
//! one, or it sends the client on to another place.

use vstd::prelude::*;
use vstd::string::*;
use crate::address::{clone_opt, parse_outcome, ParsedUrl, UrlParts};
use crate::error::RequestError;
use crate::fields::{lookup, StringMap};
use crate::request::{ConfigView, Request, RequestView};
use crate::transport::Dispatch;
use crate::wire::opt_entries;
use crate::response::{decoded, Response, ResponseView};
use crate::source::LineSource;
use crate::text::same_text;

verus! {

/// What came of a response.
#[derive(Debug)]
pub enum Reply {
    /// The response is the result of the call.
    Final(Response),
    /// The response was a redirect: here is the request for the new place,
    /// set up with the method of the old one, and what to do with it.
    Redirect(Request, Dispatch),
}

/// A reply as specifications see it.
pub enum ReplyView {
    /// The response is the result of the call.
    Final(ResponseView),
    /// The request for the new place and what to do with it.
    Redirect(RequestView, Dispatch),
}

impl View for Reply {
    type V = ReplyView;

    open spec fn view(&self) -> ReplyView {
        match self {
            Reply::Final(response) => ReplyView::Final(response@),
            Reply::Redirect(request, dispatch) => ReplyView::Redirect(request@, *dispatch),
        }
    }
}

/// An outcome with the reply taken by its view.
pub open spec fn outcome_view(outcome: Result<Reply, RequestError>) -> Result<
    ReplyView,
    RequestError,
> {
    match outcome {
        Ok(reply) => Ok(reply@),
        Err(error) => Err(error),
    }
}

/// Only the status `301` sends the client on.
pub open spec fn is_redirect(response: ResponseView) -> bool {
    response.status_code == "301"@
}

/// What is asked of the new place: the old query, headers and user agent,
/// and no body.
pub open spec fn replay_config(request: RequestView, target: UrlParts) -> ConfigView {
    ConfigView {
        url: target,
        query: request.config.query,
        headers: request.config.headers,
        user_agent: request.config.user_agent,
        raw_data: None,
    }
}

/// What comes of a `301` response whose `Location` parsed to `target`. A
/// request that was never set up has no method to replay and keeps the
/// response. With no redirect left the chain ends in `TooManyRedirects`.
/// Else the request for the new place is made with one redirect fewer and
/// set up with the same method.
pub open spec fn redirected(request: RequestView, target: UrlParts, response: ResponseView) -> Result<
    ReplyView,
    RequestError,
> {
    match request.method_used {
        None => Ok(ReplyView::Final(response)),
        Some(method) => if request.redirects_left == 0 {
            Err(RequestError::TooManyRedirects)
        } else {
            let next = RequestView::fresh(
                replay_config(request, target),
                (request.redirects_left - 1) as nat,
            );
            match next.dispatch() {
                Ok(dispatch) => Ok(ReplyView::Redirect(next.set_up(method), dispatch)),
                Err(error) => Err(error),
            }
        },
    }
}

/// What comes of a decoded response. Any status but `301` makes it final.
/// A `301` needs a `Location` header that is an absolute URL.
pub open spec fn followed(request: RequestView, response: ResponseView) -> Result<
    ReplyView,
    RequestError,
> {
    if !is_redirect(response) {
        Ok(ReplyView::Final(response))
    } else {
        match lookup(response.headers, "Location"@) {
            None => Err(RequestError::MissingLocation),
            Some(location) => match parse_outcome(location) {
                Ok(target) => redirected(request, target, response),
                Err(error) => Err(error),
            },
        }
    }
}

/// What comes of the lines of a response.
pub open spec fn answered(request: RequestView, lines: Seq<Seq<char>>) -> Result<
    ReplyView,
    RequestError,
> {
    match decoded(lines) {
        Ok(response) => followed(request, response),
        Err(error) => Err(error),
    }
}

/// `request`, answered by `response`, is sent on to `next`.
pub open spec fn leads_to(request: RequestView, response: ResponseView, next: RequestView) -> bool {
    match followed(request, response) {
        Ok(ReplyView::Redirect(to, _)) => to == next,
        _ => false,
    }
}

/// Each redirect that is followed uses one up: along a chain of requests in
/// which each is sent on to the next by its response, the allowance falls
/// by one per hop.
pub proof fn lemma_redirect_uses_allowance(
    requests: Seq<RequestView>,
    responses: Seq<ResponseView>,
    hop: int,
)
    requires
        requests.len() == responses.len() + 1,
        forall|i: int|
            0 <= i < responses.len() ==> leads_to(
                #[trigger] requests[i],
                responses[i],
                requests[i + 1],
            ),
        0 <= hop < requests.len(),
    ensures
        requests[hop].redirects_left + hop == requests[0].redirects_left,
    decreases hop,
{
    if hop > 0 {
        lemma_redirect_uses_allowance(requests, responses, hop - 1);
        assert(leads_to(requests[hop - 1], responses[hop - 1], requests[hop]));
    }
}

/// No chain of redirects is longer than the allowance of the request that
/// starts it: repeated `301` answers cannot keep the client going for ever.
pub proof fn lemma_redirect_chain_bounded(requests: Seq<RequestView>, responses: Seq<ResponseView>)
    requires
        requests.len() == responses.len() + 1,
        forall|i: int|
            0 <= i < responses.len() ==> leads_to(
                #[trigger] requests[i],
                responses[i],
                requests[i + 1],
            ),
    ensures
        responses.len() <= requests[0].redirects_left,
{
    lemma_redirect_uses_allowance(requests, responses, responses.len() as int);
}

/// An optional mapping copied.
fn clone_fields(fields: &Option<StringMap>) -> (copy: Option<StringMap>)
    ensures
        opt_entries(copy) == opt_entries(*fields),
{
    match fields {
        Some(fields) => Some(fields.clone()),
        None => None,
    }
}

impl Request {
    /// Decides what comes of a `301` response once its `Location` is parsed.
    pub fn redirect_to(&self, target: ParsedUrl, response: Response) -> (outcome: Result<
        Reply,
        RequestError,
    >)
        ensures
            outcome_view(outcome) == redirected(self@, target@, response@),
            outcome matches Ok(Reply::Redirect(next, _)) ==> next@.redirects_left + 1
                == self@.redirects_left,
    {
        let method = match self.method_used() {
            Some(method) => method,
            None => {
                return Ok(Reply::Final(response));
            },
        };
        if self.redirects_left() == 0 {
            return Err(RequestError::TooManyRedirects);
        }
        let config = self.config();
        let mut next = Request::from_parts(
            target,
            clone_fields(&config.query),
            clone_fields(&config.headers),
            clone_opt(&config.user_agent),
            None,
            self.redirects_left() - 1,
        );
        match next.execute(method) {
            Ok(dispatch) => Ok(Reply::Redirect(next, dispatch)),
            Err(error) => Err(error),
        }
    }

    /// Decides what comes of a decoded response to this request.
    pub fn follow(&self, response: Response) -> (outcome: Result<Reply, RequestError>)
        ensures
            outcome_view(outcome) == followed(self@, response@),
            outcome matches Ok(Reply::Redirect(next, _)) ==> next@.redirects_left + 1
                == self@.redirects_left,
    {
        if !same_text(response.status_code.as_str(), "301") {
            return Ok(Reply::Final(response));
        }
        let target = match response.headers.get("Location") {
            Some(location) => ParsedUrl::parse(location.as_str()),
            None => {
                return Err(RequestError::MissingLocation);
            },
        };
        match target {
            Ok(target) => self.redirect_to(target, response),
            Err(error) => Err(error),
        }
    }

    /// Reads the response to this request from a source that nothing was
    /// read from yet, and decides what comes of it. The source is taken to
    /// its end. A source that was read from gives `StaleSource` and is
    /// left as it is.
    pub fn read_response(&self, source: &mut LineSource) -> (outcome: Result<Reply, RequestError>)
        ensures
            final(source)@.lines == old(source)@.lines,
            !old(source)@.fresh() ==> final(source)@ == old(source)@ && (outcome matches Err(error)
                && error == RequestError::StaleSource),
            old(source)@.fresh() ==> final(source)@.exhausted() && outcome_view(outcome)
                == answered(self@, old(source)@.lines),
            outcome matches Ok(Reply::Redirect(next, _)) ==> next@.redirects_left + 1
                == self@.redirects_left,
    {
        match Response::read_from(source) {
            Ok(response) => self.follow(response),
            Err(error) => Err(error),
        }
    }
}

} // verus!
