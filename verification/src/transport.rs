//! What the library asks of a transport, and what it makes of the answer.
//!
//! A [`Request`] is a GET waiting to be sent: a URL and the query parameters
//! that go with it.  A [`Reply`] is the plain account of what happened to it.
//! The rule that turns a reply into a value or a [`FetchError`] lives here and
//! is the same for every request the library describes.

use crate::text::{decimal, u64_text};
use vstd::prelude::*;

verus! {

/// Seconds a transport waits for one response before it gives up.
pub const TIMEOUT_SECS: u64 = 30;

/// Query parameters as a specification sees them: key and value, in the order
/// in which they are sent.
pub type Pairs = Seq<(Seq<char>, Seq<char>)>;

/// The text of a list of owned query parameters.
pub open spec fn pairs_text(pairs: Seq<(String, String)>) -> Pairs {
    Seq::new(pairs.len(), |i: int| (pairs[i].0@, pairs[i].1@))
}

/// The text of a list after one more parameter was pushed.
pub proof fn lemma_pairs_text_push(before: Seq<(String, String)>, pair: (String, String))
    ensures
        pairs_text(before.push(pair)) == pairs_text(before).push((pair.0@, pair.1@)),
{
    assert(pairs_text(before.push(pair)) =~= pairs_text(before).push((pair.0@, pair.1@)));
}

/// The text of two lists joined is the two texts joined.
pub proof fn lemma_pairs_text_add(front: Seq<(String, String)>, back: Seq<(String, String)>)
    ensures
        pairs_text(front + back) == pairs_text(front) + pairs_text(back),
{
    assert(pairs_text(front + back) =~= pairs_text(front) + pairs_text(back));
}

/// A parameter that is sent only where it was set: one pair for a value, none
/// for a missing one.
pub open spec fn optional(key: Seq<char>, value: Option<Seq<char>>) -> Pairs {
    match value {
        Some(text) => seq![(key, text)],
        None => Seq::empty(),
    }
}

/// The text of a value that may be missing.
pub open spec fn option_text(value: Option<String>) -> Option<Seq<char>> {
    match value {
        Some(text) => Some(text@),
        None => None,
    }
}

/// Pushes `key` with the value that `value` holds, or nothing where it holds
/// none.
pub fn push_optional(params: &mut Vec<(String, String)>, key: &str, value: &Option<String>)
    ensures
        pairs_text(final(params)@) == pairs_text(old(params)@) + optional(
            key@,
            option_text(*value),
        ),
{
    match value {
        Some(text) => {
            let pair = (key.to_owned(), text.clone());
            proof {
                lemma_pairs_text_push(params@, pair);
                assert(pairs_text(params@).push((pair.0@, pair.1@)) =~= pairs_text(params@)
                    + optional(key@, option_text(*value)));
            }
            params.push(pair);
        },
        None => {
            assert(pairs_text(params@) =~= pairs_text(params@) + optional(
                key@,
                option_text(*value),
            ));
        },
    }
}

/// A GET that is ready to be sent.
#[derive(Debug, Clone, PartialEq, Eq)]
pub struct Request {
    /// Where the request goes, without a query string.
    pub url: String,
    /// The query parameters, in the order in which they are sent.
    pub query: Vec<(String, String)>,
}

/// The text of a [`Request`].
pub struct RequestView {
    pub url: Seq<char>,
    pub query: Pairs,
}

impl View for Request {
    type V = RequestView;

    open spec fn view(&self) -> RequestView {
        RequestView { url: self.url@, query: pairs_text(self.query@) }
    }
}

impl RequestView {
    /// The GET of a single object: `url`, with the token as its only
    /// parameter.
    pub open spec fn single(url: Seq<char>, token: Seq<char>) -> RequestView {
        RequestView { url, query: seq![("api_key"@, token)] }
    }

    /// The GET of one page of a list: the token, the page in base ten, then
    /// `params` in their order.
    pub open spec fn page(url: Seq<char>, token: Seq<char>, page: nat, params: Pairs)
        -> RequestView {
        RequestView { url, query: seq![("api_key"@, token), ("page"@, decimal(page))] + params }
    }
}

impl Request {
    /// The GET of a single object at `url`, authenticated by `token`.
    pub fn single(url: String, token: &str) -> (request: Request)
        ensures
            request@ == RequestView::single(url@, token@),
    {
        let mut query: Vec<(String, String)> = Vec::new();
        query.push(("api_key".to_owned(), token.to_owned()));
        assert(pairs_text(query@) =~= seq![("api_key"@, token@)]);
        Request { url, query }
    }

    /// The GET of page `page` of the list at `url`, authenticated by `token`
    /// and shaped by `params`.
    pub fn page(url: &str, token: &str, page: u64, params: &Vec<(String, String)>) -> (request:
        Request)
        ensures
            request@ == RequestView::page(url@, token@, page as nat, pairs_text(params@)),
    {
        let mut query: Vec<(String, String)> = Vec::new();
        query.push(("api_key".to_owned(), token.to_owned()));
        query.push(("page".to_owned(), u64_text(page)));
        let ghost head = pairs_text(query@);
        assert(head =~= seq![("api_key"@, token@), ("page"@, decimal(page as nat))]);
        let mut i: usize = 0;
        while i < params.len()
            invariant
                i <= params.len(),
                pairs_text(query@) == head + pairs_text(params@.subrange(0, i as int)),
            decreases params.len() - i,
        {
            let pair = (params[i].0.clone(), params[i].1.clone());
            proof {
                lemma_pairs_text_push(query@, pair);
                assert(pairs_text(params@.subrange(0, i + 1)) =~= pairs_text(
                    params@.subrange(0, i as int),
                ).push((pair.0@, pair.1@)));
            }
            query.push(pair);
            i += 1;
        }
        assert(params@.subrange(0, i as int) =~= params@);
        Request { url: url.to_owned(), query }
    }
}

/// Every request that the library describes carries the token as its first
/// parameter, under the key `api_key`; a page request carries the page next,
/// and then the parameters it was given, each in its place.
pub proof fn lemma_requests_carry_the_token(
    url: Seq<char>,
    token: Seq<char>,
    page: nat,
    params: Pairs,
)
    ensures
        RequestView::single(url, token).url == url,
        RequestView::single(url, token).query.len() == 1,
        RequestView::single(url, token).query[0] == ("api_key"@, token),
        RequestView::page(url, token, page, params).url == url,
        RequestView::page(url, token, page, params).query.len() == 2 + params.len(),
        RequestView::page(url, token, page, params).query[0] == ("api_key"@, token),
        RequestView::page(url, token, page, params).query[1] == ("page"@, decimal(page)),
        forall|i: int|
            0 <= i < params.len() ==> RequestView::page(url, token, page, params).query[2 + i]
                == params[i],
{
}

/// Why a fetch produced no value.  `E` is the transport's own error, which
/// the library hands on without looking inside.
#[derive(Debug, Clone, PartialEq, Eq)]
pub enum FetchError<E> {
    /// No response arrived: the name did not resolve, the connection failed,
    /// the wait timed out.
    Transport(E),
    /// A response arrived with a status outside the success range.
    Status { code: u16 },
    /// A successful response arrived, but its body did not have the expected
    /// shape.
    Decode,
}

/// What came back for one request.
#[derive(Debug, Clone, PartialEq, Eq)]
pub enum Reply<B, E> {
    /// Nothing came back, and this is the transport's account of why.
    NoResponse(E),
    /// A response came back with `status`.  `body` is its payload decoded, or
    /// `None` where no payload of the expected shape was read.
    Response { status: u16, body: Option<B> },
}

/// The success range of HTTP status codes.
pub open spec fn is_success(status: u16) -> bool {
    200 <= status <= 299
}

/// Whether `status` lies in the success range.
#[verifier::when_used_as_spec(is_success)]
pub fn status_is_success(status: u16) -> (ok: bool)
    ensures
        ok == is_success(status),
{
    200 <= status && status <= 299
}

impl<B, E> Reply<B, E> {
    /// What a reply amounts to.  A missing response is a transport failure; a
    /// status outside the success range is a status failure whatever the body
    /// holds; a successful status with an unreadable body is a decode failure;
    /// anything else is the decoded body.
    pub open spec fn outcome(self) -> Result<B, FetchError<E>> {
        match self {
            Reply::NoResponse(error) => Err(FetchError::Transport(error)),
            Reply::Response { status, body } => if !is_success(status) {
                Err(FetchError::Status { code: status })
            } else {
                match body {
                    Some(value) => Ok(value),
                    None => Err(FetchError::Decode),
                }
            },
        }
    }

    /// Hands out the decoded body of a successful reply and turns every other
    /// reply into the error that names what went wrong.
    pub fn demand_success(self) -> (r: Result<B, FetchError<E>>)
        ensures
            r == self.outcome(),
    {
        match self {
            Reply::NoResponse(error) => Err(FetchError::Transport(error)),
            Reply::Response { status, body } => {
                if !status_is_success(status) {
                    Err(FetchError::Status { code: status })
                } else {
                    match body {
                        Some(value) => Ok(value),
                        None => Err(FetchError::Decode),
                    }
                }
            },
        }
    }
}

/// A reply succeeds exactly when a response arrived, its status is in the
/// success range and its body could be read, and then it yields that body.
/// Each failure names the first of these that did not hold: no response is
/// a transport failure that carries the transport's error, a status outside
/// the range is a status failure that carries the status, an unreadable body
/// is a decode failure.
pub proof fn lemma_outcome_cases<B, E>(reply: Reply<B, E>)
    ensures
        reply.outcome() is Ok <==> reply is Response && is_success(reply->status)
            && reply->body is Some,
        reply.outcome() is Ok ==> reply.outcome() == Ok::<B, FetchError<E>>(reply->body->0),
        reply.outcome() matches Err(FetchError::Transport(_)) <==> reply is NoResponse,
        reply is NoResponse ==> reply.outcome() == Err::<B, FetchError<E>>(
            FetchError::Transport(reply->NoResponse_0),
        ),
        reply.outcome() matches Err(FetchError::Status { .. }) <==> reply is Response
            && !is_success(reply->status),
        reply is Response && !is_success(reply->status) ==> reply.outcome() == Err::<
            B,
            FetchError<E>,
        >(FetchError::Status { code: reply->status }),
        reply.outcome() matches Err(FetchError::Decode) <==> reply is Response && is_success(
            reply->status,
        ) && reply->body is None,
{
}

} // verus!
