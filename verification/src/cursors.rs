//! Paging through a list endpoint, one page at a time.
//!
//! A [`Cursor`] remembers where a list lives, which page it stands on, the
//! query parameters that shape the list, and the page of results it was last
//! given.  It never sends anything itself.  [`Cursor::request`] and
//! [`Cursor::next_request`] say what to fetch; [`Cursor::exec`] and
//! [`Cursor::next_page`] take the reply and either load it or leave the
//! results as they were.

use crate::text::decimal;
use crate::transport::{
    lemma_pairs_text_add, lemma_pairs_text_push, pairs_text, FetchError, Pairs, Reply, Request,
    RequestView,
};
use vstd::prelude::*;

verus! {

/// One page of a list as the service sends it.
#[derive(Debug, Clone, PartialEq, Eq)]
pub struct CursorPage<T> {
    /// The page that the service says this is.
    pub page: u64,
    /// The items on this page, in the order of the service.
    pub results: Vec<T>,
    /// How many pages the list has.
    pub total_pages: i64,
    /// How many items the list has.
    pub total_results: i64,
}

/// A position in a paged list.
#[derive(Debug, Clone, PartialEq, Eq)]
pub struct Cursor<T> {
    /// The list's address.
    pub url: String,
    /// The token that authenticates every request.
    pub token: String,
    /// The page the cursor stands on; the first page is 1.
    pub page: u64,
    /// Extra query parameters, in the order in which they were added.
    pub params: Vec<(String, String)>,
    /// The items of the page that was loaded last.
    pub results: Vec<T>,
    /// How many pages the list has, as of the last load; 0 before the first.
    pub total_pages: i64,
    /// How many items the list has, as of the last load; 0 before the first.
    pub total_results: i64,
}

/// A fetch that failed, with the cursor as the failure left it.
#[derive(Debug, Clone, PartialEq, Eq)]
pub struct Stalled<T, E> {
    /// The cursor after the failed fetch.
    pub cursor: Cursor<T>,
    /// What went wrong.
    pub error: FetchError<E>,
}

/// A [`CursorPage`] as a specification sees it.
pub struct CursorPageView<T> {
    pub page: nat,
    pub results: Seq<T>,
    pub total_pages: int,
    pub total_results: int,
}

impl<T> View for CursorPage<T> {
    type V = CursorPageView<T>;

    open spec fn view(&self) -> CursorPageView<T> {
        CursorPageView {
            page: self.page as nat,
            results: self.results@,
            total_pages: self.total_pages as int,
            total_results: self.total_results as int,
        }
    }
}

/// A [`Cursor`] as a specification sees it.
pub struct CursorView<T> {
    pub url: Seq<char>,
    pub token: Seq<char>,
    pub page: nat,
    pub params: Pairs,
    pub results: Seq<T>,
    pub total_pages: int,
    pub total_results: int,
}

impl<T> View for Cursor<T> {
    type V = CursorView<T>;

    open spec fn view(&self) -> CursorView<T> {
        CursorView {
            url: self.url@,
            token: self.token@,
            page: self.page as nat,
            params: pairs_text(self.params@),
            results: self.results@,
            total_pages: self.total_pages as int,
            total_results: self.total_results as int,
        }
    }
}

impl<T> CursorView<T> {
    /// A cursor that has fetched nothing yet: the first page, no extra
    /// parameters, no results, no totals.
    pub open spec fn fresh(url: Seq<char>, token: Seq<char>) -> Self {
        CursorView {
            url,
            token,
            page: 1,
            params: Seq::empty(),
            results: Seq::empty(),
            total_pages: 0,
            total_results: 0,
        }
    }

    /// Pages are counted from 1.
    pub open spec fn well_formed(self) -> bool {
        self.page >= 1
    }

    /// Nothing has been loaded.
    pub open spec fn unfetched(self) -> bool {
        self.results.len() == 0 && self.total_pages == 0 && self.total_results == 0
    }

    /// The same cursor standing on `page`.
    pub open spec fn with_page(self, page: nat) -> Self {
        CursorView { page, ..self }
    }

    /// The same cursor with one more parameter at the end.
    pub open spec fn with_param(self, key: Seq<char>, value: Seq<char>) -> Self {
        CursorView { params: self.params.push((key, value)), ..self }
    }

    /// The same cursor with `more` after the parameters it already has.
    pub open spec fn with_params(self, more: Pairs) -> Self {
        CursorView { params: self.params + more, ..self }
    }

    /// The same cursor one page further.
    pub open spec fn stepped(self) -> Self {
        CursorView { page: self.page + 1, ..self }
    }

    /// The same cursor holding what `envelope` reports.  Results and totals
    /// are taken over as they are; the page number of the envelope is not
    /// consulted.
    pub open spec fn loaded(self, envelope: CursorPageView<T>) -> Self {
        CursorView {
            results: envelope.results,
            total_pages: envelope.total_pages,
            total_results: envelope.total_results,
            ..self
        }
    }

    /// The GET for the page the cursor stands on: the token, the page, then
    /// the extra parameters in the order in which they were added.
    pub open spec fn request(self) -> RequestView {
        RequestView::page(self.url, self.token, self.page, self.params)
    }

    /// The GET for the page after the one the cursor stands on.
    pub open spec fn next_request(self) -> RequestView {
        self.stepped().request()
    }
}

impl<T> Cursor<T> {
    /// A cursor on the first page of the list at `url`, with nothing loaded.
    pub fn new(url: String, token: &str) -> (cursor: Cursor<T>)
        ensures
            cursor@ == CursorView::<T>::fresh(url@, token@),
            cursor@.well_formed(),
    {
        let cursor = Cursor {
            url,
            token: token.to_owned(),
            page: 1,
            params: Vec::new(),
            results: Vec::new(),
            total_pages: 0,
            total_results: 0,
        };
        assert(cursor@.params =~= Seq::empty());
        cursor
    }

    /// Moves the cursor to `page`.  What is loaded stays as it is, and no
    /// page number is turned away: whether the list has such a page is for
    /// the service to say.
    pub fn page(self, page: u64) -> (cursor: Self)
        ensures
            cursor@ == self@.with_page(page as nat),
            page >= 1 ==> cursor@.well_formed(),
    {
        Cursor { page, ..self }
    }

    /// Adds one query parameter after those already there.  A key that is
    /// already present is kept and sent again.
    pub fn param(self, key: &str, value: &str) -> (cursor: Self)
        ensures
            cursor@ == self@.with_param(key@, value@),
    {
        let mut params = self.params;
        let ghost before = params@;
        let pair = (key.to_owned(), value.to_owned());
        proof {
            lemma_pairs_text_push(before, pair);
        }
        params.push(pair);
        Cursor { params, ..self }
    }

    /// Adds `params` after the query parameters already there, in their
    /// order.  Nothing is replaced or dropped.
    pub fn params(self, params: Vec<(String, String)>) -> (cursor: Self)
        ensures
            cursor@ == self@.with_params(pairs_text(params@)),
    {
        let mut all = self.params;
        let mut more = params;
        proof {
            lemma_pairs_text_add(all@, more@);
        }
        all.append(&mut more);
        Cursor { params: all, ..self }
    }

    /// The GET that fetches the page the cursor stands on: the token, the
    /// page number, then the extra parameters in the order in which they were
    /// added.
    pub fn request(&self) -> (request: Request)
        ensures
            request@ == self@.request(),
    {
        Request::page(self.url.as_str(), self.token.as_str(), self.page, &self.params)
    }

    /// The GET that fetches the page after the one the cursor stands on.
    pub fn next_request(&self) -> (request: Request)
        requires
            self.page < u64::MAX,
        ensures
            request@ == self@.next_request(),
    {
        Request::page(self.url.as_str(), self.token.as_str(), self.page + 1, &self.params)
    }

    /// Takes the reply to [`Cursor::request`].  A successful reply replaces
    /// results and totals with those of its envelope, as they are; address,
    /// token, page and parameters stay.  Any other reply changes nothing: the
    /// cursor comes back as it was, beside the error.
    pub fn exec<E>(self, reply: Reply<CursorPage<T>, E>) -> (r: Result<Cursor<T>, Stalled<T, E>>)
        ensures
            (match reply.outcome() {
                Ok(envelope) => r matches Ok(cursor) && cursor@ == self@.loaded(envelope@),
                Err(error) => r == Err::<Cursor<T>, Stalled<T, E>>(
                    Stalled { cursor: self, error },
                ),
            }),
    {
        match reply.demand_success() {
            Ok(envelope) => Ok(
                Cursor {
                    results: envelope.results,
                    total_pages: envelope.total_pages,
                    total_results: envelope.total_results,
                    ..self
                },
            ),
            Err(error) => Err(Stalled { cursor: self, error }),
        }
    }

    /// Takes the reply to [`Cursor::next_request`].  The cursor moves one
    /// page on before the reply is looked at, so it has moved whether the
    /// fetch succeeded or not; apart from that a failed fetch changes nothing.
    pub fn next_page<E>(self, reply: Reply<CursorPage<T>, E>) -> (r: Result<
        Cursor<T>,
        Stalled<T, E>,
    >)
        requires
            self.page < u64::MAX,
        ensures
            (match reply.outcome() {
                Ok(envelope) => r matches Ok(cursor) && cursor@ == self@.stepped().loaded(
                    envelope@,
                ),
                Err(error) => r matches Err(stalled) && stalled.error == error && stalled.cursor@
                    == self@.stepped(),
            }),
    {
        let page = self.page + 1;
        let stepped = Cursor { page, ..self };
        stepped.exec(reply)
    }
}

/// A new cursor stands on page 1, and no operation but a move to page 0
/// takes a cursor below page 1.
pub proof fn lemma_page_stays_positive<T>(
    cursor: CursorView<T>,
    url: Seq<char>,
    token: Seq<char>,
    page: nat,
    key: Seq<char>,
    value: Seq<char>,
    more: Pairs,
    envelope: CursorPageView<T>,
)
    requires
        cursor.well_formed(),
    ensures
        CursorView::<T>::fresh(url, token).well_formed(),
        CursorView::<T>::fresh(url, token).page == 1,
        cursor.with_page(page).page == page,
        page >= 1 ==> cursor.with_page(page).well_formed(),
        cursor.with_param(key, value).well_formed(),
        cursor.with_params(more).well_formed(),
        cursor.stepped().well_formed(),
        cursor.loaded(envelope).well_formed(),
{
}

/// Adding parameters only ever adds: after two additions the list is the old
/// list, then the first addition, then the second, every pair in its place;
/// and nothing but the list has changed.
pub proof fn lemma_params_additive<T>(cursor: CursorView<T>, first: Pairs, second: Pairs)
    ensures
        cursor.with_params(first).with_params(second).params == cursor.params + first + second,
        cursor.with_params(first).with_params(second) == cursor.with_params(first + second),
        cursor.with_params(first).with_params(second).with_params(Seq::empty())
            == cursor.with_params(first).with_params(second),
        forall|i: int|
            0 <= i < cursor.params.len() ==> cursor.with_params(first).params[i]
                == cursor.params[i],
        forall|i: int|
            0 <= i < first.len() ==> cursor.with_params(first).params[cursor.params.len() + i]
                == first[i],
        cursor.with_params(first).params.len() == cursor.params.len() + first.len(),
        cursor.with_params(first) == (CursorView { params: cursor.params + first, ..cursor }),
{
    assert(cursor.params + first + second =~= cursor.params + (first + second));
    assert(cursor.params + first + second + Seq::<(Seq<char>, Seq<char>)>::empty()
        =~= cursor.params + first + second);
}

/// Adding one parameter is adding a list of one.
pub proof fn lemma_param_is_params_of_one<T>(
    cursor: CursorView<T>,
    key: Seq<char>,
    value: Seq<char>,
)
    ensures
        cursor.with_param(key, value) == cursor.with_params(seq![(key, value)]),
        cursor.with_param(key, value).params.len() == cursor.params.len() + 1,
        cursor.with_param(key, value).params.last() == (key, value),
        forall|i: int|
            0 <= i < cursor.params.len() ==> cursor.with_param(key, value).params[i]
                == cursor.params[i],
{
    assert(cursor.params.push((key, value)) =~= cursor.params + seq![(key, value)]);
}

/// A load takes results and totals from the envelope exactly as they are,
/// in their order, and touches nothing else.
pub proof fn lemma_load_is_verbatim<T>(cursor: CursorView<T>, envelope: CursorPageView<T>)
    ensures
        cursor.loaded(envelope).results == envelope.results,
        cursor.loaded(envelope).total_pages == envelope.total_pages,
        cursor.loaded(envelope).total_results == envelope.total_results,
        cursor.loaded(envelope).url == cursor.url,
        cursor.loaded(envelope).token == cursor.token,
        cursor.loaded(envelope).page == cursor.page,
        cursor.loaded(envelope).params == cursor.params,
{
}

/// Every request of a cursor goes to the cursor's address and carries the
/// token first, the page second and the extra parameters after them.
pub proof fn lemma_request_shape<T>(cursor: CursorView<T>)
    ensures
        cursor.request().url == cursor.url,
        cursor.request().query.len() == 2 + cursor.params.len(),
        cursor.request().query[0] == ("api_key"@, cursor.token),
        cursor.request().query[1] == ("page"@, decimal(cursor.page)),
        forall|i: int|
            0 <= i < cursor.params.len() ==> cursor.request().query[2 + i] == cursor.params[i],
        cursor.next_request().url == cursor.url,
        cursor.next_request().query[0] == ("api_key"@, cursor.token),
        cursor.next_request().query[1] == ("page"@, decimal(cursor.page + 1)),
        forall|i: int|
            0 <= i < cursor.params.len() ==> cursor.next_request().query[2 + i]
                == cursor.params[i],
{
}

/// The first step from a new cursor asks for page 2 and lands on page 2: the
/// step does not wait for page 1 to have been fetched.
pub proof fn lemma_first_step_asks_for_page_two<T>(url: Seq<char>, token: Seq<char>)
    ensures
        CursorView::<T>::fresh(url, token).unfetched(),
        CursorView::<T>::fresh(url, token).next_request() == (RequestView {
            url,
            query: seq![("api_key"@, token), ("page"@, seq!['2'])],
        }),
        CursorView::<T>::fresh(url, token).stepped().page == 2,
        CursorView::<T>::fresh(url, token).request() == (RequestView {
            url,
            query: seq![("api_key"@, token), ("page"@, seq!['1'])],
        }),
{
    let fresh = CursorView::<T>::fresh(url, token);
    assert(decimal(2) == seq!['2']);
    assert(decimal(1) == seq!['1']);
    assert(fresh.next_request().query =~= seq![("api_key"@, token), ("page"@, seq!['2'])]);
    assert(fresh.request().query =~= seq![("api_key"@, token), ("page"@, seq!['1'])]);
}

} // verus!
