//! Television: search, details, credits, and the lists that hang off a show.

use crate::cursors::{Cursor, CursorPage, CursorView, Stalled};
use crate::text::{bool_text, decimal, flag, join, join_id, signed_decimal, u64_text};
use crate::transport::{
    option_text, optional, pairs_text, push_optional, Pairs, Reply, Request, RequestView,
};
use vstd::prelude::*;

verus! {

/// The television endpoints of one host, under one token.
#[derive(Debug, Clone, PartialEq, Eq)]
pub struct Tv {
    /// The host, scheme included, without a trailing slash.
    pub host: String,
    /// The token that authenticates every request.
    pub token: String,
}

/// A show search that is still being put together.
#[derive(Debug, Clone, PartialEq, Eq)]
pub struct ShowSearch<'a> {
    /// The address of the search.
    pub url: String,
    /// The handler that the search was started from; its token is used.
    pub handler: &'a Tv,
    /// The page that the search starts from.
    pub page: u64,
    /// The text to search for.
    pub query: String,
    /// The language that the shows must be in.
    pub language: Option<String>,
    /// The year in which the shows must have aired first.
    pub year: Option<String>,
    /// Whether adult shows are wanted too.
    pub adult: bool,
}

impl Tv {
    /// Where shows are searched for.
    pub open spec fn search_url(host: Seq<char>) -> Seq<char> {
        host + "/3/search/tv"@
    }

    /// Where the details of show `id` are found.
    pub open spec fn details_url(host: Seq<char>, id: int) -> Seq<char> {
        host + "/3/tv/"@ + signed_decimal(id)
    }

    /// Where the cast and crew of show `id` are found.
    pub open spec fn credits_url(host: Seq<char>, id: int) -> Seq<char> {
        host + "/3/tv/"@ + signed_decimal(id) + "/credits"@
    }

    /// Where the reviews of show `id` are listed.
    pub open spec fn reviews_url(host: Seq<char>, id: int) -> Seq<char> {
        host + "/3/tv/"@ + signed_decimal(id) + "/reviews"@
    }

    /// Where the shows recommended after show `id` are listed.
    pub open spec fn recommendations_url(host: Seq<char>, id: int) -> Seq<char> {
        host + "/3/tv/"@ + signed_decimal(id) + "/recommendations"@
    }

    /// Where the shows similar to show `id` are listed.
    pub open spec fn similar_url(host: Seq<char>, id: int) -> Seq<char> {
        host + "/3/tv/"@ + signed_decimal(id) + "/similar"@
    }

    /// Where the popular shows are listed.
    pub open spec fn popular_url(host: Seq<char>) -> Seq<char> {
        host + "/3/tv/popular"@
    }

    /// A handler for the shows of `host`, authenticated by `token`.
    pub fn new(host: &str, token: &str) -> (tv: Self)
        ensures
            tv.host@ == host@,
            tv.token@ == token@,
    {
        Tv { host: host.to_owned(), token: token.to_owned() }
    }

    /// Starts a search for `query`: no filter set, adult shows left out, from
    /// page 1.
    pub fn search(&self, query: &str) -> (search: ShowSearch<'_>)
        ensures
            search@ == ShowSearchView::fresh(Self::search_url(self.host@), self.token@, query@),
            search.handler == self,
    {
        ShowSearch {
            url: join(self.host.as_str(), "/3/search/tv"),
            handler: self,
            page: 1,
            query: query.to_owned(),
            year: None,
            language: None,
            adult: false,
        }
    }

    /// The GET for the details of show `id`.
    pub fn details(&self, id: i64) -> (request: Request)
        ensures
            request@ == RequestView::single(Self::details_url(self.host@, id as int), self.token@),
    {
        let url = join_id(self.host.as_str(), "/3/tv/", id, "");
        proof {
            reveal_strlit("");
            assert(url@ =~= Self::details_url(self.host@, id as int));
        }
        Request::single(url, self.token.as_str())
    }

    /// The GET for the cast and crew of show `id`.
    pub fn credits(&self, id: i64) -> (request: Request)
        ensures
            request@ == RequestView::single(Self::credits_url(self.host@, id as int), self.token@),
    {
        let url = join_id(self.host.as_str(), "/3/tv/", id, "/credits");
        Request::single(url, self.token.as_str())
    }

    /// A new cursor over the reviews of show `id`.
    pub fn reviews<T>(&self, id: i64) -> (cursor: Cursor<T>)
        ensures
            cursor@ == CursorView::<T>::fresh(Self::reviews_url(self.host@, id as int), self.token@),
    {
        let url = join_id(self.host.as_str(), "/3/tv/", id, "/reviews");
        Cursor::new(url, self.token.as_str())
    }

    /// A new cursor over the shows recommended after show `id`.
    pub fn recommendations<T>(&self, id: i64) -> (cursor: Cursor<T>)
        ensures
            cursor@ == CursorView::<T>::fresh(
                Self::recommendations_url(self.host@, id as int),
                self.token@,
            ),
    {
        let url = join_id(self.host.as_str(), "/3/tv/", id, "/recommendations");
        Cursor::new(url, self.token.as_str())
    }

    /// A new cursor over the shows similar to show `id`, by genre and
    /// keyword.
    pub fn similar<T>(&self, id: i64) -> (cursor: Cursor<T>)
        ensures
            cursor@ == CursorView::<T>::fresh(Self::similar_url(self.host@, id as int), self.token@),
    {
        let url = join_id(self.host.as_str(), "/3/tv/", id, "/similar");
        Cursor::new(url, self.token.as_str())
    }

    /// A new cursor over the shows that are popular now.
    pub fn popular<T>(&self) -> (cursor: Cursor<T>)
        ensures
            cursor@ == CursorView::<T>::fresh(Self::popular_url(self.host@), self.token@),
    {
        let url = join(self.host.as_str(), "/3/tv/popular");
        Cursor::new(url, self.token.as_str())
    }
}

/// A [`ShowSearch`] as a specification sees it.
pub struct ShowSearchView {
    pub url: Seq<char>,
    pub token: Seq<char>,
    pub page: nat,
    pub query: Seq<char>,
    pub language: Option<Seq<char>>,
    pub year: Option<Seq<char>>,
    pub adult: bool,
}

impl<'a> View for ShowSearch<'a> {
    type V = ShowSearchView;

    open spec fn view(&self) -> ShowSearchView {
        ShowSearchView {
            url: self.url@,
            token: self.handler.token@,
            page: self.page as nat,
            query: self.query@,
            language: option_text(self.language),
            year: option_text(self.year),
            adult: self.adult,
        }
    }
}

impl ShowSearchView {
    /// A search for `query` with no filter set, starting from page 1.
    pub open spec fn fresh(url: Seq<char>, token: Seq<char>, query: Seq<char>) -> Self {
        ShowSearchView { url, token, page: 1, query, language: None, year: None, adult: false }
    }

    /// The same search starting from `page`.
    pub open spec fn with_page(self, page: nat) -> Self {
        ShowSearchView { page, ..self }
    }

    /// The same search kept to `year`, which is held in base ten.
    pub open spec fn with_year(self, year: nat) -> Self {
        ShowSearchView { year: Some(decimal(year)), ..self }
    }

    /// The same search kept to `language`.
    pub open spec fn with_language(self, language: Seq<char>) -> Self {
        ShowSearchView { language: Some(language), ..self }
    }

    /// The same search with adult shows let in.
    pub open spec fn with_adult(self) -> Self {
        ShowSearchView { adult: true, ..self }
    }

    /// The parameters of the search: the query and the adult flag always,
    /// then the language and the year of first airing where they were set.
    /// A filter that was not set is left out; it is not sent as an empty
    /// value.
    pub open spec fn params(self) -> Pairs {
        seq![("query"@, self.query), ("include_adult"@, flag(self.adult))] + optional(
            "language"@,
            self.language,
        ) + optional("first_air_date_year"@, self.year)
    }

    /// The cursor that the search hands to its first fetch: at the search's
    /// address and page, with the search's parameters, nothing loaded.
    pub open spec fn cursor<T>(self) -> CursorView<T> {
        CursorView::<T>::fresh(self.url, self.token).with_page(self.page).with_params(
            self.params(),
        )
    }

    /// The GET of the search's first fetch, which is one step on from the
    /// search's page.
    pub open spec fn request(self) -> RequestView {
        RequestView::page(self.url, self.token, self.page + 1, self.params())
    }
}

impl<'a> ShowSearch<'a> {
    /// The parameters of the search, assembled.
    fn assemble(&self) -> (params: Vec<(String, String)>)
        ensures
            pairs_text(params@) == self@.params(),
    {
        let mut params: Vec<(String, String)> = Vec::with_capacity(2);
        params.push(("query".to_owned(), self.query.clone()));
        params.push(("include_adult".to_owned(), bool_text(self.adult)));
        assert(pairs_text(params@) =~= seq![
            ("query"@, self.query@),
            ("include_adult"@, flag(self.adult)),
        ]);
        push_optional(&mut params, "language", &self.language);
        push_optional(&mut params, "first_air_date_year", &self.year);
        params
    }

    /// The cursor that the search hands to its first fetch.
    pub fn cursor<T>(self) -> (cursor: Cursor<T>)
        ensures
            cursor@ == self@.cursor::<T>(),
    {
        let params = self.assemble();
        Cursor::new(self.url, self.handler.token.as_str()).page(self.page).params(params)
    }

    /// The GET that the search sends: the first fetch is a step from the
    /// search's page, so it asks for the page after it.
    pub fn request(&self) -> (request: Request)
        requires
            self.page < u64::MAX,
        ensures
            request@ == self@.request(),
    {
        let params = self.assemble();
        Request::page(self.url.as_str(), self.handler.token.as_str(), self.page + 1, &params)
    }

    /// Takes the reply to [`ShowSearch::request`] and hands back the cursor
    /// of the search, one page on from where the search started: loaded
    /// where the reply was a success, empty beside the error where it was
    /// not.
    pub fn exec<T, E>(self, reply: Reply<CursorPage<T>, E>) -> (r: Result<
        Cursor<T>,
        Stalled<T, E>,
    >)
        requires
            self.page < u64::MAX,
        ensures
            (match reply.outcome() {
                Ok(envelope) => r matches Ok(cursor) && cursor@ == self@.cursor::<T>().stepped().loaded(
                    envelope@,
                ),
                Err(error) => r matches Err(stalled) && stalled.error == error && stalled.cursor@
                    == self@.cursor::<T>().stepped(),
            }),
    {
        self.cursor().next_page(reply)
    }

    /// Starts the search from `page`.
    pub fn page(self, page: u64) -> (search: Self)
        ensures
            search@ == self@.with_page(page as nat),
    {
        ShowSearch { page, ..self }
    }

    /// Keeps only shows that first aired in `year`.
    pub fn year(self, year: u64) -> (search: Self)
        ensures
            search@ == self@.with_year(year as nat),
    {
        ShowSearch { year: Some(u64_text(year)), ..self }
    }

    /// Keeps only shows in `lang`.
    pub fn language(self, lang: &str) -> (search: Self)
        ensures
            search@ == self@.with_language(lang@),
    {
        ShowSearch { language: Some(lang.to_owned()), ..self }
    }

    /// Lets adult shows into the results.
    pub fn adult(self) -> (search: Self)
        ensures
            search@ == self@.with_adult(),
    {
        ShowSearch { adult: true, ..self }
    }
}

/// Filters that differ can be set in either order: the search, and with it
/// the parameters and the request, come out the same.
pub proof fn lemma_setters_commute(
    search: ShowSearchView,
    page: nat,
    year: nat,
    language: Seq<char>,
)
    ensures
        search.with_year(year).with_language(language) == search.with_language(language).with_year(
            year,
        ),
        search.with_year(year).with_language(language).params() == search.with_language(
            language,
        ).with_year(year).params(),
        search.with_year(year).with_language(language).request() == search.with_language(
            language,
        ).with_year(year).request(),
        search.with_year(year).with_page(page) == search.with_page(page).with_year(year),
        search.with_year(year).with_adult() == search.with_adult().with_year(year),
        search.with_language(language).with_page(page) == search.with_page(page).with_language(
            language,
        ),
        search.with_language(language).with_adult() == search.with_adult().with_language(language),
        search.with_page(page).with_adult() == search.with_adult().with_page(page),
{
}

/// A search with no filter set sends the query and `include_adult=false` and
/// nothing else of its own; each filter that is set adds its one pair and
/// leaves the others out.
pub proof fn lemma_unset_filters_are_left_out(
    url: Seq<char>,
    token: Seq<char>,
    query: Seq<char>,
    year: nat,
)
    ensures
        ShowSearchView::fresh(url, token, query).params() == seq![
            ("query"@, query),
            ("include_adult"@, "false"@),
        ],
        ShowSearchView::fresh(url, token, query).with_year(year).params() == seq![
            ("query"@, query),
            ("include_adult"@, "false"@),
            ("first_air_date_year"@, decimal(year)),
        ],
{
    let fresh = ShowSearchView::fresh(url, token, query);
    assert(fresh.params() =~= seq![("query"@, query), ("include_adult"@, "false"@)]);
    assert(fresh.with_year(year).params() =~= seq![
        ("query"@, query),
        ("include_adult"@, "false"@),
        ("first_air_date_year"@, decimal(year)),
    ]);
}

/// The request of a search is the next request of the search's cursor,
/// whatever the cursor is to hold.
pub proof fn lemma_request_is_cursor_step<T>(search: ShowSearchView)
    ensures
        search.request() == search.cursor::<T>().next_request(),
        search.cursor::<T>().unfetched(),
        search.cursor::<T>().page == search.page,
        search.cursor::<T>().params == search.params(),
{
    assert(Seq::<(Seq<char>, Seq<char>)>::empty() + search.params() =~= search.params());
}

} // verus!
