//! Movies: search, details, credits, and the lists that hang off a movie.

use crate::cursors::{Cursor, CursorPage, CursorView, Stalled};
use crate::text::{bool_text, decimal, flag, join, join_id, signed_decimal, u64_text};
use crate::transport::{
    option_text, optional, pairs_text, push_optional, Pairs, Reply, Request, RequestView,
};
use vstd::prelude::*;

verus! {

/// The movie endpoints of one host, under one token.
#[derive(Debug, Clone, PartialEq, Eq)]
pub struct Movies {
    /// The host, scheme included, without a trailing slash.
    pub host: String,
    /// The token that authenticates every request.
    pub token: String,
}

/// A movie search that is still being put together.
#[derive(Debug, Clone, PartialEq, Eq)]
pub struct MovieSearch<'a> {
    /// The address of the search.
    pub url: String,
    /// The handler that the search was started from; its token is used.
    pub handler: &'a Movies,
    /// The page that the search starts from.
    pub page: u64,
    /// The text to search for.
    pub query: String,
    /// The region that the movies must be from.
    pub region: Option<String>,
    /// The year in which the movies must have been released.
    pub year: Option<String>,
    /// The year in which the movies must have been released first.
    pub primary_year: Option<String>,
    /// The language that the movies must be in.
    pub language: Option<String>,
    /// Whether adult movies are wanted too.
    pub adult: bool,
}

impl Movies {
    /// Where movies are searched for.
    pub open spec fn search_url(host: Seq<char>) -> Seq<char> {
        host + "/3/search/movie"@
    }

    /// Where the details of movie `id` are found.
    pub open spec fn details_url(host: Seq<char>, id: int) -> Seq<char> {
        host + "/3/movie/"@ + signed_decimal(id)
    }

    /// Where the cast and crew of movie `id` are found.
    pub open spec fn credits_url(host: Seq<char>, id: int) -> Seq<char> {
        host + "/3/movie/"@ + signed_decimal(id) + "/credits"@
    }

    /// Where the reviews of movie `id` are listed.
    pub open spec fn reviews_url(host: Seq<char>, id: int) -> Seq<char> {
        host + "/3/movie/"@ + signed_decimal(id) + "/reviews"@
    }

    /// Where the movies recommended after movie `id` are listed.
    pub open spec fn recommendations_url(host: Seq<char>, id: int) -> Seq<char> {
        host + "/3/movie/"@ + signed_decimal(id) + "/recommendations"@
    }

    /// Where the movies similar to movie `id` are listed.
    pub open spec fn similar_url(host: Seq<char>, id: int) -> Seq<char> {
        host + "/3/movie/"@ + signed_decimal(id) + "/similar"@
    }

    /// Where the popular movies are listed.
    pub open spec fn popular_url(host: Seq<char>) -> Seq<char> {
        host + "/3/movie/popular"@
    }

    /// A handler for the movies of `host`, authenticated by `token`.
    pub fn new(host: &str, token: &str) -> (movies: Self)
        ensures
            movies.host@ == host@,
            movies.token@ == token@,
    {
        Movies { host: host.to_owned(), token: token.to_owned() }
    }

    /// Starts a search for `query`: no filter set, adult movies left out,
    /// from page 1.
    pub fn search(&self, query: &str) -> (search: MovieSearch<'_>)
        ensures
            search@ == MovieSearchView::fresh(
                Self::search_url(self.host@),
                self.token@,
                query@,
            ),
            search.handler == self,
    {
        MovieSearch {
            url: join(self.host.as_str(), "/3/search/movie"),
            handler: self,
            page: 1,
            query: query.to_owned(),
            region: None,
            year: None,
            primary_year: None,
            language: None,
            adult: false,
        }
    }

    /// The GET for the details of movie `id`.
    pub fn details(&self, id: i64) -> (request: Request)
        ensures
            request@ == RequestView::single(Self::details_url(self.host@, id as int), self.token@),
    {
        let url = join_id(self.host.as_str(), "/3/movie/", id, "");
        proof {
            reveal_strlit("");
            assert(url@ =~= Self::details_url(self.host@, id as int));
        }
        Request::single(url, self.token.as_str())
    }

    /// The GET for the cast and crew of movie `id`.
    pub fn credits(&self, id: i64) -> (request: Request)
        ensures
            request@ == RequestView::single(Self::credits_url(self.host@, id as int), self.token@),
    {
        let url = join_id(self.host.as_str(), "/3/movie/", id, "/credits");
        Request::single(url, self.token.as_str())
    }

    /// A new cursor over the reviews of movie `id`.
    pub fn reviews<T>(&self, id: i64) -> (cursor: Cursor<T>)
        ensures
            cursor@ == CursorView::<T>::fresh(Self::reviews_url(self.host@, id as int), self.token@),
    {
        let url = join_id(self.host.as_str(), "/3/movie/", id, "/reviews");
        Cursor::new(url, self.token.as_str())
    }

    /// A new cursor over the movies recommended after movie `id`.
    pub fn recommendations<T>(&self, id: i64) -> (cursor: Cursor<T>)
        ensures
            cursor@ == CursorView::<T>::fresh(
                Self::recommendations_url(self.host@, id as int),
                self.token@,
            ),
    {
        let url = join_id(self.host.as_str(), "/3/movie/", id, "/recommendations");
        Cursor::new(url, self.token.as_str())
    }

    /// A new cursor over the movies similar to movie `id`, by genre and
    /// keyword.
    pub fn similar<T>(&self, id: i64) -> (cursor: Cursor<T>)
        ensures
            cursor@ == CursorView::<T>::fresh(Self::similar_url(self.host@, id as int), self.token@),
    {
        let url = join_id(self.host.as_str(), "/3/movie/", id, "/similar");
        Cursor::new(url, self.token.as_str())
    }

    /// A new cursor over the movies that are popular now.
    pub fn popular<T>(&self) -> (cursor: Cursor<T>)
        ensures
            cursor@ == CursorView::<T>::fresh(Self::popular_url(self.host@), self.token@),
    {
        let url = join(self.host.as_str(), "/3/movie/popular");
        Cursor::new(url, self.token.as_str())
    }
}

/// A [`MovieSearch`] as a specification sees it.
pub struct MovieSearchView {
    pub url: Seq<char>,
    pub token: Seq<char>,
    pub page: nat,
    pub query: Seq<char>,
    pub region: Option<Seq<char>>,
    pub year: Option<Seq<char>>,
    pub primary_year: Option<Seq<char>>,
    pub language: Option<Seq<char>>,
    pub adult: bool,
}

impl<'a> View for MovieSearch<'a> {
    type V = MovieSearchView;

    open spec fn view(&self) -> MovieSearchView {
        MovieSearchView {
            url: self.url@,
            token: self.handler.token@,
            page: self.page as nat,
            query: self.query@,
            region: option_text(self.region),
            year: option_text(self.year),
            primary_year: option_text(self.primary_year),
            language: option_text(self.language),
            adult: self.adult,
        }
    }
}

impl MovieSearchView {
    /// A search for `query` with no filter set, starting from page 1.
    pub open spec fn fresh(url: Seq<char>, token: Seq<char>, query: Seq<char>) -> Self {
        MovieSearchView {
            url,
            token,
            page: 1,
            query,
            region: None,
            year: None,
            primary_year: None,
            language: None,
            adult: false,
        }
    }

    /// The same search starting from `page`.
    pub open spec fn with_page(self, page: nat) -> Self {
        MovieSearchView { page, ..self }
    }

    /// The same search kept to `region`.
    pub open spec fn with_region(self, region: Seq<char>) -> Self {
        MovieSearchView { region: Some(region), ..self }
    }

    /// The same search kept to `year`, which is held in base ten.
    pub open spec fn with_year(self, year: nat) -> Self {
        MovieSearchView { year: Some(decimal(year)), ..self }
    }

    /// The same search kept to `primary_year`, which is held in base ten.
    pub open spec fn with_primary_year(self, primary_year: nat) -> Self {
        MovieSearchView { primary_year: Some(decimal(primary_year)), ..self }
    }

    /// The same search kept to `language`.
    pub open spec fn with_language(self, language: Seq<char>) -> Self {
        MovieSearchView { language: Some(language), ..self }
    }

    /// The same search with adult movies let in.
    pub open spec fn with_adult(self) -> Self {
        MovieSearchView { adult: true, ..self }
    }

    /// The parameters of the search: the query and the adult flag always,
    /// then each filter that was set, in a fixed order.  A filter that was
    /// not set is left out; it is not sent as an empty value.
    pub open spec fn params(self) -> Pairs {
        seq![("query"@, self.query), ("adult"@, flag(self.adult))] + optional(
            "region"@,
            self.region,
        ) + optional("year"@, self.year) + optional("primary_year"@, self.primary_year)
            + optional("language"@, self.language)
    }

    /// The cursor that the search hands to its first fetch: at the search's
    /// address and page, with the search's parameters, nothing loaded.
    pub open spec fn cursor<T>(self) -> CursorView<T> {
        CursorView::<T>::fresh(self.url, self.token).with_page(self.page).with_params(
            self.params(),
        )
    }

    /// The GET of the search's first fetch, which is one step on from the
    /// search's page.
    pub open spec fn request(self) -> RequestView {
        RequestView::page(self.url, self.token, self.page + 1, self.params())
    }
}

impl<'a> MovieSearch<'a> {
    /// The parameters of the search, assembled.
    fn assemble(&self) -> (params: Vec<(String, String)>)
        ensures
            pairs_text(params@) == self@.params(),
    {
        let mut params: Vec<(String, String)> = Vec::with_capacity(2);
        params.push(("query".to_owned(), self.query.clone()));
        params.push(("adult".to_owned(), bool_text(self.adult)));
        assert(pairs_text(params@) =~= seq![("query"@, self.query@), ("adult"@, flag(self.adult))]);
        push_optional(&mut params, "region", &self.region);
        push_optional(&mut params, "year", &self.year);
        push_optional(&mut params, "primary_year", &self.primary_year);
        push_optional(&mut params, "language", &self.language);
        params
    }

    /// The cursor that the search hands to its first fetch.
    pub fn cursor<T>(self) -> (cursor: Cursor<T>)
        ensures
            cursor@ == self@.cursor::<T>(),
    {
        let params = self.assemble();
        Cursor::new(self.url, self.handler.token.as_str()).page(self.page).params(params)
    }

    /// The GET that the search sends: the first fetch is a step from the
    /// search's page, so it asks for the page after it.
    pub fn request(&self) -> (request: Request)
        requires
            self.page < u64::MAX,
        ensures
            request@ == self@.request(),
    {
        let params = self.assemble();
        Request::page(self.url.as_str(), self.handler.token.as_str(), self.page + 1, &params)
    }

    /// Takes the reply to [`MovieSearch::request`] and hands back the cursor
    /// of the search, one page on from where the search started: loaded
    /// where the reply was a success, empty beside the error where it was
    /// not.
    pub fn exec<T, E>(self, reply: Reply<CursorPage<T>, E>) -> (r: Result<
        Cursor<T>,
        Stalled<T, E>,
    >)
        requires
            self.page < u64::MAX,
        ensures
            (match reply.outcome() {
                Ok(envelope) => r matches Ok(cursor) && cursor@ == self@.cursor::<T>().stepped().loaded(
                    envelope@,
                ),
                Err(error) => r matches Err(stalled) && stalled.error == error && stalled.cursor@
                    == self@.cursor::<T>().stepped(),
            }),
    {
        self.cursor().next_page(reply)
    }

    /// Starts the search from `page`.
    pub fn page(self, page: u64) -> (search: Self)
        ensures
            search@ == self@.with_page(page as nat),
    {
        MovieSearch { page, ..self }
    }

    /// Keeps only movies from `region`.
    pub fn region(self, region: String) -> (search: Self)
        ensures
            search@ == self@.with_region(region@),
    {
        MovieSearch { region: Some(region), ..self }
    }

    /// Keeps only movies released in `year`.
    pub fn year(self, year: u64) -> (search: Self)
        ensures
            search@ == self@.with_year(year as nat),
    {
        MovieSearch { year: Some(u64_text(year)), ..self }
    }

    /// Keeps only movies first released in `primary_year`.
    pub fn primary_year(self, primary_year: u64) -> (search: Self)
        ensures
            search@ == self@.with_primary_year(primary_year as nat),
    {
        MovieSearch { primary_year: Some(u64_text(primary_year)), ..self }
    }

    /// Keeps only movies in `lang`.
    pub fn language(self, lang: String) -> (search: Self)
        ensures
            search@ == self@.with_language(lang@),
    {
        MovieSearch { language: Some(lang), ..self }
    }

    /// Lets adult movies into the results.
    pub fn adult(self) -> (search: Self)
        ensures
            search@ == self@.with_adult(),
    {
        MovieSearch { adult: true, ..self }
    }
}

/// Filters that differ can be set in either order: the search, and with it
/// the parameters and the request, come out the same.
pub proof fn lemma_setters_commute(
    search: MovieSearchView,
    page: nat,
    region: Seq<char>,
    year: nat,
    primary_year: nat,
    language: Seq<char>,
)
    ensures
        search.with_year(year).with_language(language) == search.with_language(language).with_year(
            year,
        ),
        search.with_year(year).with_language(language).params() == search.with_language(
            language,
        ).with_year(year).params(),
        search.with_year(year).with_language(language).request() == search.with_language(
            language,
        ).with_year(year).request(),
        search.with_year(year).with_region(region) == search.with_region(region).with_year(year),
        search.with_year(year).with_primary_year(primary_year) == search.with_primary_year(
            primary_year,
        ).with_year(year),
        search.with_year(year).with_page(page) == search.with_page(page).with_year(year),
        search.with_year(year).with_adult() == search.with_adult().with_year(year),
        search.with_language(language).with_region(region) == search.with_region(
            region,
        ).with_language(language),
        search.with_language(language).with_primary_year(primary_year) == search.with_primary_year(
            primary_year,
        ).with_language(language),
        search.with_language(language).with_page(page) == search.with_page(page).with_language(
            language,
        ),
        search.with_language(language).with_adult() == search.with_adult().with_language(language),
        search.with_region(region).with_primary_year(primary_year) == search.with_primary_year(
            primary_year,
        ).with_region(region),
        search.with_region(region).with_page(page) == search.with_page(page).with_region(region),
        search.with_region(region).with_adult() == search.with_adult().with_region(region),
        search.with_primary_year(primary_year).with_page(page) == search.with_page(
            page,
        ).with_primary_year(primary_year),
        search.with_primary_year(primary_year).with_adult() == search.with_adult().with_primary_year(
            primary_year,
        ),
        search.with_page(page).with_adult() == search.with_adult().with_page(page),
{
}

/// A search with no filter set sends the query and `adult=false` and nothing
/// else of its own; each filter that is set adds its one pair and leaves the
/// others out.
pub proof fn lemma_unset_filters_are_left_out(
    url: Seq<char>,
    token: Seq<char>,
    query: Seq<char>,
    year: nat,
)
    ensures
        MovieSearchView::fresh(url, token, query).params() == seq![
            ("query"@, query),
            ("adult"@, "false"@),
        ],
        MovieSearchView::fresh(url, token, query).with_year(year).params() == seq![
            ("query"@, query),
            ("adult"@, "false"@),
            ("year"@, decimal(year)),
        ],
        MovieSearchView::fresh(url, token, query).with_year(year).request() == (RequestView {
            url,
            query: seq![
                ("api_key"@, token),
                ("page"@, seq!['2']),
                ("query"@, query),
                ("adult"@, "false"@),
                ("year"@, decimal(year)),
            ],
        }),
{
    let fresh = MovieSearchView::fresh(url, token, query);
    assert(fresh.params() =~= seq![("query"@, query), ("adult"@, "false"@)]);
    assert(fresh.with_year(year).params() =~= seq![
        ("query"@, query),
        ("adult"@, "false"@),
        ("year"@, decimal(year)),
    ]);
    assert(decimal(2) == seq!['2']);
    assert(fresh.with_year(year).request().query =~= seq![
        ("api_key"@, token),
        ("page"@, seq!['2']),
        ("query"@, query),
        ("adult"@, "false"@),
        ("year"@, decimal(year)),
    ]);
}

/// The request of a search is the next request of the search's cursor,
/// whatever the cursor is to hold.
pub proof fn lemma_request_is_cursor_step<T>(search: MovieSearchView)
    ensures
        search.request() == search.cursor::<T>().next_request(),
        search.cursor::<T>().unfetched(),
        search.cursor::<T>().page == search.page,
        search.cursor::<T>().params == search.params(),
{
    assert(Seq::<(Seq<char>, Seq<char>)>::empty() + search.params() =~= search.params());
}

} // verus!
