//! The client: both handlers, bound to one host and one token.

use crate::movies::Movies;
use crate::tv::Tv;
use vstd::prelude::*;

verus! {

/// The host that a client talks to.
pub const DEFAULT_HOST: &'static str = "https://api.themoviedb.org";

/// The environment variable that holds the token.
pub const TOKEN_VARIABLE: &'static str = "TMDB_TOKEN";

/// A client for The Movie Database.
#[derive(Debug, Clone, PartialEq, Eq)]
pub struct Client {
    /// The movie endpoints.
    pub movies: Movies,
    /// The television endpoints.
    pub tv: Tv,
}

impl Client {
    /// A client that authenticates with `token`.  Both handlers are bound to
    /// the default host and carry the token as it is.
    pub fn new(token: String) -> (client: Self)
        ensures
            client.movies.host@ == DEFAULT_HOST@,
            client.movies.token@ == token@,
            client.tv.host@ == DEFAULT_HOST@,
            client.tv.token@ == token@,
    {
        let movies = Movies::new(DEFAULT_HOST, token.as_str());
        let tv = Tv::new(DEFAULT_HOST, token.as_str());
        Client { movies, tv }
    }
}

} // verus!
