use tmdb_cli::client::{DEFAULT_HOST, TOKEN_VARIABLE};
use tmdb_cli::{Client, Cursor, Movies, Tv};

#[test]
fn client_binds_both_handlers_to_the_default_host() {
    let client = Client::new("secret".to_string());
    assert_eq!(client.movies, Movies::new("https://api.themoviedb.org", "secret"));
    assert_eq!(client.tv, Tv::new("https://api.themoviedb.org", "secret"));
}

#[test]
fn client_constants_name_host_and_variable() {
    assert_eq!(DEFAULT_HOST, "https://api.themoviedb.org");
    assert_eq!(TOKEN_VARIABLE, "TMDB_TOKEN");
}

#[test]
fn client_handlers_build_requests_against_the_default_host() {
    let client = Client::new("secret".to_string());
    assert_eq!(client.movies.details(157336).url, "https://api.themoviedb.org/3/movie/157336");
    assert_eq!(client.tv.details(39373).url, "https://api.themoviedb.org/3/tv/39373");
    let popular: Cursor<u8> = client.movies.popular();
    assert_eq!(popular.url, "https://api.themoviedb.org/3/movie/popular");
    assert_eq!(popular.token, "secret");
    assert_eq!(client.tv.search("x").url, "https://api.themoviedb.org/3/search/tv");
}

#[test]
fn client_takes_an_empty_token_as_it_is() {
    let client = Client::new(String::new());
    assert_eq!(client.movies.token, "");
    assert_eq!(client.tv.token, "");
}
