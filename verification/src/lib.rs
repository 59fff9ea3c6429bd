//! The request-building and paging core of a client for The Movie Database.
//!
//! Nothing here touches the network.  A handler describes the GET it wants as
//! a [`Request`]; whoever owns the HTTP client sends it and reports what came
//! back as a [`Reply`]; the library then decides what that reply means.

pub mod client;
pub mod cursors;
pub mod models;
pub mod movies;
pub mod text;
pub mod transport;
pub mod tv;

pub use client::Client;
pub use cursors::{Cursor, CursorPage, Stalled};
pub use models::{
    Genre, Language, Network, ProductionCompany, ProductionCountry, Season, TvCreator,
};
pub use movies::{MovieSearch, Movies};
pub use transport::{status_is_success, FetchError, Reply, Request, TIMEOUT_SECS};
pub use tv::{ShowSearch, Tv};
