use vstd::prelude::*;

verus! {

/// A genre of movies or shows.
#[derive(Debug, Clone, PartialEq, Eq)]
pub struct Genre {
    /// The id of the genre.
    pub id: i64,
    /// The name of the genre.
    pub name: String,
}

} // verus!
