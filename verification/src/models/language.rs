use vstd::prelude::*;

verus! {

/// A language spoken in a movie or a show.
#[derive(Debug, Clone, PartialEq, Eq)]
pub struct Language {
    /// The ISO 639-1 code of the language.
    pub iso_639_1: String,
    /// The name of the language.
    pub name: String,
}

} // verus!
