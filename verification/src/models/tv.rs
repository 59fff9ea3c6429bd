use vstd::prelude::*;

verus! {

/// `chrono::NaiveDate`, a calendar date without a time zone.  Nothing in this
/// library looks inside one: dates are carried from the decoder to the
/// caller, and nothing is claimed of what they hold.
#[verifier::external_type_specification]
#[verifier::external_body]
pub struct ExNaiveDate(chrono::NaiveDate);

/// `<chrono::NaiveDate as Clone>::clone`.  `chrono` derives `Clone` for
/// `NaiveDate`, which is `Copy`, so a clone equals the date it was taken from.
/// This is taken on trust; the derived `Clone` of [`Season`] rests on it.
pub assume_specification[ <chrono::NaiveDate as Clone>::clone ](date: &chrono::NaiveDate) -> (copy:
    chrono::NaiveDate)
    ensures
        copy == *date,
;

/// Someone who created a show.
#[derive(Debug, Clone, PartialEq, Eq)]
pub struct TvCreator {
    /// The id of the person.
    pub id: i64,
    /// The id of this credit, which tells apart the credits of one person.
    pub credit_id: String,
    /// The name of the person.
    pub name: String,
    /// The gender of the person as a number: 0 male, 1 female, 2 not given.
    pub gender: Option<i64>,
    /// The path of the person's profile picture.
    pub profile_path: Option<String>,
}

/// A television network.
#[derive(Debug, Clone, PartialEq, Eq)]
pub struct Network {
    /// The name of the network.
    pub name: String,
    /// The id of the network.
    pub id: i64,
    /// The path of the network's logo.
    pub logo_path: Option<String>,
    /// The country that the network is from.
    pub origin_country: String,
}

/// A season of a show.
#[derive(Debug, Clone, PartialEq, Eq)]
pub struct Season {
    /// The day on which the season first aired.
    pub air_date: chrono::NaiveDate,
    /// How many episodes the season has.
    pub episode_count: u64,
    /// The id of the season.
    pub id: i64,
    /// The name of the season.
    pub name: String,
    /// What the season is about.
    pub overview: String,
    /// The path of the season's poster.
    pub poster_path: Option<String>,
    /// The number of the season within its show.
    pub season_number: i64,
}

} // verus!
