use vstd::prelude::*;

verus! {

/// A company that produced a movie or a show.
#[derive(Debug, Clone, PartialEq, Eq)]
pub struct ProductionCompany {
    /// The name of the company.
    pub name: String,
    /// The id of the company.
    pub id: i64,
    /// The path of the company's logo.
    pub logo_path: Option<String>,
    /// The country that the company is from.
    pub origin_country: String,
}

/// A country in which a movie or a show was produced.
#[derive(Debug, Clone, PartialEq, Eq)]
pub struct ProductionCountry {
    /// The ISO 3166-1 code of the country.
    pub iso_3166_1: String,
    /// The name of the country.
    pub name: String,
}

} // verus!
