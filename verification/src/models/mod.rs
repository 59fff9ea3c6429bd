//! The records of the service that hold no fractional numbers.

pub mod genre;
pub mod language;
pub mod production;
pub mod tv;

pub use genre::Genre;
pub use language::Language;
pub use production::{ProductionCompany, ProductionCountry};
pub use tv::{Network, Season, TvCreator};
