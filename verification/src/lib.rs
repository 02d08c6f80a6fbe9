//! Offline tide-prediction engine: station data parsing, station lookup
//! and high/low tide search, with the floating-point harmonic arithmetic
//! left to the caller.

pub mod constituent;
pub mod data;
pub mod extremum;
pub mod locator;
pub mod numeral;
pub mod predictor;
pub mod scan;
pub mod species;
pub mod station;
pub mod text;

pub use constituent::Constituent;
pub use data::{parse_station, ParseStationError};
pub use extremum::{DerivativeSign, ExtremumEvent, TideExtremumKind};
pub use locator::StationLocator;
pub use predictor::HarmonicPredictor;
pub use scan::ExtremaScan;
pub use station::Station;
