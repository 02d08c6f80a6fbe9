//! A tide station: location plus harmonic constituents.

use vstd::prelude::*;
use crate::constituent::{Constituent, ConstituentModel, constituent_numerals_ok};
use crate::numeral::is_float_literal;

verus! {

/// A tide station: location plus the harmonic constituents needed to
/// predict water level there. Coordinates and the datum offset are kept
/// as the decimal numerals they were given in, so `==` compares them as
/// text: stations read from `latitude=1.0` and from `latitude=1` (or
/// `0.0` and `-0.0`) are unequal, though the numbers are equal as `f64`.
#[derive(Debug, Clone, PartialEq)]
pub struct Station {
    /// Stable identifier from the source dataset (e.g. NOAA/CHS station ID).
    pub id: String,
    pub name: String,
    pub latitude: String,
    pub longitude: String,
    /// Height (same units as each constituent's amplitude) that
    /// predictions are measured relative to, e.g. Mean Lower Low Water.
    pub datum_offset: String,
    pub constituents: Vec<Constituent>,
}

/// The text of a station's fields and its constituents, in order.
pub struct StationModel {
    pub id: Seq<char>,
    pub name: Seq<char>,
    pub latitude: Seq<char>,
    pub longitude: Seq<char>,
    pub datum_offset: Seq<char>,
    pub constituents: Seq<ConstituentModel>,
}

/// The views of a list of constituents.
pub open spec fn constituent_models(cs: Seq<Constituent>) -> Seq<ConstituentModel> {
    cs.map_values(|c: Constituent| c@)
}

/// The coordinates, the datum offset and every constituent's amplitude
/// and phase are numerals that `f64::from_str` accepts, as the numbers of
/// a station must be.
pub open spec fn station_numerals_ok(m: StationModel) -> bool {
    &&& is_float_literal(m.latitude)
    &&& is_float_literal(m.longitude)
    &&& is_float_literal(m.datum_offset)
    &&& forall|i: int|
        0 <= i < m.constituents.len() ==> constituent_numerals_ok(#[trigger] m.constituents[i])
}

impl View for Station {
    type V = StationModel;

    open spec fn view(&self) -> StationModel {
        StationModel {
            id: self.id@,
            name: self.name@,
            latitude: self.latitude@,
            longitude: self.longitude@,
            datum_offset: self.datum_offset@,
            constituents: constituent_models(self.constituents@),
        }
    }
}

impl Station {
    pub fn new(
        id: &str,
        name: &str,
        latitude: &str,
        longitude: &str,
        datum_offset: &str,
        constituents: Vec<Constituent>,
    ) -> (r: Station)
        requires
            is_float_literal(latitude@),
            is_float_literal(longitude@),
            is_float_literal(datum_offset@),
            forall|i: int|
                0 <= i < constituents.len() ==> constituent_numerals_ok(#[trigger] constituents[i]@),
        ensures
            station_numerals_ok(r@),
            r@ == (StationModel {
                id: id@,
                name: name@,
                latitude: latitude@,
                longitude: longitude@,
                datum_offset: datum_offset@,
                constituents: constituent_models(constituents@),
            }),
    {
        Station {
            id: String::from_str(id),
            name: String::from_str(name),
            latitude: String::from_str(latitude),
            longitude: String::from_str(longitude),
            datum_offset: String::from_str(datum_offset),
            constituents,
        }
    }

    /// A field-for-field copy.
    pub fn duplicate(&self) -> (r: Station)
        ensures
            r@ == self@,
    {
        let mut constituents: Vec<Constituent> = Vec::new();
        for i in 0..self.constituents.len()
            invariant
                constituents.len() == i,
                forall|k: int| 0 <= k < i ==> #[trigger] constituents[k]@ == self.constituents[k]@,
        {
            constituents.push(self.constituents[i].duplicate());
        }
        assert(constituent_models(constituents@) =~= constituent_models(self.constituents@));
        Station {
            id: self.id.clone(),
            name: self.name.clone(),
            latitude: self.latitude.clone(),
            longitude: self.longitude.clone(),
            datum_offset: self.datum_offset.clone(),
            constituents,
        }
    }
}

} // verus!
