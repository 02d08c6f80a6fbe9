//! The harmonic predictor's station-side logic: which of a station's
//! constituents take part in a prediction, and the search for high and
//! low tides (`crate::scan`).
//!
//! The harmonic method predicts water level as a sum of cosine terms, one
//! per constituent, each adjusted by a per-date equilibrium argument and
//! nodal factor (NOAA Special Publication No. 98). That floating-point sum
//! is evaluated by the caller.

use vstd::prelude::*;
use crate::scan::ExtremaScan;
use crate::species::{find, find_spec, Species};
use crate::station::{Station, station_numerals_ok};

verus! {

/// Predicts water level at a station using the harmonic method.
pub struct HarmonicPredictor {
    pub station: Station,
}

impl HarmonicPredictor {
    pub fn new(station: Station) -> (r: HarmonicPredictor)
        requires
            station_numerals_ok(station@),
        ensures
            r.station == station,
    {
        HarmonicPredictor { station }
    }

    /// The species of each of the station's constituents, in order;
    /// `None` where the name is no known species (ASCII case ignored).
    /// Constituents without a species take no part in a prediction.
    pub fn constituent_species(&self) -> (r: Vec<Option<Species>>)
        ensures
            r.len() == self.station.constituents.len(),
            forall|i: int|
                0 <= i < r.len() ==> #[trigger] r[i] == find_spec(
                    self.station.constituents[i].name@,
                ),
    {
        let mut r: Vec<Option<Species>> = Vec::new();
        for i in 0..self.station.constituents.len()
            invariant
                r.len() == i,
                forall|k: int|
                    0 <= k < i ==> #[trigger] r[k] == find_spec(
                        self.station.constituents[k].name@,
                    ),
        {
            r.push(find(self.station.constituents[i].name.as_str()));
        }
        r
    }

    /// A search for the high and low tides between `start_unix_seconds`
    /// and `end_unix_seconds`, sampling the rate of change every
    /// `step_seconds` (a quarter period of the fastest constituent).
    pub fn extrema_scan(
        &self,
        start_unix_seconds: i64,
        end_unix_seconds: i64,
        step_seconds: i64,
    ) -> (r: ExtremaScan)
        requires
            step_seconds >= 1,
            start_unix_seconds - step_seconds >= i64::MIN,
            end_unix_seconds + 2 * step_seconds <= i64::MAX,
        ensures
            r@.wf(),
            r@.start == start_unix_seconds,
            r@.end == end_unix_seconds,
            r@.step == step_seconds,
            r@.found.len() == 0,
            r@.phase == (if end_unix_seconds <= start_unix_seconds {
                crate::scan::ScanPhase::Done
            } else {
                crate::scan::ScanPhase::Priming
            }),
    {
        ExtremaScan::new(start_unix_seconds, end_unix_seconds, step_seconds)
    }
}

} // verus!
