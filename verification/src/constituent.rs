//! A station's empirical harmonic constituent.

use vstd::prelude::*;
use crate::numeral::is_float_literal;

verus! {

/// A single tidal harmonic constituent (e.g. M2, S2, K1, O1) for one
/// station, as published by a tide authority.
///
/// Amplitude and phase are kept as the decimal numerals they were given
/// in; the arithmetic that consumes them reads them as `f64`. So `==`
/// compares them as text: amplitudes `1.0` and `1` (or `0.0` and `-0.0`)
/// make unequal constituents, though the numbers are equal as `f64`.
#[derive(Debug, Clone, PartialEq)]
pub struct Constituent {
    /// Standard constituent name, e.g. "M2", "S2", "K1", "O1".
    pub name: String,
    /// Amplitude, in the station's reference units (typically meters).
    pub amplitude: String,
    /// Phase lag, in degrees, relative to the constituent's equilibrium
    /// argument at the station's reference meridian.
    pub phase_degrees: String,
}

/// The text of a constituent's three fields.
pub struct ConstituentModel {
    pub name: Seq<char>,
    pub amplitude: Seq<char>,
    pub phase_degrees: Seq<char>,
}

/// The amplitude and phase are numerals that `f64::from_str` accepts.
pub open spec fn constituent_numerals_ok(m: ConstituentModel) -> bool {
    is_float_literal(m.amplitude) && is_float_literal(m.phase_degrees)
}

impl View for Constituent {
    type V = ConstituentModel;

    open spec fn view(&self) -> ConstituentModel {
        ConstituentModel {
            name: self.name@,
            amplitude: self.amplitude@,
            phase_degrees: self.phase_degrees@,
        }
    }
}

impl Constituent {
    pub fn new(name: &str, amplitude: &str, phase_degrees: &str) -> (r: Constituent)
        requires
            is_float_literal(amplitude@),
            is_float_literal(phase_degrees@),
        ensures
            constituent_numerals_ok(r@),
            r@ == (ConstituentModel {
                name: name@,
                amplitude: amplitude@,
                phase_degrees: phase_degrees@,
            }),
    {
        Constituent {
            name: String::from_str(name),
            amplitude: String::from_str(amplitude),
            phase_degrees: String::from_str(phase_degrees),
        }
    }

    /// A field-for-field copy.
    pub fn duplicate(&self) -> (r: Constituent)
        ensures
            r@ == self@,
    {
        Constituent {
            name: self.name.clone(),
            amplitude: self.amplitude.clone(),
            phase_degrees: self.phase_degrees.clone(),
        }
    }
}

} // verus!
