//! High and low tide events.

use vstd::prelude::*;

verus! {

/// Whether a tide extremum is a high or low tide.
#[derive(Debug, Clone, Copy, PartialEq, Eq, Structural)]
pub enum TideExtremumKind {
    High,
    Low,
}

/// When a high or low tide happens: a local extremum of the predicted
/// water level curve, at a Unix timestamp in seconds.
#[derive(Debug, Clone, Copy, PartialEq, Eq, Structural)]
pub struct ExtremumEvent {
    pub kind: TideExtremumKind,
    pub unix_time_seconds: i64,
}

/// The sign of the water level's rate of change at one instant.
#[derive(Debug, Clone, Copy, PartialEq, Eq, Structural)]
pub enum DerivativeSign {
    Negative,
    Zero,
    Positive,
}

} // verus!
