//! Finds the station nearest to a position, given each station's distance
//! from it.
//!
//! Distances are `f64` values handed over by their bit patterns
//! (`f64::to_bits`); they are compared in the IEEE 754 total order, as
//! `f64::total_cmp` compares them.

use vstd::prelude::*;
use crate::station::{Station, station_numerals_ok};

verus! {

/// The bit that marks a negative `f64`.
pub const SIGN_BIT: u64 = 0x8000_0000_0000_0000u64;

/// IEEE 754 `totalOrder` on `f64` bit patterns: every negative pattern
/// before every positive one; positive patterns ascending by magnitude,
/// negative ones descending by magnitude.
pub open spec fn total_le(a: u64, b: u64) -> bool {
    if a < SIGN_BIT && b < SIGN_BIT {
        a <= b
    } else if a >= SIGN_BIT && b >= SIGN_BIT {
        b <= a
    } else {
        a >= SIGN_BIT
    }
}

/// The signed integer whose order is the total order of `f64` bit
/// patterns.
pub open spec fn order_key(bits: u64) -> int {
    if bits < SIGN_BIT {
        bits as int
    } else {
        -((bits - SIGN_BIT) as int) - 1
    }
}

/// The key of an `f64` bit pattern under the IEEE 754 total order: the
/// integer `f64::total_cmp` compares (magnitude bits flipped on negative
/// values).
pub fn total_order_key(bits: u64) -> (k: i64)
    ensures
        k == order_key(bits),
{
    if bits < SIGN_BIT {
        bits as i64
    } else {
        -((bits - SIGN_BIT) as i64) - 1
    }
}

/// Comparing keys is comparing in the total order.
pub proof fn lemma_order_key_orders(a: u64, b: u64)
    ensures
        order_key(a) <= order_key(b) <==> total_le(a, b),
{
}

/// The order on bit patterns is a total order: any two compare, it is
/// transitive, and only equal patterns compare both ways.
pub proof fn lemma_total_le_is_total_order(a: u64, b: u64, c: u64)
    ensures
        total_le(a, b) || total_le(b, a),
        total_le(a, b) && total_le(b, c) ==> total_le(a, c),
        total_le(a, b) && total_le(b, a) ==> a == b,
        total_le(a, a),
{
}

/// `i` is the first position whose distance is least in the total order.
pub open spec fn is_first_least(d: Seq<u64>, i: int) -> bool {
    &&& 0 <= i < d.len()
    &&& forall|j: int| 0 <= j < d.len() ==> total_le(d[i], #[trigger] d[j])
    &&& forall|j: int| 0 <= j < i ==> !total_le(#[trigger] d[j], d[i])
}

/// At most one position is the first least one: the nearest station is
/// well defined.
pub proof fn lemma_first_least_unique(d: Seq<u64>, i: int, j: int)
    requires
        is_first_least(d, i),
        is_first_least(d, j),
    ensures
        i == j,
{
    if i < j {
        assert(total_le(d[i], d[j]));
    } else if j < i {
        assert(total_le(d[j], d[i]));
    }
}

/// Finds the nearest station, from whatever station data is loaded.
pub struct StationLocator {
    pub stations: Vec<Station>,
}

impl StationLocator {
    pub fn new(stations: Vec<Station>) -> (r: StationLocator)
        requires
            forall|i: int| 0 <= i < stations.len() ==> station_numerals_ok(#[trigger] stations[i]@),
        ensures
            r.stations@ == stations@,
    {
        StationLocator { stations }
    }

    /// The position of the nearest station, where `distance_bits[i]` is
    /// the bit pattern of station `i`'s distance: the first station whose
    /// distance is least, or `None` when there are no stations.
    pub fn nearest_index(&self, distance_bits: &Vec<u64>) -> (r: Option<usize>)
        requires
            distance_bits.len() == self.stations.len(),
        ensures
            r is None <==> self.stations.len() == 0,
            r matches Some(i) ==> is_first_least(distance_bits@, i as int),
    {
        let n = distance_bits.len();
        if n == 0 {
            return None;
        }
        let mut best: usize = 0;
        let mut best_key = total_order_key(distance_bits[0]);
        let mut i: usize = 1;
        while i < n
            invariant
                n == distance_bits.len(),
                0 <= best < i <= n,
                best_key == order_key(distance_bits@[best as int]),
                forall|j: int| 0 <= j < i ==> total_le(distance_bits@[best as int], #[trigger] distance_bits@[j]),
                forall|j: int| 0 <= j < best ==> !total_le(#[trigger] distance_bits@[j], distance_bits@[best as int]),
            decreases n - i,
        {
            let key = total_order_key(distance_bits[i]);
            proof {
                lemma_order_key_orders(distance_bits@[i as int], distance_bits@[best as int]);
                lemma_order_key_orders(distance_bits@[best as int], distance_bits@[i as int]);
            }
            if key < best_key {
                let ghost old_best = best as int;
                proof {
                    assert forall|j: int| 0 <= j < i implies total_le(distance_bits@[i as int], #[trigger] distance_bits@[j]) by {
                        lemma_order_key_orders(distance_bits@[i as int], distance_bits@[j]);
                        lemma_order_key_orders(distance_bits@[old_best], distance_bits@[j]);
                    }
                    assert forall|j: int| 0 <= j < i implies !total_le(#[trigger] distance_bits@[j], distance_bits@[i as int]) by {
                        lemma_order_key_orders(distance_bits@[j], distance_bits@[i as int]);
                        lemma_order_key_orders(distance_bits@[old_best], distance_bits@[j]);
                    }
                }
                best = i;
                best_key = key;
            }
            i = i + 1;
        }
        Some(best)
    }

    /// The nearest station, where `distance_bits[i]` is the bit pattern of
    /// station `i`'s distance (see `nearest_index`), as an owned copy; or
    /// `None` when there are no stations.
    pub fn nearest(&self, distance_bits: &Vec<u64>) -> (r: Option<Station>)
        requires
            distance_bits.len() == self.stations.len(),
        ensures
            r is None <==> self.stations.len() == 0,
            r matches Some(s) ==> exists|i: int|
                is_first_least(distance_bits@, i) && s@ == #[trigger] self.stations@[i]@,
    {
        match self.nearest_index(distance_bits) {
            Some(i) => {
                let s = self.stations[i].duplicate();
                assert(is_first_least(distance_bits@, i as int) && s@ == self.stations@[i as int]@);
                Some(s)
            },
            None => None,
        }
    }
}

} // verus!
