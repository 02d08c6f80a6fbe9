//! The known tidal constituent species: the fixed astronomical
//! definition of each named constituent (M2, S2, K1, O1, ...), namely its
//! equilibrium-argument coefficients against the spanning set
//! `[T+h-s, s, h, p, N, pp, 90]` (Doodson/XDO convention) and which
//! nodal-correction formulas apply to it. The coefficients are small
//! integers; the harmonic arithmetic reads them as `f64`.
//!
//! This is distinct from `crate::Constituent`, which holds a station's
//! empirical amplitude and phase for a named species.

use vstd::prelude::*;
use crate::text::{ascii_lower, chars_of, eq_ignore_case, range_eq_ignore_case};

verus! {

/// The nodal phase correction `u` that applies to a species.
#[derive(Debug, Clone, Copy, PartialEq, Eq)]
pub enum NodalPhase {
    Zero,
    Mf,
    O1,
    J1,
    OO1,
    M2,
    K1,
    L2,
    K2,
    M1,
    M3,
}

/// The nodal amplitude factor `f` that applies to a species.
#[derive(Debug, Clone, Copy, PartialEq, Eq)]
pub enum NodalFactor {
    Unity,
    Mm,
    Mf,
    O1,
    J1,
    OO1,
    M2,
    K1,
    L2,
    K2,
    M1,
    M3,
}

#[derive(Debug, Clone, Copy)]
pub struct Species {
    pub name: &'static str,
    /// Coefficients against `[T+h-s, s, h, p, N, pp, 90]`.
    pub coefficients: [i32; 7],
    pub u: NodalPhase,
    pub f: NodalFactor,
}

/// How many species the table holds.
pub const SPECIES_COUNT: usize = 24;

/// The species table, in order.
pub open spec fn species_table(i: usize) -> Species {
    match i {
        0 => Species { name: "Z0", coefficients: [0, 0, 0, 0, 0, 0, 0], u: NodalPhase::Zero, f: NodalFactor::Unity },
        1 => Species { name: "Sa", coefficients: [0, 0, 1, 0, 0, 0, 0], u: NodalPhase::Zero, f: NodalFactor::Unity },
        2 => Species { name: "Ssa", coefficients: [0, 0, 2, 0, 0, 0, 0], u: NodalPhase::Zero, f: NodalFactor::Unity },
        3 => Species { name: "Mm", coefficients: [0, 1, 0, -1i32, 0, 0, 0], u: NodalPhase::Zero, f: NodalFactor::Mm },
        4 => Species { name: "Mf", coefficients: [0, 2, 0, 0, 0, 0, 0], u: NodalPhase::Mf, f: NodalFactor::Mf },
        5 => Species { name: "Q1", coefficients: [1, -2i32, 0, 1, 0, 0, 1], u: NodalPhase::O1, f: NodalFactor::O1 },
        6 => Species { name: "O1", coefficients: [1, -1i32, 0, 0, 0, 0, 1], u: NodalPhase::O1, f: NodalFactor::O1 },
        7 => Species { name: "K1", coefficients: [1, 1, 0, 0, 0, 0, -1i32], u: NodalPhase::K1, f: NodalFactor::K1 },
        8 => Species { name: "J1", coefficients: [1, 2, 0, -1i32, 0, 0, -1i32], u: NodalPhase::J1, f: NodalFactor::J1 },
        9 => Species { name: "M1", coefficients: [1, 0, 0, 0, 0, 0, 1], u: NodalPhase::M1, f: NodalFactor::M1 },
        10 => Species { name: "P1", coefficients: [1, 1, -2i32, 0, 0, 0, 1], u: NodalPhase::Zero, f: NodalFactor::Unity },
        11 => Species { name: "S1", coefficients: [1, 1, -1i32, 0, 0, 0, 0], u: NodalPhase::Zero, f: NodalFactor::Unity },
        12 => Species { name: "OO1", coefficients: [1, 3, 0, 0, 0, 0, -1i32], u: NodalPhase::OO1, f: NodalFactor::OO1 },
        13 => Species { name: "2N2", coefficients: [2, -2i32, 0, 2, 0, 0, 0], u: NodalPhase::M2, f: NodalFactor::M2 },
        14 => Species { name: "N2", coefficients: [2, -1i32, 0, 1, 0, 0, 0], u: NodalPhase::M2, f: NodalFactor::M2 },
        15 => Species { name: "nu2", coefficients: [2, -1i32, 2, -1i32, 0, 0, 0], u: NodalPhase::M2, f: NodalFactor::M2 },
        16 => Species { name: "M2", coefficients: [2, 0, 0, 0, 0, 0, 0], u: NodalPhase::M2, f: NodalFactor::M2 },
        17 => Species { name: "lambda2", coefficients: [2, 1, -2i32, 1, 0, 0, 2], u: NodalPhase::M2, f: NodalFactor::M2 },
        18 => Species { name: "L2", coefficients: [2, 1, 0, -1i32, 0, 0, 2], u: NodalPhase::L2, f: NodalFactor::L2 },
        19 => Species { name: "T2", coefficients: [2, 2, -3i32, 0, 0, 1, 0], u: NodalPhase::Zero, f: NodalFactor::Unity },
        20 => Species { name: "S2", coefficients: [2, 2, -2i32, 0, 0, 0, 0], u: NodalPhase::Zero, f: NodalFactor::Unity },
        21 => Species { name: "R2", coefficients: [2, 2, -1i32, 0, 0, -1i32, 2], u: NodalPhase::Zero, f: NodalFactor::Unity },
        22 => Species { name: "K2", coefficients: [2, 2, 0, 0, 0, 0, 0], u: NodalPhase::K2, f: NodalFactor::K2 },
        23 => Species { name: "M3", coefficients: [3, 0, 0, 0, 0, 0, 0], u: NodalPhase::M3, f: NodalFactor::M3 },
        _ => Species { name: "", coefficients: [0, 0, 0, 0, 0, 0, 0], u: NodalPhase::Zero, f: NodalFactor::Unity },
    }
}

/// Entry `i` of the species table.
pub fn species(i: usize) -> (r: Species)
    requires
        i < SPECIES_COUNT,
    ensures
        r == species_table(i),
{
    match i {
        0 => Species { name: "Z0", coefficients: [0, 0, 0, 0, 0, 0, 0], u: NodalPhase::Zero, f: NodalFactor::Unity },
        1 => Species { name: "Sa", coefficients: [0, 0, 1, 0, 0, 0, 0], u: NodalPhase::Zero, f: NodalFactor::Unity },
        2 => Species { name: "Ssa", coefficients: [0, 0, 2, 0, 0, 0, 0], u: NodalPhase::Zero, f: NodalFactor::Unity },
        3 => Species { name: "Mm", coefficients: [0, 1, 0, -1i32, 0, 0, 0], u: NodalPhase::Zero, f: NodalFactor::Mm },
        4 => Species { name: "Mf", coefficients: [0, 2, 0, 0, 0, 0, 0], u: NodalPhase::Mf, f: NodalFactor::Mf },
        5 => Species { name: "Q1", coefficients: [1, -2i32, 0, 1, 0, 0, 1], u: NodalPhase::O1, f: NodalFactor::O1 },
        6 => Species { name: "O1", coefficients: [1, -1i32, 0, 0, 0, 0, 1], u: NodalPhase::O1, f: NodalFactor::O1 },
        7 => Species { name: "K1", coefficients: [1, 1, 0, 0, 0, 0, -1i32], u: NodalPhase::K1, f: NodalFactor::K1 },
        8 => Species { name: "J1", coefficients: [1, 2, 0, -1i32, 0, 0, -1i32], u: NodalPhase::J1, f: NodalFactor::J1 },
        9 => Species { name: "M1", coefficients: [1, 0, 0, 0, 0, 0, 1], u: NodalPhase::M1, f: NodalFactor::M1 },
        10 => Species { name: "P1", coefficients: [1, 1, -2i32, 0, 0, 0, 1], u: NodalPhase::Zero, f: NodalFactor::Unity },
        11 => Species { name: "S1", coefficients: [1, 1, -1i32, 0, 0, 0, 0], u: NodalPhase::Zero, f: NodalFactor::Unity },
        12 => Species { name: "OO1", coefficients: [1, 3, 0, 0, 0, 0, -1i32], u: NodalPhase::OO1, f: NodalFactor::OO1 },
        13 => Species { name: "2N2", coefficients: [2, -2i32, 0, 2, 0, 0, 0], u: NodalPhase::M2, f: NodalFactor::M2 },
        14 => Species { name: "N2", coefficients: [2, -1i32, 0, 1, 0, 0, 0], u: NodalPhase::M2, f: NodalFactor::M2 },
        15 => Species { name: "nu2", coefficients: [2, -1i32, 2, -1i32, 0, 0, 0], u: NodalPhase::M2, f: NodalFactor::M2 },
        16 => Species { name: "M2", coefficients: [2, 0, 0, 0, 0, 0, 0], u: NodalPhase::M2, f: NodalFactor::M2 },
        17 => Species { name: "lambda2", coefficients: [2, 1, -2i32, 1, 0, 0, 2], u: NodalPhase::M2, f: NodalFactor::M2 },
        18 => Species { name: "L2", coefficients: [2, 1, 0, -1i32, 0, 0, 2], u: NodalPhase::L2, f: NodalFactor::L2 },
        19 => Species { name: "T2", coefficients: [2, 2, -3i32, 0, 0, 1, 0], u: NodalPhase::Zero, f: NodalFactor::Unity },
        20 => Species { name: "S2", coefficients: [2, 2, -2i32, 0, 0, 0, 0], u: NodalPhase::Zero, f: NodalFactor::Unity },
        21 => Species { name: "R2", coefficients: [2, 2, -1i32, 0, 0, -1i32, 2], u: NodalPhase::Zero, f: NodalFactor::Unity },
        22 => Species { name: "K2", coefficients: [2, 2, 0, 0, 0, 0, 0], u: NodalPhase::K2, f: NodalFactor::K2 },
        23 => Species { name: "M3", coefficients: [3, 0, 0, 0, 0, 0, 0], u: NodalPhase::M3, f: NodalFactor::M3 },
        _ => Species { name: "", coefficients: [0, 0, 0, 0, 0, 0, 0], u: NodalPhase::Zero, f: NodalFactor::Unity },
    }
}

/// The first species, from table entry `i` on, whose name equals `name`
/// up to ASCII case.
pub open spec fn find_from(name: Seq<char>, i: int) -> Option<Species>
    decreases SPECIES_COUNT - i,
{
    if i < 0 || i >= SPECIES_COUNT {
        None
    } else if eq_ignore_case(species_table(i as usize).name@, name) {
        Some(species_table(i as usize))
    } else {
        find_from(name, i + 1)
    }
}

/// The species named `name` (ASCII case ignored), if there is one.
pub open spec fn find_spec(name: Seq<char>) -> Option<Species> {
    find_from(name, 0)
}

/// The species named `name`, ignoring ASCII case, or `None` where no
/// species has that name.
pub fn find(name: &str) -> (r: Option<Species>)
    ensures
        r == find_spec(name@),
{
    let v = chars_of(name);
    let mut i: usize = SPECIES_COUNT;
    let mut r: Option<Species> = None;
    while i > 0
        invariant
            0 <= i <= SPECIES_COUNT,
            v@ == name@,
            r == find_from(name@, i as int),
        decreases i,
    {
        i = i - 1;
        let sp = species(i);
        let w = chars_of(sp.name);
        if range_eq_ignore_case(&w, 0, w.len(), &v) {
            assert(w@.subrange(0, w.len() as int) =~= w@);
            r = Some(sp);
        } else {
            assert(w@.subrange(0, w.len() as int) =~= w@);
        }
    }
    r
}

proof fn lemma_species_z0()
    ensures
        find_spec("Z0"@) == Some(
            Species { name: "Z0", coefficients: [0, 0, 0, 0, 0, 0, 0], u: NodalPhase::Zero, f: NodalFactor::Unity },
        ),
{
    reveal_strlit("Z0");
    reveal_strlit("Sa");
    reveal_strlit("Ssa");
    reveal_strlit("Mm");
    reveal_strlit("Mf");
    reveal_strlit("Q1");
    reveal_strlit("O1");
    reveal_strlit("K1");
    reveal_strlit("J1");
    reveal_strlit("M1");
    reveal_strlit("P1");
    reveal_strlit("S1");
    reveal_strlit("OO1");
    reveal_strlit("2N2");
    reveal_strlit("N2");
    reveal_strlit("nu2");
    reveal_strlit("M2");
    reveal_strlit("lambda2");
    reveal_strlit("L2");
    reveal_strlit("T2");
    reveal_strlit("S2");
    reveal_strlit("R2");
    reveal_strlit("K2");
    reveal_strlit("M3");
    assert(eq_ignore_case(species_table(0).name@, "Z0"@));
    assert(find_from("Z0"@, 0) == Some(species_table(0)));
}

proof fn lemma_species_sa()
    ensures
        find_spec("Sa"@) == Some(
            Species { name: "Sa", coefficients: [0, 0, 1, 0, 0, 0, 0], u: NodalPhase::Zero, f: NodalFactor::Unity },
        ),
{
    reveal_strlit("Z0");
    reveal_strlit("Sa");
    reveal_strlit("Ssa");
    reveal_strlit("Mm");
    reveal_strlit("Mf");
    reveal_strlit("Q1");
    reveal_strlit("O1");
    reveal_strlit("K1");
    reveal_strlit("J1");
    reveal_strlit("M1");
    reveal_strlit("P1");
    reveal_strlit("S1");
    reveal_strlit("OO1");
    reveal_strlit("2N2");
    reveal_strlit("N2");
    reveal_strlit("nu2");
    reveal_strlit("M2");
    reveal_strlit("lambda2");
    reveal_strlit("L2");
    reveal_strlit("T2");
    reveal_strlit("S2");
    reveal_strlit("R2");
    reveal_strlit("K2");
    reveal_strlit("M3");
    assert(ascii_lower(species_table(0).name@[0]) != ascii_lower("Sa"@[0]));
    assert(find_from("Sa"@, 0) == find_from("Sa"@, 1));
    assert(eq_ignore_case(species_table(1).name@, "Sa"@));
    assert(find_from("Sa"@, 1) == Some(species_table(1)));
}

proof fn lemma_species_ssa()
    ensures
        find_spec("Ssa"@) == Some(
            Species { name: "Ssa", coefficients: [0, 0, 2, 0, 0, 0, 0], u: NodalPhase::Zero, f: NodalFactor::Unity },
        ),
{
    reveal_strlit("Z0");
    reveal_strlit("Sa");
    reveal_strlit("Ssa");
    reveal_strlit("Mm");
    reveal_strlit("Mf");
    reveal_strlit("Q1");
    reveal_strlit("O1");
    reveal_strlit("K1");
    reveal_strlit("J1");
    reveal_strlit("M1");
    reveal_strlit("P1");
    reveal_strlit("S1");
    reveal_strlit("OO1");
    reveal_strlit("2N2");
    reveal_strlit("N2");
    reveal_strlit("nu2");
    reveal_strlit("M2");
    reveal_strlit("lambda2");
    reveal_strlit("L2");
    reveal_strlit("T2");
    reveal_strlit("S2");
    reveal_strlit("R2");
    reveal_strlit("K2");
    reveal_strlit("M3");
    assert(species_table(0).name@.len() != "Ssa"@.len());
    assert(find_from("Ssa"@, 0) == find_from("Ssa"@, 1));
    assert(species_table(1).name@.len() != "Ssa"@.len());
    assert(find_from("Ssa"@, 1) == find_from("Ssa"@, 2));
    assert(eq_ignore_case(species_table(2).name@, "Ssa"@));
    assert(find_from("Ssa"@, 2) == Some(species_table(2)));
}

proof fn lemma_species_mm()
    ensures
        find_spec("Mm"@) == Some(
            Species { name: "Mm", coefficients: [0, 1, 0, -1i32, 0, 0, 0], u: NodalPhase::Zero, f: NodalFactor::Mm },
        ),
{
    reveal_strlit("Z0");
    reveal_strlit("Sa");
    reveal_strlit("Ssa");
    reveal_strlit("Mm");
    reveal_strlit("Mf");
    reveal_strlit("Q1");
    reveal_strlit("O1");
    reveal_strlit("K1");
    reveal_strlit("J1");
    reveal_strlit("M1");
    reveal_strlit("P1");
    reveal_strlit("S1");
    reveal_strlit("OO1");
    reveal_strlit("2N2");
    reveal_strlit("N2");
    reveal_strlit("nu2");
    reveal_strlit("M2");
    reveal_strlit("lambda2");
    reveal_strlit("L2");
    reveal_strlit("T2");
    reveal_strlit("S2");
    reveal_strlit("R2");
    reveal_strlit("K2");
    reveal_strlit("M3");
    assert(ascii_lower(species_table(0).name@[0]) != ascii_lower("Mm"@[0]));
    assert(find_from("Mm"@, 0) == find_from("Mm"@, 1));
    assert(ascii_lower(species_table(1).name@[0]) != ascii_lower("Mm"@[0]));
    assert(find_from("Mm"@, 1) == find_from("Mm"@, 2));
    assert(species_table(2).name@.len() != "Mm"@.len());
    assert(find_from("Mm"@, 2) == find_from("Mm"@, 3));
    assert(eq_ignore_case(species_table(3).name@, "Mm"@));
    assert(find_from("Mm"@, 3) == Some(species_table(3)));
}

proof fn lemma_species_mf()
    ensures
        find_spec("Mf"@) == Some(
            Species { name: "Mf", coefficients: [0, 2, 0, 0, 0, 0, 0], u: NodalPhase::Mf, f: NodalFactor::Mf },
        ),
{
    reveal_strlit("Z0");
    reveal_strlit("Sa");
    reveal_strlit("Ssa");
    reveal_strlit("Mm");
    reveal_strlit("Mf");
    reveal_strlit("Q1");
    reveal_strlit("O1");
    reveal_strlit("K1");
    reveal_strlit("J1");
    reveal_strlit("M1");
    reveal_strlit("P1");
    reveal_strlit("S1");
    reveal_strlit("OO1");
    reveal_strlit("2N2");
    reveal_strlit("N2");
    reveal_strlit("nu2");
    reveal_strlit("M2");
    reveal_strlit("lambda2");
    reveal_strlit("L2");
    reveal_strlit("T2");
    reveal_strlit("S2");
    reveal_strlit("R2");
    reveal_strlit("K2");
    reveal_strlit("M3");
    assert(ascii_lower(species_table(0).name@[0]) != ascii_lower("Mf"@[0]));
    assert(find_from("Mf"@, 0) == find_from("Mf"@, 1));
    assert(ascii_lower(species_table(1).name@[0]) != ascii_lower("Mf"@[0]));
    assert(find_from("Mf"@, 1) == find_from("Mf"@, 2));
    assert(species_table(2).name@.len() != "Mf"@.len());
    assert(find_from("Mf"@, 2) == find_from("Mf"@, 3));
    assert(ascii_lower(species_table(3).name@[1]) != ascii_lower("Mf"@[1]));
    assert(find_from("Mf"@, 3) == find_from("Mf"@, 4));
    assert(eq_ignore_case(species_table(4).name@, "Mf"@));
    assert(find_from("Mf"@, 4) == Some(species_table(4)));
}

proof fn lemma_species_q1()
    ensures
        find_spec("Q1"@) == Some(
            Species { name: "Q1", coefficients: [1, -2i32, 0, 1, 0, 0, 1], u: NodalPhase::O1, f: NodalFactor::O1 },
        ),
{
    reveal_strlit("Z0");
    reveal_strlit("Sa");
    reveal_strlit("Ssa");
    reveal_strlit("Mm");
    reveal_strlit("Mf");
    reveal_strlit("Q1");
    reveal_strlit("O1");
    reveal_strlit("K1");
    reveal_strlit("J1");
    reveal_strlit("M1");
    reveal_strlit("P1");
    reveal_strlit("S1");
    reveal_strlit("OO1");
    reveal_strlit("2N2");
    reveal_strlit("N2");
    reveal_strlit("nu2");
    reveal_strlit("M2");
    reveal_strlit("lambda2");
    reveal_strlit("L2");
    reveal_strlit("T2");
    reveal_strlit("S2");
    reveal_strlit("R2");
    reveal_strlit("K2");
    reveal_strlit("M3");
    assert(ascii_lower(species_table(0).name@[0]) != ascii_lower("Q1"@[0]));
    assert(find_from("Q1"@, 0) == find_from("Q1"@, 1));
    assert(ascii_lower(species_table(1).name@[0]) != ascii_lower("Q1"@[0]));
    assert(find_from("Q1"@, 1) == find_from("Q1"@, 2));
    assert(species_table(2).name@.len() != "Q1"@.len());
    assert(find_from("Q1"@, 2) == find_from("Q1"@, 3));
    assert(ascii_lower(species_table(3).name@[0]) != ascii_lower("Q1"@[0]));
    assert(find_from("Q1"@, 3) == find_from("Q1"@, 4));
    assert(ascii_lower(species_table(4).name@[0]) != ascii_lower("Q1"@[0]));
    assert(find_from("Q1"@, 4) == find_from("Q1"@, 5));
    assert(eq_ignore_case(species_table(5).name@, "Q1"@));
    assert(find_from("Q1"@, 5) == Some(species_table(5)));
}

proof fn lemma_species_o1()
    ensures
        find_spec("O1"@) == Some(
            Species { name: "O1", coefficients: [1, -1i32, 0, 0, 0, 0, 1], u: NodalPhase::O1, f: NodalFactor::O1 },
        ),
{
    reveal_strlit("Z0");
    reveal_strlit("Sa");
    reveal_strlit("Ssa");
    reveal_strlit("Mm");
    reveal_strlit("Mf");
    reveal_strlit("Q1");
    reveal_strlit("O1");
    reveal_strlit("K1");
    reveal_strlit("J1");
    reveal_strlit("M1");
    reveal_strlit("P1");
    reveal_strlit("S1");
    reveal_strlit("OO1");
    reveal_strlit("2N2");
    reveal_strlit("N2");
    reveal_strlit("nu2");
    reveal_strlit("M2");
    reveal_strlit("lambda2");
    reveal_strlit("L2");
    reveal_strlit("T2");
    reveal_strlit("S2");
    reveal_strlit("R2");
    reveal_strlit("K2");
    reveal_strlit("M3");
    assert(ascii_lower(species_table(0).name@[0]) != ascii_lower("O1"@[0]));
    assert(find_from("O1"@, 0) == find_from("O1"@, 1));
    assert(ascii_lower(species_table(1).name@[0]) != ascii_lower("O1"@[0]));
    assert(find_from("O1"@, 1) == find_from("O1"@, 2));
    assert(species_table(2).name@.len() != "O1"@.len());
    assert(find_from("O1"@, 2) == find_from("O1"@, 3));
    assert(ascii_lower(species_table(3).name@[0]) != ascii_lower("O1"@[0]));
    assert(find_from("O1"@, 3) == find_from("O1"@, 4));
    assert(ascii_lower(species_table(4).name@[0]) != ascii_lower("O1"@[0]));
    assert(find_from("O1"@, 4) == find_from("O1"@, 5));
    assert(ascii_lower(species_table(5).name@[0]) != ascii_lower("O1"@[0]));
    assert(find_from("O1"@, 5) == find_from("O1"@, 6));
    assert(eq_ignore_case(species_table(6).name@, "O1"@));
    assert(find_from("O1"@, 6) == Some(species_table(6)));
}

proof fn lemma_species_k1()
    ensures
        find_spec("K1"@) == Some(
            Species { name: "K1", coefficients: [1, 1, 0, 0, 0, 0, -1i32], u: NodalPhase::K1, f: NodalFactor::K1 },
        ),
{
    reveal_strlit("Z0");
    reveal_strlit("Sa");
    reveal_strlit("Ssa");
    reveal_strlit("Mm");
    reveal_strlit("Mf");
    reveal_strlit("Q1");
    reveal_strlit("O1");
    reveal_strlit("K1");
    reveal_strlit("J1");
    reveal_strlit("M1");
    reveal_strlit("P1");
    reveal_strlit("S1");
    reveal_strlit("OO1");
    reveal_strlit("2N2");
    reveal_strlit("N2");
    reveal_strlit("nu2");
    reveal_strlit("M2");
    reveal_strlit("lambda2");
    reveal_strlit("L2");
    reveal_strlit("T2");
    reveal_strlit("S2");
    reveal_strlit("R2");
    reveal_strlit("K2");
    reveal_strlit("M3");
    assert(ascii_lower(species_table(0).name@[0]) != ascii_lower("K1"@[0]));
    assert(find_from("K1"@, 0) == find_from("K1"@, 1));
    assert(ascii_lower(species_table(1).name@[0]) != ascii_lower("K1"@[0]));
    assert(find_from("K1"@, 1) == find_from("K1"@, 2));
    assert(species_table(2).name@.len() != "K1"@.len());
    assert(find_from("K1"@, 2) == find_from("K1"@, 3));
    assert(ascii_lower(species_table(3).name@[0]) != ascii_lower("K1"@[0]));
    assert(find_from("K1"@, 3) == find_from("K1"@, 4));
    assert(ascii_lower(species_table(4).name@[0]) != ascii_lower("K1"@[0]));
    assert(find_from("K1"@, 4) == find_from("K1"@, 5));
    assert(ascii_lower(species_table(5).name@[0]) != ascii_lower("K1"@[0]));
    assert(find_from("K1"@, 5) == find_from("K1"@, 6));
    assert(ascii_lower(species_table(6).name@[0]) != ascii_lower("K1"@[0]));
    assert(find_from("K1"@, 6) == find_from("K1"@, 7));
    assert(eq_ignore_case(species_table(7).name@, "K1"@));
    assert(find_from("K1"@, 7) == Some(species_table(7)));
}

proof fn lemma_species_j1()
    ensures
        find_spec("J1"@) == Some(
            Species { name: "J1", coefficients: [1, 2, 0, -1i32, 0, 0, -1i32], u: NodalPhase::J1, f: NodalFactor::J1 },
        ),
{
    reveal_strlit("Z0");
    reveal_strlit("Sa");
    reveal_strlit("Ssa");
    reveal_strlit("Mm");
    reveal_strlit("Mf");
    reveal_strlit("Q1");
    reveal_strlit("O1");
    reveal_strlit("K1");
    reveal_strlit("J1");
    reveal_strlit("M1");
    reveal_strlit("P1");
    reveal_strlit("S1");
    reveal_strlit("OO1");
    reveal_strlit("2N2");
    reveal_strlit("N2");
    reveal_strlit("nu2");
    reveal_strlit("M2");
    reveal_strlit("lambda2");
    reveal_strlit("L2");
    reveal_strlit("T2");
    reveal_strlit("S2");
    reveal_strlit("R2");
    reveal_strlit("K2");
    reveal_strlit("M3");
    assert(ascii_lower(species_table(0).name@[0]) != ascii_lower("J1"@[0]));
    assert(find_from("J1"@, 0) == find_from("J1"@, 1));
    assert(ascii_lower(species_table(1).name@[0]) != ascii_lower("J1"@[0]));
    assert(find_from("J1"@, 1) == find_from("J1"@, 2));
    assert(species_table(2).name@.len() != "J1"@.len());
    assert(find_from("J1"@, 2) == find_from("J1"@, 3));
    assert(ascii_lower(species_table(3).name@[0]) != ascii_lower("J1"@[0]));
    assert(find_from("J1"@, 3) == find_from("J1"@, 4));
    assert(ascii_lower(species_table(4).name@[0]) != ascii_lower("J1"@[0]));
    assert(find_from("J1"@, 4) == find_from("J1"@, 5));
    assert(ascii_lower(species_table(5).name@[0]) != ascii_lower("J1"@[0]));
    assert(find_from("J1"@, 5) == find_from("J1"@, 6));
    assert(ascii_lower(species_table(6).name@[0]) != ascii_lower("J1"@[0]));
    assert(find_from("J1"@, 6) == find_from("J1"@, 7));
    assert(ascii_lower(species_table(7).name@[0]) != ascii_lower("J1"@[0]));
    assert(find_from("J1"@, 7) == find_from("J1"@, 8));
    assert(eq_ignore_case(species_table(8).name@, "J1"@));
    assert(find_from("J1"@, 8) == Some(species_table(8)));
}

proof fn lemma_species_m1()
    ensures
        find_spec("M1"@) == Some(
            Species { name: "M1", coefficients: [1, 0, 0, 0, 0, 0, 1], u: NodalPhase::M1, f: NodalFactor::M1 },
        ),
{
    reveal_strlit("Z0");
    reveal_strlit("Sa");
    reveal_strlit("Ssa");
    reveal_strlit("Mm");
    reveal_strlit("Mf");
    reveal_strlit("Q1");
    reveal_strlit("O1");
    reveal_strlit("K1");
    reveal_strlit("J1");
    reveal_strlit("M1");
    reveal_strlit("P1");
    reveal_strlit("S1");
    reveal_strlit("OO1");
    reveal_strlit("2N2");
    reveal_strlit("N2");
    reveal_strlit("nu2");
    reveal_strlit("M2");
    reveal_strlit("lambda2");
    reveal_strlit("L2");
    reveal_strlit("T2");
    reveal_strlit("S2");
    reveal_strlit("R2");
    reveal_strlit("K2");
    reveal_strlit("M3");
    assert(ascii_lower(species_table(0).name@[0]) != ascii_lower("M1"@[0]));
    assert(find_from("M1"@, 0) == find_from("M1"@, 1));
    assert(ascii_lower(species_table(1).name@[0]) != ascii_lower("M1"@[0]));
    assert(find_from("M1"@, 1) == find_from("M1"@, 2));
    assert(species_table(2).name@.len() != "M1"@.len());
    assert(find_from("M1"@, 2) == find_from("M1"@, 3));
    assert(ascii_lower(species_table(3).name@[1]) != ascii_lower("M1"@[1]));
    assert(find_from("M1"@, 3) == find_from("M1"@, 4));
    assert(ascii_lower(species_table(4).name@[1]) != ascii_lower("M1"@[1]));
    assert(find_from("M1"@, 4) == find_from("M1"@, 5));
    assert(ascii_lower(species_table(5).name@[0]) != ascii_lower("M1"@[0]));
    assert(find_from("M1"@, 5) == find_from("M1"@, 6));
    assert(ascii_lower(species_table(6).name@[0]) != ascii_lower("M1"@[0]));
    assert(find_from("M1"@, 6) == find_from("M1"@, 7));
    assert(ascii_lower(species_table(7).name@[0]) != ascii_lower("M1"@[0]));
    assert(find_from("M1"@, 7) == find_from("M1"@, 8));
    assert(ascii_lower(species_table(8).name@[0]) != ascii_lower("M1"@[0]));
    assert(find_from("M1"@, 8) == find_from("M1"@, 9));
    assert(eq_ignore_case(species_table(9).name@, "M1"@));
    assert(find_from("M1"@, 9) == Some(species_table(9)));
}

proof fn lemma_species_p1()
    ensures
        find_spec("P1"@) == Some(
            Species { name: "P1", coefficients: [1, 1, -2i32, 0, 0, 0, 1], u: NodalPhase::Zero, f: NodalFactor::Unity },
        ),
{
    reveal_strlit("Z0");
    reveal_strlit("Sa");
    reveal_strlit("Ssa");
    reveal_strlit("Mm");
    reveal_strlit("Mf");
    reveal_strlit("Q1");
    reveal_strlit("O1");
    reveal_strlit("K1");
    reveal_strlit("J1");
    reveal_strlit("M1");
    reveal_strlit("P1");
    reveal_strlit("S1");
    reveal_strlit("OO1");
    reveal_strlit("2N2");
    reveal_strlit("N2");
    reveal_strlit("nu2");
    reveal_strlit("M2");
    reveal_strlit("lambda2");
    reveal_strlit("L2");
    reveal_strlit("T2");
    reveal_strlit("S2");
    reveal_strlit("R2");
    reveal_strlit("K2");
    reveal_strlit("M3");
    assert(ascii_lower(species_table(0).name@[0]) != ascii_lower("P1"@[0]));
    assert(find_from("P1"@, 0) == find_from("P1"@, 1));
    assert(ascii_lower(species_table(1).name@[0]) != ascii_lower("P1"@[0]));
    assert(find_from("P1"@, 1) == find_from("P1"@, 2));
    assert(species_table(2).name@.len() != "P1"@.len());
    assert(find_from("P1"@, 2) == find_from("P1"@, 3));
    assert(ascii_lower(species_table(3).name@[0]) != ascii_lower("P1"@[0]));
    assert(find_from("P1"@, 3) == find_from("P1"@, 4));
    assert(ascii_lower(species_table(4).name@[0]) != ascii_lower("P1"@[0]));
    assert(find_from("P1"@, 4) == find_from("P1"@, 5));
    assert(ascii_lower(species_table(5).name@[0]) != ascii_lower("P1"@[0]));
    assert(find_from("P1"@, 5) == find_from("P1"@, 6));
    assert(ascii_lower(species_table(6).name@[0]) != ascii_lower("P1"@[0]));
    assert(find_from("P1"@, 6) == find_from("P1"@, 7));
    assert(ascii_lower(species_table(7).name@[0]) != ascii_lower("P1"@[0]));
    assert(find_from("P1"@, 7) == find_from("P1"@, 8));
    assert(ascii_lower(species_table(8).name@[0]) != ascii_lower("P1"@[0]));
    assert(find_from("P1"@, 8) == find_from("P1"@, 9));
    assert(ascii_lower(species_table(9).name@[0]) != ascii_lower("P1"@[0]));
    assert(find_from("P1"@, 9) == find_from("P1"@, 10));
    assert(eq_ignore_case(species_table(10).name@, "P1"@));
    assert(find_from("P1"@, 10) == Some(species_table(10)));
}

proof fn lemma_species_s1()
    ensures
        find_spec("S1"@) == Some(
            Species { name: "S1", coefficients: [1, 1, -1i32, 0, 0, 0, 0], u: NodalPhase::Zero, f: NodalFactor::Unity },
        ),
{
    reveal_strlit("Z0");
    reveal_strlit("Sa");
    reveal_strlit("Ssa");
    reveal_strlit("Mm");
    reveal_strlit("Mf");
    reveal_strlit("Q1");
    reveal_strlit("O1");
    reveal_strlit("K1");
    reveal_strlit("J1");
    reveal_strlit("M1");
    reveal_strlit("P1");
    reveal_strlit("S1");
    reveal_strlit("OO1");
    reveal_strlit("2N2");
    reveal_strlit("N2");
    reveal_strlit("nu2");
    reveal_strlit("M2");
    reveal_strlit("lambda2");
    reveal_strlit("L2");
    reveal_strlit("T2");
    reveal_strlit("S2");
    reveal_strlit("R2");
    reveal_strlit("K2");
    reveal_strlit("M3");
    assert(ascii_lower(species_table(0).name@[0]) != ascii_lower("S1"@[0]));
    assert(find_from("S1"@, 0) == find_from("S1"@, 1));
    assert(ascii_lower(species_table(1).name@[1]) != ascii_lower("S1"@[1]));
    assert(find_from("S1"@, 1) == find_from("S1"@, 2));
    assert(species_table(2).name@.len() != "S1"@.len());
    assert(find_from("S1"@, 2) == find_from("S1"@, 3));
    assert(ascii_lower(species_table(3).name@[0]) != ascii_lower("S1"@[0]));
    assert(find_from("S1"@, 3) == find_from("S1"@, 4));
    assert(ascii_lower(species_table(4).name@[0]) != ascii_lower("S1"@[0]));
    assert(find_from("S1"@, 4) == find_from("S1"@, 5));
    assert(ascii_lower(species_table(5).name@[0]) != ascii_lower("S1"@[0]));
    assert(find_from("S1"@, 5) == find_from("S1"@, 6));
    assert(ascii_lower(species_table(6).name@[0]) != ascii_lower("S1"@[0]));
    assert(find_from("S1"@, 6) == find_from("S1"@, 7));
    assert(ascii_lower(species_table(7).name@[0]) != ascii_lower("S1"@[0]));
    assert(find_from("S1"@, 7) == find_from("S1"@, 8));
    assert(ascii_lower(species_table(8).name@[0]) != ascii_lower("S1"@[0]));
    assert(find_from("S1"@, 8) == find_from("S1"@, 9));
    assert(ascii_lower(species_table(9).name@[0]) != ascii_lower("S1"@[0]));
    assert(find_from("S1"@, 9) == find_from("S1"@, 10));
    assert(ascii_lower(species_table(10).name@[0]) != ascii_lower("S1"@[0]));
    assert(find_from("S1"@, 10) == find_from("S1"@, 11));
    assert(eq_ignore_case(species_table(11).name@, "S1"@));
    assert(find_from("S1"@, 11) == Some(species_table(11)));
}

proof fn lemma_species_oo1()
    ensures
        find_spec("OO1"@) == Some(
            Species { name: "OO1", coefficients: [1, 3, 0, 0, 0, 0, -1i32], u: NodalPhase::OO1, f: NodalFactor::OO1 },
        ),
{
    reveal_strlit("Z0");
    reveal_strlit("Sa");
    reveal_strlit("Ssa");
    reveal_strlit("Mm");
    reveal_strlit("Mf");
    reveal_strlit("Q1");
    reveal_strlit("O1");
    reveal_strlit("K1");
    reveal_strlit("J1");
    reveal_strlit("M1");
    reveal_strlit("P1");
    reveal_strlit("S1");
    reveal_strlit("OO1");
    reveal_strlit("2N2");
    reveal_strlit("N2");
    reveal_strlit("nu2");
    reveal_strlit("M2");
    reveal_strlit("lambda2");
    reveal_strlit("L2");
    reveal_strlit("T2");
    reveal_strlit("S2");
    reveal_strlit("R2");
    reveal_strlit("K2");
    reveal_strlit("M3");
    assert(species_table(0).name@.len() != "OO1"@.len());
    assert(find_from("OO1"@, 0) == find_from("OO1"@, 1));
    assert(species_table(1).name@.len() != "OO1"@.len());
    assert(find_from("OO1"@, 1) == find_from("OO1"@, 2));
    assert(ascii_lower(species_table(2).name@[0]) != ascii_lower("OO1"@[0]));
    assert(find_from("OO1"@, 2) == find_from("OO1"@, 3));
    assert(species_table(3).name@.len() != "OO1"@.len());
    assert(find_from("OO1"@, 3) == find_from("OO1"@, 4));
    assert(species_table(4).name@.len() != "OO1"@.len());
    assert(find_from("OO1"@, 4) == find_from("OO1"@, 5));
    assert(species_table(5).name@.len() != "OO1"@.len());
    assert(find_from("OO1"@, 5) == find_from("OO1"@, 6));
    assert(species_table(6).name@.len() != "OO1"@.len());
    assert(find_from("OO1"@, 6) == find_from("OO1"@, 7));
    assert(species_table(7).name@.len() != "OO1"@.len());
    assert(find_from("OO1"@, 7) == find_from("OO1"@, 8));
    assert(species_table(8).name@.len() != "OO1"@.len());
    assert(find_from("OO1"@, 8) == find_from("OO1"@, 9));
    assert(species_table(9).name@.len() != "OO1"@.len());
    assert(find_from("OO1"@, 9) == find_from("OO1"@, 10));
    assert(species_table(10).name@.len() != "OO1"@.len());
    assert(find_from("OO1"@, 10) == find_from("OO1"@, 11));
    assert(species_table(11).name@.len() != "OO1"@.len());
    assert(find_from("OO1"@, 11) == find_from("OO1"@, 12));
    assert(eq_ignore_case(species_table(12).name@, "OO1"@));
    assert(find_from("OO1"@, 12) == Some(species_table(12)));
}

proof fn lemma_species_2n2()
    ensures
        find_spec("2N2"@) == Some(
            Species { name: "2N2", coefficients: [2, -2i32, 0, 2, 0, 0, 0], u: NodalPhase::M2, f: NodalFactor::M2 },
        ),
{
    reveal_strlit("Z0");
    reveal_strlit("Sa");
    reveal_strlit("Ssa");
    reveal_strlit("Mm");
    reveal_strlit("Mf");
    reveal_strlit("Q1");
    reveal_strlit("O1");
    reveal_strlit("K1");
    reveal_strlit("J1");
    reveal_strlit("M1");
    reveal_strlit("P1");
    reveal_strlit("S1");
    reveal_strlit("OO1");
    reveal_strlit("2N2");
    reveal_strlit("N2");
    reveal_strlit("nu2");
    reveal_strlit("M2");
    reveal_strlit("lambda2");
    reveal_strlit("L2");
    reveal_strlit("T2");
    reveal_strlit("S2");
    reveal_strlit("R2");
    reveal_strlit("K2");
    reveal_strlit("M3");
    assert(species_table(0).name@.len() != "2N2"@.len());
    assert(find_from("2N2"@, 0) == find_from("2N2"@, 1));
    assert(species_table(1).name@.len() != "2N2"@.len());
    assert(find_from("2N2"@, 1) == find_from("2N2"@, 2));
    assert(ascii_lower(species_table(2).name@[0]) != ascii_lower("2N2"@[0]));
    assert(find_from("2N2"@, 2) == find_from("2N2"@, 3));
    assert(species_table(3).name@.len() != "2N2"@.len());
    assert(find_from("2N2"@, 3) == find_from("2N2"@, 4));
    assert(species_table(4).name@.len() != "2N2"@.len());
    assert(find_from("2N2"@, 4) == find_from("2N2"@, 5));
    assert(species_table(5).name@.len() != "2N2"@.len());
    assert(find_from("2N2"@, 5) == find_from("2N2"@, 6));
    assert(species_table(6).name@.len() != "2N2"@.len());
    assert(find_from("2N2"@, 6) == find_from("2N2"@, 7));
    assert(species_table(7).name@.len() != "2N2"@.len());
    assert(find_from("2N2"@, 7) == find_from("2N2"@, 8));
    assert(species_table(8).name@.len() != "2N2"@.len());
    assert(find_from("2N2"@, 8) == find_from("2N2"@, 9));
    assert(species_table(9).name@.len() != "2N2"@.len());
    assert(find_from("2N2"@, 9) == find_from("2N2"@, 10));
    assert(species_table(10).name@.len() != "2N2"@.len());
    assert(find_from("2N2"@, 10) == find_from("2N2"@, 11));
    assert(species_table(11).name@.len() != "2N2"@.len());
    assert(find_from("2N2"@, 11) == find_from("2N2"@, 12));
    assert(ascii_lower(species_table(12).name@[0]) != ascii_lower("2N2"@[0]));
    assert(find_from("2N2"@, 12) == find_from("2N2"@, 13));
    assert(eq_ignore_case(species_table(13).name@, "2N2"@));
    assert(find_from("2N2"@, 13) == Some(species_table(13)));
}

proof fn lemma_species_n2()
    ensures
        find_spec("N2"@) == Some(
            Species { name: "N2", coefficients: [2, -1i32, 0, 1, 0, 0, 0], u: NodalPhase::M2, f: NodalFactor::M2 },
        ),
{
    reveal_strlit("Z0");
    reveal_strlit("Sa");
    reveal_strlit("Ssa");
    reveal_strlit("Mm");
    reveal_strlit("Mf");
    reveal_strlit("Q1");
    reveal_strlit("O1");
    reveal_strlit("K1");
    reveal_strlit("J1");
    reveal_strlit("M1");
    reveal_strlit("P1");
    reveal_strlit("S1");
    reveal_strlit("OO1");
    reveal_strlit("2N2");
    reveal_strlit("N2");
    reveal_strlit("nu2");
    reveal_strlit("M2");
    reveal_strlit("lambda2");
    reveal_strlit("L2");
    reveal_strlit("T2");
    reveal_strlit("S2");
    reveal_strlit("R2");
    reveal_strlit("K2");
    reveal_strlit("M3");
    assert(ascii_lower(species_table(0).name@[0]) != ascii_lower("N2"@[0]));
    assert(find_from("N2"@, 0) == find_from("N2"@, 1));
    assert(ascii_lower(species_table(1).name@[0]) != ascii_lower("N2"@[0]));
    assert(find_from("N2"@, 1) == find_from("N2"@, 2));
    assert(species_table(2).name@.len() != "N2"@.len());
    assert(find_from("N2"@, 2) == find_from("N2"@, 3));
    assert(ascii_lower(species_table(3).name@[0]) != ascii_lower("N2"@[0]));
    assert(find_from("N2"@, 3) == find_from("N2"@, 4));
    assert(ascii_lower(species_table(4).name@[0]) != ascii_lower("N2"@[0]));
    assert(find_from("N2"@, 4) == find_from("N2"@, 5));
    assert(ascii_lower(species_table(5).name@[0]) != ascii_lower("N2"@[0]));
    assert(find_from("N2"@, 5) == find_from("N2"@, 6));
    assert(ascii_lower(species_table(6).name@[0]) != ascii_lower("N2"@[0]));
    assert(find_from("N2"@, 6) == find_from("N2"@, 7));
    assert(ascii_lower(species_table(7).name@[0]) != ascii_lower("N2"@[0]));
    assert(find_from("N2"@, 7) == find_from("N2"@, 8));
    assert(ascii_lower(species_table(8).name@[0]) != ascii_lower("N2"@[0]));
    assert(find_from("N2"@, 8) == find_from("N2"@, 9));
    assert(ascii_lower(species_table(9).name@[0]) != ascii_lower("N2"@[0]));
    assert(find_from("N2"@, 9) == find_from("N2"@, 10));
    assert(ascii_lower(species_table(10).name@[0]) != ascii_lower("N2"@[0]));
    assert(find_from("N2"@, 10) == find_from("N2"@, 11));
    assert(ascii_lower(species_table(11).name@[0]) != ascii_lower("N2"@[0]));
    assert(find_from("N2"@, 11) == find_from("N2"@, 12));
    assert(species_table(12).name@.len() != "N2"@.len());
    assert(find_from("N2"@, 12) == find_from("N2"@, 13));
    assert(species_table(13).name@.len() != "N2"@.len());
    assert(find_from("N2"@, 13) == find_from("N2"@, 14));
    assert(eq_ignore_case(species_table(14).name@, "N2"@));
    assert(find_from("N2"@, 14) == Some(species_table(14)));
}

proof fn lemma_species_nu2()
    ensures
        find_spec("nu2"@) == Some(
            Species { name: "nu2", coefficients: [2, -1i32, 2, -1i32, 0, 0, 0], u: NodalPhase::M2, f: NodalFactor::M2 },
        ),
{
    reveal_strlit("Z0");
    reveal_strlit("Sa");
    reveal_strlit("Ssa");
    reveal_strlit("Mm");
    reveal_strlit("Mf");
    reveal_strlit("Q1");
    reveal_strlit("O1");
    reveal_strlit("K1");
    reveal_strlit("J1");
    reveal_strlit("M1");
    reveal_strlit("P1");
    reveal_strlit("S1");
    reveal_strlit("OO1");
    reveal_strlit("2N2");
    reveal_strlit("N2");
    reveal_strlit("nu2");
    reveal_strlit("M2");
    reveal_strlit("lambda2");
    reveal_strlit("L2");
    reveal_strlit("T2");
    reveal_strlit("S2");
    reveal_strlit("R2");
    reveal_strlit("K2");
    reveal_strlit("M3");
    assert(species_table(0).name@.len() != "nu2"@.len());
    assert(find_from("nu2"@, 0) == find_from("nu2"@, 1));
    assert(species_table(1).name@.len() != "nu2"@.len());
    assert(find_from("nu2"@, 1) == find_from("nu2"@, 2));
    assert(ascii_lower(species_table(2).name@[0]) != ascii_lower("nu2"@[0]));
    assert(find_from("nu2"@, 2) == find_from("nu2"@, 3));
    assert(species_table(3).name@.len() != "nu2"@.len());
    assert(find_from("nu2"@, 3) == find_from("nu2"@, 4));
    assert(species_table(4).name@.len() != "nu2"@.len());
    assert(find_from("nu2"@, 4) == find_from("nu2"@, 5));
    assert(species_table(5).name@.len() != "nu2"@.len());
    assert(find_from("nu2"@, 5) == find_from("nu2"@, 6));
    assert(species_table(6).name@.len() != "nu2"@.len());
    assert(find_from("nu2"@, 6) == find_from("nu2"@, 7));
    assert(species_table(7).name@.len() != "nu2"@.len());
    assert(find_from("nu2"@, 7) == find_from("nu2"@, 8));
    assert(species_table(8).name@.len() != "nu2"@.len());
    assert(find_from("nu2"@, 8) == find_from("nu2"@, 9));
    assert(species_table(9).name@.len() != "nu2"@.len());
    assert(find_from("nu2"@, 9) == find_from("nu2"@, 10));
    assert(species_table(10).name@.len() != "nu2"@.len());
    assert(find_from("nu2"@, 10) == find_from("nu2"@, 11));
    assert(species_table(11).name@.len() != "nu2"@.len());
    assert(find_from("nu2"@, 11) == find_from("nu2"@, 12));
    assert(ascii_lower(species_table(12).name@[0]) != ascii_lower("nu2"@[0]));
    assert(find_from("nu2"@, 12) == find_from("nu2"@, 13));
    assert(ascii_lower(species_table(13).name@[0]) != ascii_lower("nu2"@[0]));
    assert(find_from("nu2"@, 13) == find_from("nu2"@, 14));
    assert(species_table(14).name@.len() != "nu2"@.len());
    assert(find_from("nu2"@, 14) == find_from("nu2"@, 15));
    assert(eq_ignore_case(species_table(15).name@, "nu2"@));
    assert(find_from("nu2"@, 15) == Some(species_table(15)));
}

proof fn lemma_species_m2()
    ensures
        find_spec("M2"@) == Some(
            Species { name: "M2", coefficients: [2, 0, 0, 0, 0, 0, 0], u: NodalPhase::M2, f: NodalFactor::M2 },
        ),
{
    reveal_strlit("Z0");
    reveal_strlit("Sa");
    reveal_strlit("Ssa");
    reveal_strlit("Mm");
    reveal_strlit("Mf");
    reveal_strlit("Q1");
    reveal_strlit("O1");
    reveal_strlit("K1");
    reveal_strlit("J1");
    reveal_strlit("M1");
    reveal_strlit("P1");
    reveal_strlit("S1");
    reveal_strlit("OO1");
    reveal_strlit("2N2");
    reveal_strlit("N2");
    reveal_strlit("nu2");
    reveal_strlit("M2");
    reveal_strlit("lambda2");
    reveal_strlit("L2");
    reveal_strlit("T2");
    reveal_strlit("S2");
    reveal_strlit("R2");
    reveal_strlit("K2");
    reveal_strlit("M3");
    assert(ascii_lower(species_table(0).name@[0]) != ascii_lower("M2"@[0]));
    assert(find_from("M2"@, 0) == find_from("M2"@, 1));
    assert(ascii_lower(species_table(1).name@[0]) != ascii_lower("M2"@[0]));
    assert(find_from("M2"@, 1) == find_from("M2"@, 2));
    assert(species_table(2).name@.len() != "M2"@.len());
    assert(find_from("M2"@, 2) == find_from("M2"@, 3));
    assert(ascii_lower(species_table(3).name@[1]) != ascii_lower("M2"@[1]));
    assert(find_from("M2"@, 3) == find_from("M2"@, 4));
    assert(ascii_lower(species_table(4).name@[1]) != ascii_lower("M2"@[1]));
    assert(find_from("M2"@, 4) == find_from("M2"@, 5));
    assert(ascii_lower(species_table(5).name@[0]) != ascii_lower("M2"@[0]));
    assert(find_from("M2"@, 5) == find_from("M2"@, 6));
    assert(ascii_lower(species_table(6).name@[0]) != ascii_lower("M2"@[0]));
    assert(find_from("M2"@, 6) == find_from("M2"@, 7));
    assert(ascii_lower(species_table(7).name@[0]) != ascii_lower("M2"@[0]));
    assert(find_from("M2"@, 7) == find_from("M2"@, 8));
    assert(ascii_lower(species_table(8).name@[0]) != ascii_lower("M2"@[0]));
    assert(find_from("M2"@, 8) == find_from("M2"@, 9));
    assert(ascii_lower(species_table(9).name@[1]) != ascii_lower("M2"@[1]));
    assert(find_from("M2"@, 9) == find_from("M2"@, 10));
    assert(ascii_lower(species_table(10).name@[0]) != ascii_lower("M2"@[0]));
    assert(find_from("M2"@, 10) == find_from("M2"@, 11));
    assert(ascii_lower(species_table(11).name@[0]) != ascii_lower("M2"@[0]));
    assert(find_from("M2"@, 11) == find_from("M2"@, 12));
    assert(species_table(12).name@.len() != "M2"@.len());
    assert(find_from("M2"@, 12) == find_from("M2"@, 13));
    assert(species_table(13).name@.len() != "M2"@.len());
    assert(find_from("M2"@, 13) == find_from("M2"@, 14));
    assert(ascii_lower(species_table(14).name@[0]) != ascii_lower("M2"@[0]));
    assert(find_from("M2"@, 14) == find_from("M2"@, 15));
    assert(species_table(15).name@.len() != "M2"@.len());
    assert(find_from("M2"@, 15) == find_from("M2"@, 16));
    assert(eq_ignore_case(species_table(16).name@, "M2"@));
    assert(find_from("M2"@, 16) == Some(species_table(16)));
}

proof fn lemma_species_lambda2()
    ensures
        find_spec("lambda2"@) == Some(
            Species { name: "lambda2", coefficients: [2, 1, -2i32, 1, 0, 0, 2], u: NodalPhase::M2, f: NodalFactor::M2 },
        ),
{
    reveal_strlit("Z0");
    reveal_strlit("Sa");
    reveal_strlit("Ssa");
    reveal_strlit("Mm");
    reveal_strlit("Mf");
    reveal_strlit("Q1");
    reveal_strlit("O1");
    reveal_strlit("K1");
    reveal_strlit("J1");
    reveal_strlit("M1");
    reveal_strlit("P1");
    reveal_strlit("S1");
    reveal_strlit("OO1");
    reveal_strlit("2N2");
    reveal_strlit("N2");
    reveal_strlit("nu2");
    reveal_strlit("M2");
    reveal_strlit("lambda2");
    reveal_strlit("L2");
    reveal_strlit("T2");
    reveal_strlit("S2");
    reveal_strlit("R2");
    reveal_strlit("K2");
    reveal_strlit("M3");
    assert(species_table(0).name@.len() != "lambda2"@.len());
    assert(find_from("lambda2"@, 0) == find_from("lambda2"@, 1));
    assert(species_table(1).name@.len() != "lambda2"@.len());
    assert(find_from("lambda2"@, 1) == find_from("lambda2"@, 2));
    assert(species_table(2).name@.len() != "lambda2"@.len());
    assert(find_from("lambda2"@, 2) == find_from("lambda2"@, 3));
    assert(species_table(3).name@.len() != "lambda2"@.len());
    assert(find_from("lambda2"@, 3) == find_from("lambda2"@, 4));
    assert(species_table(4).name@.len() != "lambda2"@.len());
    assert(find_from("lambda2"@, 4) == find_from("lambda2"@, 5));
    assert(species_table(5).name@.len() != "lambda2"@.len());
    assert(find_from("lambda2"@, 5) == find_from("lambda2"@, 6));
    assert(species_table(6).name@.len() != "lambda2"@.len());
    assert(find_from("lambda2"@, 6) == find_from("lambda2"@, 7));
    assert(species_table(7).name@.len() != "lambda2"@.len());
    assert(find_from("lambda2"@, 7) == find_from("lambda2"@, 8));
    assert(species_table(8).name@.len() != "lambda2"@.len());
    assert(find_from("lambda2"@, 8) == find_from("lambda2"@, 9));
    assert(species_table(9).name@.len() != "lambda2"@.len());
    assert(find_from("lambda2"@, 9) == find_from("lambda2"@, 10));
    assert(species_table(10).name@.len() != "lambda2"@.len());
    assert(find_from("lambda2"@, 10) == find_from("lambda2"@, 11));
    assert(species_table(11).name@.len() != "lambda2"@.len());
    assert(find_from("lambda2"@, 11) == find_from("lambda2"@, 12));
    assert(species_table(12).name@.len() != "lambda2"@.len());
    assert(find_from("lambda2"@, 12) == find_from("lambda2"@, 13));
    assert(species_table(13).name@.len() != "lambda2"@.len());
    assert(find_from("lambda2"@, 13) == find_from("lambda2"@, 14));
    assert(species_table(14).name@.len() != "lambda2"@.len());
    assert(find_from("lambda2"@, 14) == find_from("lambda2"@, 15));
    assert(species_table(15).name@.len() != "lambda2"@.len());
    assert(find_from("lambda2"@, 15) == find_from("lambda2"@, 16));
    assert(species_table(16).name@.len() != "lambda2"@.len());
    assert(find_from("lambda2"@, 16) == find_from("lambda2"@, 17));
    assert(eq_ignore_case(species_table(17).name@, "lambda2"@));
    assert(find_from("lambda2"@, 17) == Some(species_table(17)));
}

proof fn lemma_species_l2()
    ensures
        find_spec("L2"@) == Some(
            Species { name: "L2", coefficients: [2, 1, 0, -1i32, 0, 0, 2], u: NodalPhase::L2, f: NodalFactor::L2 },
        ),
{
    reveal_strlit("Z0");
    reveal_strlit("Sa");
    reveal_strlit("Ssa");
    reveal_strlit("Mm");
    reveal_strlit("Mf");
    reveal_strlit("Q1");
    reveal_strlit("O1");
    reveal_strlit("K1");
    reveal_strlit("J1");
    reveal_strlit("M1");
    reveal_strlit("P1");
    reveal_strlit("S1");
    reveal_strlit("OO1");
    reveal_strlit("2N2");
    reveal_strlit("N2");
    reveal_strlit("nu2");
    reveal_strlit("M2");
    reveal_strlit("lambda2");
    reveal_strlit("L2");
    reveal_strlit("T2");
    reveal_strlit("S2");
    reveal_strlit("R2");
    reveal_strlit("K2");
    reveal_strlit("M3");
    assert(ascii_lower(species_table(0).name@[0]) != ascii_lower("L2"@[0]));
    assert(find_from("L2"@, 0) == find_from("L2"@, 1));
    assert(ascii_lower(species_table(1).name@[0]) != ascii_lower("L2"@[0]));
    assert(find_from("L2"@, 1) == find_from("L2"@, 2));
    assert(species_table(2).name@.len() != "L2"@.len());
    assert(find_from("L2"@, 2) == find_from("L2"@, 3));
    assert(ascii_lower(species_table(3).name@[0]) != ascii_lower("L2"@[0]));
    assert(find_from("L2"@, 3) == find_from("L2"@, 4));
    assert(ascii_lower(species_table(4).name@[0]) != ascii_lower("L2"@[0]));
    assert(find_from("L2"@, 4) == find_from("L2"@, 5));
    assert(ascii_lower(species_table(5).name@[0]) != ascii_lower("L2"@[0]));
    assert(find_from("L2"@, 5) == find_from("L2"@, 6));
    assert(ascii_lower(species_table(6).name@[0]) != ascii_lower("L2"@[0]));
    assert(find_from("L2"@, 6) == find_from("L2"@, 7));
    assert(ascii_lower(species_table(7).name@[0]) != ascii_lower("L2"@[0]));
    assert(find_from("L2"@, 7) == find_from("L2"@, 8));
    assert(ascii_lower(species_table(8).name@[0]) != ascii_lower("L2"@[0]));
    assert(find_from("L2"@, 8) == find_from("L2"@, 9));
    assert(ascii_lower(species_table(9).name@[0]) != ascii_lower("L2"@[0]));
    assert(find_from("L2"@, 9) == find_from("L2"@, 10));
    assert(ascii_lower(species_table(10).name@[0]) != ascii_lower("L2"@[0]));
    assert(find_from("L2"@, 10) == find_from("L2"@, 11));
    assert(ascii_lower(species_table(11).name@[0]) != ascii_lower("L2"@[0]));
    assert(find_from("L2"@, 11) == find_from("L2"@, 12));
    assert(species_table(12).name@.len() != "L2"@.len());
    assert(find_from("L2"@, 12) == find_from("L2"@, 13));
    assert(species_table(13).name@.len() != "L2"@.len());
    assert(find_from("L2"@, 13) == find_from("L2"@, 14));
    assert(ascii_lower(species_table(14).name@[0]) != ascii_lower("L2"@[0]));
    assert(find_from("L2"@, 14) == find_from("L2"@, 15));
    assert(species_table(15).name@.len() != "L2"@.len());
    assert(find_from("L2"@, 15) == find_from("L2"@, 16));
    assert(ascii_lower(species_table(16).name@[0]) != ascii_lower("L2"@[0]));
    assert(find_from("L2"@, 16) == find_from("L2"@, 17));
    assert(species_table(17).name@.len() != "L2"@.len());
    assert(find_from("L2"@, 17) == find_from("L2"@, 18));
    assert(eq_ignore_case(species_table(18).name@, "L2"@));
    assert(find_from("L2"@, 18) == Some(species_table(18)));
}

proof fn lemma_species_t2()
    ensures
        find_spec("T2"@) == Some(
            Species { name: "T2", coefficients: [2, 2, -3i32, 0, 0, 1, 0], u: NodalPhase::Zero, f: NodalFactor::Unity },
        ),
{
    reveal_strlit("Z0");
    reveal_strlit("Sa");
    reveal_strlit("Ssa");
    reveal_strlit("Mm");
    reveal_strlit("Mf");
    reveal_strlit("Q1");
    reveal_strlit("O1");
    reveal_strlit("K1");
    reveal_strlit("J1");
    reveal_strlit("M1");
    reveal_strlit("P1");
    reveal_strlit("S1");
    reveal_strlit("OO1");
    reveal_strlit("2N2");
    reveal_strlit("N2");
    reveal_strlit("nu2");
    reveal_strlit("M2");
    reveal_strlit("lambda2");
    reveal_strlit("L2");
    reveal_strlit("T2");
    reveal_strlit("S2");
    reveal_strlit("R2");
    reveal_strlit("K2");
    reveal_strlit("M3");
    assert(ascii_lower(species_table(0).name@[0]) != ascii_lower("T2"@[0]));
    assert(find_from("T2"@, 0) == find_from("T2"@, 1));
    assert(ascii_lower(species_table(1).name@[0]) != ascii_lower("T2"@[0]));
    assert(find_from("T2"@, 1) == find_from("T2"@, 2));
    assert(species_table(2).name@.len() != "T2"@.len());
    assert(find_from("T2"@, 2) == find_from("T2"@, 3));
    assert(ascii_lower(species_table(3).name@[0]) != ascii_lower("T2"@[0]));
    assert(find_from("T2"@, 3) == find_from("T2"@, 4));
    assert(ascii_lower(species_table(4).name@[0]) != ascii_lower("T2"@[0]));
    assert(find_from("T2"@, 4) == find_from("T2"@, 5));
    assert(ascii_lower(species_table(5).name@[0]) != ascii_lower("T2"@[0]));
    assert(find_from("T2"@, 5) == find_from("T2"@, 6));
    assert(ascii_lower(species_table(6).name@[0]) != ascii_lower("T2"@[0]));
    assert(find_from("T2"@, 6) == find_from("T2"@, 7));
    assert(ascii_lower(species_table(7).name@[0]) != ascii_lower("T2"@[0]));
    assert(find_from("T2"@, 7) == find_from("T2"@, 8));
    assert(ascii_lower(species_table(8).name@[0]) != ascii_lower("T2"@[0]));
    assert(find_from("T2"@, 8) == find_from("T2"@, 9));
    assert(ascii_lower(species_table(9).name@[0]) != ascii_lower("T2"@[0]));
    assert(find_from("T2"@, 9) == find_from("T2"@, 10));
    assert(ascii_lower(species_table(10).name@[0]) != ascii_lower("T2"@[0]));
    assert(find_from("T2"@, 10) == find_from("T2"@, 11));
    assert(ascii_lower(species_table(11).name@[0]) != ascii_lower("T2"@[0]));
    assert(find_from("T2"@, 11) == find_from("T2"@, 12));
    assert(species_table(12).name@.len() != "T2"@.len());
    assert(find_from("T2"@, 12) == find_from("T2"@, 13));
    assert(species_table(13).name@.len() != "T2"@.len());
    assert(find_from("T2"@, 13) == find_from("T2"@, 14));
    assert(ascii_lower(species_table(14).name@[0]) != ascii_lower("T2"@[0]));
    assert(find_from("T2"@, 14) == find_from("T2"@, 15));
    assert(species_table(15).name@.len() != "T2"@.len());
    assert(find_from("T2"@, 15) == find_from("T2"@, 16));
    assert(ascii_lower(species_table(16).name@[0]) != ascii_lower("T2"@[0]));
    assert(find_from("T2"@, 16) == find_from("T2"@, 17));
    assert(species_table(17).name@.len() != "T2"@.len());
    assert(find_from("T2"@, 17) == find_from("T2"@, 18));
    assert(ascii_lower(species_table(18).name@[0]) != ascii_lower("T2"@[0]));
    assert(find_from("T2"@, 18) == find_from("T2"@, 19));
    assert(eq_ignore_case(species_table(19).name@, "T2"@));
    assert(find_from("T2"@, 19) == Some(species_table(19)));
}

proof fn lemma_species_s2()
    ensures
        find_spec("S2"@) == Some(
            Species { name: "S2", coefficients: [2, 2, -2i32, 0, 0, 0, 0], u: NodalPhase::Zero, f: NodalFactor::Unity },
        ),
{
    reveal_strlit("Z0");
    reveal_strlit("Sa");
    reveal_strlit("Ssa");
    reveal_strlit("Mm");
    reveal_strlit("Mf");
    reveal_strlit("Q1");
    reveal_strlit("O1");
    reveal_strlit("K1");
    reveal_strlit("J1");
    reveal_strlit("M1");
    reveal_strlit("P1");
    reveal_strlit("S1");
    reveal_strlit("OO1");
    reveal_strlit("2N2");
    reveal_strlit("N2");
    reveal_strlit("nu2");
    reveal_strlit("M2");
    reveal_strlit("lambda2");
    reveal_strlit("L2");
    reveal_strlit("T2");
    reveal_strlit("S2");
    reveal_strlit("R2");
    reveal_strlit("K2");
    reveal_strlit("M3");
    assert(ascii_lower(species_table(0).name@[0]) != ascii_lower("S2"@[0]));
    assert(find_from("S2"@, 0) == find_from("S2"@, 1));
    assert(ascii_lower(species_table(1).name@[1]) != ascii_lower("S2"@[1]));
    assert(find_from("S2"@, 1) == find_from("S2"@, 2));
    assert(species_table(2).name@.len() != "S2"@.len());
    assert(find_from("S2"@, 2) == find_from("S2"@, 3));
    assert(ascii_lower(species_table(3).name@[0]) != ascii_lower("S2"@[0]));
    assert(find_from("S2"@, 3) == find_from("S2"@, 4));
    assert(ascii_lower(species_table(4).name@[0]) != ascii_lower("S2"@[0]));
    assert(find_from("S2"@, 4) == find_from("S2"@, 5));
    assert(ascii_lower(species_table(5).name@[0]) != ascii_lower("S2"@[0]));
    assert(find_from("S2"@, 5) == find_from("S2"@, 6));
    assert(ascii_lower(species_table(6).name@[0]) != ascii_lower("S2"@[0]));
    assert(find_from("S2"@, 6) == find_from("S2"@, 7));
    assert(ascii_lower(species_table(7).name@[0]) != ascii_lower("S2"@[0]));
    assert(find_from("S2"@, 7) == find_from("S2"@, 8));
    assert(ascii_lower(species_table(8).name@[0]) != ascii_lower("S2"@[0]));
    assert(find_from("S2"@, 8) == find_from("S2"@, 9));
    assert(ascii_lower(species_table(9).name@[0]) != ascii_lower("S2"@[0]));
    assert(find_from("S2"@, 9) == find_from("S2"@, 10));
    assert(ascii_lower(species_table(10).name@[0]) != ascii_lower("S2"@[0]));
    assert(find_from("S2"@, 10) == find_from("S2"@, 11));
    assert(ascii_lower(species_table(11).name@[1]) != ascii_lower("S2"@[1]));
    assert(find_from("S2"@, 11) == find_from("S2"@, 12));
    assert(species_table(12).name@.len() != "S2"@.len());
    assert(find_from("S2"@, 12) == find_from("S2"@, 13));
    assert(species_table(13).name@.len() != "S2"@.len());
    assert(find_from("S2"@, 13) == find_from("S2"@, 14));
    assert(ascii_lower(species_table(14).name@[0]) != ascii_lower("S2"@[0]));
    assert(find_from("S2"@, 14) == find_from("S2"@, 15));
    assert(species_table(15).name@.len() != "S2"@.len());
    assert(find_from("S2"@, 15) == find_from("S2"@, 16));
    assert(ascii_lower(species_table(16).name@[0]) != ascii_lower("S2"@[0]));
    assert(find_from("S2"@, 16) == find_from("S2"@, 17));
    assert(species_table(17).name@.len() != "S2"@.len());
    assert(find_from("S2"@, 17) == find_from("S2"@, 18));
    assert(ascii_lower(species_table(18).name@[0]) != ascii_lower("S2"@[0]));
    assert(find_from("S2"@, 18) == find_from("S2"@, 19));
    assert(ascii_lower(species_table(19).name@[0]) != ascii_lower("S2"@[0]));
    assert(find_from("S2"@, 19) == find_from("S2"@, 20));
    assert(eq_ignore_case(species_table(20).name@, "S2"@));
    assert(find_from("S2"@, 20) == Some(species_table(20)));
}

proof fn lemma_species_r2()
    ensures
        find_spec("R2"@) == Some(
            Species { name: "R2", coefficients: [2, 2, -1i32, 0, 0, -1i32, 2], u: NodalPhase::Zero, f: NodalFactor::Unity },
        ),
{
    reveal_strlit("Z0");
    reveal_strlit("Sa");
    reveal_strlit("Ssa");
    reveal_strlit("Mm");
    reveal_strlit("Mf");
    reveal_strlit("Q1");
    reveal_strlit("O1");
    reveal_strlit("K1");
    reveal_strlit("J1");
    reveal_strlit("M1");
    reveal_strlit("P1");
    reveal_strlit("S1");
    reveal_strlit("OO1");
    reveal_strlit("2N2");
    reveal_strlit("N2");
    reveal_strlit("nu2");
    reveal_strlit("M2");
    reveal_strlit("lambda2");
    reveal_strlit("L2");
    reveal_strlit("T2");
    reveal_strlit("S2");
    reveal_strlit("R2");
    reveal_strlit("K2");
    reveal_strlit("M3");
    assert(ascii_lower(species_table(0).name@[0]) != ascii_lower("R2"@[0]));
    assert(find_from("R2"@, 0) == find_from("R2"@, 1));
    assert(ascii_lower(species_table(1).name@[0]) != ascii_lower("R2"@[0]));
    assert(find_from("R2"@, 1) == find_from("R2"@, 2));
    assert(species_table(2).name@.len() != "R2"@.len());
    assert(find_from("R2"@, 2) == find_from("R2"@, 3));
    assert(ascii_lower(species_table(3).name@[0]) != ascii_lower("R2"@[0]));
    assert(find_from("R2"@, 3) == find_from("R2"@, 4));
    assert(ascii_lower(species_table(4).name@[0]) != ascii_lower("R2"@[0]));
    assert(find_from("R2"@, 4) == find_from("R2"@, 5));
    assert(ascii_lower(species_table(5).name@[0]) != ascii_lower("R2"@[0]));
    assert(find_from("R2"@, 5) == find_from("R2"@, 6));
    assert(ascii_lower(species_table(6).name@[0]) != ascii_lower("R2"@[0]));
    assert(find_from("R2"@, 6) == find_from("R2"@, 7));
    assert(ascii_lower(species_table(7).name@[0]) != ascii_lower("R2"@[0]));
    assert(find_from("R2"@, 7) == find_from("R2"@, 8));
    assert(ascii_lower(species_table(8).name@[0]) != ascii_lower("R2"@[0]));
    assert(find_from("R2"@, 8) == find_from("R2"@, 9));
    assert(ascii_lower(species_table(9).name@[0]) != ascii_lower("R2"@[0]));
    assert(find_from("R2"@, 9) == find_from("R2"@, 10));
    assert(ascii_lower(species_table(10).name@[0]) != ascii_lower("R2"@[0]));
    assert(find_from("R2"@, 10) == find_from("R2"@, 11));
    assert(ascii_lower(species_table(11).name@[0]) != ascii_lower("R2"@[0]));
    assert(find_from("R2"@, 11) == find_from("R2"@, 12));
    assert(species_table(12).name@.len() != "R2"@.len());
    assert(find_from("R2"@, 12) == find_from("R2"@, 13));
    assert(species_table(13).name@.len() != "R2"@.len());
    assert(find_from("R2"@, 13) == find_from("R2"@, 14));
    assert(ascii_lower(species_table(14).name@[0]) != ascii_lower("R2"@[0]));
    assert(find_from("R2"@, 14) == find_from("R2"@, 15));
    assert(species_table(15).name@.len() != "R2"@.len());
    assert(find_from("R2"@, 15) == find_from("R2"@, 16));
    assert(ascii_lower(species_table(16).name@[0]) != ascii_lower("R2"@[0]));
    assert(find_from("R2"@, 16) == find_from("R2"@, 17));
    assert(species_table(17).name@.len() != "R2"@.len());
    assert(find_from("R2"@, 17) == find_from("R2"@, 18));
    assert(ascii_lower(species_table(18).name@[0]) != ascii_lower("R2"@[0]));
    assert(find_from("R2"@, 18) == find_from("R2"@, 19));
    assert(ascii_lower(species_table(19).name@[0]) != ascii_lower("R2"@[0]));
    assert(find_from("R2"@, 19) == find_from("R2"@, 20));
    assert(ascii_lower(species_table(20).name@[0]) != ascii_lower("R2"@[0]));
    assert(find_from("R2"@, 20) == find_from("R2"@, 21));
    assert(eq_ignore_case(species_table(21).name@, "R2"@));
    assert(find_from("R2"@, 21) == Some(species_table(21)));
}

proof fn lemma_species_k2()
    ensures
        find_spec("K2"@) == Some(
            Species { name: "K2", coefficients: [2, 2, 0, 0, 0, 0, 0], u: NodalPhase::K2, f: NodalFactor::K2 },
        ),
{
    reveal_strlit("Z0");
    reveal_strlit("Sa");
    reveal_strlit("Ssa");
    reveal_strlit("Mm");
    reveal_strlit("Mf");
    reveal_strlit("Q1");
    reveal_strlit("O1");
    reveal_strlit("K1");
    reveal_strlit("J1");
    reveal_strlit("M1");
    reveal_strlit("P1");
    reveal_strlit("S1");
    reveal_strlit("OO1");
    reveal_strlit("2N2");
    reveal_strlit("N2");
    reveal_strlit("nu2");
    reveal_strlit("M2");
    reveal_strlit("lambda2");
    reveal_strlit("L2");
    reveal_strlit("T2");
    reveal_strlit("S2");
    reveal_strlit("R2");
    reveal_strlit("K2");
    reveal_strlit("M3");
    assert(ascii_lower(species_table(0).name@[0]) != ascii_lower("K2"@[0]));
    assert(find_from("K2"@, 0) == find_from("K2"@, 1));
    assert(ascii_lower(species_table(1).name@[0]) != ascii_lower("K2"@[0]));
    assert(find_from("K2"@, 1) == find_from("K2"@, 2));
    assert(species_table(2).name@.len() != "K2"@.len());
    assert(find_from("K2"@, 2) == find_from("K2"@, 3));
    assert(ascii_lower(species_table(3).name@[0]) != ascii_lower("K2"@[0]));
    assert(find_from("K2"@, 3) == find_from("K2"@, 4));
    assert(ascii_lower(species_table(4).name@[0]) != ascii_lower("K2"@[0]));
    assert(find_from("K2"@, 4) == find_from("K2"@, 5));
    assert(ascii_lower(species_table(5).name@[0]) != ascii_lower("K2"@[0]));
    assert(find_from("K2"@, 5) == find_from("K2"@, 6));
    assert(ascii_lower(species_table(6).name@[0]) != ascii_lower("K2"@[0]));
    assert(find_from("K2"@, 6) == find_from("K2"@, 7));
    assert(ascii_lower(species_table(7).name@[1]) != ascii_lower("K2"@[1]));
    assert(find_from("K2"@, 7) == find_from("K2"@, 8));
    assert(ascii_lower(species_table(8).name@[0]) != ascii_lower("K2"@[0]));
    assert(find_from("K2"@, 8) == find_from("K2"@, 9));
    assert(ascii_lower(species_table(9).name@[0]) != ascii_lower("K2"@[0]));
    assert(find_from("K2"@, 9) == find_from("K2"@, 10));
    assert(ascii_lower(species_table(10).name@[0]) != ascii_lower("K2"@[0]));
    assert(find_from("K2"@, 10) == find_from("K2"@, 11));
    assert(ascii_lower(species_table(11).name@[0]) != ascii_lower("K2"@[0]));
    assert(find_from("K2"@, 11) == find_from("K2"@, 12));
    assert(species_table(12).name@.len() != "K2"@.len());
    assert(find_from("K2"@, 12) == find_from("K2"@, 13));
    assert(species_table(13).name@.len() != "K2"@.len());
    assert(find_from("K2"@, 13) == find_from("K2"@, 14));
    assert(ascii_lower(species_table(14).name@[0]) != ascii_lower("K2"@[0]));
    assert(find_from("K2"@, 14) == find_from("K2"@, 15));
    assert(species_table(15).name@.len() != "K2"@.len());
    assert(find_from("K2"@, 15) == find_from("K2"@, 16));
    assert(ascii_lower(species_table(16).name@[0]) != ascii_lower("K2"@[0]));
    assert(find_from("K2"@, 16) == find_from("K2"@, 17));
    assert(species_table(17).name@.len() != "K2"@.len());
    assert(find_from("K2"@, 17) == find_from("K2"@, 18));
    assert(ascii_lower(species_table(18).name@[0]) != ascii_lower("K2"@[0]));
    assert(find_from("K2"@, 18) == find_from("K2"@, 19));
    assert(ascii_lower(species_table(19).name@[0]) != ascii_lower("K2"@[0]));
    assert(find_from("K2"@, 19) == find_from("K2"@, 20));
    assert(ascii_lower(species_table(20).name@[0]) != ascii_lower("K2"@[0]));
    assert(find_from("K2"@, 20) == find_from("K2"@, 21));
    assert(ascii_lower(species_table(21).name@[0]) != ascii_lower("K2"@[0]));
    assert(find_from("K2"@, 21) == find_from("K2"@, 22));
    assert(eq_ignore_case(species_table(22).name@, "K2"@));
    assert(find_from("K2"@, 22) == Some(species_table(22)));
}

proof fn lemma_species_m3()
    ensures
        find_spec("M3"@) == Some(
            Species { name: "M3", coefficients: [3, 0, 0, 0, 0, 0, 0], u: NodalPhase::M3, f: NodalFactor::M3 },
        ),
{
    reveal_strlit("Z0");
    reveal_strlit("Sa");
    reveal_strlit("Ssa");
    reveal_strlit("Mm");
    reveal_strlit("Mf");
    reveal_strlit("Q1");
    reveal_strlit("O1");
    reveal_strlit("K1");
    reveal_strlit("J1");
    reveal_strlit("M1");
    reveal_strlit("P1");
    reveal_strlit("S1");
    reveal_strlit("OO1");
    reveal_strlit("2N2");
    reveal_strlit("N2");
    reveal_strlit("nu2");
    reveal_strlit("M2");
    reveal_strlit("lambda2");
    reveal_strlit("L2");
    reveal_strlit("T2");
    reveal_strlit("S2");
    reveal_strlit("R2");
    reveal_strlit("K2");
    reveal_strlit("M3");
    assert(ascii_lower(species_table(0).name@[0]) != ascii_lower("M3"@[0]));
    assert(find_from("M3"@, 0) == find_from("M3"@, 1));
    assert(ascii_lower(species_table(1).name@[0]) != ascii_lower("M3"@[0]));
    assert(find_from("M3"@, 1) == find_from("M3"@, 2));
    assert(species_table(2).name@.len() != "M3"@.len());
    assert(find_from("M3"@, 2) == find_from("M3"@, 3));
    assert(ascii_lower(species_table(3).name@[1]) != ascii_lower("M3"@[1]));
    assert(find_from("M3"@, 3) == find_from("M3"@, 4));
    assert(ascii_lower(species_table(4).name@[1]) != ascii_lower("M3"@[1]));
    assert(find_from("M3"@, 4) == find_from("M3"@, 5));
    assert(ascii_lower(species_table(5).name@[0]) != ascii_lower("M3"@[0]));
    assert(find_from("M3"@, 5) == find_from("M3"@, 6));
    assert(ascii_lower(species_table(6).name@[0]) != ascii_lower("M3"@[0]));
    assert(find_from("M3"@, 6) == find_from("M3"@, 7));
    assert(ascii_lower(species_table(7).name@[0]) != ascii_lower("M3"@[0]));
    assert(find_from("M3"@, 7) == find_from("M3"@, 8));
    assert(ascii_lower(species_table(8).name@[0]) != ascii_lower("M3"@[0]));
    assert(find_from("M3"@, 8) == find_from("M3"@, 9));
    assert(ascii_lower(species_table(9).name@[1]) != ascii_lower("M3"@[1]));
    assert(find_from("M3"@, 9) == find_from("M3"@, 10));
    assert(ascii_lower(species_table(10).name@[0]) != ascii_lower("M3"@[0]));
    assert(find_from("M3"@, 10) == find_from("M3"@, 11));
    assert(ascii_lower(species_table(11).name@[0]) != ascii_lower("M3"@[0]));
    assert(find_from("M3"@, 11) == find_from("M3"@, 12));
    assert(species_table(12).name@.len() != "M3"@.len());
    assert(find_from("M3"@, 12) == find_from("M3"@, 13));
    assert(species_table(13).name@.len() != "M3"@.len());
    assert(find_from("M3"@, 13) == find_from("M3"@, 14));
    assert(ascii_lower(species_table(14).name@[0]) != ascii_lower("M3"@[0]));
    assert(find_from("M3"@, 14) == find_from("M3"@, 15));
    assert(species_table(15).name@.len() != "M3"@.len());
    assert(find_from("M3"@, 15) == find_from("M3"@, 16));
    assert(ascii_lower(species_table(16).name@[1]) != ascii_lower("M3"@[1]));
    assert(find_from("M3"@, 16) == find_from("M3"@, 17));
    assert(species_table(17).name@.len() != "M3"@.len());
    assert(find_from("M3"@, 17) == find_from("M3"@, 18));
    assert(ascii_lower(species_table(18).name@[0]) != ascii_lower("M3"@[0]));
    assert(find_from("M3"@, 18) == find_from("M3"@, 19));
    assert(ascii_lower(species_table(19).name@[0]) != ascii_lower("M3"@[0]));
    assert(find_from("M3"@, 19) == find_from("M3"@, 20));
    assert(ascii_lower(species_table(20).name@[0]) != ascii_lower("M3"@[0]));
    assert(find_from("M3"@, 20) == find_from("M3"@, 21));
    assert(ascii_lower(species_table(21).name@[0]) != ascii_lower("M3"@[0]));
    assert(find_from("M3"@, 21) == find_from("M3"@, 22));
    assert(ascii_lower(species_table(22).name@[0]) != ascii_lower("M3"@[0]));
    assert(find_from("M3"@, 22) == find_from("M3"@, 23));
    assert(eq_ignore_case(species_table(23).name@, "M3"@));
    assert(find_from("M3"@, 23) == Some(species_table(23)));
}

/// The published definition of every species (Doodson/XDO coefficients
/// against `[T+h-s, s, h, p, N, pp, 90]`, and Schureman's nodal
/// corrections): looking up each name gives exactly these values.
pub proof fn lemma_published_species()
    ensures
        find_spec("Z0"@) == Some(
            Species { name: "Z0", coefficients: [0, 0, 0, 0, 0, 0, 0], u: NodalPhase::Zero, f: NodalFactor::Unity },
        ),
        find_spec("Sa"@) == Some(
            Species { name: "Sa", coefficients: [0, 0, 1, 0, 0, 0, 0], u: NodalPhase::Zero, f: NodalFactor::Unity },
        ),
        find_spec("Ssa"@) == Some(
            Species { name: "Ssa", coefficients: [0, 0, 2, 0, 0, 0, 0], u: NodalPhase::Zero, f: NodalFactor::Unity },
        ),
        find_spec("Mm"@) == Some(
            Species { name: "Mm", coefficients: [0, 1, 0, -1i32, 0, 0, 0], u: NodalPhase::Zero, f: NodalFactor::Mm },
        ),
        find_spec("Mf"@) == Some(
            Species { name: "Mf", coefficients: [0, 2, 0, 0, 0, 0, 0], u: NodalPhase::Mf, f: NodalFactor::Mf },
        ),
        find_spec("Q1"@) == Some(
            Species { name: "Q1", coefficients: [1, -2i32, 0, 1, 0, 0, 1], u: NodalPhase::O1, f: NodalFactor::O1 },
        ),
        find_spec("O1"@) == Some(
            Species { name: "O1", coefficients: [1, -1i32, 0, 0, 0, 0, 1], u: NodalPhase::O1, f: NodalFactor::O1 },
        ),
        find_spec("K1"@) == Some(
            Species { name: "K1", coefficients: [1, 1, 0, 0, 0, 0, -1i32], u: NodalPhase::K1, f: NodalFactor::K1 },
        ),
        find_spec("J1"@) == Some(
            Species { name: "J1", coefficients: [1, 2, 0, -1i32, 0, 0, -1i32], u: NodalPhase::J1, f: NodalFactor::J1 },
        ),
        find_spec("M1"@) == Some(
            Species { name: "M1", coefficients: [1, 0, 0, 0, 0, 0, 1], u: NodalPhase::M1, f: NodalFactor::M1 },
        ),
        find_spec("P1"@) == Some(
            Species { name: "P1", coefficients: [1, 1, -2i32, 0, 0, 0, 1], u: NodalPhase::Zero, f: NodalFactor::Unity },
        ),
        find_spec("S1"@) == Some(
            Species { name: "S1", coefficients: [1, 1, -1i32, 0, 0, 0, 0], u: NodalPhase::Zero, f: NodalFactor::Unity },
        ),
        find_spec("OO1"@) == Some(
            Species { name: "OO1", coefficients: [1, 3, 0, 0, 0, 0, -1i32], u: NodalPhase::OO1, f: NodalFactor::OO1 },
        ),
        find_spec("2N2"@) == Some(
            Species { name: "2N2", coefficients: [2, -2i32, 0, 2, 0, 0, 0], u: NodalPhase::M2, f: NodalFactor::M2 },
        ),
        find_spec("N2"@) == Some(
            Species { name: "N2", coefficients: [2, -1i32, 0, 1, 0, 0, 0], u: NodalPhase::M2, f: NodalFactor::M2 },
        ),
        find_spec("nu2"@) == Some(
            Species { name: "nu2", coefficients: [2, -1i32, 2, -1i32, 0, 0, 0], u: NodalPhase::M2, f: NodalFactor::M2 },
        ),
        find_spec("M2"@) == Some(
            Species { name: "M2", coefficients: [2, 0, 0, 0, 0, 0, 0], u: NodalPhase::M2, f: NodalFactor::M2 },
        ),
        find_spec("lambda2"@) == Some(
            Species { name: "lambda2", coefficients: [2, 1, -2i32, 1, 0, 0, 2], u: NodalPhase::M2, f: NodalFactor::M2 },
        ),
        find_spec("L2"@) == Some(
            Species { name: "L2", coefficients: [2, 1, 0, -1i32, 0, 0, 2], u: NodalPhase::L2, f: NodalFactor::L2 },
        ),
        find_spec("T2"@) == Some(
            Species { name: "T2", coefficients: [2, 2, -3i32, 0, 0, 1, 0], u: NodalPhase::Zero, f: NodalFactor::Unity },
        ),
        find_spec("S2"@) == Some(
            Species { name: "S2", coefficients: [2, 2, -2i32, 0, 0, 0, 0], u: NodalPhase::Zero, f: NodalFactor::Unity },
        ),
        find_spec("R2"@) == Some(
            Species { name: "R2", coefficients: [2, 2, -1i32, 0, 0, -1i32, 2], u: NodalPhase::Zero, f: NodalFactor::Unity },
        ),
        find_spec("K2"@) == Some(
            Species { name: "K2", coefficients: [2, 2, 0, 0, 0, 0, 0], u: NodalPhase::K2, f: NodalFactor::K2 },
        ),
        find_spec("M3"@) == Some(
            Species { name: "M3", coefficients: [3, 0, 0, 0, 0, 0, 0], u: NodalPhase::M3, f: NodalFactor::M3 },
        ),
{
    lemma_species_z0();
    lemma_species_sa();
    lemma_species_ssa();
    lemma_species_mm();
    lemma_species_mf();
    lemma_species_q1();
    lemma_species_o1();
    lemma_species_k1();
    lemma_species_j1();
    lemma_species_m1();
    lemma_species_p1();
    lemma_species_s1();
    lemma_species_oo1();
    lemma_species_2n2();
    lemma_species_n2();
    lemma_species_nu2();
    lemma_species_m2();
    lemma_species_lambda2();
    lemma_species_l2();
    lemma_species_t2();
    lemma_species_s2();
    lemma_species_r2();
    lemma_species_k2();
    lemma_species_m3();
}

} // verus!
