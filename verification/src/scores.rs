//! Fixed-point scores.
//!
//! Scores and confidences in this crate are fractions of one, held as
//! exact integers in millionths so that every arithmetic step is exact
//! and deterministic. `1_000_000` stands for `1.0`, `950_000` for `0.95`,
//! and so on.

use vstd::prelude::*;

verus! {

/// A fraction of one, in millionths. `SCORE_ONE` stands for `1.0`.
pub type Micros = u32;

/// The fixed-point representation of `1.0`.
pub const SCORE_ONE: Micros = 1_000_000;

/// Clamps a fixed-point value into `[0, SCORE_ONE]`.
pub open spec fn spec_clamp_to_one(x: int) -> int {
    if x < 0 {
        0
    } else if x > SCORE_ONE {
        SCORE_ONE as int
    } else {
        x
    }
}

/// Clamps a fixed-point value into `[0, SCORE_ONE]`.
pub fn clamp_to_one(x: u32) -> (r: Micros)
    ensures
        r == spec_clamp_to_one(x as int),
{
    if x > SCORE_ONE {
        SCORE_ONE
    } else {
        x
    }
}

} // verus!
