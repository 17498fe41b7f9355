//! What a validation run reports, stated over sequences.
//!
//! Each check is a function from a level's index to the violations found at
//! that level; `gather` lines these up from the lowest level to the highest.
//! `violations` puts the checks one after the other.

use vstd::prelude::*;
use crate::binary64::{less, negative, off_circle, INFINITY, NEG_INFINITY};
use crate::error::ValidationError;
use crate::snapshot::{SnapshotView, Wind};

verus! {

/// A pair of temperatures of which the first may not be below the second.
#[derive(Clone, Copy, Debug, PartialEq, Eq)]
pub enum Relation {
    TemperatureWetBulb,
    TemperatureDewPoint,
    WetBulbDewPoint,
}

impl Relation {
    /// The violation of this relation by `upper` and `lower`.
    pub open spec fn violation(self, upper: u64, lower: u64) -> ValidationError {
        match self {
            Relation::TemperatureWetBulb => ValidationError::TemperatureLessThanWetBulb(
                upper,
                lower,
            ),
            Relation::TemperatureDewPoint => ValidationError::TemperatureLessThanDewPoint(
                upper,
                lower,
            ),
            Relation::WetBulbDewPoint => ValidationError::WetBulbLessThanDewPoint(upper, lower),
        }
    }
}

/// `e` alone if `failed`, else nothing.
pub open spec fn one_if(failed: bool, e: ValidationError) -> Seq<ValidationError> {
    if failed {
        seq![e]
    } else {
        Seq::empty()
    }
}

/// The violations of levels `0..n`, in order, where `at(i)` are those of
/// level `i`.
pub open spec fn gather(n: int, at: spec_fn(int) -> Seq<ValidationError>) -> Seq<
    ValidationError,
>
    decreases n,
{
    if n <= 0 {
        Seq::empty()
    } else {
        gather(n - 1, at) + at(n - 1)
    }
}

/// Joining sequences gives the same whichever join is made first.
pub proof fn lemma_concat_assoc(
    a: Seq<ValidationError>,
    b: Seq<ValidationError>,
    c: Seq<ValidationError>,
)
    ensures
        (a + b) + c == a + (b + c),
{
    assert((a + b) + c =~= a + (b + c));
}

/// The last sample present below level `i`, or `seed` if there is none. For
/// an `i` beyond the profile it is `seed` as well.
pub open spec fn previous(levels: Seq<Option<u64>>, seed: u64, i: int) -> u64
    decreases i,
{
    if i <= 0 || i > levels.len() {
        seed
    } else {
        match levels[i - 1] {
            Some(v) => v,
            None => previous(levels, seed, i - 1),
        }
    }
}

/// `bound` where there is one, else `unbounded`.
pub open spec fn seed_or(bound: Option<u64>, unbounded: u64) -> u64 {
    match bound {
        Some(b) => b,
        None => unbounded,
    }
}

/// What the pressure profile is compared with at its lowest level: the
/// station pressure, or else a bound that no pressure exceeds.
pub open spec fn pressure_seed(s: SnapshotView) -> u64 {
    seed_or(s.station_pressure, INFINITY)
}

/// What the height profile is compared with at its lowest level: the
/// station's elevation, or else a bound that no height is below.
pub open spec fn height_seed(s: SnapshotView) -> u64 {
    seed_or(s.elevation, NEG_INFINITY)
}

/// Whether pressure rises on the way up to level `i`.
pub open spec fn rises_at(levels: Seq<Option<u64>>, seed: u64, i: int) -> bool {
    0 <= i < levels.len() && levels[i] is Some && less(
        previous(levels, seed, i),
        levels[i]->Some_0,
    )
}

/// Whether height falls on the way up to level `i`.
pub open spec fn falls_at(levels: Seq<Option<u64>>, seed: u64, i: int) -> bool {
    0 <= i < levels.len() && levels[i] is Some && less(
        levels[i]->Some_0,
        previous(levels, seed, i),
    )
}

/// Whether both samples are present at level `i` and `upper` is below `lower`.
pub open spec fn below_at(upper: Seq<Option<u64>>, lower: Seq<Option<u64>>, i: int) -> bool {
    0 <= i < upper.len() && i < lower.len() && upper[i] is Some && lower[i] is Some && less(
        upper[i]->Some_0,
        lower[i]->Some_0,
    )
}

/// Whether a sample is present and below zero.
pub open spec fn negative_sample(x: Option<u64>) -> bool {
    x is Some && negative(x->Some_0)
}

/// Whether a wind is present and its speed is below zero.
pub open spec fn negative_speed(w: Option<Wind>) -> bool {
    w is Some && negative(w->Some_0.speed)
}

/// Whether a wind is present and its direction is outside 0 to 360.
pub open spec fn stray_direction(w: Option<Wind>) -> bool {
    w is Some && off_circle(w->Some_0.direction)
}

/// The two profiles that `rel` compares: the one that may not be below, then
/// the other.
pub open spec fn operands(s: SnapshotView, rel: Relation) -> (Seq<Option<u64>>, Seq<Option<u64>>) {
    match rel {
        Relation::TemperatureWetBulb => (s.temperature, s.wet_bulb),
        Relation::TemperatureDewPoint => (s.temperature, s.dew_point),
        Relation::WetBulbDewPoint => (s.wet_bulb, s.dew_point),
    }
}

/// The presence check: the pressure profile may not be empty.
pub open spec fn presence_errors(s: SnapshotView) -> Seq<ValidationError> {
    one_if(s.pressure.len() == 0, ValidationError::NoPressureProfile)
}

/// Whether a profile of length `len` is neither empty nor `expected` long.
pub open spec fn mismatch(len: nat, expected: nat) -> bool {
    len != 0 && len != expected
}

/// The length check of one profile of length `len` against `expected`.
pub open spec fn length_error(name: &'static str, len: nat, expected: nat) -> Seq<
    ValidationError,
> {
    one_if(
        mismatch(len, expected),
        ValidationError::InvalidVectorLength(name, len as usize, expected as usize),
    )
}

/// The length checks, in the order of the profiles.
pub open spec fn length_errors(s: SnapshotView) -> Seq<ValidationError> {
    let n = s.pressure.len();
    length_error("Temperature", s.temperature.len(), n)
        + length_error("Wet bulb temperature", s.wet_bulb.len(), n)
        + length_error("Dew point", s.dew_point.len(), n)
        + length_error("Theta-e", s.theta_e.len(), n)
        + length_error("Wind", s.wind.len(), n)
        + length_error("Omega (pressure vertical velocity)", s.pvv.len(), n)
        + length_error("Height", s.height.len(), n)
        + length_error("Cloud fraction", s.cloud_fraction.len(), n)
}

/// The pressure ordering check at each level.
pub open spec fn pressure_steps(levels: Seq<Option<u64>>, seed: u64) -> spec_fn(int) -> Seq<
    ValidationError,
> {
    |i: int| one_if(rises_at(levels, seed, i), ValidationError::PressureNotDecreasingWithHeight)
}

/// The height ordering check at each level.
pub open spec fn height_steps(levels: Seq<Option<u64>>, seed: u64) -> spec_fn(int) -> Seq<
    ValidationError,
> {
    |i: int| one_if(falls_at(levels, seed, i), ValidationError::PressureNotDecreasingWithHeight)
}

/// The check of one relation at each level.
pub open spec fn relation_steps(
    rel: Relation,
    upper: Seq<Option<u64>>,
    lower: Seq<Option<u64>>,
) -> spec_fn(int) -> Seq<ValidationError> {
    |i: int| one_if(below_at(upper, lower, i), rel.violation(upper[i]->Some_0, lower[i]->Some_0))
}

/// The sign check of one sample or surface value.
pub open spec fn sign_error(name: &'static str, x: Option<u64>) -> Seq<ValidationError> {
    one_if(negative_sample(x), ValidationError::InvalidNegativeValue(name, x->Some_0))
}

/// The sign check of a wind's speed.
pub open spec fn speed_error(w: Option<Wind>) -> Seq<ValidationError> {
    one_if(negative_speed(w), ValidationError::InvalidNegativeValue("Wind speed", w->Some_0.speed))
}

/// The range check of a wind's direction.
pub open spec fn direction_error(w: Option<Wind>) -> Seq<ValidationError> {
    one_if(stray_direction(w), ValidationError::InvalidWindDirection(w->Some_0.direction))
}

/// The sign check of a profile at each level.
pub open spec fn sign_steps(name: &'static str, levels: Seq<Option<u64>>) -> spec_fn(int) -> Seq<
    ValidationError,
> {
    |i: int| sign_error(name, levels[i])
}

/// The sign check of the wind profile's speeds at each level.
pub open spec fn speed_steps(winds: Seq<Option<Wind>>) -> spec_fn(int) -> Seq<ValidationError> {
    |i: int| speed_error(winds[i])
}

/// The range check of the wind profile's directions at each level.
pub open spec fn direction_steps(winds: Seq<Option<Wind>>) -> spec_fn(int) -> Seq<
    ValidationError,
> {
    |i: int| direction_error(winds[i])
}

/// The smaller of two lengths.
pub open spec fn shorter(a: int, b: int) -> int {
    if a <= b {
        a
    } else {
        b
    }
}

/// The pressure ordering check over the whole profile.
pub open spec fn pressure_order_errors(s: SnapshotView) -> Seq<ValidationError> {
    gather(s.pressure.len() as int, pressure_steps(s.pressure, pressure_seed(s)))
}

/// The height ordering check over the whole profile.
pub open spec fn height_order_errors(s: SnapshotView) -> Seq<ValidationError> {
    gather(s.height.len() as int, height_steps(s.height, height_seed(s)))
}

/// One relation over the levels that both profiles have.
pub open spec fn relation_errors(
    rel: Relation,
    upper: Seq<Option<u64>>,
    lower: Seq<Option<u64>>,
) -> Seq<ValidationError> {
    gather(shorter(upper.len() as int, lower.len() as int), relation_steps(rel, upper, lower))
}

/// The three relations, each over all levels before the next.
pub open spec fn relational_errors(s: SnapshotView) -> Seq<ValidationError> {
    relation_errors(Relation::TemperatureWetBulb, s.temperature, s.wet_bulb)
        + relation_errors(Relation::TemperatureDewPoint, s.temperature, s.dew_point)
        + relation_errors(Relation::WetBulbDewPoint, s.wet_bulb, s.dew_point)
}

/// The sign checks: the two profiles, then the surface values.
pub open spec fn sign_errors(s: SnapshotView) -> Seq<ValidationError> {
    gather(s.wind.len() as int, speed_steps(s.wind))
        + gather(s.cloud_fraction.len() as int, sign_steps("Cloud fraction", s.cloud_fraction))
        + sign_error("Low cloud", s.low_cloud)
        + sign_error("Mid cloud", s.mid_cloud)
        + sign_error("Hi cloud", s.high_cloud)
        + speed_error(s.sfc_wind)
        + sign_error("MSLP", s.mslp)
        + sign_error("Station pressure", s.station_pressure)
}

/// The wind direction checks: the profile, then the surface wind.
pub open spec fn direction_errors(s: SnapshotView) -> Seq<ValidationError> {
    gather(s.wind.len() as int, direction_steps(s.wind)) + direction_error(s.sfc_wind)
}

/// Everything that is wrong with `s`, in the order of the checks.
pub open spec fn violations(s: SnapshotView) -> Seq<ValidationError> {
    presence_errors(s)
        + length_errors(s)
        + pressure_order_errors(s)
        + height_order_errors(s)
        + relational_errors(s)
        + sign_errors(s)
        + direction_errors(s)
}

} // verus!
