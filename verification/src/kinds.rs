//! Kinds of violations and of levels, and what each check reports of them.

use vstd::prelude::*;
use crate::binary64::{less, negative, off_circle};
use crate::counting::{all, lemma_all_concat, lemma_all_gather, lemma_tally_concat, tally};
use crate::error::ValidationError;
use crate::model::{
    below_at, direction_error, direction_errors, direction_steps, falls_at, gather,
    height_order_errors, height_seed, height_steps, length_error, length_errors, negative_sample,
    negative_speed, presence_errors, pressure_order_errors, pressure_seed, pressure_steps,
    relation_errors, relation_steps, relational_errors, rises_at, shorter, sign_error,
    sign_errors, sign_steps, speed_error, speed_steps, stray_direction, violations, Relation,
};
use crate::snapshot::{SnapshotView, Wind};

verus! {

/// The kind of a missing pressure profile.
pub open spec fn missing_pressure() -> spec_fn(ValidationError) -> bool {
    |e: ValidationError| e is NoPressureProfile
}

/// The kind of a profile of the wrong length.
pub open spec fn wrong_length() -> spec_fn(ValidationError) -> bool {
    |e: ValidationError| e is InvalidVectorLength
}

/// The kind of a wrong length of the profile called `name`.
pub open spec fn wrong_length_of(name: &'static str) -> spec_fn(ValidationError) -> bool {
    |e: ValidationError| e is InvalidVectorLength && e->InvalidVectorLength_0 == name
}

/// The kind of a pressure that rises or a height that falls.
pub open spec fn out_of_order() -> spec_fn(ValidationError) -> bool {
    |e: ValidationError| e is PressureNotDecreasingWithHeight
}

/// The kind of a violation of `rel`.
pub open spec fn breaks(rel: Relation) -> spec_fn(ValidationError) -> bool {
    |e: ValidationError|
        match rel {
            Relation::TemperatureWetBulb => e is TemperatureLessThanWetBulb,
            Relation::TemperatureDewPoint => e is TemperatureLessThanDewPoint,
            Relation::WetBulbDewPoint => e is WetBulbLessThanDewPoint,
        }
}

/// The kind of any violation of one of the three relations.
pub open spec fn breaks_any() -> spec_fn(ValidationError) -> bool {
    |e: ValidationError|
        e is TemperatureLessThanWetBulb || e is TemperatureLessThanDewPoint
            || e is WetBulbLessThanDewPoint
}

/// The kind of a value below zero.
pub open spec fn below_zero() -> spec_fn(ValidationError) -> bool {
    |e: ValidationError| e is InvalidNegativeValue
}

/// The kind of a wind direction out of range.
pub open spec fn off_range() -> spec_fn(ValidationError) -> bool {
    |e: ValidationError| e is InvalidWindDirection
}

/// The kind that holds `e0` alone.
pub open spec fn exactly(e0: ValidationError) -> spec_fn(ValidationError) -> bool {
    |e: ValidationError| e == e0
}

/// Each check reports violations of its own kind only.
pub proof fn lemma_kinds(s: SnapshotView)
    ensures
        all(presence_errors(s), missing_pressure()),
        all(length_errors(s), wrong_length()),
        all(pressure_order_errors(s), out_of_order()),
        all(height_order_errors(s), out_of_order()),
        all(relational_errors(s), breaks_any()),
        all(sign_errors(s), below_zero()),
        all(direction_errors(s), off_range()),
{
    let n = s.pressure.len();
    // lengths
    let q = wrong_length();
    let l1 = length_error("Temperature", s.temperature.len(), n);
    let l2 = length_error("Wet bulb temperature", s.wet_bulb.len(), n);
    let l3 = length_error("Dew point", s.dew_point.len(), n);
    let l4 = length_error("Theta-e", s.theta_e.len(), n);
    let l5 = length_error("Wind", s.wind.len(), n);
    let l6 = length_error("Omega (pressure vertical velocity)", s.pvv.len(), n);
    let l7 = length_error("Height", s.height.len(), n);
    let l8 = length_error("Cloud fraction", s.cloud_fraction.len(), n);
    lemma_all_concat(l1, l2, q);
    lemma_all_concat(l1 + l2, l3, q);
    lemma_all_concat(l1 + l2 + l3, l4, q);
    lemma_all_concat(l1 + l2 + l3 + l4, l5, q);
    lemma_all_concat(l1 + l2 + l3 + l4 + l5, l6, q);
    lemma_all_concat(l1 + l2 + l3 + l4 + l5 + l6, l7, q);
    lemma_all_concat(l1 + l2 + l3 + l4 + l5 + l6 + l7, l8, q);
    // ordering
    lemma_all_gather(
        s.pressure.len() as int,
        pressure_steps(s.pressure, pressure_seed(s)),
        out_of_order(),
    );
    lemma_all_gather(s.height.len() as int, height_steps(s.height, height_seed(s)), out_of_order());
    // relations
    lemma_relation_kinds(Relation::TemperatureWetBulb, s.temperature, s.wet_bulb);
    lemma_relation_kinds(Relation::TemperatureDewPoint, s.temperature, s.dew_point);
    lemma_relation_kinds(Relation::WetBulbDewPoint, s.wet_bulb, s.dew_point);
    let r1 = relation_errors(Relation::TemperatureWetBulb, s.temperature, s.wet_bulb);
    let r2 = relation_errors(Relation::TemperatureDewPoint, s.temperature, s.dew_point);
    let r3 = relation_errors(Relation::WetBulbDewPoint, s.wet_bulb, s.dew_point);
    lemma_all_concat(r1, r2, breaks_any());
    lemma_all_concat(r1 + r2, r3, breaks_any());
    // signs
    let z = below_zero();
    let g1 = gather(s.wind.len() as int, speed_steps(s.wind));
    let g2 = gather(s.cloud_fraction.len() as int, sign_steps("Cloud fraction", s.cloud_fraction));
    let g3 = sign_error("Low cloud", s.low_cloud);
    let g4 = sign_error("Mid cloud", s.mid_cloud);
    let g5 = sign_error("Hi cloud", s.high_cloud);
    let g6 = speed_error(s.sfc_wind);
    let g7 = sign_error("MSLP", s.mslp);
    let g8 = sign_error("Station pressure", s.station_pressure);
    lemma_all_gather(s.wind.len() as int, speed_steps(s.wind), z);
    lemma_all_gather(
        s.cloud_fraction.len() as int,
        sign_steps("Cloud fraction", s.cloud_fraction),
        z,
    );
    lemma_all_concat(g1, g2, z);
    lemma_all_concat(g1 + g2, g3, z);
    lemma_all_concat(g1 + g2 + g3, g4, z);
    lemma_all_concat(g1 + g2 + g3 + g4, g5, z);
    lemma_all_concat(g1 + g2 + g3 + g4 + g5, g6, z);
    lemma_all_concat(g1 + g2 + g3 + g4 + g5 + g6, g7, z);
    lemma_all_concat(g1 + g2 + g3 + g4 + g5 + g6 + g7, g8, z);
    // directions
    lemma_all_gather(s.wind.len() as int, direction_steps(s.wind), off_range());
    lemma_all_concat(
        gather(s.wind.len() as int, direction_steps(s.wind)),
        direction_error(s.sfc_wind),
        off_range(),
    );
}

/// The check of one relation reports violations of that relation only.
pub proof fn lemma_relation_kinds(rel: Relation, upper: Seq<Option<u64>>, lower: Seq<Option<u64>>)
    ensures
        all(relation_errors(rel, upper, lower), breaks(rel)),
        all(relation_errors(rel, upper, lower), breaks_any()),
{
    let n = shorter(upper.len() as int, lower.len() as int);
    lemma_all_gather(n, relation_steps(rel, upper, lower), breaks(rel));
    lemma_all_gather(n, relation_steps(rel, upper, lower), breaks_any());
}

/// A count over the whole report is the sum of the counts over the checks.
pub proof fn lemma_tally_violations(s: SnapshotView, p: spec_fn(ValidationError) -> bool)
    ensures
        tally(violations(s), p) == tally(presence_errors(s), p) + tally(length_errors(s), p)
            + tally(pressure_order_errors(s), p) + tally(height_order_errors(s), p) + tally(
            relational_errors(s),
            p,
        ) + tally(sign_errors(s), p) + tally(direction_errors(s), p),
{
    let a = presence_errors(s);
    let b = length_errors(s);
    let c = pressure_order_errors(s);
    let d = height_order_errors(s);
    let e = relational_errors(s);
    let f = sign_errors(s);
    let g = direction_errors(s);
    lemma_tally_concat(a, b, p);
    lemma_tally_concat(a + b, c, p);
    lemma_tally_concat(a + b + c, d, p);
    lemma_tally_concat(a + b + c + d, e, p);
    lemma_tally_concat(a + b + c + d + e, f, p);
    lemma_tally_concat(a + b + c + d + e + f, g, p);
}

/// The levels at which pressure rises.
pub open spec fn rises(levels: Seq<Option<u64>>, seed: u64) -> spec_fn(int) -> bool {
    |i: int| rises_at(levels, seed, i)
}

/// The levels at which height falls.
pub open spec fn falls(levels: Seq<Option<u64>>, seed: u64) -> spec_fn(int) -> bool {
    |i: int| falls_at(levels, seed, i)
}

/// The levels at which `upper` is below `lower`, both being present.
pub open spec fn below(upper: Seq<Option<u64>>, lower: Seq<Option<u64>>) -> spec_fn(int) -> bool {
    |i: int| below_at(upper, lower, i)
}

/// The levels at which a sample is present and below zero.
pub open spec fn negative_in(levels: Seq<Option<u64>>) -> spec_fn(int) -> bool {
    |i: int| negative_sample(levels[i])
}

/// The levels at which a wind is present and its speed is below zero.
pub open spec fn negative_speed_in(winds: Seq<Option<Wind>>) -> spec_fn(int) -> bool {
    |i: int| negative_speed(winds[i])
}

/// The levels at which a wind is present and its direction is out of range.
pub open spec fn stray_in(winds: Seq<Option<Wind>>) -> spec_fn(int) -> bool {
    |i: int| stray_direction(winds[i])
}

/// The kind of a violation whose values do break the rule it names.
pub open spec fn genuine() -> spec_fn(ValidationError) -> bool {
    |e: ValidationError|
        match e {
            ValidationError::TemperatureLessThanWetBulb(t, wb) => less(t, wb),
            ValidationError::TemperatureLessThanDewPoint(t, dp) => less(t, dp),
            ValidationError::WetBulbLessThanDewPoint(wb, dp) => less(wb, dp),
            ValidationError::InvalidNegativeValue(_, x) => negative(x),
            ValidationError::InvalidWindDirection(d) => off_circle(d),
            _ => true,
        }
}

} // verus!
