//! The checks themselves.

use vstd::prelude::*;
use crate::binary64::{is_negative, is_off_circle, less_than, INFINITY, NEG_INFINITY};
use crate::error::{ValidationError, ValidationErrors};
use crate::model::{
    direction_error, direction_errors, direction_steps, gather, height_order_errors,
    height_steps, lemma_concat_assoc, length_error, length_errors, presence_errors,
    pressure_order_errors, pressure_steps, previous, relation_errors, relation_steps,
    relational_errors, shorter, sign_error, sign_errors, sign_steps, speed_error, speed_steps,
    violations, Relation,
};
use crate::snapshot::{Snapshot, Wind};
use crate::sounding::{reading, snapshot_of};
use sounding_base::Sounding;

verus! {

/// Pressure is the vertical coordinate: its profile may not be empty.
pub fn check_pressure_exists(pressure: &[Option<u64>]) -> (r: Result<(), ValidationError>)
    ensures
        r is Err <==> pressure@.len() == 0,
        r is Err ==> r->Err_0 == ValidationError::NoPressureProfile,
{
    if pressure.is_empty() {
        Err(ValidationError::NoPressureProfile)
    } else {
        Ok(())
    }
}

/// A profile is either empty or `len` long.
pub fn validate_vector_len<T>(vec: &[T], len: usize, var_name: &'static str) -> (r: Result<
    (),
    ValidationError,
>)
    ensures
        r is Err <==> vec.len() != 0 && vec.len() != len,
        r is Err ==> r->Err_0 == ValidationError::InvalidVectorLength(var_name, vec.len(), len),
{
    if !vec.is_empty() && vec.len() != len {
        Err(ValidationError::InvalidVectorLength(var_name, vec.len(), len))
    } else {
        Ok(())
    }
}

/// The violation of `rel` by `upper` and `lower`.
fn violation_of(rel: Relation, upper: u64, lower: u64) -> (e: ValidationError)
    ensures
        e == rel.violation(upper, lower),
{
    match rel {
        Relation::TemperatureWetBulb => ValidationError::TemperatureLessThanWetBulb(upper, lower),
        Relation::TemperatureDewPoint => ValidationError::TemperatureLessThanDewPoint(
            upper,
            lower,
        ),
        Relation::WetBulbDewPoint => ValidationError::WetBulbLessThanDewPoint(upper, lower),
    }
}

/// Pressure may not rise from one present sample to the next one up.
fn check_pressure_order(levels: &[Option<u64>], seed: u64, errs: &mut ValidationErrors)
    ensures
        final(errs)@ == old(errs)@ + gather(levels@.len() as int, pressure_steps(levels@, seed)),
{
    let mut below: u64 = seed;
    let mut i: usize = 0;
    assert(errs@ =~= old(errs)@ + gather(0, pressure_steps(levels@, seed)));
    while i < levels.len()
        invariant
            i <= levels@.len(),
            below == previous(levels@, seed, i as int),
            errs@ == old(errs)@ + gather(i as int, pressure_steps(levels@, seed)),
        decreases levels@.len() - i,
    {
        let ghost before = errs@;
        if let Some(p) = levels[i] {
            if less_than(below, p) {
                errs.push_error(Err(ValidationError::PressureNotDecreasingWithHeight));
            }
            below = p;
        }
        i += 1;
        assert(errs@ =~= before + pressure_steps(levels@, seed)(i - 1));
        assert(errs@ =~= old(errs)@ + gather(i as int, pressure_steps(levels@, seed)));
    }
}

/// Height may not fall from one present sample to the next one up.
fn check_height_order(levels: &[Option<u64>], seed: u64, errs: &mut ValidationErrors)
    ensures
        final(errs)@ == old(errs)@ + gather(levels@.len() as int, height_steps(levels@, seed)),
{
    let mut below: u64 = seed;
    let mut i: usize = 0;
    assert(errs@ =~= old(errs)@ + gather(0, height_steps(levels@, seed)));
    while i < levels.len()
        invariant
            i <= levels@.len(),
            below == previous(levels@, seed, i as int),
            errs@ == old(errs)@ + gather(i as int, height_steps(levels@, seed)),
        decreases levels@.len() - i,
    {
        let ghost before = errs@;
        if let Some(h) = levels[i] {
            if less_than(h, below) {
                errs.push_error(Err(ValidationError::PressureNotDecreasingWithHeight));
            }
            below = h;
        }
        i += 1;
        assert(errs@ =~= before + height_steps(levels@, seed)(i - 1));
        assert(errs@ =~= old(errs)@ + gather(i as int, height_steps(levels@, seed)));
    }
}

/// Pressure falls and height rises with the level. The lowest level is held
/// against the station's pressure and elevation where they are known.
pub fn check_vertical_height_pressure(s: &Snapshot, errs: &mut ValidationErrors)
    ensures
        final(errs)@ == old(errs)@ + pressure_order_errors(s@) + height_order_errors(s@),
{
    let pressure_below: u64 = match s.station_pressure {
        Some(p) => p,
        None => INFINITY,
    };
    check_pressure_order(s.pressure.as_slice(), pressure_below, errs);
    let height_below: u64 = match s.elevation {
        Some(h) => h,
        None => NEG_INFINITY,
    };
    check_height_order(s.height.as_slice(), height_below, errs);
}

/// At each level that both profiles have, `upper` may not be below `lower`.
fn check_relation(
    rel: Relation,
    upper: &[Option<u64>],
    lower: &[Option<u64>],
    errs: &mut ValidationErrors,
)
    ensures
        final(errs)@ == old(errs)@ + relation_errors(rel, upper@, lower@),
{
    let n: usize = if upper.len() <= lower.len() {
        upper.len()
    } else {
        lower.len()
    };
    let mut i: usize = 0;
    assert(errs@ =~= old(errs)@ + gather(0, relation_steps(rel, upper@, lower@)));
    while i < n
        invariant
            i <= n,
            n == shorter(upper@.len() as int, lower@.len() as int),
            errs@ == old(errs)@ + gather(i as int, relation_steps(rel, upper@, lower@)),
        decreases n - i,
    {
        let ghost before = errs@;
        if let Some(a) = upper[i] {
            if let Some(b) = lower[i] {
                if less_than(a, b) {
                    errs.push_error(Err(violation_of(rel, a, b)));
                }
            }
        }
        i += 1;
        assert(errs@ =~= before + relation_steps(rel, upper@, lower@)(i - 1));
        assert(errs@ =~= old(errs)@ + gather(i as int, relation_steps(rel, upper@, lower@)));
    }
}

/// Dew point is at most wet bulb temperature, which is at most temperature.
pub fn check_temp_wet_bulb_dew_point(s: &Snapshot, ve: &mut ValidationErrors)
    ensures
        final(ve)@ == old(ve)@ + relational_errors(s@),
{
    let temperature = s.temperature.as_slice();
    let wet_bulb = s.wet_bulb.as_slice();
    let dew_point = s.dew_point.as_slice();
    let ghost e0 = ve@;
    let ghost r1 = relation_errors(Relation::TemperatureWetBulb, temperature@, wet_bulb@);
    let ghost r2 = relation_errors(Relation::TemperatureDewPoint, temperature@, dew_point@);
    let ghost r3 = relation_errors(Relation::WetBulbDewPoint, wet_bulb@, dew_point@);
    check_relation(Relation::TemperatureWetBulb, temperature, wet_bulb, ve);
    check_relation(Relation::TemperatureDewPoint, temperature, dew_point, ve);
    check_relation(Relation::WetBulbDewPoint, wet_bulb, dew_point, ve);
    proof {
        lemma_concat_assoc(e0, r1, r2);
        lemma_concat_assoc(e0, r1 + r2, r3);
    }
}

/// A value that is present may not be below zero.
pub fn validate_positive(x: Option<u64>, name: &'static str, errs: &mut ValidationErrors)
    ensures
        final(errs)@ == old(errs)@ + sign_error(name, x),
{
    if let Some(val) = x {
        if is_negative(val) {
            errs.push_error(Err(ValidationError::InvalidNegativeValue(name, val)));
        }
    }
    assert(errs@ =~= old(errs)@ + sign_error(name, x));
}

/// The speed of a wind that is present may not be below zero.
pub fn validate_wind_speed(w: Option<Wind>, errs: &mut ValidationErrors)
    ensures
        final(errs)@ == old(errs)@ + speed_error(w),
{
    if let Some(wind) = w {
        if is_negative(wind.speed) {
            errs.push_error(Err(ValidationError::InvalidNegativeValue("Wind speed", wind.speed)));
        }
    }
    assert(errs@ =~= old(errs)@ + speed_error(w));
}

/// The direction of a wind that is present lies between 0 and 360 degrees.
pub fn validate_wind_direction(w: Option<Wind>, errs: &mut ValidationErrors)
    ensures
        final(errs)@ == old(errs)@ + direction_error(w),
{
    if let Some(wind) = w {
        if is_off_circle(wind.direction) {
            errs.push_error(Err(ValidationError::InvalidWindDirection(wind.direction)));
        }
    }
    assert(errs@ =~= old(errs)@ + direction_error(w));
}

/// No present sample of a profile may be below zero.
fn check_profile_signs(levels: &[Option<u64>], name: &'static str, errs: &mut ValidationErrors)
    ensures
        final(errs)@ == old(errs)@ + gather(levels@.len() as int, sign_steps(name, levels@)),
{
    let mut i: usize = 0;
    assert(errs@ =~= old(errs)@ + gather(0, sign_steps(name, levels@)));
    while i < levels.len()
        invariant
            i <= levels@.len(),
            errs@ == old(errs)@ + gather(i as int, sign_steps(name, levels@)),
        decreases levels@.len() - i,
    {
        validate_positive(levels[i], name, errs);
        i += 1;
        assert(errs@ =~= old(errs)@ + gather(i as int, sign_steps(name, levels@)));
    }
}

/// No present wind of a profile may have a speed below zero.
fn check_wind_speeds(winds: &[Option<Wind>], errs: &mut ValidationErrors)
    ensures
        final(errs)@ == old(errs)@ + gather(winds@.len() as int, speed_steps(winds@)),
{
    let mut i: usize = 0;
    assert(errs@ =~= old(errs)@ + gather(0, speed_steps(winds@)));
    while i < winds.len()
        invariant
            i <= winds@.len(),
            errs@ == old(errs)@ + gather(i as int, speed_steps(winds@)),
        decreases winds@.len() - i,
    {
        validate_wind_speed(winds[i], errs);
        i += 1;
        assert(errs@ =~= old(errs)@ + gather(i as int, speed_steps(winds@)));
    }
}

/// Every present wind of a profile has its direction between 0 and 360.
fn check_wind_directions(winds: &[Option<Wind>], errs: &mut ValidationErrors)
    ensures
        final(errs)@ == old(errs)@ + gather(winds@.len() as int, direction_steps(winds@)),
{
    let mut i: usize = 0;
    assert(errs@ =~= old(errs)@ + gather(0, direction_steps(winds@)));
    while i < winds.len()
        invariant
            i <= winds@.len(),
            errs@ == old(errs)@ + gather(i as int, direction_steps(winds@)),
        decreases winds@.len() - i,
    {
        validate_wind_direction(winds[i], errs);
        i += 1;
        assert(errs@ =~= old(errs)@ + gather(i as int, direction_steps(winds@)));
    }
}

/// Holds one profile's length against that of pressure.
fn check_length<T>(vec: &[T], len: usize, name: &'static str, errs: &mut ValidationErrors)
    ensures
        final(errs)@ == old(errs)@ + length_error(name, vec@.len(), len as nat),
{
    errs.push_error(validate_vector_len(vec, len, name));
    assert(errs@ =~= old(errs)@ + length_error(name, vec@.len(), len as nat));
}

/// The length of every profile but pressure against that of pressure.
fn check_lengths(s: &Snapshot, errs: &mut ValidationErrors)
    ensures
        final(errs)@ == old(errs)@ + length_errors(s@),
{
    let len: usize = s.pressure.len();
    let ghost e0 = errs@;
    let ghost l1 = length_error("Temperature", s.temperature@.len(), len as nat);
    let ghost l2 = length_error("Wet bulb temperature", s.wet_bulb@.len(), len as nat);
    let ghost l3 = length_error("Dew point", s.dew_point@.len(), len as nat);
    let ghost l4 = length_error("Theta-e", s.theta_e@.len(), len as nat);
    let ghost l5 = length_error("Wind", s.wind@.len(), len as nat);
    let ghost l6 = length_error("Omega (pressure vertical velocity)", s.pvv@.len(), len as nat);
    let ghost l7 = length_error("Height", s.height@.len(), len as nat);
    let ghost l8 = length_error("Cloud fraction", s.cloud_fraction@.len(), len as nat);
    check_length(s.temperature.as_slice(), len, "Temperature", errs);
    check_length(s.wet_bulb.as_slice(), len, "Wet bulb temperature", errs);
    check_length(s.dew_point.as_slice(), len, "Dew point", errs);
    check_length(s.theta_e.as_slice(), len, "Theta-e", errs);
    check_length(s.wind.as_slice(), len, "Wind", errs);
    check_length(s.pvv.as_slice(), len, "Omega (pressure vertical velocity)", errs);
    check_length(s.height.as_slice(), len, "Height", errs);
    check_length(s.cloud_fraction.as_slice(), len, "Cloud fraction", errs);
    proof {
        assert(errs@ == e0 + l1 + l2 + l3 + l4 + l5 + l6 + l7 + l8);
        lemma_concat_assoc(e0, l1, l2);
        lemma_concat_assoc(e0, l1 + l2, l3);
        lemma_concat_assoc(e0, l1 + l2 + l3, l4);
        lemma_concat_assoc(e0, l1 + l2 + l3 + l4, l5);
        lemma_concat_assoc(e0, l1 + l2 + l3 + l4 + l5, l6);
        lemma_concat_assoc(e0, l1 + l2 + l3 + l4 + l5 + l6, l7);
        lemma_concat_assoc(e0, l1 + l2 + l3 + l4 + l5 + l6 + l7, l8);
    }
}

/// Nothing that must be at least zero is below it.
fn check_signs(s: &Snapshot, errs: &mut ValidationErrors)
    ensures
        final(errs)@ == old(errs)@ + sign_errors(s@),
{
    let ghost e0 = errs@;
    let ghost g1 = gather(s.wind@.len() as int, speed_steps(s.wind@));
    let ghost g2 = gather(
        s.cloud_fraction@.len() as int,
        sign_steps("Cloud fraction", s.cloud_fraction@),
    );
    let ghost g3 = sign_error("Low cloud", s.low_cloud);
    let ghost g4 = sign_error("Mid cloud", s.mid_cloud);
    let ghost g5 = sign_error("Hi cloud", s.high_cloud);
    let ghost g6 = speed_error(s.sfc_wind);
    let ghost g7 = sign_error("MSLP", s.mslp);
    let ghost g8 = sign_error("Station pressure", s.station_pressure);
    check_wind_speeds(s.wind.as_slice(), errs);
    check_profile_signs(s.cloud_fraction.as_slice(), "Cloud fraction", errs);
    validate_positive(s.low_cloud, "Low cloud", errs);
    validate_positive(s.mid_cloud, "Mid cloud", errs);
    validate_positive(s.high_cloud, "Hi cloud", errs);
    validate_wind_speed(s.sfc_wind, errs);
    validate_positive(s.mslp, "MSLP", errs);
    validate_positive(s.station_pressure, "Station pressure", errs);
    proof {
        assert(errs@ == e0 + g1 + g2 + g3 + g4 + g5 + g6 + g7 + g8);
        lemma_concat_assoc(e0, g1, g2);
        lemma_concat_assoc(e0, g1 + g2, g3);
        lemma_concat_assoc(e0, g1 + g2 + g3, g4);
        lemma_concat_assoc(e0, g1 + g2 + g3 + g4, g5);
        lemma_concat_assoc(e0, g1 + g2 + g3 + g4 + g5, g6);
        lemma_concat_assoc(e0, g1 + g2 + g3 + g4 + g5 + g6, g7);
        lemma_concat_assoc(e0, g1 + g2 + g3 + g4 + g5 + g6 + g7, g8);
    }
}

/// Every wind that is present has its direction between 0 and 360.
fn check_directions(s: &Snapshot, errs: &mut ValidationErrors)
    ensures
        final(errs)@ == old(errs)@ + direction_errors(s@),
{
    let ghost e0 = errs@;
    check_wind_directions(s.wind.as_slice(), errs);
    validate_wind_direction(s.sfc_wind, errs);
    proof {
        lemma_concat_assoc(
            e0,
            gather(s.wind@.len() as int, direction_steps(s.wind@)),
            direction_error(s.sfc_wind),
        );
    }
}

/// Runs every check on `s`. Returns `Ok` if none fails, else all violations
/// found, in the order of the checks.
pub fn validate_snapshot(s: &Snapshot) -> (r: Result<(), ValidationErrors>)
    ensures
        r is Ok <==> violations(s@).len() == 0,
        r is Err ==> r->Err_0@ == violations(s@),
{
    let mut err_return = ValidationErrors::new();
    err_return.push_error(check_pressure_exists(s.pressure.as_slice()));
    assert(err_return@ =~= presence_errors(s@));
    check_lengths(s, &mut err_return);
    check_vertical_height_pressure(s, &mut err_return);
    check_temp_wet_bulb_dew_point(s, &mut err_return);
    check_signs(s, &mut err_return);
    check_directions(s, &mut err_return);
    err_return.check_any()
}

/// Validates the sounding with some simple sanity checks: for instance,
/// that pressure decreases with height. Returns `Ok` if no check fails, else
/// all violations found, in the order of the checks.
pub fn validate(snd: &Sounding) -> (r: Result<(), ValidationErrors>)
    ensures
        r is Ok <==> violations(reading(*snd)).len() == 0,
        r is Err ==> r->Err_0@ == violations(reading(*snd)),
{
    let s = snapshot_of(snd);
    validate_snapshot(&s)
}

} // verus!
