//! What holds of every validation run.

use vstd::prelude::*;
use crate::binary64::{
    lemma_infinities_bound, lemma_less_asymmetric, less, INFINITY, NEG_INFINITY,
};
use crate::counting::{
    all, hits, lemma_all_concat, lemma_all_gather, lemma_gather_empty, lemma_hits_at_least,
    lemma_tally_concat, lemma_tally_disjoint, lemma_tally_gather, lemma_tally_one_if, tally,
    unit,
};
use crate::error::ValidationError;
use crate::kinds::{
    below, below_zero, breaks, breaks_any, exactly, falls, genuine, lemma_kinds,
    lemma_relation_kinds, lemma_tally_violations, missing_pressure, negative_in,
    negative_speed_in, off_range, out_of_order, rises, stray_in, wrong_length, wrong_length_of,
};
use crate::model::{
    below_at, direction_error, direction_errors, direction_steps, falls_at, gather,
    height_order_errors, height_seed, height_steps, length_error, length_errors, mismatch,
    negative_sample, negative_speed, operands, presence_errors, pressure_order_errors,
    pressure_seed, pressure_steps, previous, relation_errors, relation_steps,
    relational_errors, rises_at, seed_or, shorter, sign_error, sign_errors, sign_steps,
    speed_error, speed_steps, stray_direction, violations, Relation,
};
use crate::snapshot::{Snapshot, SnapshotView, Wind};

verus! {

/// A missing pressure profile is reported once, ahead of everything else,
/// and a pressure profile that is there is never reported missing.
pub proof fn lemma_missing_pressure_reported_once(s: SnapshotView)
    ensures
        tally(violations(s), missing_pressure()) == unit(s.pressure.len() == 0),
        s.pressure.len() == 0 ==> violations(s).len() > 0 && violations(s)[0]
            == ValidationError::NoPressureProfile,
{
    let p = missing_pressure();
    lemma_tally_violations(s, p);
    lemma_kinds(s);
    lemma_tally_one_if(s.pressure.len() == 0, ValidationError::NoPressureProfile, p);
    lemma_tally_disjoint(length_errors(s), wrong_length(), p);
    lemma_tally_disjoint(pressure_order_errors(s), out_of_order(), p);
    lemma_tally_disjoint(height_order_errors(s), out_of_order(), p);
    lemma_tally_disjoint(relational_errors(s), breaks_any(), p);
    lemma_tally_disjoint(sign_errors(s), below_zero(), p);
    lemma_tally_disjoint(direction_errors(s), off_range(), p);
}

/// The number of ordering violations reported is the number of levels at
/// which pressure rises plus the number of levels at which height falls.
pub proof fn lemma_ordering_count(s: SnapshotView)
    ensures
        tally(violations(s), out_of_order()) == hits(
            s.pressure.len() as int,
            rises(s.pressure, pressure_seed(s)),
        ) + hits(s.height.len() as int, falls(s.height, height_seed(s))),
{
    let p = out_of_order();
    lemma_tally_violations(s, p);
    lemma_kinds(s);
    lemma_tally_disjoint(presence_errors(s), missing_pressure(), p);
    lemma_tally_disjoint(length_errors(s), wrong_length(), p);
    lemma_tally_disjoint(relational_errors(s), breaks_any(), p);
    lemma_tally_disjoint(sign_errors(s), below_zero(), p);
    lemma_tally_disjoint(direction_errors(s), off_range(), p);
    let e = ValidationError::PressureNotDecreasingWithHeight;
    let ps = pressure_steps(s.pressure, pressure_seed(s));
    assert forall|i: int| 0 <= i < s.pressure.len() implies tally(#[trigger] ps(i), p) == unit(
        rises(s.pressure, pressure_seed(s))(i),
    ) by {
        lemma_tally_one_if(rises_at(s.pressure, pressure_seed(s), i), e, p);
    }
    lemma_tally_gather(s.pressure.len() as int, ps, p, rises(s.pressure, pressure_seed(s)));
    let hs = height_steps(s.height, height_seed(s));
    assert forall|i: int| 0 <= i < s.height.len() implies tally(#[trigger] hs(i), p) == unit(
        falls(s.height, height_seed(s))(i),
    ) by {
        lemma_tally_one_if(falls_at(s.height, height_seed(s), i), e, p);
    }
    lemma_tally_gather(s.height.len() as int, hs, p, falls(s.height, height_seed(s)));
}

/// Below the lowest present sample, the level to compare with is the seed.
proof fn lemma_previous_of_lowest(levels: Seq<Option<u64>>, seed: u64, i: int)
    requires
        0 <= i <= levels.len(),
        forall|j: int| 0 <= j < i ==> levels[j] is None,
    ensures
        previous(levels, seed, i) == seed,
    decreases i,
{
    if i > 0 {
        lemma_previous_of_lowest(levels, seed, i - 1);
    }
}

/// A station pressure below the lowest pressure sample of the profile is
/// reported as an ordering violation.
pub proof fn lemma_station_pressure_below_profile(s: SnapshotView, i: int)
    requires
        0 <= i < s.pressure.len(),
        forall|j: int| 0 <= j < i ==> s.pressure[j] is None,
        s.pressure[i] is Some,
        s.station_pressure is Some,
        less(s.station_pressure->Some_0, s.pressure[i]->Some_0),
    ensures
        tally(violations(s), out_of_order()) >= 1,
{
    lemma_ordering_count(s);
    lemma_previous_of_lowest(s.pressure, pressure_seed(s), i);
    lemma_hits_at_least(s.pressure.len() as int, rises(s.pressure, pressure_seed(s)), i);
}

/// Where the station pressure is not known, pressure does not rise at the
/// lowest level that holds a sample, whatever the sample is. The same holds
/// of height where the station's elevation is not known.
pub proof fn lemma_lowest_level_without_bound(s: SnapshotView, i: int)
    ensures
        s.station_pressure is None && (forall|j: int| 0 <= j < i ==> s.pressure[j] is None)
            ==> !rises_at(s.pressure, pressure_seed(s), i),
        s.elevation is None && (forall|j: int| 0 <= j < i ==> s.height[j] is None) ==> !falls_at(
            s.height,
            height_seed(s),
            i,
        ),
{
    if 0 <= i < s.pressure.len() && s.pressure[i] is Some {
        if s.station_pressure is None && (forall|j: int| 0 <= j < i ==> s.pressure[j] is None) {
            lemma_previous_of_lowest(s.pressure, pressure_seed(s), i);
            lemma_infinities_bound(s.pressure[i]->Some_0);
        }
    }
    if 0 <= i < s.height.len() && s.height[i] is Some {
        if s.elevation is None && (forall|j: int| 0 <= j < i ==> s.height[j] is None) {
            lemma_previous_of_lowest(s.height, height_seed(s), i);
            lemma_infinities_bound(s.height[i]->Some_0);
        }
    }
}

/// The number of violations of a relation reported is the number of levels
/// at which both samples are present and the first is below the second.
pub proof fn lemma_relation_count(s: SnapshotView, rel: Relation)
    ensures
        tally(violations(s), breaks(rel)) == hits(
            shorter(operands(s, rel).0.len() as int, operands(s, rel).1.len() as int),
            below(operands(s, rel).0, operands(s, rel).1),
        ),
{
    let p = breaks(rel);
    lemma_tally_violations(s, p);
    lemma_kinds(s);
    lemma_tally_disjoint(presence_errors(s), missing_pressure(), p);
    lemma_tally_disjoint(length_errors(s), wrong_length(), p);
    lemma_tally_disjoint(pressure_order_errors(s), out_of_order(), p);
    lemma_tally_disjoint(height_order_errors(s), out_of_order(), p);
    lemma_tally_disjoint(sign_errors(s), below_zero(), p);
    lemma_tally_disjoint(direction_errors(s), off_range(), p);
    let r1 = relation_errors(Relation::TemperatureWetBulb, s.temperature, s.wet_bulb);
    let r2 = relation_errors(Relation::TemperatureDewPoint, s.temperature, s.dew_point);
    let r3 = relation_errors(Relation::WetBulbDewPoint, s.wet_bulb, s.dew_point);
    lemma_tally_concat(r1, r2, p);
    lemma_tally_concat(r1 + r2, r3, p);
    lemma_relation_tally(Relation::TemperatureWetBulb, s.temperature, s.wet_bulb, rel);
    lemma_relation_tally(Relation::TemperatureDewPoint, s.temperature, s.dew_point, rel);
    lemma_relation_tally(Relation::WetBulbDewPoint, s.wet_bulb, s.dew_point, rel);
}

/// The check of `checked` reports as many violations of `counted` as there
/// are failing levels if the two are the same relation, and else none.
proof fn lemma_relation_tally(
    checked: Relation,
    upper: Seq<Option<u64>>,
    lower: Seq<Option<u64>>,
    counted: Relation,
)
    ensures
        tally(relation_errors(checked, upper, lower), breaks(counted)) == if checked == counted {
            hits(shorter(upper.len() as int, lower.len() as int), below(upper, lower))
        } else {
            0
        },
{
    let p = breaks(counted);
    let n = shorter(upper.len() as int, lower.len() as int);
    let at = relation_steps(checked, upper, lower);
    if checked == counted {
        assert forall|i: int| 0 <= i < n implies tally(#[trigger] at(i), p) == unit(
            below(upper, lower)(i),
        ) by {
            lemma_tally_one_if(
                below_at(upper, lower, i),
                checked.violation(upper[i]->Some_0, lower[i]->Some_0),
                p,
            );
        }
        lemma_tally_gather(n, at, p, below(upper, lower));
    } else {
        lemma_relation_kinds(checked, upper, lower);
        lemma_tally_disjoint(relation_errors(checked, upper, lower), breaks(checked), p);
    }
}

/// A level at which one of the two samples is absent raises no violation of
/// a relation, whatever the other sample is.
pub proof fn lemma_absence_raises_nothing(
    rel: Relation,
    upper: Seq<Option<u64>>,
    lower: Seq<Option<u64>>,
    i: int,
)
    requires
        0 <= i < upper.len(),
        0 <= i < lower.len(),
        upper[i] is None || lower[i] is None,
    ensures
        relation_steps(rel, upper, lower)(i) == Seq::<ValidationError>::empty(),
        !below(upper, lower)(i),
{
}

/// The name under which the length check reports profile `k`, in the order
/// of the length checks.
pub open spec fn profile_name(k: int) -> &'static str {
    if k == 0 {
        "Temperature"
    } else if k == 1 {
        "Wet bulb temperature"
    } else if k == 2 {
        "Dew point"
    } else if k == 3 {
        "Theta-e"
    } else if k == 4 {
        "Wind"
    } else if k == 5 {
        "Omega (pressure vertical velocity)"
    } else if k == 6 {
        "Height"
    } else {
        "Cloud fraction"
    }
}

/// The length of profile `k`, in the order of the length checks.
pub open spec fn profile_len(s: SnapshotView, k: int) -> nat {
    if k == 0 {
        s.temperature.len()
    } else if k == 1 {
        s.wet_bulb.len()
    } else if k == 2 {
        s.dew_point.len()
    } else if k == 3 {
        s.theta_e.len()
    } else if k == 4 {
        s.wind.len()
    } else if k == 5 {
        s.pvv.len()
    } else if k == 6 {
        s.height.len()
    } else {
        s.cloud_fraction.len()
    }
}

/// What the length check reports of profile `k` where its length is wrong.
pub open spec fn length_violation(s: SnapshotView, k: int) -> ValidationError {
    ValidationError::InvalidVectorLength(
        profile_name(k),
        profile_len(s, k) as usize,
        s.pressure.len() as usize,
    )
}

/// No two profiles are reported under the same name.
pub proof fn lemma_profile_names_differ(j: int, k: int)
    requires
        0 <= j < 8,
        0 <= k < 8,
        j != k,
    ensures
        profile_name(j) != profile_name(k),
{
    reveal_strlit("Temperature");
    reveal_strlit("Wet bulb temperature");
    reveal_strlit("Dew point");
    reveal_strlit("Theta-e");
    reveal_strlit("Wind");
    reveal_strlit("Omega (pressure vertical velocity)");
    reveal_strlit("Height");
    reveal_strlit("Cloud fraction");
    assert(profile_name(j)@.len() != profile_name(k)@.len());
}

/// A count over the length checks is the sum of the counts over the eight
/// profiles.
proof fn lemma_tally_lengths(s: SnapshotView, p: spec_fn(ValidationError) -> bool)
    ensures
        tally(length_errors(s), p) == unit(
            mismatch(profile_len(s, 0), s.pressure.len()) && p(length_violation(s, 0)),
        ) + unit(mismatch(profile_len(s, 1), s.pressure.len()) && p(length_violation(s, 1)))
            + unit(mismatch(profile_len(s, 2), s.pressure.len()) && p(length_violation(s, 2)))
            + unit(mismatch(profile_len(s, 3), s.pressure.len()) && p(length_violation(s, 3)))
            + unit(mismatch(profile_len(s, 4), s.pressure.len()) && p(length_violation(s, 4)))
            + unit(mismatch(profile_len(s, 5), s.pressure.len()) && p(length_violation(s, 5)))
            + unit(mismatch(profile_len(s, 6), s.pressure.len()) && p(length_violation(s, 6)))
            + unit(mismatch(profile_len(s, 7), s.pressure.len()) && p(length_violation(s, 7))),
{
    let n = s.pressure.len();
    let l1 = length_error("Temperature", s.temperature.len(), n);
    let l2 = length_error("Wet bulb temperature", s.wet_bulb.len(), n);
    let l3 = length_error("Dew point", s.dew_point.len(), n);
    let l4 = length_error("Theta-e", s.theta_e.len(), n);
    let l5 = length_error("Wind", s.wind.len(), n);
    let l6 = length_error("Omega (pressure vertical velocity)", s.pvv.len(), n);
    let l7 = length_error("Height", s.height.len(), n);
    let l8 = length_error("Cloud fraction", s.cloud_fraction.len(), n);
    lemma_tally_concat(l1, l2, p);
    lemma_tally_concat(l1 + l2, l3, p);
    lemma_tally_concat(l1 + l2 + l3, l4, p);
    lemma_tally_concat(l1 + l2 + l3 + l4, l5, p);
    lemma_tally_concat(l1 + l2 + l3 + l4 + l5, l6, p);
    lemma_tally_concat(l1 + l2 + l3 + l4 + l5 + l6, l7, p);
    lemma_tally_concat(l1 + l2 + l3 + l4 + l5 + l6 + l7, l8, p);
    lemma_tally_one_if(mismatch(profile_len(s, 0), n), length_violation(s, 0), p);
    lemma_tally_one_if(mismatch(profile_len(s, 1), n), length_violation(s, 1), p);
    lemma_tally_one_if(mismatch(profile_len(s, 2), n), length_violation(s, 2), p);
    lemma_tally_one_if(mismatch(profile_len(s, 3), n), length_violation(s, 3), p);
    lemma_tally_one_if(mismatch(profile_len(s, 4), n), length_violation(s, 4), p);
    lemma_tally_one_if(mismatch(profile_len(s, 5), n), length_violation(s, 5), p);
    lemma_tally_one_if(mismatch(profile_len(s, 6), n), length_violation(s, 6), p);
    lemma_tally_one_if(mismatch(profile_len(s, 7), n), length_violation(s, 7), p);
}

/// A count of wrong lengths over the whole report is that over the length
/// checks.
proof fn lemma_tally_lengths_only(s: SnapshotView, p: spec_fn(ValidationError) -> bool)
    requires
        forall|e: ValidationError| #[trigger] p(e) ==> e is InvalidVectorLength,
    ensures
        tally(violations(s), p) == tally(length_errors(s), p),
{
    lemma_tally_violations(s, p);
    lemma_kinds(s);
    lemma_tally_disjoint(presence_errors(s), missing_pressure(), p);
    lemma_tally_disjoint(pressure_order_errors(s), out_of_order(), p);
    lemma_tally_disjoint(height_order_errors(s), out_of_order(), p);
    lemma_tally_disjoint(relational_errors(s), breaks_any(), p);
    lemma_tally_disjoint(sign_errors(s), below_zero(), p);
    lemma_tally_disjoint(direction_errors(s), off_range(), p);
}

/// A profile that is neither empty nor as long as the pressure profile is
/// reported once under its name, with its length and that of the pressure
/// profile. A profile that is empty, or as long as the pressure profile, is
/// not reported under its name at all.
pub proof fn lemma_wrong_length_reported_once(s: SnapshotView, k: int)
    requires
        0 <= k < 8,
    ensures
        tally(violations(s), wrong_length_of(profile_name(k))) == unit(
            mismatch(profile_len(s, k), s.pressure.len()),
        ),
        tally(violations(s), exactly(length_violation(s, k))) == unit(
            mismatch(profile_len(s, k), s.pressure.len()),
        ),
{
    let named = wrong_length_of(profile_name(k));
    let same = exactly(length_violation(s, k));
    lemma_tally_lengths_only(s, named);
    lemma_tally_lengths_only(s, same);
    lemma_tally_lengths(s, named);
    lemma_tally_lengths(s, same);
    assert forall|j: int| 0 <= j < 8 && j != k implies profile_name(j) != profile_name(k) by {
        lemma_profile_names_differ(j, k);
    }
    assert(profile_name(0) != profile_name(k) || k == 0);
    assert(profile_name(1) != profile_name(k) || k == 1);
    assert(profile_name(2) != profile_name(k) || k == 2);
    assert(profile_name(3) != profile_name(k) || k == 3);
    assert(profile_name(4) != profile_name(k) || k == 4);
    assert(profile_name(5) != profile_name(k) || k == 5);
    assert(profile_name(6) != profile_name(k) || k == 6);
    assert(profile_name(7) != profile_name(k) || k == 7);
}

/// The number of negative values reported is the number of wind samples
/// with a negative speed, plus the number of negative cloud fraction
/// samples, plus one for each negative surface value.
pub proof fn lemma_negative_count(s: SnapshotView)
    ensures
        tally(violations(s), below_zero()) == hits(
            s.wind.len() as int,
            negative_speed_in(s.wind),
        ) + hits(s.cloud_fraction.len() as int, negative_in(s.cloud_fraction)) + unit(
            negative_sample(s.low_cloud),
        ) + unit(negative_sample(s.mid_cloud)) + unit(negative_sample(s.high_cloud)) + unit(
            negative_speed(s.sfc_wind),
        ) + unit(negative_sample(s.mslp)) + unit(negative_sample(s.station_pressure)),
{
    let p = below_zero();
    lemma_tally_violations(s, p);
    lemma_kinds(s);
    lemma_tally_disjoint(presence_errors(s), missing_pressure(), p);
    lemma_tally_disjoint(length_errors(s), wrong_length(), p);
    lemma_tally_disjoint(pressure_order_errors(s), out_of_order(), p);
    lemma_tally_disjoint(height_order_errors(s), out_of_order(), p);
    lemma_tally_disjoint(relational_errors(s), breaks_any(), p);
    lemma_tally_disjoint(direction_errors(s), off_range(), p);
    let g1 = gather(s.wind.len() as int, speed_steps(s.wind));
    let g2 = gather(s.cloud_fraction.len() as int, sign_steps("Cloud fraction", s.cloud_fraction));
    let g3 = sign_error("Low cloud", s.low_cloud);
    let g4 = sign_error("Mid cloud", s.mid_cloud);
    let g5 = sign_error("Hi cloud", s.high_cloud);
    let g6 = speed_error(s.sfc_wind);
    let g7 = sign_error("MSLP", s.mslp);
    let g8 = sign_error("Station pressure", s.station_pressure);
    lemma_tally_concat(g1, g2, p);
    lemma_tally_concat(g1 + g2, g3, p);
    lemma_tally_concat(g1 + g2 + g3, g4, p);
    lemma_tally_concat(g1 + g2 + g3 + g4, g5, p);
    lemma_tally_concat(g1 + g2 + g3 + g4 + g5, g6, p);
    lemma_tally_concat(g1 + g2 + g3 + g4 + g5 + g6, g7, p);
    lemma_tally_concat(g1 + g2 + g3 + g4 + g5 + g6 + g7, g8, p);
    lemma_tally_sign("Low cloud", s.low_cloud);
    lemma_tally_sign("Mid cloud", s.mid_cloud);
    lemma_tally_sign("Hi cloud", s.high_cloud);
    lemma_tally_speed(s.sfc_wind);
    lemma_tally_sign("MSLP", s.mslp);
    lemma_tally_sign("Station pressure", s.station_pressure);
    let ws = speed_steps(s.wind);
    assert forall|i: int| 0 <= i < s.wind.len() implies tally(#[trigger] ws(i), p) == unit(
        negative_speed_in(s.wind)(i),
    ) by {
        lemma_tally_speed(s.wind[i]);
    }
    lemma_tally_gather(s.wind.len() as int, ws, p, negative_speed_in(s.wind));
    let cs = sign_steps("Cloud fraction", s.cloud_fraction);
    assert forall|i: int| 0 <= i < s.cloud_fraction.len() implies tally(#[trigger] cs(i), p)
        == unit(negative_in(s.cloud_fraction)(i)) by {
        lemma_tally_sign("Cloud fraction", s.cloud_fraction[i]);
    }
    lemma_tally_gather(s.cloud_fraction.len() as int, cs, p, negative_in(s.cloud_fraction));
}

/// The sign check of one value reports one negative value if the value is
/// present and below zero, and else none.
proof fn lemma_tally_sign(name: &'static str, x: Option<u64>)
    ensures
        tally(sign_error(name, x), below_zero()) == unit(negative_sample(x)),
{
    lemma_tally_one_if(
        negative_sample(x),
        ValidationError::InvalidNegativeValue(name, x->Some_0),
        below_zero(),
    );
}

/// The sign check of one wind reports one negative value if the wind is
/// present and its speed below zero, and else none.
proof fn lemma_tally_speed(w: Option<Wind>)
    ensures
        tally(speed_error(w), below_zero()) == unit(negative_speed(w)),
{
    lemma_tally_one_if(
        negative_speed(w),
        ValidationError::InvalidNegativeValue("Wind speed", w->Some_0.speed),
        below_zero(),
    );
}

/// The range check of one wind reports one direction if the wind is present
/// and its direction out of range, and else none.
proof fn lemma_tally_direction(w: Option<Wind>)
    ensures
        tally(direction_error(w), off_range()) == unit(stray_direction(w)),
{
    lemma_tally_one_if(
        stray_direction(w),
        ValidationError::InvalidWindDirection(w->Some_0.direction),
        off_range(),
    );
}

/// The number of wind directions reported is the number of wind samples
/// with a direction outside 0 to 360, plus one if the surface wind has such
/// a direction.
pub proof fn lemma_direction_count(s: SnapshotView)
    ensures
        tally(violations(s), off_range()) == hits(s.wind.len() as int, stray_in(s.wind)) + unit(
            stray_direction(s.sfc_wind),
        ),
{
    let p = off_range();
    lemma_tally_violations(s, p);
    lemma_kinds(s);
    lemma_tally_disjoint(presence_errors(s), missing_pressure(), p);
    lemma_tally_disjoint(length_errors(s), wrong_length(), p);
    lemma_tally_disjoint(pressure_order_errors(s), out_of_order(), p);
    lemma_tally_disjoint(height_order_errors(s), out_of_order(), p);
    lemma_tally_disjoint(relational_errors(s), breaks_any(), p);
    lemma_tally_disjoint(sign_errors(s), below_zero(), p);
    let ds = direction_steps(s.wind);
    lemma_tally_concat(gather(s.wind.len() as int, ds), direction_error(s.sfc_wind), p);
    lemma_tally_direction(s.sfc_wind);
    assert forall|i: int| 0 <= i < s.wind.len() implies tally(#[trigger] ds(i), p) == unit(
        stray_in(s.wind)(i),
    ) by {
        lemma_tally_direction(s.wind[i]);
    }
    lemma_tally_gather(s.wind.len() as int, ds, p, stray_in(s.wind));
}

/// Every violation reported holds values that break its rule: the first of
/// two temperatures is below the second, a negative value is below zero, a
/// wind direction is outside 0 to 360.
pub proof fn lemma_violations_are_genuine(s: SnapshotView)
    ensures
        all(violations(s), genuine()),
{
    let q = genuine();
    lemma_kinds(s);
    assert(all(presence_errors(s), q));
    assert(all(length_errors(s), q));
    assert(all(pressure_order_errors(s), q));
    assert(all(height_order_errors(s), q));
    let tw = relation_steps(Relation::TemperatureWetBulb, s.temperature, s.wet_bulb);
    let td = relation_steps(Relation::TemperatureDewPoint, s.temperature, s.dew_point);
    let wd = relation_steps(Relation::WetBulbDewPoint, s.wet_bulb, s.dew_point);
    lemma_all_gather(shorter(s.temperature.len() as int, s.wet_bulb.len() as int), tw, q);
    lemma_all_gather(shorter(s.temperature.len() as int, s.dew_point.len() as int), td, q);
    lemma_all_gather(shorter(s.wet_bulb.len() as int, s.dew_point.len() as int), wd, q);
    let r1 = relation_errors(Relation::TemperatureWetBulb, s.temperature, s.wet_bulb);
    let r2 = relation_errors(Relation::TemperatureDewPoint, s.temperature, s.dew_point);
    let r3 = relation_errors(Relation::WetBulbDewPoint, s.wet_bulb, s.dew_point);
    lemma_all_concat(r1, r2, q);
    lemma_all_concat(r1 + r2, r3, q);
    let g1 = gather(s.wind.len() as int, speed_steps(s.wind));
    let g2 = gather(s.cloud_fraction.len() as int, sign_steps("Cloud fraction", s.cloud_fraction));
    let g3 = sign_error("Low cloud", s.low_cloud);
    let g4 = sign_error("Mid cloud", s.mid_cloud);
    let g5 = sign_error("Hi cloud", s.high_cloud);
    let g6 = speed_error(s.sfc_wind);
    let g7 = sign_error("MSLP", s.mslp);
    let g8 = sign_error("Station pressure", s.station_pressure);
    lemma_all_gather(s.wind.len() as int, speed_steps(s.wind), q);
    lemma_all_gather(
        s.cloud_fraction.len() as int,
        sign_steps("Cloud fraction", s.cloud_fraction),
        q,
    );
    lemma_all_concat(g1, g2, q);
    lemma_all_concat(g1 + g2, g3, q);
    lemma_all_concat(g1 + g2 + g3, g4, q);
    lemma_all_concat(g1 + g2 + g3 + g4, g5, q);
    lemma_all_concat(g1 + g2 + g3 + g4 + g5, g6, q);
    lemma_all_concat(g1 + g2 + g3 + g4 + g5 + g6, g7, q);
    lemma_all_concat(g1 + g2 + g3 + g4 + g5 + g6 + g7, g8, q);
    lemma_all_gather(s.wind.len() as int, direction_steps(s.wind), q);
    lemma_all_concat(
        gather(s.wind.len() as int, direction_steps(s.wind)),
        direction_error(s.sfc_wind),
        q,
    );
    let a = presence_errors(s);
    let b = length_errors(s);
    let c = pressure_order_errors(s);
    let d = height_order_errors(s);
    let e = relational_errors(s);
    let f = sign_errors(s);
    let g = direction_errors(s);
    lemma_all_concat(a, b, q);
    lemma_all_concat(a + b, c, q);
    lemma_all_concat(a + b + c, d, q);
    lemma_all_concat(a + b + c + d, e, q);
    lemma_all_concat(a + b + c + d + e, f, q);
    lemma_all_concat(a + b + c + d + e + f, g, q);
}

/// Whether every present sample is below every present sample of a lower
/// level.
pub open spec fn strictly_falling(levels: Seq<Option<u64>>) -> bool {
    forall|i: int, j: int|
        0 <= i < j < levels.len() && (#[trigger] levels[i]) is Some && (#[trigger] levels[j])
            is Some ==> less(levels[j]->Some_0, levels[i]->Some_0)
}

/// Whether every present sample is above every present sample of a lower
/// level.
pub open spec fn strictly_rising(levels: Seq<Option<u64>>) -> bool {
    forall|i: int, j: int|
        0 <= i < j < levels.len() && (#[trigger] levels[i]) is Some && (#[trigger] levels[j])
            is Some ==> less(levels[i]->Some_0, levels[j]->Some_0)
}

/// Whether no present sample is above `bound`, where there is a bound.
pub open spec fn capped_by(levels: Seq<Option<u64>>, bound: Option<u64>) -> bool {
    bound is Some ==> forall|i: int|
        0 <= i < levels.len() && (#[trigger] levels[i]) is Some ==> !less(
            bound->Some_0,
            levels[i]->Some_0,
        )
}

/// Whether no present sample is below `bound`, where there is a bound.
pub open spec fn floored_by(levels: Seq<Option<u64>>, bound: Option<u64>) -> bool {
    bound is Some ==> forall|i: int|
        0 <= i < levels.len() && (#[trigger] levels[i]) is Some ==> !less(
            levels[i]->Some_0,
            bound->Some_0,
        )
}

/// Whether `upper` is nowhere below `lower`.
pub open spec fn nowhere_below(upper: Seq<Option<u64>>, lower: Seq<Option<u64>>) -> bool {
    forall|i: int| !#[trigger] below_at(upper, lower, i)
}

/// A sounding that is consistent in itself: there is a pressure profile,
/// every other profile is empty or as long, pressure falls strictly and
/// height rises strictly with the level, neither crosses the station's
/// value, dew point is at most wet bulb temperature and that at most
/// temperature, no speed or cloud fraction or pressure at the surface is
/// below zero, and every wind direction lies between 0 and 360.
pub open spec fn consistent(s: SnapshotView) -> bool {
    &&& s.pressure.len() > 0
    &&& forall|k: int| 0 <= k < 8 ==> !mismatch(#[trigger] profile_len(s, k), s.pressure.len())
    &&& strictly_falling(s.pressure)
    &&& capped_by(s.pressure, s.station_pressure)
    &&& strictly_rising(s.height)
    &&& floored_by(s.height, s.elevation)
    &&& nowhere_below(s.temperature, s.wet_bulb)
    &&& nowhere_below(s.temperature, s.dew_point)
    &&& nowhere_below(s.wet_bulb, s.dew_point)
    &&& forall|i: int|
        0 <= i < s.wind.len() ==> !negative_speed(#[trigger] s.wind[i]) && !stray_direction(
            s.wind[i],
        )
    &&& forall|i: int|
        0 <= i < s.cloud_fraction.len() ==> !negative_sample(#[trigger] s.cloud_fraction[i])
    &&& !negative_sample(s.low_cloud)
    &&& !negative_sample(s.mid_cloud)
    &&& !negative_sample(s.high_cloud)
    &&& !negative_speed(s.sfc_wind)
    &&& !stray_direction(s.sfc_wind)
    &&& !negative_sample(s.mslp)
    &&& !negative_sample(s.station_pressure)
}

/// The level that a sample is compared with is the seed or a present sample
/// of a lower level.
proof fn lemma_previous_source(levels: Seq<Option<u64>>, seed: u64, i: int)
    requires
        0 <= i <= levels.len(),
    ensures
        previous(levels, seed, i) == seed || exists|k: int|
            0 <= k < i && #[trigger] levels[k] == Some(previous(levels, seed, i)),
    decreases i,
{
    if i > 0 {
        if levels[i - 1] is None {
            lemma_previous_source(levels, seed, i - 1);
        }
    }
}

/// In a profile that falls strictly and does not exceed its bound, pressure
/// rises nowhere.
proof fn lemma_falling_never_rises(levels: Seq<Option<u64>>, bound: Option<u64>, i: int)
    requires
        strictly_falling(levels),
        capped_by(levels, bound),
    ensures
        !rises_at(levels, seed_or(bound, INFINITY), i),
{
    if 0 <= i < levels.len() && levels[i] is Some {
        let seed = seed_or(bound, INFINITY);
        let x = levels[i]->Some_0;
        lemma_previous_source(levels, seed, i);
        let prev = previous(levels, seed, i);
        if prev == seed {
            lemma_infinities_bound(x);
        } else {
            let k = choose|k: int| 0 <= k < i && #[trigger] levels[k] == Some(prev);
            lemma_less_asymmetric(x, prev);
        }
    }
}

/// In a profile that rises strictly and does not go below its bound, height
/// falls nowhere.
proof fn lemma_rising_never_falls(levels: Seq<Option<u64>>, bound: Option<u64>, i: int)
    requires
        strictly_rising(levels),
        floored_by(levels, bound),
    ensures
        !falls_at(levels, seed_or(bound, NEG_INFINITY), i),
{
    if 0 <= i < levels.len() && levels[i] is Some {
        let seed = seed_or(bound, NEG_INFINITY);
        let x = levels[i]->Some_0;
        lemma_previous_source(levels, seed, i);
        let prev = previous(levels, seed, i);
        if prev == seed {
            lemma_infinities_bound(x);
        } else {
            let k = choose|k: int| 0 <= k < i && #[trigger] levels[k] == Some(prev);
            lemma_less_asymmetric(prev, x);
        }
    }
}

/// A consistent sounding has no violations.
pub proof fn lemma_consistent_is_clean(s: SnapshotView)
    requires
        consistent(s),
    ensures
        violations(s) == Seq::<ValidationError>::empty(),
{
    let none = Seq::<ValidationError>::empty();
    assert(presence_errors(s) == none);
    assert(length_errors(s) =~= none) by {
        assert(!mismatch(profile_len(s, 0), s.pressure.len()));
        assert(!mismatch(profile_len(s, 1), s.pressure.len()));
        assert(!mismatch(profile_len(s, 2), s.pressure.len()));
        assert(!mismatch(profile_len(s, 3), s.pressure.len()));
        assert(!mismatch(profile_len(s, 4), s.pressure.len()));
        assert(!mismatch(profile_len(s, 5), s.pressure.len()));
        assert(!mismatch(profile_len(s, 6), s.pressure.len()));
        assert(!mismatch(profile_len(s, 7), s.pressure.len()));
    }
    assert(pressure_order_errors(s) == none) by {
        let at = pressure_steps(s.pressure, pressure_seed(s));
        assert forall|i: int| 0 <= i < s.pressure.len() implies (#[trigger] at(i)).len() == 0 by {
            lemma_falling_never_rises(s.pressure, s.station_pressure, i);
        }
        lemma_gather_empty(s.pressure.len() as int, at);
    }
    assert(height_order_errors(s) == none) by {
        let at = height_steps(s.height, height_seed(s));
        assert forall|i: int| 0 <= i < s.height.len() implies (#[trigger] at(i)).len() == 0 by {
            lemma_rising_never_falls(s.height, s.elevation, i);
        }
        lemma_gather_empty(s.height.len() as int, at);
    }
    assert(relational_errors(s) =~= none) by {
        lemma_gather_empty(
            shorter(s.temperature.len() as int, s.wet_bulb.len() as int),
            relation_steps(Relation::TemperatureWetBulb, s.temperature, s.wet_bulb),
        );
        lemma_gather_empty(
            shorter(s.temperature.len() as int, s.dew_point.len() as int),
            relation_steps(Relation::TemperatureDewPoint, s.temperature, s.dew_point),
        );
        lemma_gather_empty(
            shorter(s.wet_bulb.len() as int, s.dew_point.len() as int),
            relation_steps(Relation::WetBulbDewPoint, s.wet_bulb, s.dew_point),
        );
    }
    assert(sign_errors(s) =~= none) by {
        lemma_gather_empty(s.wind.len() as int, speed_steps(s.wind));
        lemma_gather_empty(
            s.cloud_fraction.len() as int,
            sign_steps("Cloud fraction", s.cloud_fraction),
        );
    }
    assert(direction_errors(s) =~= none) by {
        lemma_gather_empty(s.wind.len() as int, direction_steps(s.wind));
    }
    assert(violations(s) =~= none);
}

/// Two soundings that hold the same data have the same violations, in the
/// same order: a second run on a sounding repeats the first.
pub proof fn lemma_validation_repeats(a: Snapshot, b: Snapshot)
    requires
        a@ == b@,
    ensures
        violations(a@) == violations(b@),
{
}

} // verus!
