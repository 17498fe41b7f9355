//! Reading a `sounding_base::Sounding`.
//!
//! The accessors of `Sounding` are called here and nowhere else. They hand
//! out binary64 numbers, bare or in a unit's wrapper, inside an `Optioned`;
//! what leaves this module holds the numbers' bit patterns instead, and
//! `None` where `Optioned::into_option` finds no value.
//!
//! Nothing is proved of the accessors. What each of them returns for a
//! sounding has a name here, and all that is assumed is that a call returns
//! what the name stands for: that the result depends on the sounding alone.

use vstd::prelude::*;
use sounding_base::Sounding;
use crate::snapshot::{Snapshot, SnapshotView, Wind};

verus! {

/// `sounding_base::Sounding`, taken as a value that only its accessors can
/// look into.
#[verifier::external_type_specification]
#[verifier::external_body]
pub struct ExSounding(sounding_base::Sounding);

/// What `Sounding::pressure_profile` returns for `snd`, from the lowest level
/// up: `None` where a level holds no value, else the bits of the pressure in
/// hPa.
pub uninterp spec fn pressure_levels(snd: Sounding) -> Seq<Option<u64>>;

/// What `Sounding::temperature_profile` returns for `snd`, from the lowest
/// level up: `None` where a level holds no value, else the bits of the
/// temperature in degrees Celsius.
pub uninterp spec fn temperature_levels(snd: Sounding) -> Seq<Option<u64>>;

/// What `Sounding::wet_bulb_profile` returns for `snd`, from the lowest level
/// up: `None` where a level holds no value, else the bits of the wet bulb
/// temperature in degrees Celsius.
pub uninterp spec fn wet_bulb_levels(snd: Sounding) -> Seq<Option<u64>>;

/// What `Sounding::dew_point_profile` returns for `snd`, from the lowest
/// level up: `None` where a level holds no value, else the bits of the dew
/// point in degrees Celsius.
pub uninterp spec fn dew_point_levels(snd: Sounding) -> Seq<Option<u64>>;

/// What `Sounding::theta_e_profile` returns for `snd`, from the lowest level
/// up: `None` where a level holds no value, else the bits of the equivalent
/// potential temperature in Kelvin.
pub uninterp spec fn theta_e_levels(snd: Sounding) -> Seq<Option<u64>>;

/// What `Sounding::wind_profile` returns for `snd`, from the lowest level up:
/// `None` where a level holds no wind, else the bits of the wind's speed in
/// knots and of its direction in degrees.
pub uninterp spec fn wind_levels(snd: Sounding) -> Seq<Option<Wind>>;

/// What `Sounding::pvv_profile` returns for `snd`, from the lowest level up:
/// `None` where a level holds no value, else the bits of the pressure
/// vertical velocity in Pa/s.
pub uninterp spec fn pvv_levels(snd: Sounding) -> Seq<Option<u64>>;

/// What `Sounding::height_profile` returns for `snd`, from the lowest level
/// up: `None` where a level holds no value, else the bits of the geopotential
/// height in meters.
pub uninterp spec fn height_levels(snd: Sounding) -> Seq<Option<u64>>;

/// What `Sounding::cloud_fraction_profile` returns for `snd`, from the lowest
/// level up: `None` where a level holds no value, else the bits of the cloud
/// fraction.
pub uninterp spec fn cloud_fraction_levels(snd: Sounding) -> Seq<Option<u64>>;

/// What `Sounding::mslp` returns for `snd`: `None` where it holds no value,
/// else the bits of the mean sea level pressure in hPa.
pub uninterp spec fn mslp_of(snd: Sounding) -> Option<u64>;

/// What `Sounding::station_pressure` returns for `snd`: `None` where it holds
/// no value, else the bits of the station pressure in hPa.
pub uninterp spec fn station_pressure_of(snd: Sounding) -> Option<u64>;

/// What `Sounding::low_cloud` returns for `snd`: `None` where it holds no
/// value, else the bits of the low cloud fraction.
pub uninterp spec fn low_cloud_of(snd: Sounding) -> Option<u64>;

/// What `Sounding::mid_cloud` returns for `snd`: `None` where it holds no
/// value, else the bits of the mid-level cloud fraction.
pub uninterp spec fn mid_cloud_of(snd: Sounding) -> Option<u64>;

/// What `Sounding::high_cloud` returns for `snd`: `None` where it holds no
/// value, else the bits of the high cloud fraction.
pub uninterp spec fn high_cloud_of(snd: Sounding) -> Option<u64>;

/// What `Sounding::sfc_wind` returns for `snd`: `None` where it holds no
/// surface wind, else the bits of the wind's speed in knots and of its
/// direction in degrees.
pub uninterp spec fn sfc_wind_of(snd: Sounding) -> Option<Wind>;

/// What `StationInfo::elevation` returns for the `Sounding::station_info` of
/// `snd`: `None` where it holds no value, else the bits of the elevation in
/// meters.
pub uninterp spec fn elevation_of(snd: Sounding) -> Option<u64>;

/// Calls `Sounding::pressure_profile`, and `Optioned::into_option` on each
/// level. Assumed: the result is what `pressure_levels` stands for.
#[verifier::external_body]
#[allow(deprecated)]
fn pressure_profile(snd: &Sounding) -> (r: Vec<Option<u64>>)
    ensures
        r@ == pressure_levels(*snd),
{
    snd.pressure_profile().iter().map(|x| x.into_option().map(|v| v.0.to_bits())).collect()
}

/// Calls `Sounding::temperature_profile`, and `Optioned::into_option` on each
/// level. Assumed: the result is what `temperature_levels` stands for.
#[verifier::external_body]
#[allow(deprecated)]
fn temperature_profile(snd: &Sounding) -> (r: Vec<Option<u64>>)
    ensures
        r@ == temperature_levels(*snd),
{
    snd.temperature_profile().iter().map(|x| x.into_option().map(|v| v.0.to_bits())).collect()
}

/// Calls `Sounding::wet_bulb_profile`, and `Optioned::into_option` on each
/// level. Assumed: the result is what `wet_bulb_levels` stands for.
#[verifier::external_body]
#[allow(deprecated)]
fn wet_bulb_profile(snd: &Sounding) -> (r: Vec<Option<u64>>)
    ensures
        r@ == wet_bulb_levels(*snd),
{
    snd.wet_bulb_profile().iter().map(|x| x.into_option().map(|v| v.0.to_bits())).collect()
}

/// Calls `Sounding::dew_point_profile`, and `Optioned::into_option` on each
/// level. Assumed: the result is what `dew_point_levels` stands for.
#[verifier::external_body]
#[allow(deprecated)]
fn dew_point_profile(snd: &Sounding) -> (r: Vec<Option<u64>>)
    ensures
        r@ == dew_point_levels(*snd),
{
    snd.dew_point_profile().iter().map(|x| x.into_option().map(|v| v.0.to_bits())).collect()
}

/// Calls `Sounding::theta_e_profile`, and `Optioned::into_option` on each
/// level. Assumed: the result is what `theta_e_levels` stands for.
#[verifier::external_body]
#[allow(deprecated)]
fn theta_e_profile(snd: &Sounding) -> (r: Vec<Option<u64>>)
    ensures
        r@ == theta_e_levels(*snd),
{
    snd.theta_e_profile().iter().map(|x| x.into_option().map(|v| v.0.to_bits())).collect()
}

/// Calls `Sounding::wind_profile`, and `Optioned::into_option` on each level.
/// Assumed: the result is what `wind_levels` stands for.
#[verifier::external_body]
#[allow(deprecated)]
fn wind_profile(snd: &Sounding) -> (r: Vec<Option<Wind>>)
    ensures
        r@ == wind_levels(*snd),
{
    snd.wind_profile().iter().map(
        |x| x.into_option().map(
            |w| Wind { speed: w.speed.0.to_bits(), direction: w.direction.to_bits() },
        ),
    ).collect()
}

/// Calls `Sounding::pvv_profile`, and `Optioned::into_option` on each level.
/// Assumed: the result is what `pvv_levels` stands for.
#[verifier::external_body]
#[allow(deprecated)]
fn pvv_profile(snd: &Sounding) -> (r: Vec<Option<u64>>)
    ensures
        r@ == pvv_levels(*snd),
{
    snd.pvv_profile().iter().map(|x| x.into_option().map(|v| v.0.to_bits())).collect()
}

/// Calls `Sounding::height_profile`, and `Optioned::into_option` on each
/// level. Assumed: the result is what `height_levels` stands for.
#[verifier::external_body]
#[allow(deprecated)]
fn height_profile(snd: &Sounding) -> (r: Vec<Option<u64>>)
    ensures
        r@ == height_levels(*snd),
{
    snd.height_profile().iter().map(|x| x.into_option().map(|v| v.0.to_bits())).collect()
}

/// Calls `Sounding::cloud_fraction_profile`, and `Optioned::into_option` on
/// each level. Assumed: the result is what `cloud_fraction_levels` stands
/// for.
#[verifier::external_body]
#[allow(deprecated)]
fn cloud_fraction_profile(snd: &Sounding) -> (r: Vec<Option<u64>>)
    ensures
        r@ == cloud_fraction_levels(*snd),
{
    snd.cloud_fraction_profile().iter().map(|x| x.into_option().map(|v| v.to_bits())).collect()
}

/// Calls `Sounding::mslp`, and `Optioned::into_option` on what it returns.
/// Assumed: the result is what `mslp_of` stands for.
#[verifier::external_body]
#[allow(deprecated)]
fn mslp(snd: &Sounding) -> (r: Option<u64>)
    ensures
        r == mslp_of(*snd),
{
    snd.mslp().into_option().map(|v| v.0.to_bits())
}

/// Calls `Sounding::station_pressure`, and `Optioned::into_option` on what it
/// returns. Assumed: the result is what `station_pressure_of` stands for.
#[verifier::external_body]
#[allow(deprecated)]
fn station_pressure(snd: &Sounding) -> (r: Option<u64>)
    ensures
        r == station_pressure_of(*snd),
{
    snd.station_pressure().into_option().map(|v| v.0.to_bits())
}

/// Calls `Sounding::low_cloud`, and `Optioned::into_option` on what it
/// returns. Assumed: the result is what `low_cloud_of` stands for.
#[verifier::external_body]
#[allow(deprecated)]
fn low_cloud(snd: &Sounding) -> (r: Option<u64>)
    ensures
        r == low_cloud_of(*snd),
{
    snd.low_cloud().into_option().map(|v| v.to_bits())
}

/// Calls `Sounding::mid_cloud`, and `Optioned::into_option` on what it
/// returns. Assumed: the result is what `mid_cloud_of` stands for.
#[verifier::external_body]
#[allow(deprecated)]
fn mid_cloud(snd: &Sounding) -> (r: Option<u64>)
    ensures
        r == mid_cloud_of(*snd),
{
    snd.mid_cloud().into_option().map(|v| v.to_bits())
}

/// Calls `Sounding::high_cloud`, and `Optioned::into_option` on what it
/// returns. Assumed: the result is what `high_cloud_of` stands for.
#[verifier::external_body]
#[allow(deprecated)]
fn high_cloud(snd: &Sounding) -> (r: Option<u64>)
    ensures
        r == high_cloud_of(*snd),
{
    snd.high_cloud().into_option().map(|v| v.to_bits())
}

/// Calls `Sounding::sfc_wind`, and `Optioned::into_option` on what it
/// returns. Assumed: the result is what `sfc_wind_of` stands for.
#[verifier::external_body]
#[allow(deprecated)]
fn sfc_wind(snd: &Sounding) -> (r: Option<Wind>)
    ensures
        r == sfc_wind_of(*snd),
{
    snd.sfc_wind().into_option().map(
        |w| Wind { speed: w.speed.0.to_bits(), direction: w.direction.to_bits() },
    )
}

/// Calls `Sounding::station_info`, `StationInfo::elevation` on what it
/// returns, and `Optioned::into_option` on that. Assumed: the result is what
/// `elevation_of` stands for.
#[verifier::external_body]
#[allow(deprecated)]
fn elevation(snd: &Sounding) -> (r: Option<u64>)
    ensures
        r == elevation_of(*snd),
{
    snd.station_info().elevation().into_option().map(|v| v.0.to_bits())
}

/// What the checks read of `snd`.
pub open spec fn reading(snd: Sounding) -> SnapshotView {
    SnapshotView {
        pressure: pressure_levels(snd),
        temperature: temperature_levels(snd),
        wet_bulb: wet_bulb_levels(snd),
        dew_point: dew_point_levels(snd),
        theta_e: theta_e_levels(snd),
        wind: wind_levels(snd),
        pvv: pvv_levels(snd),
        height: height_levels(snd),
        cloud_fraction: cloud_fraction_levels(snd),
        mslp: mslp_of(snd),
        station_pressure: station_pressure_of(snd),
        low_cloud: low_cloud_of(snd),
        mid_cloud: mid_cloud_of(snd),
        high_cloud: high_cloud_of(snd),
        sfc_wind: sfc_wind_of(snd),
        elevation: elevation_of(snd),
    }
}

/// Reads from `snd` everything that the checks look at.
pub fn snapshot_of(snd: &Sounding) -> (s: Snapshot)
    ensures
        s@ == reading(*snd),
{
    Snapshot {
        pressure: pressure_profile(snd),
        temperature: temperature_profile(snd),
        wet_bulb: wet_bulb_profile(snd),
        dew_point: dew_point_profile(snd),
        theta_e: theta_e_profile(snd),
        wind: wind_profile(snd),
        pvv: pvv_profile(snd),
        height: height_profile(snd),
        cloud_fraction: cloud_fraction_profile(snd),
        mslp: mslp(snd),
        station_pressure: station_pressure(snd),
        low_cloud: low_cloud(snd),
        mid_cloud: mid_cloud(snd),
        high_cloud: high_cloud(snd),
        sfc_wind: sfc_wind(snd),
        elevation: elevation(snd),
    }
}

} // verus!
