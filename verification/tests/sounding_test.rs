use metfor::{Celsius, HectoPascal, Kelvin, Knots, Meters, PaPS, WindSpdDir};
use optional::Optioned;
use sounding_base::{Sounding, StationInfo};
use sounding_validate::sounding::snapshot_of;
use sounding_validate::{validate, ValidationError, Wind};

fn bits(x: f64) -> Option<u64> {
    Some(x.to_bits())
}

fn wind(speed: f64, direction: f64) -> Option<Wind> {
    Some(Wind { speed: speed.to_bits(), direction: direction.to_bits() })
}

fn sample_sounding() -> Sounding {
    Sounding::new()
        .with_station_info(StationInfo::new_with_values(1, (45.0, -115.0), Meters(1023.0)))
        .with_pressure_profile(vec![
            Optioned::from(HectoPascal(840.0)),
            optional::none(),
            Optioned::from(HectoPascal(700.0)),
        ])
        .with_temperature_profile(vec![
            Optioned::from(Celsius(20.0)),
            Optioned::from(Celsius(15.0)),
            optional::none(),
        ])
        .with_dew_point_profile(vec![optional::none(), Optioned::from(Celsius(13.0))])
        .with_wet_bulb_profile(vec![Optioned::from(Celsius(24.0))])
        .with_theta_e_profile(vec![Optioned::from(Kelvin(320.0)), Optioned::from(Kelvin(321.0))])
        .with_wind_profile(vec![
            Optioned::from(WindSpdDir { direction: 40.0, speed: Knots(10.0) }),
            optional::none(),
        ])
        .with_pvv_profile(vec![Optioned::from(PaPS(-1.5))])
        .with_height_profile(vec![Optioned::from(Meters(1050.0)), Optioned::from(Meters(2000.0))])
        .with_cloud_fraction_profile(vec![Optioned::from(85.0), optional::none()])
        .with_mslp(HectoPascal(1014.0))
        .with_station_pressure(HectoPascal(847.0))
        .with_sfc_wind(WindSpdDir { speed: Knots(3.0), direction: 270.0 })
        .with_low_cloud(0.25)
        .with_mid_cloud(0.5)
        .with_high_cloud(0.75)
}

#[test]
fn snapshot_holds_what_the_sounding_holds() {
    let s = snapshot_of(&sample_sounding());
    assert_eq!(s.pressure, vec![bits(847.0), bits(840.0), None, bits(700.0)]);
    assert_eq!(s.temperature, vec![None, bits(20.0), bits(15.0), None]);
    assert_eq!(s.dew_point, vec![None, None, bits(13.0)]);
    assert_eq!(s.wet_bulb, vec![None, bits(24.0)]);
    assert_eq!(s.theta_e, vec![None, bits(320.0), bits(321.0)]);
    assert_eq!(s.wind, vec![wind(3.0, 270.0), wind(10.0, 40.0), None]);
    assert_eq!(s.pvv, vec![bits(0.0), bits(-1.5)]);
    assert_eq!(s.height, vec![bits(1023.0), bits(1050.0), bits(2000.0)]);
    assert_eq!(s.cloud_fraction, vec![bits(0.0), bits(85.0), None]);
    assert_eq!(s.mslp, bits(1014.0));
    assert_eq!(s.station_pressure, bits(847.0));
    assert_eq!(s.low_cloud, bits(0.25));
    assert_eq!(s.mid_cloud, bits(0.5));
    assert_eq!(s.high_cloud, bits(0.75));
    assert_eq!(s.sfc_wind, wind(3.0, 270.0));
    assert_eq!(s.elevation, bits(1023.0));
}

#[test]
fn snapshot_of_an_empty_sounding_is_empty() {
    let s = snapshot_of(&Sounding::new());
    assert!(s.pressure.is_empty());
    assert!(s.temperature.is_empty());
    assert!(s.wet_bulb.is_empty());
    assert!(s.dew_point.is_empty());
    assert!(s.theta_e.is_empty());
    assert!(s.wind.is_empty());
    assert!(s.pvv.is_empty());
    assert!(s.height.is_empty());
    assert!(s.cloud_fraction.is_empty());
    assert_eq!(s.mslp, None);
    assert_eq!(s.station_pressure, None);
    assert_eq!(s.low_cloud, None);
    assert_eq!(s.mid_cloud, None);
    assert_eq!(s.high_cloud, None);
    assert_eq!(s.sfc_wind, None);
    assert_eq!(s.elevation, None);
}

#[test]
fn sounding_with_wrong_lengths_and_values() {
    let errs = validate(&sample_sounding()).unwrap_err().into_inner();
    assert_eq!(
        errs,
        vec![
            ValidationError::InvalidVectorLength("Wet bulb temperature", 2, 4),
            ValidationError::InvalidVectorLength("Dew point", 3, 4),
            ValidationError::InvalidVectorLength("Theta-e", 3, 4),
            ValidationError::InvalidVectorLength("Wind", 3, 4),
            ValidationError::InvalidVectorLength("Omega (pressure vertical velocity)", 2, 4),
            ValidationError::InvalidVectorLength("Height", 3, 4),
            ValidationError::InvalidVectorLength("Cloud fraction", 3, 4),
            ValidationError::TemperatureLessThanWetBulb(20.0f64.to_bits(), 24.0f64.to_bits()),
        ]
    );
}

#[test]
fn empty_sounding_lacks_pressure() {
    let errs = validate(&Sounding::new()).unwrap_err().into_inner();
    assert_eq!(errs, vec![ValidationError::NoPressureProfile]);
}
