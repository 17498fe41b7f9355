use sounding_validate::{validate_snapshot, Snapshot, ValidationError, Wind};

fn bits(x: f64) -> u64 {
    x.to_bits()
}

fn profile(xs: &[f64]) -> Vec<Option<u64>> {
    xs.iter().map(|x| Some(x.to_bits())).collect()
}

fn wind(speed: f64, direction: f64) -> Option<Wind> {
    Some(Wind { speed: speed.to_bits(), direction: direction.to_bits() })
}

fn consistent() -> Snapshot {
    let mut s = Snapshot::new();
    s.pressure = profile(&[840.0, 800.0, 700.0, 500.0]);
    s.temperature = profile(&[20.0, 15.0, 2.0, -10.0]);
    s.wet_bulb = profile(&[20.0, 14.0, 1.0, -11.0]);
    s.dew_point = profile(&[20.0, 13.0, 0.0, -12.0]);
    s.theta_e = profile(&[320.0, 321.0, 322.0, 323.0]);
    s.wind = vec![wind(5.0, 0.0), wind(10.0, 40.0), wind(15.0, 360.0), wind(0.0, 120.0)];
    s.pvv = profile(&[0.0, -1.0, 1.0, 0.5]);
    s.height = profile(&[1050.0, 2000.0, 3000.0, 4000.0]);
    s.cloud_fraction = profile(&[100.0, 85.0, 0.0, 50.0]);
    s.mslp = Some(bits(1014.0));
    s.station_pressure = Some(bits(847.0));
    s.low_cloud = Some(bits(0.5));
    s.mid_cloud = Some(bits(0.0));
    s.high_cloud = Some(bits(1.0));
    s.sfc_wind = wind(0.0, 0.0);
    s.elevation = Some(bits(1023.0));
    s
}

fn errors_of(s: &Snapshot) -> Vec<ValidationError> {
    match validate_snapshot(s) {
        Ok(()) => vec![],
        Err(e) => e.into_inner(),
    }
}

const RISE: ValidationError = ValidationError::PressureNotDecreasingWithHeight;

#[test]
fn consistent_snapshot_is_ok() {
    assert!(validate_snapshot(&consistent()).is_ok());
}

#[test]
fn snapshot_without_optional_data_is_ok() {
    let mut s = Snapshot::new();
    s.pressure = profile(&[840.0, 800.0]);
    assert!(validate_snapshot(&s).is_ok());
}

#[test]
fn empty_snapshot_lacks_pressure_only() {
    assert_eq!(errors_of(&Snapshot::new()), vec![ValidationError::NoPressureProfile]);
}

#[test]
fn shorter_profile_is_reported_once() {
    let mut s = consistent();
    s.theta_e = profile(&[320.0, 321.0, 322.0]);
    assert_eq!(errors_of(&s), vec![ValidationError::InvalidVectorLength("Theta-e", 3, 4)]);
}

#[test]
fn longer_profile_is_reported_once() {
    let mut s = consistent();
    s.pvv = profile(&[0.0, 0.0, 0.0, 0.0, 0.0, 0.0]);
    assert_eq!(
        errors_of(&s),
        vec![ValidationError::InvalidVectorLength("Omega (pressure vertical velocity)", 6, 4)]
    );
}

#[test]
fn empty_profile_is_never_a_wrong_length() {
    let mut s = consistent();
    s.temperature = vec![];
    s.wet_bulb = vec![];
    s.dew_point = vec![];
    s.theta_e = vec![];
    s.wind = vec![];
    s.pvv = vec![];
    s.height = vec![];
    s.cloud_fraction = vec![];
    assert!(validate_snapshot(&s).is_ok());
}

#[test]
fn wrong_lengths_come_in_the_order_of_the_profiles() {
    let mut s = Snapshot::new();
    s.pressure = profile(&[840.0, 800.0]);
    s.temperature = vec![None];
    s.wet_bulb = vec![None; 3];
    s.dew_point = vec![None; 4];
    s.theta_e = vec![None; 5];
    s.wind = vec![None; 6];
    s.pvv = vec![None; 7];
    s.height = vec![None; 8];
    s.cloud_fraction = vec![None; 9];
    assert_eq!(
        errors_of(&s),
        vec![
            ValidationError::InvalidVectorLength("Temperature", 1, 2),
            ValidationError::InvalidVectorLength("Wet bulb temperature", 3, 2),
            ValidationError::InvalidVectorLength("Dew point", 4, 2),
            ValidationError::InvalidVectorLength("Theta-e", 5, 2),
            ValidationError::InvalidVectorLength("Wind", 6, 2),
            ValidationError::InvalidVectorLength("Omega (pressure vertical velocity)", 7, 2),
            ValidationError::InvalidVectorLength("Height", 8, 2),
            ValidationError::InvalidVectorLength("Cloud fraction", 9, 2),
        ]
    );
}

#[test]
fn missing_pressure_makes_every_other_profile_too_long() {
    let mut s = consistent();
    s.pressure = vec![];
    s.theta_e = vec![];
    assert_eq!(
        errors_of(&s),
        vec![
            ValidationError::NoPressureProfile,
            ValidationError::InvalidVectorLength("Temperature", 4, 0),
            ValidationError::InvalidVectorLength("Wet bulb temperature", 4, 0),
            ValidationError::InvalidVectorLength("Dew point", 4, 0),
            ValidationError::InvalidVectorLength("Wind", 4, 0),
            ValidationError::InvalidVectorLength("Omega (pressure vertical velocity)", 4, 0),
            ValidationError::InvalidVectorLength("Height", 4, 0),
            ValidationError::InvalidVectorLength("Cloud fraction", 4, 0),
        ]
    );
}

#[test]
fn station_pressure_below_the_lowest_level() {
    let mut s = consistent();
    s.station_pressure = Some(bits(830.0));
    assert_eq!(errors_of(&s), vec![RISE]);
}

#[test]
fn station_pressure_equal_to_the_lowest_level_passes() {
    let mut s = consistent();
    s.station_pressure = Some(bits(840.0));
    assert!(validate_snapshot(&s).is_ok());
}

#[test]
fn every_rise_of_pressure_is_reported() {
    let mut s = Snapshot::new();
    s.pressure = profile(&[800.0, 850.0, 700.0, 750.0, 750.0, 760.0]);
    assert_eq!(errors_of(&s), vec![RISE, RISE, RISE]);
}

#[test]
fn pressure_is_compared_across_absent_levels() {
    let mut s = Snapshot::new();
    s.pressure = vec![Some(bits(800.0)), None, None, Some(bits(810.0)), None, Some(bits(805.0))];
    assert_eq!(errors_of(&s), vec![RISE]);
    s.pressure = vec![None, Some(bits(800.0))];
    s.station_pressure = Some(bits(790.0));
    assert_eq!(errors_of(&s), vec![RISE]);
}

#[test]
fn without_station_pressure_the_lowest_level_passes() {
    let mut s = Snapshot::new();
    s.pressure = profile(&[f64::MAX, 1000.0]);
    assert!(validate_snapshot(&s).is_ok());
    s.pressure = profile(&[f64::INFINITY, 1000.0]);
    assert!(validate_snapshot(&s).is_ok());
}

#[test]
fn every_fall_of_height_is_reported() {
    let mut s = consistent();
    s.height = profile(&[1050.0, 1000.0, 3000.0, 2999.0]);
    assert_eq!(errors_of(&s), vec![RISE, RISE]);
}

#[test]
fn elevation_above_the_lowest_height() {
    let mut s = consistent();
    s.elevation = Some(bits(1051.0));
    assert_eq!(errors_of(&s), vec![RISE]);
    s.elevation = Some(bits(1050.0));
    assert!(validate_snapshot(&s).is_ok());
}

#[test]
fn without_elevation_the_lowest_height_passes() {
    let mut s = consistent();
    s.elevation = None;
    s.height = profile(&[f64::NEG_INFINITY, -400.0, 0.0, 10.0]);
    assert!(validate_snapshot(&s).is_ok());
}

#[test]
fn pressure_and_height_are_checked_one_after_the_other() {
    let mut s = consistent();
    s.pressure = profile(&[840.0, 850.0, 700.0, 500.0]);
    s.height = profile(&[1050.0, 2000.0, 1500.0, 4000.0]);
    s.temperature = profile(&[20.0, 15.0, 2.0, -12.0]);
    assert_eq!(
        errors_of(&s),
        vec![
            RISE,
            RISE,
            ValidationError::TemperatureLessThanWetBulb(bits(-12.0), bits(-11.0)),
        ]
    );
}

#[test]
fn as_many_wet_bulb_violations_as_failing_levels() {
    let mut s = consistent();
    s.temperature = profile(&[20.0, 13.5, 2.0, -11.5]);
    assert_eq!(
        errors_of(&s),
        vec![
            ValidationError::TemperatureLessThanWetBulb(bits(13.5), bits(14.0)),
            ValidationError::TemperatureLessThanWetBulb(bits(-11.5), bits(-11.0)),
        ]
    );
}

#[test]
fn relations_are_reported_one_relation_after_the_other() {
    let mut s = consistent();
    s.temperature = profile(&[19.0, 15.0, 2.0, -13.0]);
    s.wet_bulb = profile(&[20.0, 12.0, 1.0, -11.0]);
    assert_eq!(
        errors_of(&s),
        vec![
            ValidationError::TemperatureLessThanWetBulb(bits(19.0), bits(20.0)),
            ValidationError::TemperatureLessThanWetBulb(bits(-13.0), bits(-11.0)),
            ValidationError::TemperatureLessThanDewPoint(bits(19.0), bits(20.0)),
            ValidationError::TemperatureLessThanDewPoint(bits(-13.0), bits(-12.0)),
            ValidationError::WetBulbLessThanDewPoint(bits(12.0), bits(13.0)),
        ]
    );
}

#[test]
fn equal_temperatures_pass() {
    let mut s = consistent();
    s.temperature = profile(&[7.0, 7.0, 7.0, 7.0]);
    s.wet_bulb = profile(&[7.0, 7.0, 7.0, 7.0]);
    s.dew_point = profile(&[7.0, 7.0, 7.0, 7.0]);
    assert!(validate_snapshot(&s).is_ok());
}

#[test]
fn an_absent_sample_raises_no_relation() {
    let mut s = consistent();
    s.temperature = vec![None, Some(bits(-100.0)), None, Some(bits(-100.0))];
    s.wet_bulb = vec![Some(bits(50.0)), None, None, Some(bits(-11.0))];
    s.dew_point = vec![Some(bits(60.0)), None, Some(bits(70.0)), None];
    assert_eq!(
        errors_of(&s),
        vec![
            ValidationError::TemperatureLessThanWetBulb(bits(-100.0), bits(-11.0)),
            ValidationError::WetBulbLessThanDewPoint(bits(50.0), bits(60.0)),
        ]
    );
}

#[test]
fn relations_stop_at_the_shorter_profile() {
    let mut s = Snapshot::new();
    s.pressure = profile(&[840.0, 800.0, 700.0]);
    s.temperature = profile(&[1.0, 1.0, 1.0]);
    s.wet_bulb = profile(&[2.0]);
    assert_eq!(
        errors_of(&s),
        vec![
            ValidationError::InvalidVectorLength("Wet bulb temperature", 1, 3),
            ValidationError::TemperatureLessThanWetBulb(bits(1.0), bits(2.0)),
        ]
    );
}

#[test]
fn negative_values_in_the_order_of_the_checks() {
    let mut s = consistent();
    s.wind = vec![wind(-5.0, 0.0), wind(10.0, 40.0), wind(-10.0, 80.0), None];
    s.cloud_fraction = vec![Some(bits(100.0)), Some(bits(-85.0)), None, Some(bits(-70.0))];
    s.low_cloud = Some(bits(-0.1));
    s.mid_cloud = Some(bits(-0.2));
    s.high_cloud = Some(bits(-0.3));
    s.sfc_wind = wind(-3.0, 100.0);
    s.mslp = Some(bits(-1014.0));
    s.station_pressure = Some(bits(-847.0));
    assert_eq!(
        errors_of(&s),
        vec![
            RISE,
            ValidationError::InvalidNegativeValue("Wind speed", bits(-5.0)),
            ValidationError::InvalidNegativeValue("Wind speed", bits(-10.0)),
            ValidationError::InvalidNegativeValue("Cloud fraction", bits(-85.0)),
            ValidationError::InvalidNegativeValue("Cloud fraction", bits(-70.0)),
            ValidationError::InvalidNegativeValue("Low cloud", bits(-0.1)),
            ValidationError::InvalidNegativeValue("Mid cloud", bits(-0.2)),
            ValidationError::InvalidNegativeValue("Hi cloud", bits(-0.3)),
            ValidationError::InvalidNegativeValue("Wind speed", bits(-3.0)),
            ValidationError::InvalidNegativeValue("MSLP", bits(-1014.0)),
            ValidationError::InvalidNegativeValue("Station pressure", bits(-847.0)),
        ]
    );
}

#[test]
fn zero_and_negative_zero_are_not_negative() {
    let mut s = consistent();
    s.wind = vec![wind(0.0, 0.0), wind(-0.0, -0.0), None, None];
    s.cloud_fraction = profile(&[0.0, -0.0, 0.0, -0.0]);
    s.low_cloud = Some(bits(-0.0));
    s.mslp = Some(bits(0.0));
    assert!(validate_snapshot(&s).is_ok());
}

#[test]
fn wind_directions_out_of_range() {
    let mut s = consistent();
    s.wind = vec![wind(5.0, -80.0), wind(10.0, 360.0), wind(15.0, 360.5), wind(1.0, 0.0)];
    s.sfc_wind = wind(5.0, -90.0);
    assert_eq!(
        errors_of(&s),
        vec![
            ValidationError::InvalidWindDirection(bits(-80.0)),
            ValidationError::InvalidWindDirection(bits(360.5)),
            ValidationError::InvalidWindDirection(bits(-90.0)),
        ]
    );
}

#[test]
fn negative_speeds_come_before_directions() {
    let mut s = consistent();
    s.wind = vec![wind(-5.0, 400.0), None, None, wind(-6.0, -1.0)];
    s.sfc_wind = wind(-7.0, 720.0);
    assert_eq!(
        errors_of(&s),
        vec![
            ValidationError::InvalidNegativeValue("Wind speed", bits(-5.0)),
            ValidationError::InvalidNegativeValue("Wind speed", bits(-6.0)),
            ValidationError::InvalidNegativeValue("Wind speed", bits(-7.0)),
            ValidationError::InvalidWindDirection(bits(400.0)),
            ValidationError::InvalidWindDirection(bits(-1.0)),
            ValidationError::InvalidWindDirection(bits(720.0)),
        ]
    );
}

#[test]
fn what_is_not_a_number_breaks_no_rule() {
    let nan = f64::NAN;
    let mut s = consistent();
    s.pressure = profile(&[840.0, nan, 700.0, 500.0]);
    s.height = profile(&[1050.0, nan, 3000.0, 4000.0]);
    s.temperature = profile(&[nan, 15.0, 2.0, -10.0]);
    s.dew_point = profile(&[20.0, 13.0, nan, -12.0]);
    s.wind = vec![wind(nan, nan), wind(1.0, nan), wind(nan, 1.0), None];
    s.cloud_fraction = profile(&[nan, 1.0, 1.0, 1.0]);
    s.mslp = Some(bits(nan));
    s.station_pressure = Some(bits(nan));
    s.elevation = Some(bits(nan));
    assert!(validate_snapshot(&s).is_ok());
}

#[test]
fn a_second_run_repeats_the_first() {
    let mut s = consistent();
    s.pressure = profile(&[840.0, 850.0, 700.0]);
    s.temperature = profile(&[19.0, 15.0, 2.0, -13.0]);
    s.wind = vec![wind(-5.0, 400.0), None, None, wind(-6.0, -1.0)];
    s.mslp = Some(bits(-1.0));
    let first = errors_of(&s);
    let second = errors_of(&s);
    assert_eq!(first.len(), 18);
    assert_eq!(first, second);
}

#[test]
fn all_checks_run_in_one_pass() {
    let mut s = Snapshot::new();
    s.temperature = profile(&[1.0]);
    s.wet_bulb = profile(&[2.0]);
    s.height = profile(&[10.0, 5.0]);
    s.wind = vec![wind(-1.0, 361.0)];
    s.elevation = Some(bits(20.0));
    assert_eq!(
        errors_of(&s),
        vec![
            ValidationError::NoPressureProfile,
            ValidationError::InvalidVectorLength("Temperature", 1, 0),
            ValidationError::InvalidVectorLength("Wet bulb temperature", 1, 0),
            ValidationError::InvalidVectorLength("Wind", 1, 0),
            ValidationError::InvalidVectorLength("Height", 2, 0),
            RISE,
            RISE,
            ValidationError::TemperatureLessThanWetBulb(bits(1.0), bits(2.0)),
            ValidationError::InvalidNegativeValue("Wind speed", bits(-1.0)),
            ValidationError::InvalidWindDirection(bits(361.0)),
        ]
    );
}
