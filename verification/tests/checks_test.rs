use sounding_validate::validate::{
    check_pressure_exists, check_temp_wet_bulb_dew_point, check_vertical_height_pressure,
    validate_positive, validate_vector_len, validate_wind_direction, validate_wind_speed,
};
use sounding_validate::{Snapshot, ValidationError, ValidationErrors, Wind};

fn bits(x: f64) -> u64 {
    x.to_bits()
}

#[test]
fn pressure_exists() {
    assert_eq!(check_pressure_exists(&[]), Err(ValidationError::NoPressureProfile));
    assert_eq!(check_pressure_exists(&[None]), Ok(()));
    assert_eq!(check_pressure_exists(&[Some(bits(1000.0))]), Ok(()));
}

#[test]
fn vector_len() {
    let empty: [u8; 0] = [];
    assert_eq!(validate_vector_len(&empty, 5, "Height"), Ok(()));
    assert_eq!(validate_vector_len(&empty, 0, "Height"), Ok(()));
    assert_eq!(validate_vector_len(&[1u8, 2, 3], 3, "Height"), Ok(()));
    assert_eq!(
        validate_vector_len(&[1u8, 2, 3], 4, "Height"),
        Err(ValidationError::InvalidVectorLength("Height", 3, 4))
    );
    assert_eq!(
        validate_vector_len(&[1u8, 2, 3], 0, "Wind"),
        Err(ValidationError::InvalidVectorLength("Wind", 3, 0))
    );
}

#[test]
fn positive_appends_to_what_is_there() {
    let mut errs = ValidationErrors::new();
    errs.push_error(Err(ValidationError::NoPressureProfile));
    validate_positive(None, "MSLP", &mut errs);
    validate_positive(Some(bits(3.0)), "MSLP", &mut errs);
    validate_positive(Some(bits(-3.0)), "MSLP", &mut errs);
    assert_eq!(
        errs.into_inner(),
        vec![
            ValidationError::NoPressureProfile,
            ValidationError::InvalidNegativeValue("MSLP", bits(-3.0)),
        ]
    );
}

#[test]
fn wind_speed_and_direction() {
    let mut errs = ValidationErrors::new();
    let w = Some(Wind { speed: bits(-2.0), direction: bits(361.0) });
    validate_wind_direction(w, &mut errs);
    validate_wind_speed(w, &mut errs);
    validate_wind_direction(None, &mut errs);
    validate_wind_speed(None, &mut errs);
    assert_eq!(
        errs.into_inner(),
        vec![
            ValidationError::InvalidWindDirection(bits(361.0)),
            ValidationError::InvalidNegativeValue("Wind speed", bits(-2.0)),
        ]
    );
}

#[test]
fn vertical_check_appends_pressure_then_height() {
    let mut s = Snapshot::new();
    s.pressure = vec![Some(bits(900.0)), Some(bits(950.0))];
    s.height = vec![Some(bits(100.0)), Some(bits(50.0)), Some(bits(40.0))];
    let mut errs = ValidationErrors::new();
    check_vertical_height_pressure(&s, &mut errs);
    assert_eq!(
        errs.into_inner(),
        vec![
            ValidationError::PressureNotDecreasingWithHeight,
            ValidationError::PressureNotDecreasingWithHeight,
            ValidationError::PressureNotDecreasingWithHeight,
        ]
    );
}

#[test]
fn relational_check_appends() {
    let mut s = Snapshot::new();
    s.temperature = vec![Some(bits(1.0))];
    s.wet_bulb = vec![Some(bits(3.0))];
    s.dew_point = vec![Some(bits(2.0))];
    let mut errs = ValidationErrors::new();
    check_temp_wet_bulb_dew_point(&s, &mut errs);
    assert_eq!(
        errs.into_inner(),
        vec![
            ValidationError::TemperatureLessThanWetBulb(bits(1.0), bits(3.0)),
            ValidationError::TemperatureLessThanDewPoint(bits(1.0), bits(2.0)),
        ]
    );
}
