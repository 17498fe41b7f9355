use sounding_validate::{ValidationError, ValidationErrors};

#[test]
fn new_collection_is_empty() {
    assert_eq!(ValidationErrors::new().into_inner(), vec![]);
    assert_eq!(ValidationErrors::default().into_inner(), vec![]);
}

#[test]
fn empty_collection_checks_ok() {
    assert!(ValidationErrors::new().check_any().is_ok());
}

#[test]
fn push_error_ignores_ok() {
    let mut errs = ValidationErrors::new();
    errs.push_error(Ok(()));
    assert_eq!(errs.into_inner(), vec![]);
}

#[test]
fn push_error_keeps_order() {
    let mut errs = ValidationErrors::new();
    errs.push_error(Err(ValidationError::NoPressureProfile));
    errs.push_error(Ok(()));
    errs.push_error(Err(ValidationError::InvalidVectorLength("Height", 3, 4)));
    errs.push_error(Err(ValidationError::NoPressureProfile));
    assert_eq!(
        errs.into_inner(),
        vec![
            ValidationError::NoPressureProfile,
            ValidationError::InvalidVectorLength("Height", 3, 4),
            ValidationError::NoPressureProfile,
        ]
    );
}

#[test]
fn check_any_hands_back_the_collection() {
    let mut errs = ValidationErrors::new();
    errs.push_error(Err(ValidationError::PressureNotDecreasingWithHeight));
    errs.push_error(Err(ValidationError::InvalidWindDirection(400.0f64.to_bits())));
    let checked = errs.check_any();
    assert!(checked.is_err());
    assert_eq!(
        checked.unwrap_err().into_inner(),
        vec![
            ValidationError::PressureNotDecreasingWithHeight,
            ValidationError::InvalidWindDirection(400.0f64.to_bits()),
        ]
    );
}

#[test]
fn rule_of_each_kind() {
    let x = 1.0f64.to_bits();
    assert_eq!(ValidationError::NoPressureProfile.rule(), "missing pressure profile");
    assert_eq!(
        ValidationError::InvalidVectorLength("Wind", 1, 2).rule(),
        "vectors do not match length"
    );
    assert_eq!(
        ValidationError::PressureNotDecreasingWithHeight.rule(),
        "pressure not decreasing with height"
    );
    assert_eq!(
        ValidationError::TemperatureLessThanWetBulb(x, x).rule(),
        "temperature less than wet bulb"
    );
    assert_eq!(
        ValidationError::TemperatureLessThanDewPoint(x, x).rule(),
        "temperature less than dew point"
    );
    assert_eq!(
        ValidationError::WetBulbLessThanDewPoint(x, x).rule(),
        "wet bulb less than dew point"
    );
    assert_eq!(ValidationError::InvalidNegativeValue("MSLP", x).rule(), "invalid negative value");
    assert_eq!(ValidationError::InvalidWindDirection(x).rule(), "invalid wind direction");
}
