//! The violations that a validation run can report, and their collection.

use vstd::prelude::*;

verus! {

/// One violated rule, with the values that explain it. Measurements are
/// carried as binary64 bit patterns.
#[derive(Clone, Copy, Debug, PartialEq)]
pub enum ValidationError {
    /// The sounding has no pressure profile.
    NoPressureProfile,
    /// A profile is neither empty nor as long as the pressure profile, which
    /// is the vertical coordinate. Holds the profile's name, its length, and
    /// the length it should have had.
    InvalidVectorLength(&'static str, usize, usize),
    /// Pressure rises from one level to the next one up, or height falls.
    /// Profiles are taken to be sorted from the lowest level to the highest.
    PressureNotDecreasingWithHeight,
    /// Temperature below wet bulb temperature at one level. Holds both.
    TemperatureLessThanWetBulb(u64, u64),
    /// Temperature below dew point at one level. Holds both.
    TemperatureLessThanDewPoint(u64, u64),
    /// Wet bulb temperature below dew point at one level. Holds both.
    WetBulbLessThanDewPoint(u64, u64),
    /// A value below zero where none may be, such as a speed. Holds the
    /// field's name and the value.
    InvalidNegativeValue(&'static str, u64),
    /// A wind direction outside 0 to 360 degrees.
    InvalidWindDirection(u64),
}

impl ValidationError {
    /// The rule that a violation names, in a few words.
    pub open spec fn rule_text(self) -> &'static str {
        match self {
            ValidationError::NoPressureProfile => "missing pressure profile",
            ValidationError::InvalidVectorLength(_, _, _) => "vectors do not match length",
            ValidationError::PressureNotDecreasingWithHeight => "pressure not decreasing with height",
            ValidationError::TemperatureLessThanWetBulb(_, _) => "temperature less than wet bulb",
            ValidationError::TemperatureLessThanDewPoint(_, _) => "temperature less than dew point",
            ValidationError::WetBulbLessThanDewPoint(_, _) => "wet bulb less than dew point",
            ValidationError::InvalidNegativeValue(_, _) => "invalid negative value",
            ValidationError::InvalidWindDirection(_) => "invalid wind direction",
        }
    }

    /// The rule that this violation names, in a few words. The values that
    /// broke it are in the violation itself.
    pub fn rule(&self) -> (r: &'static str)
        ensures
            r == self.rule_text(),
    {
        match self {
            ValidationError::NoPressureProfile => "missing pressure profile",
            ValidationError::InvalidVectorLength(_, _, _) => "vectors do not match length",
            ValidationError::PressureNotDecreasingWithHeight => "pressure not decreasing with height",
            ValidationError::TemperatureLessThanWetBulb(_, _) => "temperature less than wet bulb",
            ValidationError::TemperatureLessThanDewPoint(_, _) => "temperature less than dew point",
            ValidationError::WetBulbLessThanDewPoint(_, _) => "wet bulb less than dew point",
            ValidationError::InvalidNegativeValue(_, _) => "invalid negative value",
            ValidationError::InvalidWindDirection(_) => "invalid wind direction",
        }
    }
}

/// The violations found by one validation run, in the order of the checks.
#[derive(Debug)]
pub struct ValidationErrors {
    errors: Vec<ValidationError>,
}

impl View for ValidationErrors {
    type V = Seq<ValidationError>;

    closed spec fn view(&self) -> Seq<ValidationError> {
        self.errors@
    }
}

impl Default for ValidationErrors {
    fn default() -> (r: Self)
        ensures
            r@ == Seq::<ValidationError>::empty(),
    {
        ValidationErrors { errors: Vec::new() }
    }
}

impl ValidationErrors {
    /// An empty collection.
    pub fn new() -> (r: Self)
        ensures
            r@ == Seq::<ValidationError>::empty(),
    {
        ValidationErrors { errors: Vec::new() }
    }

    /// The violations, in the order in which they were added.
    pub fn into_inner(self) -> (r: Vec<ValidationError>)
        ensures
            r@ == self@,
    {
        self.errors
    }

    /// Adds the violation that `result` holds, if it holds one.
    pub fn push_error(&mut self, result: Result<(), ValidationError>)
        ensures
            final(self)@ == match result {
                Ok(_) => old(self)@,
                Err(e) => old(self)@.push(e),
            },
    {
        match result {
            Ok(()) => {},
            Err(err) => self.errors.push(err),
        }
    }

    /// `Ok` for an empty collection, else the collection itself.
    pub fn check_any(self) -> (r: Result<(), ValidationErrors>)
        ensures
            r is Ok <==> self@.len() == 0,
            r is Err ==> r->Err_0@ == self@,
    {
        if self.errors.is_empty() {
            Ok(())
        } else {
            Err(self)
        }
    }
}

} // verus!
