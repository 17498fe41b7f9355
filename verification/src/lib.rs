//! Consistency checks for atmospheric soundings.
//!
//! A sounding is a vertical profile of measurements together with a few
//! surface values. `validate` runs a fixed battery of checks over one
//! sounding and reports every violation it finds, in a fixed order.

pub mod binary64;
pub mod counting;
pub mod error;
pub mod kinds;
pub mod laws;
pub mod model;
pub mod snapshot;
pub mod sounding;
pub mod validate;

pub use crate::error::{ValidationError, ValidationErrors};
pub use crate::snapshot::{Snapshot, Wind};
pub use crate::validate::{validate, validate_snapshot};
