//! Validation guards for request payloads.
//!
//! A payload that has been decoded is only handed to a handler after its
//! declared constraints were checked. Failures are recorded once per request
//! and rendered as a fixed JSON envelope.

pub mod cache;
pub mod catcher;
pub mod errors;
pub mod form;
pub mod guard;
pub mod outcome;
pub mod validated;

pub use validator::{Validate, ValidationErrors};

pub use cache::CachedValidationErrors;
pub use catcher::{validation_catcher, Error};
pub use form::{Entity, FormError, FormFailure};
pub use outcome::{Checked, Outcome, Status, Undecoded};
pub use validated::{Json, Validated};
