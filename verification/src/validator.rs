//! The validation pipeline: an ordered chain of caller-supplied
//! predicates over a candidate answer. The first validator that rejects
//! the candidate short-circuits the chain; a validator that fails with
//! its own error aborts the whole prompt session.

use vstd::prelude::*;
use crate::date::Date;
use crate::error::ErrorMessage;

verus! {

/// Outcome of one validator, or of the whole chain: the candidate is
/// accepted, or rejected with a user-facing message.
#[derive(Clone, Debug, PartialEq, Eq)]
pub enum Validation {
    /// The candidate answer may be submitted.
    Valid,
    /// The candidate answer is rejected; the message is shown inline
    /// and the session continues.
    Invalid(ErrorMessage),
}

/// A caller-supplied predicate over a candidate date. Implementations
/// return `Ok(Validation)` to accept or reject the candidate, or
/// `Err` with an error text to abort the prompt session.
pub trait DateValidator {
    /// Judges the candidate date.
    fn validate(&self, candidate: Date) -> Result<Validation, String>;
}

/// A caller-supplied formatter from an answered date to its display
/// string, invoked once on successful submission.
pub trait DateFormatter {
    /// The display string for `date`.
    fn format(&self, date: Date) -> String;
}

} // verus!
