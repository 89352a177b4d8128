//! Error taxonomy of the prompt engine: configuration errors fail a
//! session before it starts, custom validator errors and rendering
//! failures abort a running session, and validation failures are
//! recoverable messages shown inline.

use vstd::prelude::*;

verus! {

/// A message shown to the user when an answer is rejected.
#[derive(Clone, Debug, PartialEq, Eq)]
pub enum ErrorMessage {
    /// A generic "invalid answer" banner.
    Default,
    /// A specific, user-facing explanation.
    Custom(String),
}

/// A failure that ends a prompt session (or keeps one from starting).
#[derive(Clone, Debug, PartialEq, Eq)]
pub enum InquireError {
    /// The caller's configuration is inconsistent; raised before any
    /// rendering happens.
    InvalidConfiguration(String),
    /// A validator failed with its own error; non-recoverable.
    Custom(String),
    /// The render backend failed; non-recoverable.
    Io(String),
}

/// Result type of every fallible prompt operation.
pub type InquireResult<T> = Result<T, InquireError>;

} // verus!
