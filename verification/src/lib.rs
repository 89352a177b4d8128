//! An interactive-prompt engine: prompt configuration, a validation
//! pipeline, an action mapper, and the date-selection prompt's state
//! machine (calendar navigation with clamping to configured bounds and
//! a nested delete-confirmation sub-dialog).

pub mod action;
pub mod config;
pub mod date;
pub mod dateselect;
pub mod driver;
pub mod error;
pub mod marked;
pub mod today;
pub mod validator;

pub use date::Date;
