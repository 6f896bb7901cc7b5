//! A date-eligibility rule engine for date pickers.
//!
//! A [`DateConstraints`] value holds a validated, immutable set of rules that
//! define which calendar dates are forbidden (not selectable). Four pure
//! predicates answer forbidden-ness queries at increasing granularity:
//! a single day, a whole month, a whole year, and a whole 20-year year group,
//! each coarser level defined in terms of the level below.

pub mod constraints;
pub mod date;
pub mod laws;

pub use crate::constraints::ConstraintsModel;
pub use crate::constraints::DateConstraints;
pub use crate::constraints::DateConstraintsBuilder;
pub use crate::constraints::DateConstraintsBuilderError;
pub use crate::constraints::HasDateConstraints;
pub use crate::date::Date;
