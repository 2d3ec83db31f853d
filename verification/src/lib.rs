//! Validated, normalized header field names and values.
//!
//! A [`HeaderFieldName`] and a [`HeaderFieldValue`] hold bytes that went
//! through a classification table: either the table accepted every byte, or
//! the bytes it did not accept were replaced by the placeholder `0`. A value
//! also carries a secrecy tag, which decides what `Debug` shows of it and
//! nothing else.

pub mod ascii;
pub mod charmap;
pub mod name;
pub mod std_specs;
pub mod value;

pub use name::{HeaderFieldName, InvalidHeaderFieldName};
pub use value::{HeaderFieldValue, InvalidHeaderFieldValue};
