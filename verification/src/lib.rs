//! Typed conversion of raw form field values.
//!
//! A submitted form hands every field over as an untyped string. This crate
//! turns one such string into a value of the type a field was declared with,
//! or reports what was rejected. [`FromFormValue`] is the capability a field
//! type implements; the modules beside it hold the catalog of implementations:
//! raw and decoded strings, booleans, integers, and the two wrappers that turn
//! a rejection into a value.
//!
//! Every conversion is verified against a mathematical description of its
//! result, stated over the characters of the raw value.

pub mod boolean;
pub mod capture;
pub mod decimal;
pub mod error;
pub mod from_form_value;
pub mod integer;
pub mod msgpack;
pub mod text;

pub use crate::error::Error;
pub use crate::from_form_value::{FromFormValue, PureConversion};
pub use crate::msgpack::MsgPack;
