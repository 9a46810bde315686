//! The rejection type of the conversions that accept every raw value.

use vstd::prelude::*;

verus! {

/// What a conversion that cannot fail names as its rejection.
///
/// The raw string conversion and the two wrappers in [`crate::capture`] accept
/// every raw value, so none of them ever builds a value of this type; it only
/// fills the `Error` slot of [`crate::FromFormValue`].
#[derive(Debug, Clone, Copy, PartialEq, Eq, Structural)]
pub enum Error {
    /// The value could not be parsed.
    BadParse,
}

} // verus!
