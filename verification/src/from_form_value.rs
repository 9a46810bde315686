//! The conversion capability, and the law that a conversion is a function of
//! the raw value.

use vstd::prelude::*;

verus! {

/// A type that can be made from the raw value of a form field.
///
/// The party that binds a form to a record holds, for each declared field, at
/// most one raw string. Where it holds one it calls
/// [`from_form_value`](FromFormValue::from_form_value) of the field's type;
/// where the field was not submitted it calls
/// [`default`](FromFormValue::default), and treats `None` as "this field is
/// required".
///
/// An implementation describes its conversion once, as the relation
/// [`converts`](FromFormValue::converts) between a raw value and an outcome,
/// and `from_form_value` is held to it.
pub trait FromFormValue<'v>: Sized {
    /// What a rejected raw value is reported as. It is a good idea to let it
    /// be, or contain, the raw string, so that what was submitted can be
    /// shown.
    type Error;

    /// Whether `outcome` is what converting `raw` gives.
    ///
    /// An implementation that does not say leaves every outcome open, and
    /// nothing can then be proved of what it converts.
    open spec fn converts(raw: &'v str, outcome: Result<Self, Self::Error>) -> bool {
        true
    }

    /// Converts the raw value of a form field, or says what was rejected.
    fn from_form_value(form_value: &'v str) -> (outcome: Result<Self, Self::Error>)
        ensures
            Self::converts(form_value, outcome),
    ;

    /// The value that stands in for a field that was not submitted, or `None`
    /// where the field is required. Unless an implementation says otherwise
    /// the field is required.
    fn default() -> (value: Option<Self>)
        default_ensures
            value is None,
    {
        None
    }
}

/// A conversion that is a function of the raw value and of nothing else: the
/// same raw value always has the same outcome.
///
/// Every conversion of this crate is one, and the two wrappers of
/// [`crate::capture`] are where the type they wrap is.
pub trait PureConversion<'v>: FromFormValue<'v> {
    /// Whether two values are the same value. That is equality, unless the
    /// type says otherwise: a type whose values are known by what they hold,
    /// as a `String` is by its characters, compares that.
    open spec fn same_value(first: Self, second: Self) -> bool {
        first == second
    }

    /// Whether two rejections are the same rejection: equality, unless the
    /// type says otherwise.
    open spec fn same_error(first: Self::Error, second: Self::Error) -> bool {
        first == second
    }

    /// Purity: a raw value has one outcome. Whatever two conversions of it
    /// give, both accept it or both reject it, and with the same value or the
    /// same rejection.
    proof fn lemma_pure(
        raw: &'v str,
        first: Result<Self, Self::Error>,
        second: Result<Self, Self::Error>,
    )
        requires
            Self::converts(raw, first),
            Self::converts(raw, second),
        ensures
            match (first, second) {
                (Ok(a), Ok(b)) => Self::same_value(a, b),
                (Err(a), Err(b)) => Self::same_error(a, b),
                _ => false,
            },
    ;
}

} // verus!
