//! The two wrappers that turn a rejection into a value.
//!
//! Both are made for every convertible type at once. Neither changes how the
//! inner type reads a raw value; they change what becomes of a rejection.

use vstd::prelude::*;
use crate::error::Error;
use crate::from_form_value::{FromFormValue, PureConversion};

verus! {

/// The optional wrapper: what the inner type accepts is `Some` of it, and what
/// the inner type rejects is `None`, the rejection being dropped. No raw value
/// is rejected. A field that was not submitted is `None` as well.
impl<'v, T: FromFormValue<'v>> FromFormValue<'v> for Option<T> {
    type Error = Error;

    open spec fn converts(raw: &'v str, outcome: Result<Self, Self::Error>) -> bool {
        match outcome {
            Ok(Some(value)) => T::converts(raw, Ok(value)),
            Ok(None) => exists|rejection: T::Error| T::converts(raw, Err(rejection)),
            Err(_) => false,
        }
    }

    fn from_form_value(v: &'v str) -> (outcome: Result<Self, Self::Error>) {
        match T::from_form_value(v) {
            Ok(value) => Ok(Some(value)),
            Err(_) => Ok(None),
        }
    }

    fn default() -> Option<Option<T>>
        returns
            Some(None::<T>),
    {
        Some(None)
    }
}

/// Two optional values are the same where both are `None`, or both are `Some`
/// of the same value.
impl<'v, T: PureConversion<'v>> PureConversion<'v> for Option<T> {
    open spec fn same_value(first: Option<T>, second: Option<T>) -> bool {
        match (first, second) {
            (Some(a), Some(b)) => T::same_value(a, b),
            (None, None) => true,
            _ => false,
        }
    }

    proof fn lemma_pure(
        raw: &'v str,
        first: Result<Self, Self::Error>,
        second: Result<Self, Self::Error>,
    ) {
        match (first, second) {
            (Ok(Some(a)), Ok(Some(b))) => {
                T::lemma_pure(raw, Ok(a), Ok(b));
            },
            (Ok(Some(a)), Ok(None)) => {
                let rejection = choose|rejection: T::Error| T::converts(raw, Err(rejection));
                T::lemma_pure(raw, Ok(a), Err(rejection));
            },
            (Ok(None), Ok(Some(b))) => {
                let rejection = choose|rejection: T::Error| T::converts(raw, Err(rejection));
                T::lemma_pure(raw, Err(rejection), Ok(b));
            },
            _ => {},
        }
    }
}

/// The wrapper that captures the rejection: whatever the inner type makes of
/// the raw value, accepted or rejected, is the value. No raw value is
/// rejected. A field that was not submitted is still missing.
impl<'v, T: FromFormValue<'v>> FromFormValue<'v> for Result<T, T::Error> {
    type Error = Error;

    open spec fn converts(raw: &'v str, outcome: Result<Self, Self::Error>) -> bool {
        outcome matches Ok(inner) && T::converts(raw, inner)
    }

    fn from_form_value(v: &'v str) -> (outcome: Result<Self, Self::Error>) {
        Ok(T::from_form_value(v))
    }
}

/// Two captured outcomes are the same where both hold the same value or both
/// hold the same rejection.
impl<'v, T: PureConversion<'v>> PureConversion<'v> for Result<T, T::Error> {
    open spec fn same_value(first: Result<T, T::Error>, second: Result<T, T::Error>) -> bool {
        match (first, second) {
            (Ok(a), Ok(b)) => T::same_value(a, b),
            (Err(a), Err(b)) => T::same_error(a, b),
            _ => false,
        }
    }

    proof fn lemma_pure(
        raw: &'v str,
        first: Result<Self, Self::Error>,
        second: Result<Self, Self::Error>,
    ) {
        T::lemma_pure(raw, first->Ok_0, second->Ok_0);
    }
}

/// The optional wrapper rejects no raw value.
pub proof fn lemma_optional_never_rejects<'v, T: FromFormValue<'v>>(
    raw: &'v str,
    outcome: Result<Option<T>, Error>,
)
    requires
        <Option<T> as FromFormValue<'v>>::converts(raw, outcome),
    ensures
        outcome is Ok,
{
}

/// Where the inner type accepts a raw value, the optional wrapper gives
/// `Some` of the same value.
pub proof fn lemma_optional_of_accepted<'v, T: PureConversion<'v>>(
    raw: &'v str,
    value: T,
    outcome: Result<Option<T>, Error>,
)
    requires
        T::converts(raw, Ok(value)),
        <Option<T> as FromFormValue<'v>>::converts(raw, outcome),
    ensures
        outcome matches Ok(Some(kept)) && T::same_value(value, kept),
{
    match outcome {
        Ok(Some(kept)) => {
            T::lemma_pure(raw, Ok(value), Ok(kept));
        },
        Ok(None) => {
            let rejection = choose|rejection: T::Error| T::converts(raw, Err(rejection));
            T::lemma_pure(raw, Ok(value), Err(rejection));
        },
        Err(_) => {},
    }
}

/// Where the inner type rejects a raw value, the optional wrapper gives
/// `None`.
pub proof fn lemma_optional_of_rejected<'v, T: PureConversion<'v>>(
    raw: &'v str,
    rejection: T::Error,
    outcome: Result<Option<T>, Error>,
)
    requires
        T::converts(raw, Err(rejection)),
        <Option<T> as FromFormValue<'v>>::converts(raw, outcome),
    ensures
        outcome == Ok::<Option<T>, Error>(None),
{
    if let Ok(Some(value)) = outcome {
        T::lemma_pure(raw, Ok(value), Err(rejection));
    }
}

/// Where the inner type accepts a raw value, the capturing wrapper gives `Ok`
/// of the same value, as a value.
pub proof fn lemma_captured_of_accepted<'v, T: PureConversion<'v>>(
    raw: &'v str,
    value: T,
    outcome: Result<Result<T, T::Error>, Error>,
)
    requires
        T::converts(raw, Ok(value)),
        <Result<T, T::Error> as FromFormValue<'v>>::converts(raw, outcome),
    ensures
        outcome matches Ok(Ok(kept)) && T::same_value(value, kept),
{
    T::lemma_pure(raw, Ok(value), outcome->Ok_0);
}

/// Where the inner type rejects a raw value, the capturing wrapper gives
/// `Err` of the same rejection, as a value.
pub proof fn lemma_captured_of_rejected<'v, T: PureConversion<'v>>(
    raw: &'v str,
    rejection: T::Error,
    outcome: Result<Result<T, T::Error>, Error>,
)
    requires
        T::converts(raw, Err(rejection)),
        <Result<T, T::Error> as FromFormValue<'v>>::converts(raw, outcome),
    ensures
        outcome matches Ok(Err(kept)) && T::same_error(rejection, kept),
{
    T::lemma_pure(raw, Err(rejection), outcome->Ok_0);
}

} // verus!
