//! The conversion of a checkbox: a boolean field.

use vstd::prelude::*;
use crate::from_form_value::{FromFormValue, PureConversion};
use crate::text::same_text;

verus! {

/// The boolean that a raw value spells: `true` for `on` and `true`, `false`
/// for `off` and `false`, and none for anything else.
pub open spec fn boolean_of_text(text: Seq<char>) -> Option<bool> {
    if text == "on"@ || text == "true"@ {
        Some(true)
    } else if text == "off"@ || text == "false"@ {
        Some(false)
    } else {
        None
    }
}

/// A boolean is `true` where the raw value is `on` or `true` and `false` where
/// it is `off` or `false`. Any other raw value is rejected, with itself as the
/// rejection. A field that was not submitted is `false`: a checkbox that is
/// not ticked sends nothing.
impl<'v> FromFormValue<'v> for bool {
    type Error = &'v str;

    open spec fn converts(raw: &'v str, outcome: Result<Self, Self::Error>) -> bool {
        outcome == boolean_of_text(raw@).ok_or(raw)
    }

    fn from_form_value(v: &'v str) -> (outcome: Result<Self, Self::Error>) {
        if same_text(v, "on") || same_text(v, "true") {
            Ok(true)
        } else if same_text(v, "off") || same_text(v, "false") {
            Ok(false)
        } else {
            Err(v)
        }
    }

    fn default() -> Option<bool>
        returns
            Some(false),
    {
        Some(false)
    }
}

impl<'v> PureConversion<'v> for bool {
    proof fn lemma_pure(
        raw: &'v str,
        first: Result<Self, Self::Error>,
        second: Result<Self, Self::Error>,
    ) {
    }
}

} // verus!
