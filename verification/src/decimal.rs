//! Decimal notation: which integer a text spells, and the text that spells an
//! integer.

use vstd::prelude::*;

verus! {

/// Whether `c` is one of the ten decimal digits `0` to `9`.
pub open spec fn is_digit(c: char) -> bool {
    '0' <= c <= '9'
}

/// The number that the decimal digit `c` stands for.
pub open spec fn digit_value(c: char) -> int
    recommends
        is_digit(c),
{
    c as int - '0' as int
}

/// The decimal digit that stands for `d`.
pub open spec fn digit_char(d: int) -> char
    recommends
        0 <= d <= 9,
{
    ('0' as int + d) as char
}

/// Whether `text` holds decimal digits and nothing else.
pub open spec fn all_digits(text: Seq<char>) -> bool {
    forall|i: int| 0 <= i < text.len() ==> is_digit(#[trigger] text[i])
}

/// The number that a run of decimal digits spells, the last digit counting
/// least.
pub open spec fn digits_value(digits: Seq<char>) -> int
    decreases digits.len(),
{
    if digits.len() == 0 {
        0
    } else {
        10 * digits_value(digits.drop_last()) + digit_value(digits.last())
    }
}

/// The number that `digits` spells where it is one or more decimal digits and
/// nothing else.
pub open spec fn magnitude(digits: Seq<char>) -> Option<int> {
    if digits.len() > 0 && all_digits(digits) {
        Some(digits_value(digits))
    } else {
        None
    }
}

/// The integer that `text` spells in decimal, if it spells one: an optional
/// sign and then one or more decimal digits, with nothing before, between or
/// after. The sign is `+` or, only where `signed`, `-`. Zeros may lead.
pub open spec fn decimal(text: Seq<char>, signed: bool) -> Option<int> {
    if text.len() > 0 && text[0] == '+' {
        magnitude(text.skip(1))
    } else if signed && text.len() > 0 && text[0] == '-' {
        match magnitude(text.skip(1)) {
            Some(value) => Some(-value),
            None => None,
        }
    } else {
        magnitude(text)
    }
}

/// The integer of `min..=max` that `text` spells in decimal, if it spells one.
pub open spec fn integer_of_text(text: Seq<char>, signed: bool, min: int, max: int) -> Option<
    int,
> {
    match decimal(text, signed) {
        Some(value) if min <= value <= max => Some(value),
        _ => None,
    }
}

/// The decimal digits of `n`, with no leading zero but for zero itself.
pub open spec fn natural_text(n: nat) -> Seq<char>
    decreases n,
{
    if n < 10 {
        seq![digit_char(n as int)]
    } else {
        natural_text(n / 10).push(digit_char((n % 10) as int))
    }
}

/// The decimal text of `n`: its digits, after a `-` where it is negative.
pub open spec fn decimal_text(n: int) -> Seq<char> {
    if n < 0 {
        seq!['-'] + natural_text((-n) as nat)
    } else {
        natural_text(n as nat)
    }
}

/// The decimal digits of a natural number are digits, there is at least one,
/// and together they spell the number.
pub proof fn lemma_natural_text_spells(n: nat)
    ensures
        natural_text(n).len() > 0,
        all_digits(natural_text(n)),
        digits_value(natural_text(n)) == n,
    decreases n,
{
    if n < 10 {
        assert(digits_value(natural_text(n).drop_last()) == 0);
    } else {
        lemma_natural_text_spells(n / 10);
        assert(natural_text(n).drop_last() =~= natural_text(n / 10));
    }
}

/// Round trip: the decimal text of an integer of `min..=max` spells that
/// integer. A negative integer needs a type with a sign.
pub proof fn lemma_decimal_round_trip(value: int, signed: bool, min: int, max: int)
    requires
        min <= value <= max,
        value >= 0 || signed,
    ensures
        integer_of_text(decimal_text(value), signed, min, max) == Some(value),
{
    if value < 0 {
        let digits = natural_text((-value) as nat);
        lemma_natural_text_spells((-value) as nat);
        assert(decimal_text(value).skip(1) =~= digits);
    } else {
        lemma_natural_text_spells(value as nat);
        assert(is_digit(natural_text(value as nat)[0]));
    }
}

} // verus!
