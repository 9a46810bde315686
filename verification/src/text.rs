//! String conversions: the raw value as it is, and the value decoded from its
//! `application/x-www-form-urlencoded` form.
//!
//! Decoding is stated by [`form_decoded`], over the characters of the raw
//! value and the bytes that UTF-8 makes of them. The bytes of the escapes are
//! decoded by the `percent-encoding` crate and turned into a string by the
//! standard library; what is asked of the raw value before that, and what
//! becomes of it, is verified here.

use vstd::prelude::*;
use vstd::utf8::*;
use crate::error::Error;
use crate::from_form_value::{FromFormValue, PureConversion};

verus! {

/// Whether two byte slices hold the same bytes.
fn same_bytes(a: &[u8], b: &[u8]) -> (same: bool)
    ensures
        same == (a@ == b@),
{
    if a.len() != b.len() {
        return false;
    }
    let mut i: usize = 0;
    while i < a.len()
        invariant
            a.len() == b.len(),
            i <= a.len(),
            a@.take(i as int) == b@.take(i as int),
        decreases a.len() - i,
    {
        if a[i] != b[i] {
            return false;
        }
        assert(a@.take(i + 1) == a@.take(i as int).push(a@[i as int]));
        assert(b@.take(i + 1) == b@.take(i as int).push(b@[i as int]));
        i += 1;
    }
    assert(a@ == a@.take(a.len() as int));
    assert(b@ == b@.take(b.len() as int));
    true
}

/// Whether two strings hold the same characters.
pub fn same_text(a: &str, b: &str) -> (same: bool)
    ensures
        same == (a@ == b@),
{
    let same = same_bytes(a.as_bytes(), b.as_bytes());
    proof {
        // A text is recovered from its UTF-8 bytes, so equal bytes mean equal texts.
        encode_utf8_decode_utf8(a@);
        encode_utf8_decode_utf8(b@);
    }
    same
}

/// The raw string: every raw value is accepted, and is returned as it came,
/// with nothing decoded.
impl<'v> FromFormValue<'v> for &'v str {
    type Error = Error;

    open spec fn converts(raw: &'v str, outcome: Result<Self, Self::Error>) -> bool {
        outcome == Ok::<&'v str, Error>(raw)
    }

    fn from_form_value(v: &'v str) -> (outcome: Result<Self, Self::Error>) {
        Ok(v)
    }
}

impl<'v> PureConversion<'v> for &'v str {
    proof fn lemma_pure(
        raw: &'v str,
        first: Result<Self, Self::Error>,
        second: Result<Self, Self::Error>,
    ) {
    }
}

/// The text with every `+` turned into a space.
pub open spec fn plus_as_space(text: Seq<char>) -> Seq<char> {
    Seq::new(text.len(), |i: int| if text[i] == '+' { ' ' } else { text[i] })
}

/// Whether `byte` is an ASCII hexadecimal digit, of either case.
pub open spec fn is_hex_digit(byte: u8) -> bool {
    ||| 0x30 <= byte <= 0x39
    ||| 0x41 <= byte <= 0x46
    ||| 0x61 <= byte <= 0x66
}

/// The number that the hexadecimal digit `byte` stands for.
pub open spec fn hex_value(byte: u8) -> int
    recommends
        is_hex_digit(byte),
{
    if byte <= 0x39 {
        byte - 0x30
    } else if byte <= 0x46 {
        byte - 0x41 + 10
    } else {
        byte - 0x61 + 10
    }
}

/// Whether the byte at `at` is no `%`, or is a `%` that two hexadecimal
/// digits follow.
pub open spec fn escape_holds(bytes: Seq<u8>, at: int) -> bool {
    bytes[at] == 0x25 ==> {
        &&& at + 2 < bytes.len()
        &&& is_hex_digit(bytes[at + 1])
        &&& is_hex_digit(bytes[at + 2])
    }
}

/// Whether every `%` in `bytes` opens an escape: a `%` and two hexadecimal
/// digits.
pub open spec fn well_escaped(bytes: Seq<u8>) -> bool {
    forall|at: int| 0 <= at < bytes.len() ==> #[trigger] escape_holds(bytes, at)
}

/// What percent-decoding makes of `bytes`: from the left, each `%` that two
/// hexadecimal digits follow becomes, with them, the one byte that the digits
/// spell; every other byte stays.
pub open spec fn percent_decoded(bytes: Seq<u8>) -> Seq<u8>
    decreases bytes.len(),
{
    if bytes.len() == 0 {
        Seq::empty()
    } else if bytes[0] == 0x25 && bytes.len() >= 3 && is_hex_digit(bytes[1]) && is_hex_digit(
        bytes[2],
    ) {
        seq![(16 * hex_value(bytes[1]) + hex_value(bytes[2])) as u8] + percent_decoded(
            bytes.skip(3),
        )
    } else {
        seq![bytes[0]] + percent_decoded(bytes.skip(1))
    }
}

/// The text that a raw value stands for in a submitted form, or `None` where
/// it stands for none.
///
/// Every `+` of the raw value is a space. In the UTF-8 bytes of what that
/// gives, every `%` must open an escape, and each escape is one byte. The
/// bytes that result must again be UTF-8; the text is what they encode.
pub open spec fn form_decoded(raw: Seq<char>) -> Option<Seq<char>> {
    let wire = encode_utf8(plus_as_space(raw));
    if well_escaped(wire) && valid_utf8(percent_decoded(wire)) {
        Some(decode_utf8(percent_decoded(wire)))
    } else {
        None
    }
}

/// Calls `percent_encoding::percent_decode` and collects the bytes it yields.
///
/// The contract is the crate's documented behaviour: a `%` followed by two
/// hexadecimal digits is decoded, and nothing else is changed.
#[verifier::external_body]
fn percent_decode(input: &[u8]) -> (decoded: Vec<u8>)
    ensures
        decoded@ == percent_decoded(input@),
{
    percent_encoding::percent_decode(input).collect()
}

/// Calls `String::from_utf8`, which makes a string of the bytes where they are
/// UTF-8 and fails where they are not.
#[verifier::external_body]
fn string_from_utf8(bytes: Vec<u8>) -> (text: Option<String>)
    ensures
        text is Some <==> valid_utf8(bytes@),
        text matches Some(string) ==> string@ == decode_utf8(bytes@),
{
    String::from_utf8(bytes).ok()
}

/// The UTF-8 bytes of `raw` with every `+` turned into a space.
fn spaced_bytes(raw: &str) -> (wire: Vec<u8>)
    ensures
        wire@ == encode_utf8(plus_as_space(raw@)),
{
    let bytes = raw.as_bytes();
    let mut wire: Vec<u8> = Vec::new();
    let mut i: usize = 0;
    while i < bytes.len()
        invariant
            i <= bytes.len(),
            wire@ == plus_bytes_as_space(bytes@.take(i as int)),
        decreases bytes.len() - i,
    {
        let byte = bytes[i];
        wire.push(if byte == 0x2B { 0x20 } else { byte });
        assert(bytes@.take(i + 1) == bytes@.take(i as int).push(bytes@[i as int]));
        i += 1;
    }
    proof {
        assert(bytes@.take(bytes.len() as int) == bytes@);
        lemma_plus_as_space_on_bytes(raw@);
    }
    wire
}

/// Whether `byte` is an ASCII hexadecimal digit.
fn hex_digit(byte: u8) -> (hex: bool)
    ensures
        hex == is_hex_digit(byte),
{
    (0x30 <= byte && byte <= 0x39) || (0x41 <= byte && byte <= 0x46) || (0x61 <= byte && byte
        <= 0x66)
}

/// Whether every `%` in `bytes` opens an escape.
pub fn is_well_escaped(bytes: &[u8]) -> (well: bool)
    ensures
        well == well_escaped(bytes@),
{
    let mut i: usize = 0;
    while i < bytes.len()
        invariant
            i <= bytes.len(),
            forall|at: int| 0 <= at < i ==> #[trigger] escape_holds(bytes@, at),
        decreases bytes.len() - i,
    {
        if bytes[i] == 0x25 {
            if bytes.len() - i <= 2 || !hex_digit(bytes[i + 1]) || !hex_digit(bytes[i + 2]) {
                assert(!escape_holds(bytes@, i as int));
                return false;
            }
        }
        i += 1;
    }
    true
}

/// The decoded string: the text that the raw value stands for in a submitted
/// form, as a string of its own. A raw value that stands for no text is
/// rejected, and the rejection is the raw value itself, with nothing decoded.
impl<'v> FromFormValue<'v> for String {
    type Error = &'v str;

    open spec fn converts(raw: &'v str, outcome: Result<Self, Self::Error>) -> bool {
        match form_decoded(raw@) {
            Some(text) => outcome matches Ok(string) && string@ == text,
            None => outcome == Err::<String, &'v str>(raw),
        }
    }

    fn from_form_value(v: &'v str) -> (outcome: Result<Self, Self::Error>) {
        let wire = spaced_bytes(v);
        if !is_well_escaped(wire.as_slice()) {
            return Err(v);
        }
        match string_from_utf8(percent_decode(wire.as_slice())) {
            Some(string) => Ok(string),
            None => Err(v),
        }
    }
}

/// Two decoded strings are the same where they hold the same characters.
impl<'v> PureConversion<'v> for String {
    open spec fn same_value(first: String, second: String) -> bool {
        first@ == second@
    }

    proof fn lemma_pure(
        raw: &'v str,
        first: Result<Self, Self::Error>,
        second: Result<Self, Self::Error>,
    ) {
    }
}

/// The bytes with every `+` byte turned into a space byte.
pub open spec fn plus_bytes_as_space(bytes: Seq<u8>) -> Seq<u8> {
    Seq::new(bytes.len(), |i: int| if bytes[i] == 0x2B { 0x20u8 } else { bytes[i] })
}

/// The bytes that UTF-8 spends on a scalar: an ASCII scalar is its own single
/// byte, and every byte of a longer encoding has its high bit set.
proof fn lemma_scalar_bytes(scalar: u32)
    by (bit_vector)
    ensures
        has_width_1_encoding(scalar) ==> leading_byte_width_1(scalar) as u32 == scalar,
        leading_byte_width_2(scalar) >= 0x80,
        leading_byte_width_3(scalar) >= 0x80,
        leading_byte_width_4(scalar) >= 0x80,
        last_continuation_byte(scalar) >= 0x80,
        second_last_continuation_byte(scalar) >= 0x80,
        third_last_continuation_byte(scalar) >= 0x80,
{
}

/// An ASCII byte occurs in the UTF-8 encoding of a character only as the
/// whole encoding of the ASCII character with that number.
proof fn lemma_ascii_byte_in_encoding(c: char, ascii: u8)
    requires
        ascii < 0x80,
    ensures
        ({
            let encoding = encode_scalar(c as u32);
            if c as u32 == ascii {
                encoding == seq![ascii]
            } else {
                forall|j: int| 0 <= j < encoding.len() ==> #[trigger] encoding[j] != ascii
            }
        }),
{
    lemma_scalar_bytes(c as u32);
}

/// Where no character of `text` is the ASCII character numbered `ascii`, no
/// byte of its UTF-8 encoding is `ascii`.
proof fn lemma_ascii_byte_absent(text: Seq<char>, ascii: u8)
    requires
        ascii < 0x80,
        forall|i: int| 0 <= i < text.len() ==> #[trigger] text[i] as u32 != ascii,
    ensures
        forall|j: int|
            0 <= j < encode_utf8(text).len() ==> #[trigger] encode_utf8(text)[j] != ascii,
    decreases text.len(),
{
    if text.len() > 0 {
        let head = encode_scalar(text[0] as u32);
        let tail = encode_utf8(text.drop_first());
        assert(text[0] as u32 != ascii);
        lemma_ascii_byte_in_encoding(text[0], ascii);
        lemma_ascii_byte_absent(text.drop_first(), ascii);
        assert forall|j: int| 0 <= j < (head + tail).len() implies #[trigger] (head + tail)[j]
            != ascii by {
            if j >= head.len() {
                assert((head + tail)[j] == tail[j - head.len()]);
            } else {
                assert((head + tail)[j] == head[j]);
            }
        }
    }
}

/// Bytes that hold no `%` are their own percent-decoding.
proof fn lemma_percent_decoded_without_escape(bytes: Seq<u8>)
    requires
        forall|j: int| 0 <= j < bytes.len() ==> #[trigger] bytes[j] != 0x25,
    ensures
        percent_decoded(bytes) == bytes,
    decreases bytes.len(),
{
    if bytes.len() > 0 {
        assert(bytes[0] != 0x25);
        lemma_percent_decoded_without_escape(bytes.skip(1));
        assert(seq![bytes[0]] + bytes.skip(1) =~= bytes);
    }
}

/// Turning `+` into a space may be done on a text or on its UTF-8 bytes: the
/// bytes that come out are the same.
pub proof fn lemma_plus_as_space_on_bytes(text: Seq<char>)
    ensures
        encode_utf8(plus_as_space(text)) == plus_bytes_as_space(encode_utf8(text)),
    decreases text.len(),
{
    if text.len() == 0 {
        assert(plus_as_space(text) =~= text);
        assert(plus_bytes_as_space(encode_utf8(text)) =~= encode_utf8(text));
    } else {
        let rest = text.drop_first();
        let spaced = plus_as_space(text);
        let head = encode_scalar(text[0] as u32);
        lemma_plus_as_space_on_bytes(rest);
        assert(spaced.drop_first() =~= plus_as_space(rest));
        assert(plus_bytes_as_space(head) =~= encode_scalar(spaced[0] as u32)) by {
            lemma_ascii_byte_in_encoding(text[0], 0x2B);
            if text[0] == '+' {
                assert(spaced[0] == ' ');
                lemma_ascii_byte_in_encoding(' ', 0x20);
            } else {
                assert(spaced[0] == text[0]);
                if text[0] as u32 == 0x2B {
                    char_u32_cast(text[0], 0x2B);
                    char_u32_cast('+', 0x2B);
                }
            }
        }
        assert(plus_bytes_as_space(head + encode_utf8(rest)) =~= plus_bytes_as_space(head)
            + plus_bytes_as_space(encode_utf8(rest)));
    }
}

/// A raw value that holds neither `+` nor `%` stands for itself.
pub proof fn lemma_plain_text_stands_for_itself(raw: Seq<char>)
    requires
        forall|i: int| 0 <= i < raw.len() ==> #[trigger] raw[i] != '+' && raw[i] != '%',
    ensures
        form_decoded(raw) == Some(raw),
{
    assert(plus_as_space(raw) =~= raw);
    assert forall|i: int| 0 <= i < raw.len() implies #[trigger] raw[i] as u32 != 0x25u8 by {
        if raw[i] as u32 == 0x25 {
            char_u32_cast(raw[i], 0x25);
            char_u32_cast('%', 0x25);
        }
    }
    lemma_ascii_byte_absent(raw, 0x25);
    let wire = encode_utf8(raw);
    lemma_percent_decoded_without_escape(wire);
    assert forall|at: int| 0 <= at < wire.len() implies #[trigger] escape_holds(wire, at) by {
        assert(wire[at] != 0x25);
    }
    encode_utf8_valid_utf8(raw);
    encode_utf8_decode_utf8(raw);
}

} // verus!
