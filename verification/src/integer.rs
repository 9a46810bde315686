//! Integer conversions: a raw value is accepted where it spells, in decimal,
//! an integer that the type holds.
//!
//! Reading the digits is left to the standard library, one `from_str` for each
//! type. What each of them returns is stated over [`integer_of_text`]: the
//! text is an optional sign and then digits only, and the number lies in the
//! type's range.

use std::str::FromStr;
use vstd::prelude::*;
use crate::decimal::{decimal_text, integer_of_text, lemma_decimal_round_trip};
use crate::from_form_value::{FromFormValue, PureConversion};

verus! {

/// The `isize` that `text` spells in decimal, if it spells one.
pub open spec fn isize_of_text(text: Seq<char>) -> Option<isize> {
    match integer_of_text(text, true, isize::MIN as int, isize::MAX as int) {
        Some(value) => Some(value as isize),
        None => None,
    }
}

/// Calls `isize::from_str`. It reads an optional `+` or `-` and then
/// decimal digits and nothing else, and fails on any other text and on a
/// number that no `isize` holds.
#[verifier::external_body]
fn parse_isize(text: &str) -> (parsed: Option<isize>)
    ensures
        parsed == isize_of_text(text@),
{
    isize::from_str(text).ok()
}

/// An `isize` is what the raw value spells in decimal. A raw value that
/// spells no `isize` is rejected, with itself as the rejection.
impl<'v> FromFormValue<'v> for isize {
    type Error = &'v str;

    open spec fn converts(raw: &'v str, outcome: Result<Self, Self::Error>) -> bool {
        outcome == isize_of_text(raw@).ok_or(raw)
    }

    fn from_form_value(v: &'v str) -> (outcome: Result<Self, Self::Error>) {
        parse_isize(v).ok_or(v)
    }
}

impl<'v> PureConversion<'v> for isize {
    proof fn lemma_pure(
        raw: &'v str,
        first: Result<Self, Self::Error>,
        second: Result<Self, Self::Error>,
    ) {
    }
}

/// Round trip: the decimal text of any `isize` converts to that `isize`.
pub proof fn lemma_isize_round_trip<'v>(value: isize, raw: &'v str, outcome: Result<isize, &'v str>)
    requires
        raw@ == decimal_text(value as int),
        <isize as FromFormValue<'v>>::converts(raw, outcome),
    ensures
        outcome == Ok::<isize, &'v str>(value),
{
    lemma_decimal_round_trip(value as int, true, isize::MIN as int, isize::MAX as int);
}

/// The `i8` that `text` spells in decimal, if it spells one.
pub open spec fn i8_of_text(text: Seq<char>) -> Option<i8> {
    match integer_of_text(text, true, i8::MIN as int, i8::MAX as int) {
        Some(value) => Some(value as i8),
        None => None,
    }
}

/// Calls `i8::from_str`. It reads an optional `+` or `-` and then
/// decimal digits and nothing else, and fails on any other text and on a
/// number that no `i8` holds.
#[verifier::external_body]
fn parse_i8(text: &str) -> (parsed: Option<i8>)
    ensures
        parsed == i8_of_text(text@),
{
    i8::from_str(text).ok()
}

/// An `i8` is what the raw value spells in decimal. A raw value that
/// spells no `i8` is rejected, with itself as the rejection.
impl<'v> FromFormValue<'v> for i8 {
    type Error = &'v str;

    open spec fn converts(raw: &'v str, outcome: Result<Self, Self::Error>) -> bool {
        outcome == i8_of_text(raw@).ok_or(raw)
    }

    fn from_form_value(v: &'v str) -> (outcome: Result<Self, Self::Error>) {
        parse_i8(v).ok_or(v)
    }
}

impl<'v> PureConversion<'v> for i8 {
    proof fn lemma_pure(
        raw: &'v str,
        first: Result<Self, Self::Error>,
        second: Result<Self, Self::Error>,
    ) {
    }
}

/// Round trip: the decimal text of any `i8` converts to that `i8`.
pub proof fn lemma_i8_round_trip<'v>(value: i8, raw: &'v str, outcome: Result<i8, &'v str>)
    requires
        raw@ == decimal_text(value as int),
        <i8 as FromFormValue<'v>>::converts(raw, outcome),
    ensures
        outcome == Ok::<i8, &'v str>(value),
{
    lemma_decimal_round_trip(value as int, true, i8::MIN as int, i8::MAX as int);
}

/// The `i16` that `text` spells in decimal, if it spells one.
pub open spec fn i16_of_text(text: Seq<char>) -> Option<i16> {
    match integer_of_text(text, true, i16::MIN as int, i16::MAX as int) {
        Some(value) => Some(value as i16),
        None => None,
    }
}

/// Calls `i16::from_str`. It reads an optional `+` or `-` and then
/// decimal digits and nothing else, and fails on any other text and on a
/// number that no `i16` holds.
#[verifier::external_body]
fn parse_i16(text: &str) -> (parsed: Option<i16>)
    ensures
        parsed == i16_of_text(text@),
{
    i16::from_str(text).ok()
}

/// An `i16` is what the raw value spells in decimal. A raw value that
/// spells no `i16` is rejected, with itself as the rejection.
impl<'v> FromFormValue<'v> for i16 {
    type Error = &'v str;

    open spec fn converts(raw: &'v str, outcome: Result<Self, Self::Error>) -> bool {
        outcome == i16_of_text(raw@).ok_or(raw)
    }

    fn from_form_value(v: &'v str) -> (outcome: Result<Self, Self::Error>) {
        parse_i16(v).ok_or(v)
    }
}

impl<'v> PureConversion<'v> for i16 {
    proof fn lemma_pure(
        raw: &'v str,
        first: Result<Self, Self::Error>,
        second: Result<Self, Self::Error>,
    ) {
    }
}

/// Round trip: the decimal text of any `i16` converts to that `i16`.
pub proof fn lemma_i16_round_trip<'v>(value: i16, raw: &'v str, outcome: Result<i16, &'v str>)
    requires
        raw@ == decimal_text(value as int),
        <i16 as FromFormValue<'v>>::converts(raw, outcome),
    ensures
        outcome == Ok::<i16, &'v str>(value),
{
    lemma_decimal_round_trip(value as int, true, i16::MIN as int, i16::MAX as int);
}

/// The `i32` that `text` spells in decimal, if it spells one.
pub open spec fn i32_of_text(text: Seq<char>) -> Option<i32> {
    match integer_of_text(text, true, i32::MIN as int, i32::MAX as int) {
        Some(value) => Some(value as i32),
        None => None,
    }
}

/// Calls `i32::from_str`. It reads an optional `+` or `-` and then
/// decimal digits and nothing else, and fails on any other text and on a
/// number that no `i32` holds.
#[verifier::external_body]
fn parse_i32(text: &str) -> (parsed: Option<i32>)
    ensures
        parsed == i32_of_text(text@),
{
    i32::from_str(text).ok()
}

/// An `i32` is what the raw value spells in decimal. A raw value that
/// spells no `i32` is rejected, with itself as the rejection.
impl<'v> FromFormValue<'v> for i32 {
    type Error = &'v str;

    open spec fn converts(raw: &'v str, outcome: Result<Self, Self::Error>) -> bool {
        outcome == i32_of_text(raw@).ok_or(raw)
    }

    fn from_form_value(v: &'v str) -> (outcome: Result<Self, Self::Error>) {
        parse_i32(v).ok_or(v)
    }
}

impl<'v> PureConversion<'v> for i32 {
    proof fn lemma_pure(
        raw: &'v str,
        first: Result<Self, Self::Error>,
        second: Result<Self, Self::Error>,
    ) {
    }
}

/// Round trip: the decimal text of any `i32` converts to that `i32`.
pub proof fn lemma_i32_round_trip<'v>(value: i32, raw: &'v str, outcome: Result<i32, &'v str>)
    requires
        raw@ == decimal_text(value as int),
        <i32 as FromFormValue<'v>>::converts(raw, outcome),
    ensures
        outcome == Ok::<i32, &'v str>(value),
{
    lemma_decimal_round_trip(value as int, true, i32::MIN as int, i32::MAX as int);
}

/// The `i64` that `text` spells in decimal, if it spells one.
pub open spec fn i64_of_text(text: Seq<char>) -> Option<i64> {
    match integer_of_text(text, true, i64::MIN as int, i64::MAX as int) {
        Some(value) => Some(value as i64),
        None => None,
    }
}

/// Calls `i64::from_str`. It reads an optional `+` or `-` and then
/// decimal digits and nothing else, and fails on any other text and on a
/// number that no `i64` holds.
#[verifier::external_body]
fn parse_i64(text: &str) -> (parsed: Option<i64>)
    ensures
        parsed == i64_of_text(text@),
{
    i64::from_str(text).ok()
}

/// An `i64` is what the raw value spells in decimal. A raw value that
/// spells no `i64` is rejected, with itself as the rejection.
impl<'v> FromFormValue<'v> for i64 {
    type Error = &'v str;

    open spec fn converts(raw: &'v str, outcome: Result<Self, Self::Error>) -> bool {
        outcome == i64_of_text(raw@).ok_or(raw)
    }

    fn from_form_value(v: &'v str) -> (outcome: Result<Self, Self::Error>) {
        parse_i64(v).ok_or(v)
    }
}

impl<'v> PureConversion<'v> for i64 {
    proof fn lemma_pure(
        raw: &'v str,
        first: Result<Self, Self::Error>,
        second: Result<Self, Self::Error>,
    ) {
    }
}

/// Round trip: the decimal text of any `i64` converts to that `i64`.
pub proof fn lemma_i64_round_trip<'v>(value: i64, raw: &'v str, outcome: Result<i64, &'v str>)
    requires
        raw@ == decimal_text(value as int),
        <i64 as FromFormValue<'v>>::converts(raw, outcome),
    ensures
        outcome == Ok::<i64, &'v str>(value),
{
    lemma_decimal_round_trip(value as int, true, i64::MIN as int, i64::MAX as int);
}

/// The `usize` that `text` spells in decimal, if it spells one.
pub open spec fn usize_of_text(text: Seq<char>) -> Option<usize> {
    match integer_of_text(text, false, usize::MIN as int, usize::MAX as int) {
        Some(value) => Some(value as usize),
        None => None,
    }
}

/// Calls `usize::from_str`. It reads an optional `+` and then
/// decimal digits and nothing else, and fails on any other text and on a
/// number that no `usize` holds.
#[verifier::external_body]
fn parse_usize(text: &str) -> (parsed: Option<usize>)
    ensures
        parsed == usize_of_text(text@),
{
    usize::from_str(text).ok()
}

/// A `usize` is what the raw value spells in decimal. A raw value that
/// spells no `usize` is rejected, with itself as the rejection.
impl<'v> FromFormValue<'v> for usize {
    type Error = &'v str;

    open spec fn converts(raw: &'v str, outcome: Result<Self, Self::Error>) -> bool {
        outcome == usize_of_text(raw@).ok_or(raw)
    }

    fn from_form_value(v: &'v str) -> (outcome: Result<Self, Self::Error>) {
        parse_usize(v).ok_or(v)
    }
}

impl<'v> PureConversion<'v> for usize {
    proof fn lemma_pure(
        raw: &'v str,
        first: Result<Self, Self::Error>,
        second: Result<Self, Self::Error>,
    ) {
    }
}

/// Round trip: the decimal text of any `usize` converts to that `usize`.
pub proof fn lemma_usize_round_trip<'v>(value: usize, raw: &'v str, outcome: Result<usize, &'v str>)
    requires
        raw@ == decimal_text(value as int),
        <usize as FromFormValue<'v>>::converts(raw, outcome),
    ensures
        outcome == Ok::<usize, &'v str>(value),
{
    lemma_decimal_round_trip(value as int, false, usize::MIN as int, usize::MAX as int);
}

/// The `u8` that `text` spells in decimal, if it spells one.
pub open spec fn u8_of_text(text: Seq<char>) -> Option<u8> {
    match integer_of_text(text, false, u8::MIN as int, u8::MAX as int) {
        Some(value) => Some(value as u8),
        None => None,
    }
}

/// Calls `u8::from_str`. It reads an optional `+` and then
/// decimal digits and nothing else, and fails on any other text and on a
/// number that no `u8` holds.
#[verifier::external_body]
fn parse_u8(text: &str) -> (parsed: Option<u8>)
    ensures
        parsed == u8_of_text(text@),
{
    u8::from_str(text).ok()
}

/// A `u8` is what the raw value spells in decimal. A raw value that
/// spells no `u8` is rejected, with itself as the rejection.
impl<'v> FromFormValue<'v> for u8 {
    type Error = &'v str;

    open spec fn converts(raw: &'v str, outcome: Result<Self, Self::Error>) -> bool {
        outcome == u8_of_text(raw@).ok_or(raw)
    }

    fn from_form_value(v: &'v str) -> (outcome: Result<Self, Self::Error>) {
        parse_u8(v).ok_or(v)
    }
}

impl<'v> PureConversion<'v> for u8 {
    proof fn lemma_pure(
        raw: &'v str,
        first: Result<Self, Self::Error>,
        second: Result<Self, Self::Error>,
    ) {
    }
}

/// Round trip: the decimal text of any `u8` converts to that `u8`.
pub proof fn lemma_u8_round_trip<'v>(value: u8, raw: &'v str, outcome: Result<u8, &'v str>)
    requires
        raw@ == decimal_text(value as int),
        <u8 as FromFormValue<'v>>::converts(raw, outcome),
    ensures
        outcome == Ok::<u8, &'v str>(value),
{
    lemma_decimal_round_trip(value as int, false, u8::MIN as int, u8::MAX as int);
}

/// The `u16` that `text` spells in decimal, if it spells one.
pub open spec fn u16_of_text(text: Seq<char>) -> Option<u16> {
    match integer_of_text(text, false, u16::MIN as int, u16::MAX as int) {
        Some(value) => Some(value as u16),
        None => None,
    }
}

/// Calls `u16::from_str`. It reads an optional `+` and then
/// decimal digits and nothing else, and fails on any other text and on a
/// number that no `u16` holds.
#[verifier::external_body]
fn parse_u16(text: &str) -> (parsed: Option<u16>)
    ensures
        parsed == u16_of_text(text@),
{
    u16::from_str(text).ok()
}

/// A `u16` is what the raw value spells in decimal. A raw value that
/// spells no `u16` is rejected, with itself as the rejection.
impl<'v> FromFormValue<'v> for u16 {
    type Error = &'v str;

    open spec fn converts(raw: &'v str, outcome: Result<Self, Self::Error>) -> bool {
        outcome == u16_of_text(raw@).ok_or(raw)
    }

    fn from_form_value(v: &'v str) -> (outcome: Result<Self, Self::Error>) {
        parse_u16(v).ok_or(v)
    }
}

impl<'v> PureConversion<'v> for u16 {
    proof fn lemma_pure(
        raw: &'v str,
        first: Result<Self, Self::Error>,
        second: Result<Self, Self::Error>,
    ) {
    }
}

/// Round trip: the decimal text of any `u16` converts to that `u16`.
pub proof fn lemma_u16_round_trip<'v>(value: u16, raw: &'v str, outcome: Result<u16, &'v str>)
    requires
        raw@ == decimal_text(value as int),
        <u16 as FromFormValue<'v>>::converts(raw, outcome),
    ensures
        outcome == Ok::<u16, &'v str>(value),
{
    lemma_decimal_round_trip(value as int, false, u16::MIN as int, u16::MAX as int);
}

/// The `u32` that `text` spells in decimal, if it spells one.
pub open spec fn u32_of_text(text: Seq<char>) -> Option<u32> {
    match integer_of_text(text, false, u32::MIN as int, u32::MAX as int) {
        Some(value) => Some(value as u32),
        None => None,
    }
}

/// Calls `u32::from_str`. It reads an optional `+` and then
/// decimal digits and nothing else, and fails on any other text and on a
/// number that no `u32` holds.
#[verifier::external_body]
fn parse_u32(text: &str) -> (parsed: Option<u32>)
    ensures
        parsed == u32_of_text(text@),
{
    u32::from_str(text).ok()
}

/// A `u32` is what the raw value spells in decimal. A raw value that
/// spells no `u32` is rejected, with itself as the rejection.
impl<'v> FromFormValue<'v> for u32 {
    type Error = &'v str;

    open spec fn converts(raw: &'v str, outcome: Result<Self, Self::Error>) -> bool {
        outcome == u32_of_text(raw@).ok_or(raw)
    }

    fn from_form_value(v: &'v str) -> (outcome: Result<Self, Self::Error>) {
        parse_u32(v).ok_or(v)
    }
}

impl<'v> PureConversion<'v> for u32 {
    proof fn lemma_pure(
        raw: &'v str,
        first: Result<Self, Self::Error>,
        second: Result<Self, Self::Error>,
    ) {
    }
}

/// Round trip: the decimal text of any `u32` converts to that `u32`.
pub proof fn lemma_u32_round_trip<'v>(value: u32, raw: &'v str, outcome: Result<u32, &'v str>)
    requires
        raw@ == decimal_text(value as int),
        <u32 as FromFormValue<'v>>::converts(raw, outcome),
    ensures
        outcome == Ok::<u32, &'v str>(value),
{
    lemma_decimal_round_trip(value as int, false, u32::MIN as int, u32::MAX as int);
}

/// The `u64` that `text` spells in decimal, if it spells one.
pub open spec fn u64_of_text(text: Seq<char>) -> Option<u64> {
    match integer_of_text(text, false, u64::MIN as int, u64::MAX as int) {
        Some(value) => Some(value as u64),
        None => None,
    }
}

/// Calls `u64::from_str`. It reads an optional `+` and then
/// decimal digits and nothing else, and fails on any other text and on a
/// number that no `u64` holds.
#[verifier::external_body]
fn parse_u64(text: &str) -> (parsed: Option<u64>)
    ensures
        parsed == u64_of_text(text@),
{
    u64::from_str(text).ok()
}

/// A `u64` is what the raw value spells in decimal. A raw value that
/// spells no `u64` is rejected, with itself as the rejection.
impl<'v> FromFormValue<'v> for u64 {
    type Error = &'v str;

    open spec fn converts(raw: &'v str, outcome: Result<Self, Self::Error>) -> bool {
        outcome == u64_of_text(raw@).ok_or(raw)
    }

    fn from_form_value(v: &'v str) -> (outcome: Result<Self, Self::Error>) {
        parse_u64(v).ok_or(v)
    }
}

impl<'v> PureConversion<'v> for u64 {
    proof fn lemma_pure(
        raw: &'v str,
        first: Result<Self, Self::Error>,
        second: Result<Self, Self::Error>,
    ) {
    }
}

/// Round trip: the decimal text of any `u64` converts to that `u64`.
pub proof fn lemma_u64_round_trip<'v>(value: u64, raw: &'v str, outcome: Result<u64, &'v str>)
    requires
        raw@ == decimal_text(value as int),
        <u64 as FromFormValue<'v>>::converts(raw, outcome),
    ensures
        outcome == Ok::<u64, &'v str>(value),
{
    lemma_decimal_round_trip(value as int, false, u64::MIN as int, u64::MAX as int);
}

} // verus!
