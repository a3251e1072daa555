use vstd::prelude::*;
use crate::number::Number;
use crate::numtext::{decimal_text, parse_int_text};

verus! {

/// Calls `str::parse::<i32>`, which accepts an optional `+` or `-` sign
/// followed by one or more decimal digits whose value fits `i32`, and
/// rejects every other text.
#[verifier::external_body]
fn parse_i32(s: &str) -> (r: Option<i32>)
    ensures
        r is Some <==> parse_int_text(s@, i32::MIN as int, i32::MAX as int, true) is Some,
        r matches Some(x) ==> parse_int_text(s@, i32::MIN as int, i32::MAX as int, true) == Some(x as int),
{
    s.parse::<i32>().ok()
}

/// Calls `ToString::to_string` on an `i32`, which displays it in decimal,
/// with a leading `-` for a negative value.
#[verifier::external_body]
fn i32_text(v: i32) -> (r: String)
    ensures
        r@ == decimal_text(v as int),
{
    v.to_string()
}

impl Number for i32 {
    open spec fn spec_int(self) -> int {
        self as int
    }

    open spec fn spec_lo() -> int {
        i32::MIN as int
    }

    open spec fn spec_hi() -> int {
        i32::MAX as int
    }

    open spec fn spec_signed() -> bool {
        true
    }

    open spec fn spec_decimal() -> bool {
        false
    }

    proof fn lemma_bounds() {
    }

    proof fn lemma_in_range(x: Self) {
    }

    proof fn lemma_injective(x: Self, y: Self) {
    }

    fn number_min() -> (r: Self) {
        i32::MIN
    }

    fn number_max() -> (r: Self) {
        i32::MAX
    }

    fn zero() -> (r: Self) {
        0
    }

    fn is_decimal() -> (r: bool) {
        false
    }

    fn less_than(&self, other: &Self) -> (r: bool) {
        *self < *other
    }

    fn parse_text(s: &str) -> (r: Option<Self>) {
        parse_i32(s)
    }

    fn to_text(&self) -> (r: String) {
        i32_text(*self)
    }
}

/// Calls `str::parse::<i64>`, which accepts an optional `+` or `-` sign
/// followed by one or more decimal digits whose value fits `i64`, and
/// rejects every other text.
#[verifier::external_body]
fn parse_i64(s: &str) -> (r: Option<i64>)
    ensures
        r is Some <==> parse_int_text(s@, i64::MIN as int, i64::MAX as int, true) is Some,
        r matches Some(x) ==> parse_int_text(s@, i64::MIN as int, i64::MAX as int, true) == Some(x as int),
{
    s.parse::<i64>().ok()
}

/// Calls `ToString::to_string` on an `i64`, which displays it in decimal,
/// with a leading `-` for a negative value.
#[verifier::external_body]
fn i64_text(v: i64) -> (r: String)
    ensures
        r@ == decimal_text(v as int),
{
    v.to_string()
}

impl Number for i64 {
    open spec fn spec_int(self) -> int {
        self as int
    }

    open spec fn spec_lo() -> int {
        i64::MIN as int
    }

    open spec fn spec_hi() -> int {
        i64::MAX as int
    }

    open spec fn spec_signed() -> bool {
        true
    }

    open spec fn spec_decimal() -> bool {
        false
    }

    proof fn lemma_bounds() {
    }

    proof fn lemma_in_range(x: Self) {
    }

    proof fn lemma_injective(x: Self, y: Self) {
    }

    fn number_min() -> (r: Self) {
        i64::MIN
    }

    fn number_max() -> (r: Self) {
        i64::MAX
    }

    fn zero() -> (r: Self) {
        0
    }

    fn is_decimal() -> (r: bool) {
        false
    }

    fn less_than(&self, other: &Self) -> (r: bool) {
        *self < *other
    }

    fn parse_text(s: &str) -> (r: Option<Self>) {
        parse_i64(s)
    }

    fn to_text(&self) -> (r: String) {
        i64_text(*self)
    }
}

/// Calls `str::parse::<u8>`, which accepts an optional `+` sign
/// followed by one or more decimal digits whose value fits `u8`, and
/// rejects every other text.
#[verifier::external_body]
fn parse_u8(s: &str) -> (r: Option<u8>)
    ensures
        r is Some <==> parse_int_text(s@, u8::MIN as int, u8::MAX as int, false) is Some,
        r matches Some(x) ==> parse_int_text(s@, u8::MIN as int, u8::MAX as int, false) == Some(x as int),
{
    s.parse::<u8>().ok()
}

/// Calls `ToString::to_string` on a `u8`, which displays it in decimal.
#[verifier::external_body]
fn u8_text(v: u8) -> (r: String)
    ensures
        r@ == decimal_text(v as int),
{
    v.to_string()
}

impl Number for u8 {
    open spec fn spec_int(self) -> int {
        self as int
    }

    open spec fn spec_lo() -> int {
        u8::MIN as int
    }

    open spec fn spec_hi() -> int {
        u8::MAX as int
    }

    open spec fn spec_signed() -> bool {
        false
    }

    open spec fn spec_decimal() -> bool {
        false
    }

    proof fn lemma_bounds() {
    }

    proof fn lemma_in_range(x: Self) {
    }

    proof fn lemma_injective(x: Self, y: Self) {
    }

    fn number_min() -> (r: Self) {
        u8::MIN
    }

    fn number_max() -> (r: Self) {
        u8::MAX
    }

    fn zero() -> (r: Self) {
        0
    }

    fn is_decimal() -> (r: bool) {
        false
    }

    fn less_than(&self, other: &Self) -> (r: bool) {
        *self < *other
    }

    fn parse_text(s: &str) -> (r: Option<Self>) {
        parse_u8(s)
    }

    fn to_text(&self) -> (r: String) {
        u8_text(*self)
    }
}

/// Calls `str::parse::<u16>`, which accepts an optional `+` sign
/// followed by one or more decimal digits whose value fits `u16`, and
/// rejects every other text.
#[verifier::external_body]
fn parse_u16(s: &str) -> (r: Option<u16>)
    ensures
        r is Some <==> parse_int_text(s@, u16::MIN as int, u16::MAX as int, false) is Some,
        r matches Some(x) ==> parse_int_text(s@, u16::MIN as int, u16::MAX as int, false) == Some(x as int),
{
    s.parse::<u16>().ok()
}

/// Calls `ToString::to_string` on a `u16`, which displays it in decimal.
#[verifier::external_body]
fn u16_text(v: u16) -> (r: String)
    ensures
        r@ == decimal_text(v as int),
{
    v.to_string()
}

impl Number for u16 {
    open spec fn spec_int(self) -> int {
        self as int
    }

    open spec fn spec_lo() -> int {
        u16::MIN as int
    }

    open spec fn spec_hi() -> int {
        u16::MAX as int
    }

    open spec fn spec_signed() -> bool {
        false
    }

    open spec fn spec_decimal() -> bool {
        false
    }

    proof fn lemma_bounds() {
    }

    proof fn lemma_in_range(x: Self) {
    }

    proof fn lemma_injective(x: Self, y: Self) {
    }

    fn number_min() -> (r: Self) {
        u16::MIN
    }

    fn number_max() -> (r: Self) {
        u16::MAX
    }

    fn zero() -> (r: Self) {
        0
    }

    fn is_decimal() -> (r: bool) {
        false
    }

    fn less_than(&self, other: &Self) -> (r: bool) {
        *self < *other
    }

    fn parse_text(s: &str) -> (r: Option<Self>) {
        parse_u16(s)
    }

    fn to_text(&self) -> (r: String) {
        u16_text(*self)
    }
}

/// Calls `str::parse::<u32>`, which accepts an optional `+` sign
/// followed by one or more decimal digits whose value fits `u32`, and
/// rejects every other text.
#[verifier::external_body]
fn parse_u32(s: &str) -> (r: Option<u32>)
    ensures
        r is Some <==> parse_int_text(s@, u32::MIN as int, u32::MAX as int, false) is Some,
        r matches Some(x) ==> parse_int_text(s@, u32::MIN as int, u32::MAX as int, false) == Some(x as int),
{
    s.parse::<u32>().ok()
}

/// Calls `ToString::to_string` on a `u32`, which displays it in decimal.
#[verifier::external_body]
fn u32_text(v: u32) -> (r: String)
    ensures
        r@ == decimal_text(v as int),
{
    v.to_string()
}

impl Number for u32 {
    open spec fn spec_int(self) -> int {
        self as int
    }

    open spec fn spec_lo() -> int {
        u32::MIN as int
    }

    open spec fn spec_hi() -> int {
        u32::MAX as int
    }

    open spec fn spec_signed() -> bool {
        false
    }

    open spec fn spec_decimal() -> bool {
        false
    }

    proof fn lemma_bounds() {
    }

    proof fn lemma_in_range(x: Self) {
    }

    proof fn lemma_injective(x: Self, y: Self) {
    }

    fn number_min() -> (r: Self) {
        u32::MIN
    }

    fn number_max() -> (r: Self) {
        u32::MAX
    }

    fn zero() -> (r: Self) {
        0
    }

    fn is_decimal() -> (r: bool) {
        false
    }

    fn less_than(&self, other: &Self) -> (r: bool) {
        *self < *other
    }

    fn parse_text(s: &str) -> (r: Option<Self>) {
        parse_u32(s)
    }

    fn to_text(&self) -> (r: String) {
        u32_text(*self)
    }
}

/// Calls `str::parse::<u64>`, which accepts an optional `+` sign
/// followed by one or more decimal digits whose value fits `u64`, and
/// rejects every other text.
#[verifier::external_body]
fn parse_u64(s: &str) -> (r: Option<u64>)
    ensures
        r is Some <==> parse_int_text(s@, u64::MIN as int, u64::MAX as int, false) is Some,
        r matches Some(x) ==> parse_int_text(s@, u64::MIN as int, u64::MAX as int, false) == Some(x as int),
{
    s.parse::<u64>().ok()
}

/// Calls `ToString::to_string` on a `u64`, which displays it in decimal.
#[verifier::external_body]
fn u64_text(v: u64) -> (r: String)
    ensures
        r@ == decimal_text(v as int),
{
    v.to_string()
}

impl Number for u64 {
    open spec fn spec_int(self) -> int {
        self as int
    }

    open spec fn spec_lo() -> int {
        u64::MIN as int
    }

    open spec fn spec_hi() -> int {
        u64::MAX as int
    }

    open spec fn spec_signed() -> bool {
        false
    }

    open spec fn spec_decimal() -> bool {
        false
    }

    proof fn lemma_bounds() {
    }

    proof fn lemma_in_range(x: Self) {
    }

    proof fn lemma_injective(x: Self, y: Self) {
    }

    fn number_min() -> (r: Self) {
        u64::MIN
    }

    fn number_max() -> (r: Self) {
        u64::MAX
    }

    fn zero() -> (r: Self) {
        0
    }

    fn is_decimal() -> (r: bool) {
        false
    }

    fn less_than(&self, other: &Self) -> (r: bool) {
        *self < *other
    }

    fn parse_text(s: &str) -> (r: Option<Self>) {
        parse_u64(s)
    }

    fn to_text(&self) -> (r: String) {
        u64_text(*self)
    }
}

} // verus!
