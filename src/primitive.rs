//! Integers, `bool` and `char`: each is written at its natural width, with
//! multi-byte values in the crate's byte order.
use crate::endian::{
    lemma_bytes_len, lemma_pow256_values, lemma_signed_round_trip, lemma_signed_value_bound,
    lemma_unsigned_round_trip, lemma_unsigned_value_bound, lemma_word_size, read_signed,
    read_unsigned, signed_bytes, signed_value, unsigned_bytes, unsigned_value, write_signed,
    write_unsigned, BYTE_ORDER,
};
use crate::{Deserialize, IllegalBitPattern, InvalidScalarValue, RoundTrip, SerialSize, Serialize};
use core::convert::Infallible;
use vstd::prelude::*;

verus! {

impl SerialSize for u8 {
    open spec fn spec_size() -> nat {
        1
    }

    fn size() -> (r: usize) {
        1
    }
}

impl Serialize for u8 {
    open spec fn spec_encodes(&self, bytes: Seq<u8>) -> bool {
        bytes == unsigned_bytes(*self as nat, 1)
    }

    proof fn lemma_encoding_len(&self, bytes: Seq<u8>) {
        lemma_bytes_len(*self as int, 1);
    }

    proof fn lemma_zero_size(&self) {
        lemma_pow256_values();
    }

    fn serialize(&self, buffer: &mut [u8]) {
        write_unsigned(buffer, *self as u128, BYTE_ORDER);
    }
}

impl Deserialize for u8 {
    type Error = Infallible;

    proof fn lemma_zero_size_accepts() {
        lemma_word_size();
    }

    open spec fn spec_check(bytes: Seq<u8>) -> Result<(), Infallible> {
        Ok(())
    }

    open spec fn spec_decodes(bytes: Seq<u8>, value: Self) -> bool {
        value as nat == unsigned_value(bytes)
    }

    fn deserialize(buffer: &[u8]) -> (r: Result<Self, Infallible>) {
        let v = read_unsigned(buffer, BYTE_ORDER);
        proof {
            lemma_unsigned_value_bound(buffer@);
            lemma_pow256_values();
        }
        Ok(v as u8)
    }
}

impl RoundTrip for u8 {
    proof fn lemma_decodes_unique(bytes: Seq<u8>, x: Self, y: Self) {
    }

    proof fn lemma_round_trip(&self, bytes: Seq<u8>) {
        lemma_pow256_values();
        lemma_unsigned_round_trip(*self as nat, 1);
    }
}

impl SerialSize for u16 {
    open spec fn spec_size() -> nat {
        2
    }

    fn size() -> (r: usize) {
        2
    }
}

impl Serialize for u16 {
    open spec fn spec_encodes(&self, bytes: Seq<u8>) -> bool {
        bytes == unsigned_bytes(*self as nat, 2)
    }

    proof fn lemma_encoding_len(&self, bytes: Seq<u8>) {
        lemma_bytes_len(*self as int, 2);
    }

    proof fn lemma_zero_size(&self) {
        lemma_pow256_values();
    }

    fn serialize(&self, buffer: &mut [u8]) {
        write_unsigned(buffer, *self as u128, BYTE_ORDER);
    }
}

impl Deserialize for u16 {
    type Error = Infallible;

    proof fn lemma_zero_size_accepts() {
        lemma_word_size();
    }

    open spec fn spec_check(bytes: Seq<u8>) -> Result<(), Infallible> {
        Ok(())
    }

    open spec fn spec_decodes(bytes: Seq<u8>, value: Self) -> bool {
        value as nat == unsigned_value(bytes)
    }

    fn deserialize(buffer: &[u8]) -> (r: Result<Self, Infallible>) {
        let v = read_unsigned(buffer, BYTE_ORDER);
        proof {
            lemma_unsigned_value_bound(buffer@);
            lemma_pow256_values();
        }
        Ok(v as u16)
    }
}

impl RoundTrip for u16 {
    proof fn lemma_decodes_unique(bytes: Seq<u8>, x: Self, y: Self) {
    }

    proof fn lemma_round_trip(&self, bytes: Seq<u8>) {
        lemma_pow256_values();
        lemma_unsigned_round_trip(*self as nat, 2);
    }
}

impl SerialSize for u32 {
    open spec fn spec_size() -> nat {
        4
    }

    fn size() -> (r: usize) {
        4
    }
}

impl Serialize for u32 {
    open spec fn spec_encodes(&self, bytes: Seq<u8>) -> bool {
        bytes == unsigned_bytes(*self as nat, 4)
    }

    proof fn lemma_encoding_len(&self, bytes: Seq<u8>) {
        lemma_bytes_len(*self as int, 4);
    }

    proof fn lemma_zero_size(&self) {
        lemma_pow256_values();
    }

    fn serialize(&self, buffer: &mut [u8]) {
        write_unsigned(buffer, *self as u128, BYTE_ORDER);
    }
}

impl Deserialize for u32 {
    type Error = Infallible;

    proof fn lemma_zero_size_accepts() {
        lemma_word_size();
    }

    open spec fn spec_check(bytes: Seq<u8>) -> Result<(), Infallible> {
        Ok(())
    }

    open spec fn spec_decodes(bytes: Seq<u8>, value: Self) -> bool {
        value as nat == unsigned_value(bytes)
    }

    fn deserialize(buffer: &[u8]) -> (r: Result<Self, Infallible>) {
        let v = read_unsigned(buffer, BYTE_ORDER);
        proof {
            lemma_unsigned_value_bound(buffer@);
            lemma_pow256_values();
        }
        Ok(v as u32)
    }
}

impl RoundTrip for u32 {
    proof fn lemma_decodes_unique(bytes: Seq<u8>, x: Self, y: Self) {
    }

    proof fn lemma_round_trip(&self, bytes: Seq<u8>) {
        lemma_pow256_values();
        lemma_unsigned_round_trip(*self as nat, 4);
    }
}

impl SerialSize for u64 {
    open spec fn spec_size() -> nat {
        8
    }

    fn size() -> (r: usize) {
        8
    }
}

impl Serialize for u64 {
    open spec fn spec_encodes(&self, bytes: Seq<u8>) -> bool {
        bytes == unsigned_bytes(*self as nat, 8)
    }

    proof fn lemma_encoding_len(&self, bytes: Seq<u8>) {
        lemma_bytes_len(*self as int, 8);
    }

    proof fn lemma_zero_size(&self) {
        lemma_pow256_values();
    }

    fn serialize(&self, buffer: &mut [u8]) {
        write_unsigned(buffer, *self as u128, BYTE_ORDER);
    }
}

impl Deserialize for u64 {
    type Error = Infallible;

    proof fn lemma_zero_size_accepts() {
        lemma_word_size();
    }

    open spec fn spec_check(bytes: Seq<u8>) -> Result<(), Infallible> {
        Ok(())
    }

    open spec fn spec_decodes(bytes: Seq<u8>, value: Self) -> bool {
        value as nat == unsigned_value(bytes)
    }

    fn deserialize(buffer: &[u8]) -> (r: Result<Self, Infallible>) {
        let v = read_unsigned(buffer, BYTE_ORDER);
        proof {
            lemma_unsigned_value_bound(buffer@);
            lemma_pow256_values();
        }
        Ok(v as u64)
    }
}

impl RoundTrip for u64 {
    proof fn lemma_decodes_unique(bytes: Seq<u8>, x: Self, y: Self) {
    }

    proof fn lemma_round_trip(&self, bytes: Seq<u8>) {
        lemma_pow256_values();
        lemma_unsigned_round_trip(*self as nat, 8);
    }
}

impl SerialSize for u128 {
    open spec fn spec_size() -> nat {
        16
    }

    fn size() -> (r: usize) {
        16
    }
}

impl Serialize for u128 {
    open spec fn spec_encodes(&self, bytes: Seq<u8>) -> bool {
        bytes == unsigned_bytes(*self as nat, 16)
    }

    proof fn lemma_encoding_len(&self, bytes: Seq<u8>) {
        lemma_bytes_len(*self as int, 16);
    }

    proof fn lemma_zero_size(&self) {
        lemma_pow256_values();
    }

    fn serialize(&self, buffer: &mut [u8]) {
        write_unsigned(buffer, *self as u128, BYTE_ORDER);
    }
}

impl Deserialize for u128 {
    type Error = Infallible;

    proof fn lemma_zero_size_accepts() {
        lemma_word_size();
    }

    open spec fn spec_check(bytes: Seq<u8>) -> Result<(), Infallible> {
        Ok(())
    }

    open spec fn spec_decodes(bytes: Seq<u8>, value: Self) -> bool {
        value as nat == unsigned_value(bytes)
    }

    fn deserialize(buffer: &[u8]) -> (r: Result<Self, Infallible>) {
        let v = read_unsigned(buffer, BYTE_ORDER);
        proof {
            lemma_unsigned_value_bound(buffer@);
            lemma_pow256_values();
        }
        Ok(v as u128)
    }
}

impl RoundTrip for u128 {
    proof fn lemma_decodes_unique(bytes: Seq<u8>, x: Self, y: Self) {
    }

    proof fn lemma_round_trip(&self, bytes: Seq<u8>) {
        lemma_pow256_values();
        lemma_unsigned_round_trip(*self as nat, 16);
    }
}

impl SerialSize for usize {
    open spec fn spec_size() -> nat {
        (usize::BITS / 8) as nat
    }

    fn size() -> (r: usize) {
        proof {
            broadcast use vstd::layout::layout_of_primitives;
        }
        core::mem::size_of::<usize>()
    }
}

impl Serialize for usize {
    open spec fn spec_encodes(&self, bytes: Seq<u8>) -> bool {
        bytes == unsigned_bytes(*self as nat, (usize::BITS / 8) as nat)
    }

    proof fn lemma_encoding_len(&self, bytes: Seq<u8>) {
        lemma_bytes_len(*self as int, (usize::BITS / 8) as nat);
    }

    proof fn lemma_zero_size(&self) {
        lemma_word_size();
    }

    fn serialize(&self, buffer: &mut [u8]) {
        write_unsigned(buffer, *self as u128, BYTE_ORDER);
    }
}

impl Deserialize for usize {
    type Error = Infallible;

    proof fn lemma_zero_size_accepts() {
        lemma_word_size();
    }

    open spec fn spec_check(bytes: Seq<u8>) -> Result<(), Infallible> {
        Ok(())
    }

    open spec fn spec_decodes(bytes: Seq<u8>, value: Self) -> bool {
        value as nat == unsigned_value(bytes)
    }

    fn deserialize(buffer: &[u8]) -> (r: Result<Self, Infallible>) {
        let v = read_unsigned(buffer, BYTE_ORDER);
        proof {
            lemma_unsigned_value_bound(buffer@);
            lemma_word_size();
        }
        Ok(v as usize)
    }
}

impl RoundTrip for usize {
    proof fn lemma_decodes_unique(bytes: Seq<u8>, x: Self, y: Self) {
    }

    proof fn lemma_round_trip(&self, bytes: Seq<u8>) {
        lemma_word_size();
        lemma_unsigned_round_trip(*self as nat, (usize::BITS / 8) as nat);
    }
}

impl SerialSize for i8 {
    open spec fn spec_size() -> nat {
        1
    }

    fn size() -> (r: usize) {
        1
    }
}

impl Serialize for i8 {
    open spec fn spec_encodes(&self, bytes: Seq<u8>) -> bool {
        bytes == signed_bytes(*self as int, 1)
    }

    proof fn lemma_encoding_len(&self, bytes: Seq<u8>) {
        lemma_bytes_len(*self as int, 1);
    }

    proof fn lemma_zero_size(&self) {
        lemma_pow256_values();
    }

    fn serialize(&self, buffer: &mut [u8]) {
        proof {
            lemma_pow256_values();
        }
        write_signed(buffer, *self as i128, BYTE_ORDER);
    }
}

impl Deserialize for i8 {
    type Error = Infallible;

    proof fn lemma_zero_size_accepts() {
        lemma_word_size();
    }

    open spec fn spec_check(bytes: Seq<u8>) -> Result<(), Infallible> {
        Ok(())
    }

    open spec fn spec_decodes(bytes: Seq<u8>, value: Self) -> bool {
        value as int == signed_value(bytes)
    }

    fn deserialize(buffer: &[u8]) -> (r: Result<Self, Infallible>) {
        proof {
            lemma_pow256_values();
        }
        let v = read_signed(buffer, BYTE_ORDER);
        proof {
            lemma_signed_value_bound(buffer@);
        }
        Ok(v as i8)
    }
}

impl RoundTrip for i8 {
    proof fn lemma_decodes_unique(bytes: Seq<u8>, x: Self, y: Self) {
    }

    proof fn lemma_round_trip(&self, bytes: Seq<u8>) {
        lemma_pow256_values();
        lemma_signed_round_trip(*self as int, 1);
    }
}

impl SerialSize for i16 {
    open spec fn spec_size() -> nat {
        2
    }

    fn size() -> (r: usize) {
        2
    }
}

impl Serialize for i16 {
    open spec fn spec_encodes(&self, bytes: Seq<u8>) -> bool {
        bytes == signed_bytes(*self as int, 2)
    }

    proof fn lemma_encoding_len(&self, bytes: Seq<u8>) {
        lemma_bytes_len(*self as int, 2);
    }

    proof fn lemma_zero_size(&self) {
        lemma_pow256_values();
    }

    fn serialize(&self, buffer: &mut [u8]) {
        proof {
            lemma_pow256_values();
        }
        write_signed(buffer, *self as i128, BYTE_ORDER);
    }
}

impl Deserialize for i16 {
    type Error = Infallible;

    proof fn lemma_zero_size_accepts() {
        lemma_word_size();
    }

    open spec fn spec_check(bytes: Seq<u8>) -> Result<(), Infallible> {
        Ok(())
    }

    open spec fn spec_decodes(bytes: Seq<u8>, value: Self) -> bool {
        value as int == signed_value(bytes)
    }

    fn deserialize(buffer: &[u8]) -> (r: Result<Self, Infallible>) {
        proof {
            lemma_pow256_values();
        }
        let v = read_signed(buffer, BYTE_ORDER);
        proof {
            lemma_signed_value_bound(buffer@);
        }
        Ok(v as i16)
    }
}

impl RoundTrip for i16 {
    proof fn lemma_decodes_unique(bytes: Seq<u8>, x: Self, y: Self) {
    }

    proof fn lemma_round_trip(&self, bytes: Seq<u8>) {
        lemma_pow256_values();
        lemma_signed_round_trip(*self as int, 2);
    }
}

impl SerialSize for i32 {
    open spec fn spec_size() -> nat {
        4
    }

    fn size() -> (r: usize) {
        4
    }
}

impl Serialize for i32 {
    open spec fn spec_encodes(&self, bytes: Seq<u8>) -> bool {
        bytes == signed_bytes(*self as int, 4)
    }

    proof fn lemma_encoding_len(&self, bytes: Seq<u8>) {
        lemma_bytes_len(*self as int, 4);
    }

    proof fn lemma_zero_size(&self) {
        lemma_pow256_values();
    }

    fn serialize(&self, buffer: &mut [u8]) {
        proof {
            lemma_pow256_values();
        }
        write_signed(buffer, *self as i128, BYTE_ORDER);
    }
}

impl Deserialize for i32 {
    type Error = Infallible;

    proof fn lemma_zero_size_accepts() {
        lemma_word_size();
    }

    open spec fn spec_check(bytes: Seq<u8>) -> Result<(), Infallible> {
        Ok(())
    }

    open spec fn spec_decodes(bytes: Seq<u8>, value: Self) -> bool {
        value as int == signed_value(bytes)
    }

    fn deserialize(buffer: &[u8]) -> (r: Result<Self, Infallible>) {
        proof {
            lemma_pow256_values();
        }
        let v = read_signed(buffer, BYTE_ORDER);
        proof {
            lemma_signed_value_bound(buffer@);
        }
        Ok(v as i32)
    }
}

impl RoundTrip for i32 {
    proof fn lemma_decodes_unique(bytes: Seq<u8>, x: Self, y: Self) {
    }

    proof fn lemma_round_trip(&self, bytes: Seq<u8>) {
        lemma_pow256_values();
        lemma_signed_round_trip(*self as int, 4);
    }
}

impl SerialSize for i64 {
    open spec fn spec_size() -> nat {
        8
    }

    fn size() -> (r: usize) {
        8
    }
}

impl Serialize for i64 {
    open spec fn spec_encodes(&self, bytes: Seq<u8>) -> bool {
        bytes == signed_bytes(*self as int, 8)
    }

    proof fn lemma_encoding_len(&self, bytes: Seq<u8>) {
        lemma_bytes_len(*self as int, 8);
    }

    proof fn lemma_zero_size(&self) {
        lemma_pow256_values();
    }

    fn serialize(&self, buffer: &mut [u8]) {
        proof {
            lemma_pow256_values();
        }
        write_signed(buffer, *self as i128, BYTE_ORDER);
    }
}

impl Deserialize for i64 {
    type Error = Infallible;

    proof fn lemma_zero_size_accepts() {
        lemma_word_size();
    }

    open spec fn spec_check(bytes: Seq<u8>) -> Result<(), Infallible> {
        Ok(())
    }

    open spec fn spec_decodes(bytes: Seq<u8>, value: Self) -> bool {
        value as int == signed_value(bytes)
    }

    fn deserialize(buffer: &[u8]) -> (r: Result<Self, Infallible>) {
        proof {
            lemma_pow256_values();
        }
        let v = read_signed(buffer, BYTE_ORDER);
        proof {
            lemma_signed_value_bound(buffer@);
        }
        Ok(v as i64)
    }
}

impl RoundTrip for i64 {
    proof fn lemma_decodes_unique(bytes: Seq<u8>, x: Self, y: Self) {
    }

    proof fn lemma_round_trip(&self, bytes: Seq<u8>) {
        lemma_pow256_values();
        lemma_signed_round_trip(*self as int, 8);
    }
}

impl SerialSize for i128 {
    open spec fn spec_size() -> nat {
        16
    }

    fn size() -> (r: usize) {
        16
    }
}

impl Serialize for i128 {
    open spec fn spec_encodes(&self, bytes: Seq<u8>) -> bool {
        bytes == signed_bytes(*self as int, 16)
    }

    proof fn lemma_encoding_len(&self, bytes: Seq<u8>) {
        lemma_bytes_len(*self as int, 16);
    }

    proof fn lemma_zero_size(&self) {
        lemma_pow256_values();
    }

    fn serialize(&self, buffer: &mut [u8]) {
        proof {
            lemma_pow256_values();
        }
        write_signed(buffer, *self as i128, BYTE_ORDER);
    }
}

impl Deserialize for i128 {
    type Error = Infallible;

    proof fn lemma_zero_size_accepts() {
        lemma_word_size();
    }

    open spec fn spec_check(bytes: Seq<u8>) -> Result<(), Infallible> {
        Ok(())
    }

    open spec fn spec_decodes(bytes: Seq<u8>, value: Self) -> bool {
        value as int == signed_value(bytes)
    }

    fn deserialize(buffer: &[u8]) -> (r: Result<Self, Infallible>) {
        proof {
            lemma_pow256_values();
        }
        let v = read_signed(buffer, BYTE_ORDER);
        proof {
            lemma_signed_value_bound(buffer@);
        }
        Ok(v as i128)
    }
}

impl RoundTrip for i128 {
    proof fn lemma_decodes_unique(bytes: Seq<u8>, x: Self, y: Self) {
    }

    proof fn lemma_round_trip(&self, bytes: Seq<u8>) {
        lemma_pow256_values();
        lemma_signed_round_trip(*self as int, 16);
    }
}

impl SerialSize for isize {
    open spec fn spec_size() -> nat {
        (usize::BITS / 8) as nat
    }

    fn size() -> (r: usize) {
        proof {
            broadcast use vstd::layout::layout_of_primitives;
        }
        core::mem::size_of::<usize>()
    }
}

impl Serialize for isize {
    open spec fn spec_encodes(&self, bytes: Seq<u8>) -> bool {
        bytes == signed_bytes(*self as int, (usize::BITS / 8) as nat)
    }

    proof fn lemma_encoding_len(&self, bytes: Seq<u8>) {
        lemma_bytes_len(*self as int, (usize::BITS / 8) as nat);
    }

    proof fn lemma_zero_size(&self) {
        lemma_word_size();
    }

    fn serialize(&self, buffer: &mut [u8]) {
        proof {
            lemma_word_size();
        }
        write_signed(buffer, *self as i128, BYTE_ORDER);
    }
}

impl Deserialize for isize {
    type Error = Infallible;

    proof fn lemma_zero_size_accepts() {
        lemma_word_size();
    }

    open spec fn spec_check(bytes: Seq<u8>) -> Result<(), Infallible> {
        Ok(())
    }

    open spec fn spec_decodes(bytes: Seq<u8>, value: Self) -> bool {
        value as int == signed_value(bytes)
    }

    fn deserialize(buffer: &[u8]) -> (r: Result<Self, Infallible>) {
        proof {
            lemma_word_size();
        }
        let v = read_signed(buffer, BYTE_ORDER);
        proof {
            lemma_signed_value_bound(buffer@);
        }
        Ok(v as isize)
    }
}

impl RoundTrip for isize {
    proof fn lemma_decodes_unique(bytes: Seq<u8>, x: Self, y: Self) {
    }

    proof fn lemma_round_trip(&self, bytes: Seq<u8>) {
        lemma_word_size();
        lemma_signed_round_trip(*self as int, (usize::BITS / 8) as nat);
    }
}

impl SerialSize for bool {
    open spec fn spec_size() -> nat {
        1
    }

    fn size() -> (r: usize) {
        1
    }
}

impl Serialize for bool {
    open spec fn spec_encodes(&self, bytes: Seq<u8>) -> bool {
        bytes == seq![if *self { 1u8 } else { 0u8 }]
    }

    proof fn lemma_encoding_len(&self, bytes: Seq<u8>) {
    }

    proof fn lemma_zero_size(&self) {
    }

    fn serialize(&self, buffer: &mut [u8]) {
        buffer[0] = if *self { 1 } else { 0 };
        assert(buffer@ =~= seq![if *self { 1u8 } else { 0u8 }]);
    }
}

impl Deserialize for bool {
    type Error = IllegalBitPattern;

    proof fn lemma_zero_size_accepts() {
        lemma_word_size();
    }

    open spec fn spec_check(bytes: Seq<u8>) -> Result<(), IllegalBitPattern> {
        if bytes[0] <= 1 {
            Ok(())
        } else {
            Err(IllegalBitPattern)
        }
    }

    open spec fn spec_decodes(bytes: Seq<u8>, value: Self) -> bool {
        value == (bytes[0] == 1)
    }

    fn deserialize(buffer: &[u8]) -> (r: Result<Self, IllegalBitPattern>) {
        match buffer[0] {
            0 => Ok(false),
            1 => Ok(true),
            _ => Err(IllegalBitPattern),
        }
    }
}

impl RoundTrip for bool {
    proof fn lemma_decodes_unique(bytes: Seq<u8>, x: Self, y: Self) {
    }

    proof fn lemma_round_trip(&self, bytes: Seq<u8>) {
    }
}

/// Holds of the code points that a `char` can hold: all up to `0x10FFFF`
/// but the surrogates `0xD800..=0xDFFF`.
pub open spec fn is_scalar_value(x: nat) -> bool {
    x < 0xD800 || (0xE000 <= x && x <= 0x10FFFF)
}

/// Relies on `char::from_u32`: `Some` exactly for a Unicode scalar value, and
/// then the `char` of that code point.
#[verifier::external_body]
fn char_from_u32(x: u32) -> (r: Option<char>)
    ensures
        r is Some <==> is_scalar_value(x as nat),
        r matches Some(c) ==> c as u32 == x,
{
    char::from_u32(x)
}

/// Every `char` holds a scalar value.
pub proof fn lemma_char_range(c: char)
    ensures
        0 <= c as int,
        is_scalar_value(c as int as nat),
{
}

impl SerialSize for char {
    open spec fn spec_size() -> nat {
        4
    }

    fn size() -> (r: usize) {
        4
    }
}

impl Serialize for char {
    open spec fn spec_encodes(&self, bytes: Seq<u8>) -> bool {
        bytes == unsigned_bytes((*self as int) as nat, 4)
    }

    proof fn lemma_encoding_len(&self, bytes: Seq<u8>) {
        lemma_char_range(*self);
        lemma_bytes_len(*self as int, 4);
    }

    proof fn lemma_zero_size(&self) {
    }

    fn serialize(&self, buffer: &mut [u8]) {
        proof {
            lemma_char_range(*self);
        }
        write_unsigned(buffer, *self as u32 as u128, BYTE_ORDER);
    }
}

impl Deserialize for char {
    type Error = InvalidScalarValue;

    proof fn lemma_zero_size_accepts() {
        lemma_word_size();
    }

    open spec fn spec_check(bytes: Seq<u8>) -> Result<(), InvalidScalarValue> {
        if is_scalar_value(unsigned_value(bytes)) {
            Ok(())
        } else {
            Err(InvalidScalarValue)
        }
    }

    open spec fn spec_decodes(bytes: Seq<u8>, value: Self) -> bool {
        value as int == unsigned_value(bytes)
    }

    fn deserialize(buffer: &[u8]) -> (r: Result<Self, InvalidScalarValue>) {
        let v = read_unsigned(buffer, BYTE_ORDER);
        proof {
            lemma_unsigned_value_bound(buffer@);
            lemma_pow256_values();
        }
        match char_from_u32(v as u32) {
            Some(c) => {
                proof {
                    lemma_char_range(c);
                }
                Ok(c)
            },
            None => Err(InvalidScalarValue),
        }
    }
}

impl RoundTrip for char {
    proof fn lemma_decodes_unique(bytes: Seq<u8>, x: Self, y: Self) {
    }

    proof fn lemma_round_trip(&self, bytes: Seq<u8>) {
        lemma_char_range(*self);
        lemma_pow256_values();
        lemma_unsigned_round_trip((*self as int) as nat, 4);
    }
}

/// Any byte other than 0 and 1 is rejected as a `bool`.
pub proof fn lemma_bool_rejection(byte: u8)
    requires
        byte > 1,
    ensures
        bool::spec_check(seq![byte]) == Err::<(), IllegalBitPattern>(IllegalBitPattern),
{
}

/// A four-byte window whose number is a surrogate or lies above `0x10FFFF`
/// is rejected as a `char`; one that holds a scalar value decodes to the
/// `char` of that code point.
pub proof fn lemma_char_rejection(x: nat)
    requires
        x < 0x1_0000_0000,
    ensures
        char::spec_check(unsigned_bytes(x, 4)) == if is_scalar_value(x) {
            Ok::<(), InvalidScalarValue>(())
        } else {
            Err(InvalidScalarValue)
        },
        forall|c: char| #[trigger] char::spec_decodes(unsigned_bytes(x, 4), c) <==> c as int == x,
{
    lemma_pow256_values();
    lemma_unsigned_round_trip(x, 4);
}

} // verus!
