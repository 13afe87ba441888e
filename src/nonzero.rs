//! Integers that are never zero. A non-zero integer has the window of its
//! number; a window that holds zero is rejected.
use crate::endian::{
    lemma_pow256_values, lemma_signed_value_bound, lemma_unsigned_value_bound, lemma_word_size,
    lemma_zero_window, read_signed, read_unsigned, signed_bytes, signed_value, unsigned_bytes,
    unsigned_value, zero_window, BYTE_ORDER,
};
use crate::{Deserialize, IllegalBitPattern, RoundTrip, SerialSize, Serialize};
use vstd::prelude::*;

verus! {

/// A `u8` that is not zero.
#[derive(Debug, Clone, Copy, PartialEq, Eq)]
pub struct NonZeroU8 {
    value: u8,
}

impl NonZeroU8 {
    #[verifier::type_invariant]
    spec fn inv(self) -> bool {
        self.value != 0
    }

    /// The number held.
    pub closed spec fn spec_get(self) -> u8 {
        self.value
    }

    /// `Some` exactly when `value` is not zero, holding `value`.
    pub fn new(value: u8) -> (r: Option<Self>)
        ensures
            r is Some <==> value != 0,
            r matches Some(n) ==> n.spec_get() == value,
    {
        if value == 0 {
            None
        } else {
            Some(NonZeroU8 { value })
        }
    }

    /// The number held, which is never zero.
    pub fn get(&self) -> (r: u8)
        ensures
            r == self.spec_get(),
            r != 0,
    {
        proof {
            use_type_invariant(self);
        }
        self.value
    }
}

impl SerialSize for NonZeroU8 {
    open spec fn spec_size() -> nat {
        u8::spec_size()
    }

    fn size() -> (r: usize) {
        u8::size()
    }
}

impl Serialize for NonZeroU8 {
    /// The window of the number; the number of an encoded value is never zero.
    open spec fn spec_encodes(&self, bytes: Seq<u8>) -> bool {
        self.spec_get() != 0 && bytes == unsigned_bytes(self.spec_get() as nat, 1)
    }

    proof fn lemma_encoding_len(&self, bytes: Seq<u8>) {
        self.spec_get().lemma_encoding_len(bytes);
    }

    proof fn lemma_zero_size(&self) {
        lemma_pow256_values();
    }

    fn serialize(&self, buffer: &mut [u8]) {
        let v = self.get();
        v.serialize(buffer);
    }
}

impl Deserialize for NonZeroU8 {
    type Error = IllegalBitPattern;

    proof fn lemma_zero_size_accepts() {
        lemma_word_size();
    }

    open spec fn spec_check(bytes: Seq<u8>) -> Result<(), IllegalBitPattern> {
        if unsigned_value(bytes) == 0 {
            Err(IllegalBitPattern)
        } else {
            Ok(())
        }
    }

    open spec fn spec_decodes(bytes: Seq<u8>, value: Self) -> bool {
        value.spec_get() as nat == unsigned_value(bytes)
    }

    fn deserialize(buffer: &[u8]) -> (r: Result<Self, IllegalBitPattern>) {
        let v = read_unsigned(buffer, BYTE_ORDER);
        proof {
            lemma_unsigned_value_bound(buffer@);
            lemma_pow256_values();
        }
        match NonZeroU8::new(v as u8) {
            Some(n) => Ok(n),
            None => Err(IllegalBitPattern),
        }
    }
}

impl RoundTrip for NonZeroU8 {
    proof fn lemma_decodes_unique(bytes: Seq<u8>, x: Self, y: Self) {
    }

    proof fn lemma_round_trip(&self, bytes: Seq<u8>) {
        self.spec_get().lemma_round_trip(bytes);
    }
}

/// A `u16` that is not zero.
#[derive(Debug, Clone, Copy, PartialEq, Eq)]
pub struct NonZeroU16 {
    value: u16,
}

impl NonZeroU16 {
    #[verifier::type_invariant]
    spec fn inv(self) -> bool {
        self.value != 0
    }

    /// The number held.
    pub closed spec fn spec_get(self) -> u16 {
        self.value
    }

    /// `Some` exactly when `value` is not zero, holding `value`.
    pub fn new(value: u16) -> (r: Option<Self>)
        ensures
            r is Some <==> value != 0,
            r matches Some(n) ==> n.spec_get() == value,
    {
        if value == 0 {
            None
        } else {
            Some(NonZeroU16 { value })
        }
    }

    /// The number held, which is never zero.
    pub fn get(&self) -> (r: u16)
        ensures
            r == self.spec_get(),
            r != 0,
    {
        proof {
            use_type_invariant(self);
        }
        self.value
    }
}

impl SerialSize for NonZeroU16 {
    open spec fn spec_size() -> nat {
        u16::spec_size()
    }

    fn size() -> (r: usize) {
        u16::size()
    }
}

impl Serialize for NonZeroU16 {
    /// The window of the number; the number of an encoded value is never zero.
    open spec fn spec_encodes(&self, bytes: Seq<u8>) -> bool {
        self.spec_get() != 0 && bytes == unsigned_bytes(self.spec_get() as nat, 2)
    }

    proof fn lemma_encoding_len(&self, bytes: Seq<u8>) {
        self.spec_get().lemma_encoding_len(bytes);
    }

    proof fn lemma_zero_size(&self) {
        lemma_pow256_values();
    }

    fn serialize(&self, buffer: &mut [u8]) {
        let v = self.get();
        v.serialize(buffer);
    }
}

impl Deserialize for NonZeroU16 {
    type Error = IllegalBitPattern;

    proof fn lemma_zero_size_accepts() {
        lemma_word_size();
    }

    open spec fn spec_check(bytes: Seq<u8>) -> Result<(), IllegalBitPattern> {
        if unsigned_value(bytes) == 0 {
            Err(IllegalBitPattern)
        } else {
            Ok(())
        }
    }

    open spec fn spec_decodes(bytes: Seq<u8>, value: Self) -> bool {
        value.spec_get() as nat == unsigned_value(bytes)
    }

    fn deserialize(buffer: &[u8]) -> (r: Result<Self, IllegalBitPattern>) {
        let v = read_unsigned(buffer, BYTE_ORDER);
        proof {
            lemma_unsigned_value_bound(buffer@);
            lemma_pow256_values();
        }
        match NonZeroU16::new(v as u16) {
            Some(n) => Ok(n),
            None => Err(IllegalBitPattern),
        }
    }
}

impl RoundTrip for NonZeroU16 {
    proof fn lemma_decodes_unique(bytes: Seq<u8>, x: Self, y: Self) {
    }

    proof fn lemma_round_trip(&self, bytes: Seq<u8>) {
        self.spec_get().lemma_round_trip(bytes);
    }
}

/// A `u32` that is not zero.
#[derive(Debug, Clone, Copy, PartialEq, Eq)]
pub struct NonZeroU32 {
    value: u32,
}

impl NonZeroU32 {
    #[verifier::type_invariant]
    spec fn inv(self) -> bool {
        self.value != 0
    }

    /// The number held.
    pub closed spec fn spec_get(self) -> u32 {
        self.value
    }

    /// `Some` exactly when `value` is not zero, holding `value`.
    pub fn new(value: u32) -> (r: Option<Self>)
        ensures
            r is Some <==> value != 0,
            r matches Some(n) ==> n.spec_get() == value,
    {
        if value == 0 {
            None
        } else {
            Some(NonZeroU32 { value })
        }
    }

    /// The number held, which is never zero.
    pub fn get(&self) -> (r: u32)
        ensures
            r == self.spec_get(),
            r != 0,
    {
        proof {
            use_type_invariant(self);
        }
        self.value
    }
}

impl SerialSize for NonZeroU32 {
    open spec fn spec_size() -> nat {
        u32::spec_size()
    }

    fn size() -> (r: usize) {
        u32::size()
    }
}

impl Serialize for NonZeroU32 {
    /// The window of the number; the number of an encoded value is never zero.
    open spec fn spec_encodes(&self, bytes: Seq<u8>) -> bool {
        self.spec_get() != 0 && bytes == unsigned_bytes(self.spec_get() as nat, 4)
    }

    proof fn lemma_encoding_len(&self, bytes: Seq<u8>) {
        self.spec_get().lemma_encoding_len(bytes);
    }

    proof fn lemma_zero_size(&self) {
        lemma_pow256_values();
    }

    fn serialize(&self, buffer: &mut [u8]) {
        let v = self.get();
        v.serialize(buffer);
    }
}

impl Deserialize for NonZeroU32 {
    type Error = IllegalBitPattern;

    proof fn lemma_zero_size_accepts() {
        lemma_word_size();
    }

    open spec fn spec_check(bytes: Seq<u8>) -> Result<(), IllegalBitPattern> {
        if unsigned_value(bytes) == 0 {
            Err(IllegalBitPattern)
        } else {
            Ok(())
        }
    }

    open spec fn spec_decodes(bytes: Seq<u8>, value: Self) -> bool {
        value.spec_get() as nat == unsigned_value(bytes)
    }

    fn deserialize(buffer: &[u8]) -> (r: Result<Self, IllegalBitPattern>) {
        let v = read_unsigned(buffer, BYTE_ORDER);
        proof {
            lemma_unsigned_value_bound(buffer@);
            lemma_pow256_values();
        }
        match NonZeroU32::new(v as u32) {
            Some(n) => Ok(n),
            None => Err(IllegalBitPattern),
        }
    }
}

impl RoundTrip for NonZeroU32 {
    proof fn lemma_decodes_unique(bytes: Seq<u8>, x: Self, y: Self) {
    }

    proof fn lemma_round_trip(&self, bytes: Seq<u8>) {
        self.spec_get().lemma_round_trip(bytes);
    }
}

/// A `u64` that is not zero.
#[derive(Debug, Clone, Copy, PartialEq, Eq)]
pub struct NonZeroU64 {
    value: u64,
}

impl NonZeroU64 {
    #[verifier::type_invariant]
    spec fn inv(self) -> bool {
        self.value != 0
    }

    /// The number held.
    pub closed spec fn spec_get(self) -> u64 {
        self.value
    }

    /// `Some` exactly when `value` is not zero, holding `value`.
    pub fn new(value: u64) -> (r: Option<Self>)
        ensures
            r is Some <==> value != 0,
            r matches Some(n) ==> n.spec_get() == value,
    {
        if value == 0 {
            None
        } else {
            Some(NonZeroU64 { value })
        }
    }

    /// The number held, which is never zero.
    pub fn get(&self) -> (r: u64)
        ensures
            r == self.spec_get(),
            r != 0,
    {
        proof {
            use_type_invariant(self);
        }
        self.value
    }
}

impl SerialSize for NonZeroU64 {
    open spec fn spec_size() -> nat {
        u64::spec_size()
    }

    fn size() -> (r: usize) {
        u64::size()
    }
}

impl Serialize for NonZeroU64 {
    /// The window of the number; the number of an encoded value is never zero.
    open spec fn spec_encodes(&self, bytes: Seq<u8>) -> bool {
        self.spec_get() != 0 && bytes == unsigned_bytes(self.spec_get() as nat, 8)
    }

    proof fn lemma_encoding_len(&self, bytes: Seq<u8>) {
        self.spec_get().lemma_encoding_len(bytes);
    }

    proof fn lemma_zero_size(&self) {
        lemma_pow256_values();
    }

    fn serialize(&self, buffer: &mut [u8]) {
        let v = self.get();
        v.serialize(buffer);
    }
}

impl Deserialize for NonZeroU64 {
    type Error = IllegalBitPattern;

    proof fn lemma_zero_size_accepts() {
        lemma_word_size();
    }

    open spec fn spec_check(bytes: Seq<u8>) -> Result<(), IllegalBitPattern> {
        if unsigned_value(bytes) == 0 {
            Err(IllegalBitPattern)
        } else {
            Ok(())
        }
    }

    open spec fn spec_decodes(bytes: Seq<u8>, value: Self) -> bool {
        value.spec_get() as nat == unsigned_value(bytes)
    }

    fn deserialize(buffer: &[u8]) -> (r: Result<Self, IllegalBitPattern>) {
        let v = read_unsigned(buffer, BYTE_ORDER);
        proof {
            lemma_unsigned_value_bound(buffer@);
            lemma_pow256_values();
        }
        match NonZeroU64::new(v as u64) {
            Some(n) => Ok(n),
            None => Err(IllegalBitPattern),
        }
    }
}

impl RoundTrip for NonZeroU64 {
    proof fn lemma_decodes_unique(bytes: Seq<u8>, x: Self, y: Self) {
    }

    proof fn lemma_round_trip(&self, bytes: Seq<u8>) {
        self.spec_get().lemma_round_trip(bytes);
    }
}

/// A `u128` that is not zero.
#[derive(Debug, Clone, Copy, PartialEq, Eq)]
pub struct NonZeroU128 {
    value: u128,
}

impl NonZeroU128 {
    #[verifier::type_invariant]
    spec fn inv(self) -> bool {
        self.value != 0
    }

    /// The number held.
    pub closed spec fn spec_get(self) -> u128 {
        self.value
    }

    /// `Some` exactly when `value` is not zero, holding `value`.
    pub fn new(value: u128) -> (r: Option<Self>)
        ensures
            r is Some <==> value != 0,
            r matches Some(n) ==> n.spec_get() == value,
    {
        if value == 0 {
            None
        } else {
            Some(NonZeroU128 { value })
        }
    }

    /// The number held, which is never zero.
    pub fn get(&self) -> (r: u128)
        ensures
            r == self.spec_get(),
            r != 0,
    {
        proof {
            use_type_invariant(self);
        }
        self.value
    }
}

impl SerialSize for NonZeroU128 {
    open spec fn spec_size() -> nat {
        u128::spec_size()
    }

    fn size() -> (r: usize) {
        u128::size()
    }
}

impl Serialize for NonZeroU128 {
    /// The window of the number; the number of an encoded value is never zero.
    open spec fn spec_encodes(&self, bytes: Seq<u8>) -> bool {
        self.spec_get() != 0 && bytes == unsigned_bytes(self.spec_get() as nat, 16)
    }

    proof fn lemma_encoding_len(&self, bytes: Seq<u8>) {
        self.spec_get().lemma_encoding_len(bytes);
    }

    proof fn lemma_zero_size(&self) {
        lemma_pow256_values();
    }

    fn serialize(&self, buffer: &mut [u8]) {
        let v = self.get();
        v.serialize(buffer);
    }
}

impl Deserialize for NonZeroU128 {
    type Error = IllegalBitPattern;

    proof fn lemma_zero_size_accepts() {
        lemma_word_size();
    }

    open spec fn spec_check(bytes: Seq<u8>) -> Result<(), IllegalBitPattern> {
        if unsigned_value(bytes) == 0 {
            Err(IllegalBitPattern)
        } else {
            Ok(())
        }
    }

    open spec fn spec_decodes(bytes: Seq<u8>, value: Self) -> bool {
        value.spec_get() as nat == unsigned_value(bytes)
    }

    fn deserialize(buffer: &[u8]) -> (r: Result<Self, IllegalBitPattern>) {
        let v = read_unsigned(buffer, BYTE_ORDER);
        proof {
            lemma_unsigned_value_bound(buffer@);
            lemma_pow256_values();
        }
        match NonZeroU128::new(v as u128) {
            Some(n) => Ok(n),
            None => Err(IllegalBitPattern),
        }
    }
}

impl RoundTrip for NonZeroU128 {
    proof fn lemma_decodes_unique(bytes: Seq<u8>, x: Self, y: Self) {
    }

    proof fn lemma_round_trip(&self, bytes: Seq<u8>) {
        self.spec_get().lemma_round_trip(bytes);
    }
}

/// A `usize` that is not zero.
#[derive(Debug, Clone, Copy, PartialEq, Eq)]
pub struct NonZeroUsize {
    value: usize,
}

impl NonZeroUsize {
    #[verifier::type_invariant]
    spec fn inv(self) -> bool {
        self.value != 0
    }

    /// The number held.
    pub closed spec fn spec_get(self) -> usize {
        self.value
    }

    /// `Some` exactly when `value` is not zero, holding `value`.
    pub fn new(value: usize) -> (r: Option<Self>)
        ensures
            r is Some <==> value != 0,
            r matches Some(n) ==> n.spec_get() == value,
    {
        if value == 0 {
            None
        } else {
            Some(NonZeroUsize { value })
        }
    }

    /// The number held, which is never zero.
    pub fn get(&self) -> (r: usize)
        ensures
            r == self.spec_get(),
            r != 0,
    {
        proof {
            use_type_invariant(self);
        }
        self.value
    }
}

impl SerialSize for NonZeroUsize {
    open spec fn spec_size() -> nat {
        usize::spec_size()
    }

    fn size() -> (r: usize) {
        usize::size()
    }
}

impl Serialize for NonZeroUsize {
    /// The window of the number; the number of an encoded value is never zero.
    open spec fn spec_encodes(&self, bytes: Seq<u8>) -> bool {
        self.spec_get() != 0 && bytes == unsigned_bytes(self.spec_get() as nat, (usize::BITS / 8) as nat)
    }

    proof fn lemma_encoding_len(&self, bytes: Seq<u8>) {
        self.spec_get().lemma_encoding_len(bytes);
    }

    proof fn lemma_zero_size(&self) {
        lemma_word_size();
    }

    fn serialize(&self, buffer: &mut [u8]) {
        let v = self.get();
        v.serialize(buffer);
    }
}

impl Deserialize for NonZeroUsize {
    type Error = IllegalBitPattern;

    proof fn lemma_zero_size_accepts() {
        lemma_word_size();
    }

    open spec fn spec_check(bytes: Seq<u8>) -> Result<(), IllegalBitPattern> {
        if unsigned_value(bytes) == 0 {
            Err(IllegalBitPattern)
        } else {
            Ok(())
        }
    }

    open spec fn spec_decodes(bytes: Seq<u8>, value: Self) -> bool {
        value.spec_get() as nat == unsigned_value(bytes)
    }

    fn deserialize(buffer: &[u8]) -> (r: Result<Self, IllegalBitPattern>) {
        let v = read_unsigned(buffer, BYTE_ORDER);
        proof {
            lemma_unsigned_value_bound(buffer@);
            lemma_word_size();
        }
        match NonZeroUsize::new(v as usize) {
            Some(n) => Ok(n),
            None => Err(IllegalBitPattern),
        }
    }
}

impl RoundTrip for NonZeroUsize {
    proof fn lemma_decodes_unique(bytes: Seq<u8>, x: Self, y: Self) {
    }

    proof fn lemma_round_trip(&self, bytes: Seq<u8>) {
        self.spec_get().lemma_round_trip(bytes);
    }
}

/// A `i8` that is not zero.
#[derive(Debug, Clone, Copy, PartialEq, Eq)]
pub struct NonZeroI8 {
    value: i8,
}

impl NonZeroI8 {
    #[verifier::type_invariant]
    spec fn inv(self) -> bool {
        self.value != 0
    }

    /// The number held.
    pub closed spec fn spec_get(self) -> i8 {
        self.value
    }

    /// `Some` exactly when `value` is not zero, holding `value`.
    pub fn new(value: i8) -> (r: Option<Self>)
        ensures
            r is Some <==> value != 0,
            r matches Some(n) ==> n.spec_get() == value,
    {
        if value == 0 {
            None
        } else {
            Some(NonZeroI8 { value })
        }
    }

    /// The number held, which is never zero.
    pub fn get(&self) -> (r: i8)
        ensures
            r == self.spec_get(),
            r != 0,
    {
        proof {
            use_type_invariant(self);
        }
        self.value
    }
}

impl SerialSize for NonZeroI8 {
    open spec fn spec_size() -> nat {
        i8::spec_size()
    }

    fn size() -> (r: usize) {
        i8::size()
    }
}

impl Serialize for NonZeroI8 {
    /// The window of the number; the number of an encoded value is never zero.
    open spec fn spec_encodes(&self, bytes: Seq<u8>) -> bool {
        self.spec_get() != 0 && bytes == signed_bytes(self.spec_get() as int, 1)
    }

    proof fn lemma_encoding_len(&self, bytes: Seq<u8>) {
        self.spec_get().lemma_encoding_len(bytes);
    }

    proof fn lemma_zero_size(&self) {
        lemma_pow256_values();
    }

    fn serialize(&self, buffer: &mut [u8]) {
        let v = self.get();
        v.serialize(buffer);
    }
}

impl Deserialize for NonZeroI8 {
    type Error = IllegalBitPattern;

    proof fn lemma_zero_size_accepts() {
        lemma_word_size();
    }

    open spec fn spec_check(bytes: Seq<u8>) -> Result<(), IllegalBitPattern> {
        if signed_value(bytes) == 0 {
            Err(IllegalBitPattern)
        } else {
            Ok(())
        }
    }

    open spec fn spec_decodes(bytes: Seq<u8>, value: Self) -> bool {
        value.spec_get() as int == signed_value(bytes)
    }

    fn deserialize(buffer: &[u8]) -> (r: Result<Self, IllegalBitPattern>) {
        proof {
            lemma_pow256_values();
        }
        let v = read_signed(buffer, BYTE_ORDER);
        proof {
            lemma_signed_value_bound(buffer@);
        }
        match NonZeroI8::new(v as i8) {
            Some(n) => Ok(n),
            None => Err(IllegalBitPattern),
        }
    }
}

impl RoundTrip for NonZeroI8 {
    proof fn lemma_decodes_unique(bytes: Seq<u8>, x: Self, y: Self) {
    }

    proof fn lemma_round_trip(&self, bytes: Seq<u8>) {
        self.spec_get().lemma_round_trip(bytes);
    }
}

/// A `i16` that is not zero.
#[derive(Debug, Clone, Copy, PartialEq, Eq)]
pub struct NonZeroI16 {
    value: i16,
}

impl NonZeroI16 {
    #[verifier::type_invariant]
    spec fn inv(self) -> bool {
        self.value != 0
    }

    /// The number held.
    pub closed spec fn spec_get(self) -> i16 {
        self.value
    }

    /// `Some` exactly when `value` is not zero, holding `value`.
    pub fn new(value: i16) -> (r: Option<Self>)
        ensures
            r is Some <==> value != 0,
            r matches Some(n) ==> n.spec_get() == value,
    {
        if value == 0 {
            None
        } else {
            Some(NonZeroI16 { value })
        }
    }

    /// The number held, which is never zero.
    pub fn get(&self) -> (r: i16)
        ensures
            r == self.spec_get(),
            r != 0,
    {
        proof {
            use_type_invariant(self);
        }
        self.value
    }
}

impl SerialSize for NonZeroI16 {
    open spec fn spec_size() -> nat {
        i16::spec_size()
    }

    fn size() -> (r: usize) {
        i16::size()
    }
}

impl Serialize for NonZeroI16 {
    /// The window of the number; the number of an encoded value is never zero.
    open spec fn spec_encodes(&self, bytes: Seq<u8>) -> bool {
        self.spec_get() != 0 && bytes == signed_bytes(self.spec_get() as int, 2)
    }

    proof fn lemma_encoding_len(&self, bytes: Seq<u8>) {
        self.spec_get().lemma_encoding_len(bytes);
    }

    proof fn lemma_zero_size(&self) {
        lemma_pow256_values();
    }

    fn serialize(&self, buffer: &mut [u8]) {
        let v = self.get();
        v.serialize(buffer);
    }
}

impl Deserialize for NonZeroI16 {
    type Error = IllegalBitPattern;

    proof fn lemma_zero_size_accepts() {
        lemma_word_size();
    }

    open spec fn spec_check(bytes: Seq<u8>) -> Result<(), IllegalBitPattern> {
        if signed_value(bytes) == 0 {
            Err(IllegalBitPattern)
        } else {
            Ok(())
        }
    }

    open spec fn spec_decodes(bytes: Seq<u8>, value: Self) -> bool {
        value.spec_get() as int == signed_value(bytes)
    }

    fn deserialize(buffer: &[u8]) -> (r: Result<Self, IllegalBitPattern>) {
        proof {
            lemma_pow256_values();
        }
        let v = read_signed(buffer, BYTE_ORDER);
        proof {
            lemma_signed_value_bound(buffer@);
        }
        match NonZeroI16::new(v as i16) {
            Some(n) => Ok(n),
            None => Err(IllegalBitPattern),
        }
    }
}

impl RoundTrip for NonZeroI16 {
    proof fn lemma_decodes_unique(bytes: Seq<u8>, x: Self, y: Self) {
    }

    proof fn lemma_round_trip(&self, bytes: Seq<u8>) {
        self.spec_get().lemma_round_trip(bytes);
    }
}

/// A `i32` that is not zero.
#[derive(Debug, Clone, Copy, PartialEq, Eq)]
pub struct NonZeroI32 {
    value: i32,
}

impl NonZeroI32 {
    #[verifier::type_invariant]
    spec fn inv(self) -> bool {
        self.value != 0
    }

    /// The number held.
    pub closed spec fn spec_get(self) -> i32 {
        self.value
    }

    /// `Some` exactly when `value` is not zero, holding `value`.
    pub fn new(value: i32) -> (r: Option<Self>)
        ensures
            r is Some <==> value != 0,
            r matches Some(n) ==> n.spec_get() == value,
    {
        if value == 0 {
            None
        } else {
            Some(NonZeroI32 { value })
        }
    }

    /// The number held, which is never zero.
    pub fn get(&self) -> (r: i32)
        ensures
            r == self.spec_get(),
            r != 0,
    {
        proof {
            use_type_invariant(self);
        }
        self.value
    }
}

impl SerialSize for NonZeroI32 {
    open spec fn spec_size() -> nat {
        i32::spec_size()
    }

    fn size() -> (r: usize) {
        i32::size()
    }
}

impl Serialize for NonZeroI32 {
    /// The window of the number; the number of an encoded value is never zero.
    open spec fn spec_encodes(&self, bytes: Seq<u8>) -> bool {
        self.spec_get() != 0 && bytes == signed_bytes(self.spec_get() as int, 4)
    }

    proof fn lemma_encoding_len(&self, bytes: Seq<u8>) {
        self.spec_get().lemma_encoding_len(bytes);
    }

    proof fn lemma_zero_size(&self) {
        lemma_pow256_values();
    }

    fn serialize(&self, buffer: &mut [u8]) {
        let v = self.get();
        v.serialize(buffer);
    }
}

impl Deserialize for NonZeroI32 {
    type Error = IllegalBitPattern;

    proof fn lemma_zero_size_accepts() {
        lemma_word_size();
    }

    open spec fn spec_check(bytes: Seq<u8>) -> Result<(), IllegalBitPattern> {
        if signed_value(bytes) == 0 {
            Err(IllegalBitPattern)
        } else {
            Ok(())
        }
    }

    open spec fn spec_decodes(bytes: Seq<u8>, value: Self) -> bool {
        value.spec_get() as int == signed_value(bytes)
    }

    fn deserialize(buffer: &[u8]) -> (r: Result<Self, IllegalBitPattern>) {
        proof {
            lemma_pow256_values();
        }
        let v = read_signed(buffer, BYTE_ORDER);
        proof {
            lemma_signed_value_bound(buffer@);
        }
        match NonZeroI32::new(v as i32) {
            Some(n) => Ok(n),
            None => Err(IllegalBitPattern),
        }
    }
}

impl RoundTrip for NonZeroI32 {
    proof fn lemma_decodes_unique(bytes: Seq<u8>, x: Self, y: Self) {
    }

    proof fn lemma_round_trip(&self, bytes: Seq<u8>) {
        self.spec_get().lemma_round_trip(bytes);
    }
}

/// A `i64` that is not zero.
#[derive(Debug, Clone, Copy, PartialEq, Eq)]
pub struct NonZeroI64 {
    value: i64,
}

impl NonZeroI64 {
    #[verifier::type_invariant]
    spec fn inv(self) -> bool {
        self.value != 0
    }

    /// The number held.
    pub closed spec fn spec_get(self) -> i64 {
        self.value
    }

    /// `Some` exactly when `value` is not zero, holding `value`.
    pub fn new(value: i64) -> (r: Option<Self>)
        ensures
            r is Some <==> value != 0,
            r matches Some(n) ==> n.spec_get() == value,
    {
        if value == 0 {
            None
        } else {
            Some(NonZeroI64 { value })
        }
    }

    /// The number held, which is never zero.
    pub fn get(&self) -> (r: i64)
        ensures
            r == self.spec_get(),
            r != 0,
    {
        proof {
            use_type_invariant(self);
        }
        self.value
    }
}

impl SerialSize for NonZeroI64 {
    open spec fn spec_size() -> nat {
        i64::spec_size()
    }

    fn size() -> (r: usize) {
        i64::size()
    }
}

impl Serialize for NonZeroI64 {
    /// The window of the number; the number of an encoded value is never zero.
    open spec fn spec_encodes(&self, bytes: Seq<u8>) -> bool {
        self.spec_get() != 0 && bytes == signed_bytes(self.spec_get() as int, 8)
    }

    proof fn lemma_encoding_len(&self, bytes: Seq<u8>) {
        self.spec_get().lemma_encoding_len(bytes);
    }

    proof fn lemma_zero_size(&self) {
        lemma_pow256_values();
    }

    fn serialize(&self, buffer: &mut [u8]) {
        let v = self.get();
        v.serialize(buffer);
    }
}

impl Deserialize for NonZeroI64 {
    type Error = IllegalBitPattern;

    proof fn lemma_zero_size_accepts() {
        lemma_word_size();
    }

    open spec fn spec_check(bytes: Seq<u8>) -> Result<(), IllegalBitPattern> {
        if signed_value(bytes) == 0 {
            Err(IllegalBitPattern)
        } else {
            Ok(())
        }
    }

    open spec fn spec_decodes(bytes: Seq<u8>, value: Self) -> bool {
        value.spec_get() as int == signed_value(bytes)
    }

    fn deserialize(buffer: &[u8]) -> (r: Result<Self, IllegalBitPattern>) {
        proof {
            lemma_pow256_values();
        }
        let v = read_signed(buffer, BYTE_ORDER);
        proof {
            lemma_signed_value_bound(buffer@);
        }
        match NonZeroI64::new(v as i64) {
            Some(n) => Ok(n),
            None => Err(IllegalBitPattern),
        }
    }
}

impl RoundTrip for NonZeroI64 {
    proof fn lemma_decodes_unique(bytes: Seq<u8>, x: Self, y: Self) {
    }

    proof fn lemma_round_trip(&self, bytes: Seq<u8>) {
        self.spec_get().lemma_round_trip(bytes);
    }
}

/// A `i128` that is not zero.
#[derive(Debug, Clone, Copy, PartialEq, Eq)]
pub struct NonZeroI128 {
    value: i128,
}

impl NonZeroI128 {
    #[verifier::type_invariant]
    spec fn inv(self) -> bool {
        self.value != 0
    }

    /// The number held.
    pub closed spec fn spec_get(self) -> i128 {
        self.value
    }

    /// `Some` exactly when `value` is not zero, holding `value`.
    pub fn new(value: i128) -> (r: Option<Self>)
        ensures
            r is Some <==> value != 0,
            r matches Some(n) ==> n.spec_get() == value,
    {
        if value == 0 {
            None
        } else {
            Some(NonZeroI128 { value })
        }
    }

    /// The number held, which is never zero.
    pub fn get(&self) -> (r: i128)
        ensures
            r == self.spec_get(),
            r != 0,
    {
        proof {
            use_type_invariant(self);
        }
        self.value
    }
}

impl SerialSize for NonZeroI128 {
    open spec fn spec_size() -> nat {
        i128::spec_size()
    }

    fn size() -> (r: usize) {
        i128::size()
    }
}

impl Serialize for NonZeroI128 {
    /// The window of the number; the number of an encoded value is never zero.
    open spec fn spec_encodes(&self, bytes: Seq<u8>) -> bool {
        self.spec_get() != 0 && bytes == signed_bytes(self.spec_get() as int, 16)
    }

    proof fn lemma_encoding_len(&self, bytes: Seq<u8>) {
        self.spec_get().lemma_encoding_len(bytes);
    }

    proof fn lemma_zero_size(&self) {
        lemma_pow256_values();
    }

    fn serialize(&self, buffer: &mut [u8]) {
        let v = self.get();
        v.serialize(buffer);
    }
}

impl Deserialize for NonZeroI128 {
    type Error = IllegalBitPattern;

    proof fn lemma_zero_size_accepts() {
        lemma_word_size();
    }

    open spec fn spec_check(bytes: Seq<u8>) -> Result<(), IllegalBitPattern> {
        if signed_value(bytes) == 0 {
            Err(IllegalBitPattern)
        } else {
            Ok(())
        }
    }

    open spec fn spec_decodes(bytes: Seq<u8>, value: Self) -> bool {
        value.spec_get() as int == signed_value(bytes)
    }

    fn deserialize(buffer: &[u8]) -> (r: Result<Self, IllegalBitPattern>) {
        proof {
            lemma_pow256_values();
        }
        let v = read_signed(buffer, BYTE_ORDER);
        proof {
            lemma_signed_value_bound(buffer@);
        }
        match NonZeroI128::new(v as i128) {
            Some(n) => Ok(n),
            None => Err(IllegalBitPattern),
        }
    }
}

impl RoundTrip for NonZeroI128 {
    proof fn lemma_decodes_unique(bytes: Seq<u8>, x: Self, y: Self) {
    }

    proof fn lemma_round_trip(&self, bytes: Seq<u8>) {
        self.spec_get().lemma_round_trip(bytes);
    }
}

/// A `isize` that is not zero.
#[derive(Debug, Clone, Copy, PartialEq, Eq)]
pub struct NonZeroIsize {
    value: isize,
}

impl NonZeroIsize {
    #[verifier::type_invariant]
    spec fn inv(self) -> bool {
        self.value != 0
    }

    /// The number held.
    pub closed spec fn spec_get(self) -> isize {
        self.value
    }

    /// `Some` exactly when `value` is not zero, holding `value`.
    pub fn new(value: isize) -> (r: Option<Self>)
        ensures
            r is Some <==> value != 0,
            r matches Some(n) ==> n.spec_get() == value,
    {
        if value == 0 {
            None
        } else {
            Some(NonZeroIsize { value })
        }
    }

    /// The number held, which is never zero.
    pub fn get(&self) -> (r: isize)
        ensures
            r == self.spec_get(),
            r != 0,
    {
        proof {
            use_type_invariant(self);
        }
        self.value
    }
}

impl SerialSize for NonZeroIsize {
    open spec fn spec_size() -> nat {
        isize::spec_size()
    }

    fn size() -> (r: usize) {
        isize::size()
    }
}

impl Serialize for NonZeroIsize {
    /// The window of the number; the number of an encoded value is never zero.
    open spec fn spec_encodes(&self, bytes: Seq<u8>) -> bool {
        self.spec_get() != 0 && bytes == signed_bytes(self.spec_get() as int, (usize::BITS / 8) as nat)
    }

    proof fn lemma_encoding_len(&self, bytes: Seq<u8>) {
        self.spec_get().lemma_encoding_len(bytes);
    }

    proof fn lemma_zero_size(&self) {
        lemma_word_size();
    }

    fn serialize(&self, buffer: &mut [u8]) {
        let v = self.get();
        v.serialize(buffer);
    }
}

impl Deserialize for NonZeroIsize {
    type Error = IllegalBitPattern;

    proof fn lemma_zero_size_accepts() {
        lemma_word_size();
    }

    open spec fn spec_check(bytes: Seq<u8>) -> Result<(), IllegalBitPattern> {
        if signed_value(bytes) == 0 {
            Err(IllegalBitPattern)
        } else {
            Ok(())
        }
    }

    open spec fn spec_decodes(bytes: Seq<u8>, value: Self) -> bool {
        value.spec_get() as int == signed_value(bytes)
    }

    fn deserialize(buffer: &[u8]) -> (r: Result<Self, IllegalBitPattern>) {
        proof {
            lemma_word_size();
        }
        let v = read_signed(buffer, BYTE_ORDER);
        proof {
            lemma_signed_value_bound(buffer@);
        }
        match NonZeroIsize::new(v as isize) {
            Some(n) => Ok(n),
            None => Err(IllegalBitPattern),
        }
    }
}

impl RoundTrip for NonZeroIsize {
    proof fn lemma_decodes_unique(bytes: Seq<u8>, x: Self, y: Self) {
    }

    proof fn lemma_round_trip(&self, bytes: Seq<u8>) {
        self.spec_get().lemma_round_trip(bytes);
    }
}

/// A window of zero bytes is rejected by every non-zero integer type.
pub proof fn lemma_zero_rejected()
    ensures
        NonZeroU8::spec_check(zero_window(1)) == Err::<(), IllegalBitPattern>(IllegalBitPattern),
        NonZeroU16::spec_check(zero_window(2)) == Err::<(), IllegalBitPattern>(IllegalBitPattern),
        NonZeroU32::spec_check(zero_window(4)) == Err::<(), IllegalBitPattern>(IllegalBitPattern),
        NonZeroU64::spec_check(zero_window(8)) == Err::<(), IllegalBitPattern>(IllegalBitPattern),
        NonZeroU128::spec_check(zero_window(16)) == Err::<(), IllegalBitPattern>(IllegalBitPattern),
        NonZeroUsize::spec_check(zero_window((usize::BITS / 8) as nat)) == Err::<(), IllegalBitPattern>(IllegalBitPattern),
        NonZeroI8::spec_check(zero_window(1)) == Err::<(), IllegalBitPattern>(IllegalBitPattern),
        NonZeroI16::spec_check(zero_window(2)) == Err::<(), IllegalBitPattern>(IllegalBitPattern),
        NonZeroI32::spec_check(zero_window(4)) == Err::<(), IllegalBitPattern>(IllegalBitPattern),
        NonZeroI64::spec_check(zero_window(8)) == Err::<(), IllegalBitPattern>(IllegalBitPattern),
        NonZeroI128::spec_check(zero_window(16)) == Err::<(), IllegalBitPattern>(IllegalBitPattern),
        NonZeroIsize::spec_check(zero_window((usize::BITS / 8) as nat)) == Err::<(), IllegalBitPattern>(IllegalBitPattern),
{
    lemma_pow256_values();
    lemma_word_size();
    lemma_zero_window(1);
    lemma_zero_window(2);
    lemma_zero_window(4);
    lemma_zero_window(8);
    lemma_zero_window(16);
}

} // verus!
