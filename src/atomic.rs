//! Atomic cells. A cell is written as the value that one sequentially
//! consistent load returns; decoding builds a new, independent cell and never
//! writes through to an existing one. The value that a cell was created with
//! is named for proofs; the value that a load returns may differ, as other
//! threads may have stored into the cell.
use crate::endian::{lemma_pow256_values, lemma_word_size};
use crate::{Deserialize, RoundTrip, SerialSize, Serialize};
use core::sync::atomic::{AtomicBool, AtomicU8, AtomicU16, AtomicU32, AtomicU64, AtomicUsize, AtomicI8, AtomicI16, AtomicI32, AtomicI64, AtomicIsize, Ordering};
use vstd::prelude::*;

verus! {

/// The `bool` that an `AtomicBool` cell was created with.
pub uninterp spec fn atomic_bool_created_with(cell: AtomicBool) -> bool;

/// Relies on `AtomicBool::new`: the new cell holds `value`.
#[verifier::external_body]
fn new_atomic_bool(value: bool) -> (r: AtomicBool)
    ensures
        atomic_bool_created_with(r) == value,
{
    AtomicBool::new(value)
}

impl SerialSize for AtomicBool {
    open spec fn spec_size() -> nat {
        bool::spec_size()
    }

    fn size() -> (r: usize) {
        bool::size()
    }
}

impl Serialize for AtomicBool {
    /// The window of some `bool` that the cell held when it was read.
    open spec fn spec_encodes(&self, bytes: Seq<u8>) -> bool {
        exists|v: bool| #[trigger] v.spec_encodes(bytes)
    }

    proof fn lemma_encoding_len(&self, bytes: Seq<u8>) {
        let v = choose|v: bool| #[trigger] v.spec_encodes(bytes);
        v.lemma_encoding_len(bytes);
    }

    proof fn lemma_zero_size(&self) {
        lemma_pow256_values();
    }

    fn serialize(&self, buffer: &mut [u8]) {
        let v = self.load(Ordering::SeqCst);
        v.serialize(buffer);
    }
}

impl Deserialize for AtomicBool {
    type Error = <bool as Deserialize>::Error;

    proof fn lemma_zero_size_accepts() {
        lemma_pow256_values();
    }

    /// A window is valid exactly when it is valid for `bool`.
    open spec fn spec_check(bytes: Seq<u8>) -> Result<(), Self::Error> {
        bool::spec_check(bytes)
    }

    /// The new cell is created with the `bool` that the window holds.
    open spec fn spec_decodes(bytes: Seq<u8>, value: Self) -> bool {
        bool::spec_decodes(bytes, atomic_bool_created_with(value))
    }

    fn deserialize(buffer: &[u8]) -> (r: Result<Self, Self::Error>) {
        match bool::deserialize(buffer) {
            Ok(v) => Ok(new_atomic_bool(v)),
            Err(e) => Err(e),
        }
    }
}

/// Decoding the window of any `bool` `v` succeeds, and gives exactly the cells
/// created with `v`.
pub proof fn lemma_atomic_bool_round_trip(v: bool, bytes: Seq<u8>)
    requires
        v.spec_encodes(bytes),
    ensures
        AtomicBool::spec_check(bytes) is Ok,
        forall|cell: AtomicBool| #[trigger] AtomicBool::spec_decodes(bytes, cell) <==> atomic_bool_created_with(cell) == v,
{
    v.lemma_round_trip(bytes);
    assert forall|cell: AtomicBool| #[trigger] AtomicBool::spec_decodes(bytes, cell) implies atomic_bool_created_with(cell) == v by {
        bool::lemma_decodes_unique(bytes, atomic_bool_created_with(cell), v);
    }
}

/// The `u8` that an `AtomicU8` cell was created with.
pub uninterp spec fn atomic_u8_created_with(cell: AtomicU8) -> u8;

/// Relies on `AtomicU8::new`: the new cell holds `value`.
#[verifier::external_body]
fn new_atomic_u8(value: u8) -> (r: AtomicU8)
    ensures
        atomic_u8_created_with(r) == value,
{
    AtomicU8::new(value)
}

impl SerialSize for AtomicU8 {
    open spec fn spec_size() -> nat {
        u8::spec_size()
    }

    fn size() -> (r: usize) {
        u8::size()
    }
}

impl Serialize for AtomicU8 {
    /// The window of some `u8` that the cell held when it was read.
    open spec fn spec_encodes(&self, bytes: Seq<u8>) -> bool {
        exists|v: u8| #[trigger] v.spec_encodes(bytes)
    }

    proof fn lemma_encoding_len(&self, bytes: Seq<u8>) {
        let v = choose|v: u8| #[trigger] v.spec_encodes(bytes);
        v.lemma_encoding_len(bytes);
    }

    proof fn lemma_zero_size(&self) {
        lemma_pow256_values();
    }

    fn serialize(&self, buffer: &mut [u8]) {
        let v = self.load(Ordering::SeqCst);
        v.serialize(buffer);
    }
}

impl Deserialize for AtomicU8 {
    type Error = <u8 as Deserialize>::Error;

    proof fn lemma_zero_size_accepts() {
        lemma_pow256_values();
    }

    /// A window is valid exactly when it is valid for `u8`.
    open spec fn spec_check(bytes: Seq<u8>) -> Result<(), Self::Error> {
        u8::spec_check(bytes)
    }

    /// The new cell is created with the `u8` that the window holds.
    open spec fn spec_decodes(bytes: Seq<u8>, value: Self) -> bool {
        u8::spec_decodes(bytes, atomic_u8_created_with(value))
    }

    fn deserialize(buffer: &[u8]) -> (r: Result<Self, Self::Error>) {
        match u8::deserialize(buffer) {
            Ok(v) => Ok(new_atomic_u8(v)),
            Err(e) => Err(e),
        }
    }
}

/// Decoding the window of any `u8` `v` succeeds, and gives exactly the cells
/// created with `v`.
pub proof fn lemma_atomic_u8_round_trip(v: u8, bytes: Seq<u8>)
    requires
        v.spec_encodes(bytes),
    ensures
        AtomicU8::spec_check(bytes) is Ok,
        forall|cell: AtomicU8| #[trigger] AtomicU8::spec_decodes(bytes, cell) <==> atomic_u8_created_with(cell) == v,
{
    v.lemma_round_trip(bytes);
    assert forall|cell: AtomicU8| #[trigger] AtomicU8::spec_decodes(bytes, cell) implies atomic_u8_created_with(cell) == v by {
        u8::lemma_decodes_unique(bytes, atomic_u8_created_with(cell), v);
    }
}

/// The `u16` that an `AtomicU16` cell was created with.
pub uninterp spec fn atomic_u16_created_with(cell: AtomicU16) -> u16;

/// Relies on `AtomicU16::new`: the new cell holds `value`.
#[verifier::external_body]
fn new_atomic_u16(value: u16) -> (r: AtomicU16)
    ensures
        atomic_u16_created_with(r) == value,
{
    AtomicU16::new(value)
}

impl SerialSize for AtomicU16 {
    open spec fn spec_size() -> nat {
        u16::spec_size()
    }

    fn size() -> (r: usize) {
        u16::size()
    }
}

impl Serialize for AtomicU16 {
    /// The window of some `u16` that the cell held when it was read.
    open spec fn spec_encodes(&self, bytes: Seq<u8>) -> bool {
        exists|v: u16| #[trigger] v.spec_encodes(bytes)
    }

    proof fn lemma_encoding_len(&self, bytes: Seq<u8>) {
        let v = choose|v: u16| #[trigger] v.spec_encodes(bytes);
        v.lemma_encoding_len(bytes);
    }

    proof fn lemma_zero_size(&self) {
        lemma_pow256_values();
    }

    fn serialize(&self, buffer: &mut [u8]) {
        let v = self.load(Ordering::SeqCst);
        v.serialize(buffer);
    }
}

impl Deserialize for AtomicU16 {
    type Error = <u16 as Deserialize>::Error;

    proof fn lemma_zero_size_accepts() {
        lemma_pow256_values();
    }

    /// A window is valid exactly when it is valid for `u16`.
    open spec fn spec_check(bytes: Seq<u8>) -> Result<(), Self::Error> {
        u16::spec_check(bytes)
    }

    /// The new cell is created with the `u16` that the window holds.
    open spec fn spec_decodes(bytes: Seq<u8>, value: Self) -> bool {
        u16::spec_decodes(bytes, atomic_u16_created_with(value))
    }

    fn deserialize(buffer: &[u8]) -> (r: Result<Self, Self::Error>) {
        match u16::deserialize(buffer) {
            Ok(v) => Ok(new_atomic_u16(v)),
            Err(e) => Err(e),
        }
    }
}

/// Decoding the window of any `u16` `v` succeeds, and gives exactly the cells
/// created with `v`.
pub proof fn lemma_atomic_u16_round_trip(v: u16, bytes: Seq<u8>)
    requires
        v.spec_encodes(bytes),
    ensures
        AtomicU16::spec_check(bytes) is Ok,
        forall|cell: AtomicU16| #[trigger] AtomicU16::spec_decodes(bytes, cell) <==> atomic_u16_created_with(cell) == v,
{
    v.lemma_round_trip(bytes);
    assert forall|cell: AtomicU16| #[trigger] AtomicU16::spec_decodes(bytes, cell) implies atomic_u16_created_with(cell) == v by {
        u16::lemma_decodes_unique(bytes, atomic_u16_created_with(cell), v);
    }
}

/// The `u32` that an `AtomicU32` cell was created with.
pub uninterp spec fn atomic_u32_created_with(cell: AtomicU32) -> u32;

/// Relies on `AtomicU32::new`: the new cell holds `value`.
#[verifier::external_body]
fn new_atomic_u32(value: u32) -> (r: AtomicU32)
    ensures
        atomic_u32_created_with(r) == value,
{
    AtomicU32::new(value)
}

impl SerialSize for AtomicU32 {
    open spec fn spec_size() -> nat {
        u32::spec_size()
    }

    fn size() -> (r: usize) {
        u32::size()
    }
}

impl Serialize for AtomicU32 {
    /// The window of some `u32` that the cell held when it was read.
    open spec fn spec_encodes(&self, bytes: Seq<u8>) -> bool {
        exists|v: u32| #[trigger] v.spec_encodes(bytes)
    }

    proof fn lemma_encoding_len(&self, bytes: Seq<u8>) {
        let v = choose|v: u32| #[trigger] v.spec_encodes(bytes);
        v.lemma_encoding_len(bytes);
    }

    proof fn lemma_zero_size(&self) {
        lemma_pow256_values();
    }

    fn serialize(&self, buffer: &mut [u8]) {
        let v = self.load(Ordering::SeqCst);
        v.serialize(buffer);
    }
}

impl Deserialize for AtomicU32 {
    type Error = <u32 as Deserialize>::Error;

    proof fn lemma_zero_size_accepts() {
        lemma_pow256_values();
    }

    /// A window is valid exactly when it is valid for `u32`.
    open spec fn spec_check(bytes: Seq<u8>) -> Result<(), Self::Error> {
        u32::spec_check(bytes)
    }

    /// The new cell is created with the `u32` that the window holds.
    open spec fn spec_decodes(bytes: Seq<u8>, value: Self) -> bool {
        u32::spec_decodes(bytes, atomic_u32_created_with(value))
    }

    fn deserialize(buffer: &[u8]) -> (r: Result<Self, Self::Error>) {
        match u32::deserialize(buffer) {
            Ok(v) => Ok(new_atomic_u32(v)),
            Err(e) => Err(e),
        }
    }
}

/// Decoding the window of any `u32` `v` succeeds, and gives exactly the cells
/// created with `v`.
pub proof fn lemma_atomic_u32_round_trip(v: u32, bytes: Seq<u8>)
    requires
        v.spec_encodes(bytes),
    ensures
        AtomicU32::spec_check(bytes) is Ok,
        forall|cell: AtomicU32| #[trigger] AtomicU32::spec_decodes(bytes, cell) <==> atomic_u32_created_with(cell) == v,
{
    v.lemma_round_trip(bytes);
    assert forall|cell: AtomicU32| #[trigger] AtomicU32::spec_decodes(bytes, cell) implies atomic_u32_created_with(cell) == v by {
        u32::lemma_decodes_unique(bytes, atomic_u32_created_with(cell), v);
    }
}

/// The `u64` that an `AtomicU64` cell was created with.
pub uninterp spec fn atomic_u64_created_with(cell: AtomicU64) -> u64;

/// Relies on `AtomicU64::new`: the new cell holds `value`.
#[verifier::external_body]
fn new_atomic_u64(value: u64) -> (r: AtomicU64)
    ensures
        atomic_u64_created_with(r) == value,
{
    AtomicU64::new(value)
}

impl SerialSize for AtomicU64 {
    open spec fn spec_size() -> nat {
        u64::spec_size()
    }

    fn size() -> (r: usize) {
        u64::size()
    }
}

impl Serialize for AtomicU64 {
    /// The window of some `u64` that the cell held when it was read.
    open spec fn spec_encodes(&self, bytes: Seq<u8>) -> bool {
        exists|v: u64| #[trigger] v.spec_encodes(bytes)
    }

    proof fn lemma_encoding_len(&self, bytes: Seq<u8>) {
        let v = choose|v: u64| #[trigger] v.spec_encodes(bytes);
        v.lemma_encoding_len(bytes);
    }

    proof fn lemma_zero_size(&self) {
        lemma_pow256_values();
    }

    fn serialize(&self, buffer: &mut [u8]) {
        let v = self.load(Ordering::SeqCst);
        v.serialize(buffer);
    }
}

impl Deserialize for AtomicU64 {
    type Error = <u64 as Deserialize>::Error;

    proof fn lemma_zero_size_accepts() {
        lemma_pow256_values();
    }

    /// A window is valid exactly when it is valid for `u64`.
    open spec fn spec_check(bytes: Seq<u8>) -> Result<(), Self::Error> {
        u64::spec_check(bytes)
    }

    /// The new cell is created with the `u64` that the window holds.
    open spec fn spec_decodes(bytes: Seq<u8>, value: Self) -> bool {
        u64::spec_decodes(bytes, atomic_u64_created_with(value))
    }

    fn deserialize(buffer: &[u8]) -> (r: Result<Self, Self::Error>) {
        match u64::deserialize(buffer) {
            Ok(v) => Ok(new_atomic_u64(v)),
            Err(e) => Err(e),
        }
    }
}

/// Decoding the window of any `u64` `v` succeeds, and gives exactly the cells
/// created with `v`.
pub proof fn lemma_atomic_u64_round_trip(v: u64, bytes: Seq<u8>)
    requires
        v.spec_encodes(bytes),
    ensures
        AtomicU64::spec_check(bytes) is Ok,
        forall|cell: AtomicU64| #[trigger] AtomicU64::spec_decodes(bytes, cell) <==> atomic_u64_created_with(cell) == v,
{
    v.lemma_round_trip(bytes);
    assert forall|cell: AtomicU64| #[trigger] AtomicU64::spec_decodes(bytes, cell) implies atomic_u64_created_with(cell) == v by {
        u64::lemma_decodes_unique(bytes, atomic_u64_created_with(cell), v);
    }
}

/// The `usize` that an `AtomicUsize` cell was created with.
pub uninterp spec fn atomic_usize_created_with(cell: AtomicUsize) -> usize;

/// Relies on `AtomicUsize::new`: the new cell holds `value`.
#[verifier::external_body]
fn new_atomic_usize(value: usize) -> (r: AtomicUsize)
    ensures
        atomic_usize_created_with(r) == value,
{
    AtomicUsize::new(value)
}

impl SerialSize for AtomicUsize {
    open spec fn spec_size() -> nat {
        usize::spec_size()
    }

    fn size() -> (r: usize) {
        usize::size()
    }
}

impl Serialize for AtomicUsize {
    /// The window of some `usize` that the cell held when it was read.
    open spec fn spec_encodes(&self, bytes: Seq<u8>) -> bool {
        exists|v: usize| #[trigger] v.spec_encodes(bytes)
    }

    proof fn lemma_encoding_len(&self, bytes: Seq<u8>) {
        let v = choose|v: usize| #[trigger] v.spec_encodes(bytes);
        v.lemma_encoding_len(bytes);
    }

    proof fn lemma_zero_size(&self) {
        lemma_word_size();
    }

    fn serialize(&self, buffer: &mut [u8]) {
        let v = self.load(Ordering::SeqCst);
        v.serialize(buffer);
    }
}

impl Deserialize for AtomicUsize {
    type Error = <usize as Deserialize>::Error;

    proof fn lemma_zero_size_accepts() {
        lemma_word_size();
    }

    /// A window is valid exactly when it is valid for `usize`.
    open spec fn spec_check(bytes: Seq<u8>) -> Result<(), Self::Error> {
        usize::spec_check(bytes)
    }

    /// The new cell is created with the `usize` that the window holds.
    open spec fn spec_decodes(bytes: Seq<u8>, value: Self) -> bool {
        usize::spec_decodes(bytes, atomic_usize_created_with(value))
    }

    fn deserialize(buffer: &[u8]) -> (r: Result<Self, Self::Error>) {
        match usize::deserialize(buffer) {
            Ok(v) => Ok(new_atomic_usize(v)),
            Err(e) => Err(e),
        }
    }
}

/// Decoding the window of any `usize` `v` succeeds, and gives exactly the cells
/// created with `v`.
pub proof fn lemma_atomic_usize_round_trip(v: usize, bytes: Seq<u8>)
    requires
        v.spec_encodes(bytes),
    ensures
        AtomicUsize::spec_check(bytes) is Ok,
        forall|cell: AtomicUsize| #[trigger] AtomicUsize::spec_decodes(bytes, cell) <==> atomic_usize_created_with(cell) == v,
{
    v.lemma_round_trip(bytes);
    assert forall|cell: AtomicUsize| #[trigger] AtomicUsize::spec_decodes(bytes, cell) implies atomic_usize_created_with(cell) == v by {
        usize::lemma_decodes_unique(bytes, atomic_usize_created_with(cell), v);
    }
}

/// The `i8` that an `AtomicI8` cell was created with.
pub uninterp spec fn atomic_i8_created_with(cell: AtomicI8) -> i8;

/// Relies on `AtomicI8::new`: the new cell holds `value`.
#[verifier::external_body]
fn new_atomic_i8(value: i8) -> (r: AtomicI8)
    ensures
        atomic_i8_created_with(r) == value,
{
    AtomicI8::new(value)
}

impl SerialSize for AtomicI8 {
    open spec fn spec_size() -> nat {
        i8::spec_size()
    }

    fn size() -> (r: usize) {
        i8::size()
    }
}

impl Serialize for AtomicI8 {
    /// The window of some `i8` that the cell held when it was read.
    open spec fn spec_encodes(&self, bytes: Seq<u8>) -> bool {
        exists|v: i8| #[trigger] v.spec_encodes(bytes)
    }

    proof fn lemma_encoding_len(&self, bytes: Seq<u8>) {
        let v = choose|v: i8| #[trigger] v.spec_encodes(bytes);
        v.lemma_encoding_len(bytes);
    }

    proof fn lemma_zero_size(&self) {
        lemma_pow256_values();
    }

    fn serialize(&self, buffer: &mut [u8]) {
        let v = self.load(Ordering::SeqCst);
        v.serialize(buffer);
    }
}

impl Deserialize for AtomicI8 {
    type Error = <i8 as Deserialize>::Error;

    proof fn lemma_zero_size_accepts() {
        lemma_pow256_values();
    }

    /// A window is valid exactly when it is valid for `i8`.
    open spec fn spec_check(bytes: Seq<u8>) -> Result<(), Self::Error> {
        i8::spec_check(bytes)
    }

    /// The new cell is created with the `i8` that the window holds.
    open spec fn spec_decodes(bytes: Seq<u8>, value: Self) -> bool {
        i8::spec_decodes(bytes, atomic_i8_created_with(value))
    }

    fn deserialize(buffer: &[u8]) -> (r: Result<Self, Self::Error>) {
        match i8::deserialize(buffer) {
            Ok(v) => Ok(new_atomic_i8(v)),
            Err(e) => Err(e),
        }
    }
}

/// Decoding the window of any `i8` `v` succeeds, and gives exactly the cells
/// created with `v`.
pub proof fn lemma_atomic_i8_round_trip(v: i8, bytes: Seq<u8>)
    requires
        v.spec_encodes(bytes),
    ensures
        AtomicI8::spec_check(bytes) is Ok,
        forall|cell: AtomicI8| #[trigger] AtomicI8::spec_decodes(bytes, cell) <==> atomic_i8_created_with(cell) == v,
{
    v.lemma_round_trip(bytes);
    assert forall|cell: AtomicI8| #[trigger] AtomicI8::spec_decodes(bytes, cell) implies atomic_i8_created_with(cell) == v by {
        i8::lemma_decodes_unique(bytes, atomic_i8_created_with(cell), v);
    }
}

/// The `i16` that an `AtomicI16` cell was created with.
pub uninterp spec fn atomic_i16_created_with(cell: AtomicI16) -> i16;

/// Relies on `AtomicI16::new`: the new cell holds `value`.
#[verifier::external_body]
fn new_atomic_i16(value: i16) -> (r: AtomicI16)
    ensures
        atomic_i16_created_with(r) == value,
{
    AtomicI16::new(value)
}

impl SerialSize for AtomicI16 {
    open spec fn spec_size() -> nat {
        i16::spec_size()
    }

    fn size() -> (r: usize) {
        i16::size()
    }
}

impl Serialize for AtomicI16 {
    /// The window of some `i16` that the cell held when it was read.
    open spec fn spec_encodes(&self, bytes: Seq<u8>) -> bool {
        exists|v: i16| #[trigger] v.spec_encodes(bytes)
    }

    proof fn lemma_encoding_len(&self, bytes: Seq<u8>) {
        let v = choose|v: i16| #[trigger] v.spec_encodes(bytes);
        v.lemma_encoding_len(bytes);
    }

    proof fn lemma_zero_size(&self) {
        lemma_pow256_values();
    }

    fn serialize(&self, buffer: &mut [u8]) {
        let v = self.load(Ordering::SeqCst);
        v.serialize(buffer);
    }
}

impl Deserialize for AtomicI16 {
    type Error = <i16 as Deserialize>::Error;

    proof fn lemma_zero_size_accepts() {
        lemma_pow256_values();
    }

    /// A window is valid exactly when it is valid for `i16`.
    open spec fn spec_check(bytes: Seq<u8>) -> Result<(), Self::Error> {
        i16::spec_check(bytes)
    }

    /// The new cell is created with the `i16` that the window holds.
    open spec fn spec_decodes(bytes: Seq<u8>, value: Self) -> bool {
        i16::spec_decodes(bytes, atomic_i16_created_with(value))
    }

    fn deserialize(buffer: &[u8]) -> (r: Result<Self, Self::Error>) {
        match i16::deserialize(buffer) {
            Ok(v) => Ok(new_atomic_i16(v)),
            Err(e) => Err(e),
        }
    }
}

/// Decoding the window of any `i16` `v` succeeds, and gives exactly the cells
/// created with `v`.
pub proof fn lemma_atomic_i16_round_trip(v: i16, bytes: Seq<u8>)
    requires
        v.spec_encodes(bytes),
    ensures
        AtomicI16::spec_check(bytes) is Ok,
        forall|cell: AtomicI16| #[trigger] AtomicI16::spec_decodes(bytes, cell) <==> atomic_i16_created_with(cell) == v,
{
    v.lemma_round_trip(bytes);
    assert forall|cell: AtomicI16| #[trigger] AtomicI16::spec_decodes(bytes, cell) implies atomic_i16_created_with(cell) == v by {
        i16::lemma_decodes_unique(bytes, atomic_i16_created_with(cell), v);
    }
}

/// The `i32` that an `AtomicI32` cell was created with.
pub uninterp spec fn atomic_i32_created_with(cell: AtomicI32) -> i32;

/// Relies on `AtomicI32::new`: the new cell holds `value`.
#[verifier::external_body]
fn new_atomic_i32(value: i32) -> (r: AtomicI32)
    ensures
        atomic_i32_created_with(r) == value,
{
    AtomicI32::new(value)
}

impl SerialSize for AtomicI32 {
    open spec fn spec_size() -> nat {
        i32::spec_size()
    }

    fn size() -> (r: usize) {
        i32::size()
    }
}

impl Serialize for AtomicI32 {
    /// The window of some `i32` that the cell held when it was read.
    open spec fn spec_encodes(&self, bytes: Seq<u8>) -> bool {
        exists|v: i32| #[trigger] v.spec_encodes(bytes)
    }

    proof fn lemma_encoding_len(&self, bytes: Seq<u8>) {
        let v = choose|v: i32| #[trigger] v.spec_encodes(bytes);
        v.lemma_encoding_len(bytes);
    }

    proof fn lemma_zero_size(&self) {
        lemma_pow256_values();
    }

    fn serialize(&self, buffer: &mut [u8]) {
        let v = self.load(Ordering::SeqCst);
        v.serialize(buffer);
    }
}

impl Deserialize for AtomicI32 {
    type Error = <i32 as Deserialize>::Error;

    proof fn lemma_zero_size_accepts() {
        lemma_pow256_values();
    }

    /// A window is valid exactly when it is valid for `i32`.
    open spec fn spec_check(bytes: Seq<u8>) -> Result<(), Self::Error> {
        i32::spec_check(bytes)
    }

    /// The new cell is created with the `i32` that the window holds.
    open spec fn spec_decodes(bytes: Seq<u8>, value: Self) -> bool {
        i32::spec_decodes(bytes, atomic_i32_created_with(value))
    }

    fn deserialize(buffer: &[u8]) -> (r: Result<Self, Self::Error>) {
        match i32::deserialize(buffer) {
            Ok(v) => Ok(new_atomic_i32(v)),
            Err(e) => Err(e),
        }
    }
}

/// Decoding the window of any `i32` `v` succeeds, and gives exactly the cells
/// created with `v`.
pub proof fn lemma_atomic_i32_round_trip(v: i32, bytes: Seq<u8>)
    requires
        v.spec_encodes(bytes),
    ensures
        AtomicI32::spec_check(bytes) is Ok,
        forall|cell: AtomicI32| #[trigger] AtomicI32::spec_decodes(bytes, cell) <==> atomic_i32_created_with(cell) == v,
{
    v.lemma_round_trip(bytes);
    assert forall|cell: AtomicI32| #[trigger] AtomicI32::spec_decodes(bytes, cell) implies atomic_i32_created_with(cell) == v by {
        i32::lemma_decodes_unique(bytes, atomic_i32_created_with(cell), v);
    }
}

/// The `i64` that an `AtomicI64` cell was created with.
pub uninterp spec fn atomic_i64_created_with(cell: AtomicI64) -> i64;

/// Relies on `AtomicI64::new`: the new cell holds `value`.
#[verifier::external_body]
fn new_atomic_i64(value: i64) -> (r: AtomicI64)
    ensures
        atomic_i64_created_with(r) == value,
{
    AtomicI64::new(value)
}

impl SerialSize for AtomicI64 {
    open spec fn spec_size() -> nat {
        i64::spec_size()
    }

    fn size() -> (r: usize) {
        i64::size()
    }
}

impl Serialize for AtomicI64 {
    /// The window of some `i64` that the cell held when it was read.
    open spec fn spec_encodes(&self, bytes: Seq<u8>) -> bool {
        exists|v: i64| #[trigger] v.spec_encodes(bytes)
    }

    proof fn lemma_encoding_len(&self, bytes: Seq<u8>) {
        let v = choose|v: i64| #[trigger] v.spec_encodes(bytes);
        v.lemma_encoding_len(bytes);
    }

    proof fn lemma_zero_size(&self) {
        lemma_pow256_values();
    }

    fn serialize(&self, buffer: &mut [u8]) {
        let v = self.load(Ordering::SeqCst);
        v.serialize(buffer);
    }
}

impl Deserialize for AtomicI64 {
    type Error = <i64 as Deserialize>::Error;

    proof fn lemma_zero_size_accepts() {
        lemma_pow256_values();
    }

    /// A window is valid exactly when it is valid for `i64`.
    open spec fn spec_check(bytes: Seq<u8>) -> Result<(), Self::Error> {
        i64::spec_check(bytes)
    }

    /// The new cell is created with the `i64` that the window holds.
    open spec fn spec_decodes(bytes: Seq<u8>, value: Self) -> bool {
        i64::spec_decodes(bytes, atomic_i64_created_with(value))
    }

    fn deserialize(buffer: &[u8]) -> (r: Result<Self, Self::Error>) {
        match i64::deserialize(buffer) {
            Ok(v) => Ok(new_atomic_i64(v)),
            Err(e) => Err(e),
        }
    }
}

/// Decoding the window of any `i64` `v` succeeds, and gives exactly the cells
/// created with `v`.
pub proof fn lemma_atomic_i64_round_trip(v: i64, bytes: Seq<u8>)
    requires
        v.spec_encodes(bytes),
    ensures
        AtomicI64::spec_check(bytes) is Ok,
        forall|cell: AtomicI64| #[trigger] AtomicI64::spec_decodes(bytes, cell) <==> atomic_i64_created_with(cell) == v,
{
    v.lemma_round_trip(bytes);
    assert forall|cell: AtomicI64| #[trigger] AtomicI64::spec_decodes(bytes, cell) implies atomic_i64_created_with(cell) == v by {
        i64::lemma_decodes_unique(bytes, atomic_i64_created_with(cell), v);
    }
}

/// The `isize` that an `AtomicIsize` cell was created with.
pub uninterp spec fn atomic_isize_created_with(cell: AtomicIsize) -> isize;

/// Relies on `AtomicIsize::new`: the new cell holds `value`.
#[verifier::external_body]
fn new_atomic_isize(value: isize) -> (r: AtomicIsize)
    ensures
        atomic_isize_created_with(r) == value,
{
    AtomicIsize::new(value)
}

impl SerialSize for AtomicIsize {
    open spec fn spec_size() -> nat {
        isize::spec_size()
    }

    fn size() -> (r: usize) {
        isize::size()
    }
}

impl Serialize for AtomicIsize {
    /// The window of some `isize` that the cell held when it was read.
    open spec fn spec_encodes(&self, bytes: Seq<u8>) -> bool {
        exists|v: isize| #[trigger] v.spec_encodes(bytes)
    }

    proof fn lemma_encoding_len(&self, bytes: Seq<u8>) {
        let v = choose|v: isize| #[trigger] v.spec_encodes(bytes);
        v.lemma_encoding_len(bytes);
    }

    proof fn lemma_zero_size(&self) {
        lemma_word_size();
    }

    fn serialize(&self, buffer: &mut [u8]) {
        let v = self.load(Ordering::SeqCst);
        v.serialize(buffer);
    }
}

impl Deserialize for AtomicIsize {
    type Error = <isize as Deserialize>::Error;

    proof fn lemma_zero_size_accepts() {
        lemma_word_size();
    }

    /// A window is valid exactly when it is valid for `isize`.
    open spec fn spec_check(bytes: Seq<u8>) -> Result<(), Self::Error> {
        isize::spec_check(bytes)
    }

    /// The new cell is created with the `isize` that the window holds.
    open spec fn spec_decodes(bytes: Seq<u8>, value: Self) -> bool {
        isize::spec_decodes(bytes, atomic_isize_created_with(value))
    }

    fn deserialize(buffer: &[u8]) -> (r: Result<Self, Self::Error>) {
        match isize::deserialize(buffer) {
            Ok(v) => Ok(new_atomic_isize(v)),
            Err(e) => Err(e),
        }
    }
}

/// Decoding the window of any `isize` `v` succeeds, and gives exactly the cells
/// created with `v`.
pub proof fn lemma_atomic_isize_round_trip(v: isize, bytes: Seq<u8>)
    requires
        v.spec_encodes(bytes),
    ensures
        AtomicIsize::spec_check(bytes) is Ok,
        forall|cell: AtomicIsize| #[trigger] AtomicIsize::spec_decodes(bytes, cell) <==> atomic_isize_created_with(cell) == v,
{
    v.lemma_round_trip(bytes);
    assert forall|cell: AtomicIsize| #[trigger] AtomicIsize::spec_decodes(bytes, cell) implies atomic_isize_created_with(cell) == v by {
        isize::lemma_decodes_unique(bytes, atomic_isize_created_with(cell), v);
    }
}

} // verus!
