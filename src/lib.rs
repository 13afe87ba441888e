//! Fixed-layout binary encoding: every supported type has a byte size known
//! before any value exists, and a value is written to, or read from, a window
//! of exactly that many bytes, with no header, tag or length on the wire.
//!
//! Each type states its layout as spec functions: [`SerialSize::spec_size`]
//! for the size of its window, [`Serialize::spec_encodes`] for the windows that
//! encode a value, and [`Deserialize::spec_check`] with
//! [`Deserialize::spec_decodes`] for what decoding a window gives. Composite
//! types (arrays, tuples, `Option`) are laid out from the windows of their
//! parts, and [`RoundTrip`] proves, for every type, that decoding reverses
//! encoding.
//!
//! - [`endian`]: the byte order and the base-256 layout of integers.
//! - [`primitive`]: integers, `bool` and `char`.
//! - [`nonzero`]: integers that are never zero.
//! - [`atomic`]: atomic cells.
//! - [`array`], [`tuple`], [`option`]: composite layouts.
use core::mem::MaybeUninit;
use vstd::prelude::*;

pub mod array;
pub mod atomic;
pub mod endian;
pub mod nonzero;
pub mod option;
pub mod primitive;
pub mod tuple;

pub use option::DeserializeOptionError;

verus! {

/// The size of the window that holds `Self`.
pub trait SerialSize {
    /// The number of bytes in the window of every value of `Self`.
    spec fn spec_size() -> nat;

    /// The size of the window; for a composite type, the sum of its parts.
    fn size() -> (r: usize)
        requires
            Self::spec_size() <= usize::MAX,
        ensures
            r == Self::spec_size(),
    ;
}

/// Writes `Self` into a window of [`SerialSize::size`] bytes.
pub trait Serialize: SerialSize {
    /// Holds when `bytes` is an encoding of `self`. For every type whose value
    /// can be read without a race, exactly one window encodes a value.
    spec fn spec_encodes(&self, bytes: Seq<u8>) -> bool;

    /// An encoding always fills the whole window of the type, no more and no less.
    proof fn lemma_encoding_len(&self, bytes: Seq<u8>)
        requires
            self.spec_encodes(bytes),
        ensures
            bytes.len() == Self::spec_size(),
    ;

    /// A type of size zero is encoded by the empty window, so writing it is a no-op.
    proof fn lemma_zero_size(&self)
        requires
            Self::spec_size() == 0,
        ensures
            self.spec_encodes(Seq::empty()),
    ;

    /// Writes the encoding of `self` over the whole of `buffer`.
    fn serialize(&self, buffer: &mut [u8])
        requires
            old(buffer)@.len() == Self::spec_size(),
        ensures
            final(buffer)@.len() == old(buffer)@.len(),
            self.spec_encodes(final(buffer)@),
    ;
}

/// Reads `Self` back from a window of [`SerialSize::size`] bytes.
pub trait Deserialize: SerialSize + Sized {
    /// Why a window holds no valid `Self`.
    type Error;

    /// `Ok(())` when `bytes` holds a valid `Self`, else the error that decoding reports.
    spec fn spec_check(bytes: Seq<u8>) -> Result<(), Self::Error>;

    /// Holds when `value` is what the valid window `bytes` decodes to. For
    /// every type whose value proofs can see, exactly one value fits a window.
    spec fn spec_decodes(bytes: Seq<u8>, value: Self) -> bool;

    /// A type of size zero accepts the empty window, so decoding it cannot fail.
    proof fn lemma_zero_size_accepts()
        requires
            Self::spec_size() == 0,
        ensures
            Self::spec_check(Seq::empty()) is Ok,
    ;

    /// Reads the value that `buffer` holds, or reports why it holds none.
    fn deserialize(buffer: &[u8]) -> (r: Result<Self, Self::Error>)
        requires
            buffer@.len() == Self::spec_size(),
        ensures
            match r {
                Ok(v) => Self::spec_check(buffer@) is Ok && Self::spec_decodes(buffer@, v),
                Err(e) => Self::spec_check(buffer@) == Err::<(), Self::Error>(e),
            },
    ;

    /// Decodes `buffer` straight into storage that does not yet hold a valid
    /// `Self`. On success `into` holds the decoded value; on failure its
    /// contents are unspecified and must not be read as a `Self`.
    fn deserialize_into_uninit(into: &mut MaybeUninit<Self>, buffer: &[u8]) -> (r: Result<
        (),
        Self::Error,
    >)
        requires
            buffer@.len() == Self::spec_size(),
        ensures
            match r {
                Ok(()) => Self::spec_check(buffer@) is Ok && final(into).as_option() is Some
                    && Self::spec_decodes(buffer@, final(into).as_option()->Some_0),
                Err(e) => Self::spec_check(buffer@) == Err::<(), Self::Error>(e),
            },
    {
        match Self::deserialize(buffer) {
            Ok(v) => {
                *into = MaybeUninit::new(v);
                Ok(())
            },
            Err(e) => Err(e),
        }
    }
}

/// Decoding reverses encoding, for a type whose values proofs can see.
pub trait RoundTrip: Serialize + Deserialize {
    /// A window decodes to at most one value.
    proof fn lemma_decodes_unique(bytes: Seq<u8>, x: Self, y: Self)
        requires
            Self::spec_decodes(bytes, x),
            Self::spec_decodes(bytes, y),
        ensures
            x == y,
    ;

    /// The window of any encoding of `self` is valid, and it decodes to `self`.
    proof fn lemma_round_trip(&self, bytes: Seq<u8>)
        requires
            self.spec_encodes(bytes),
        ensures
            Self::spec_check(bytes) is Ok,
            Self::spec_decodes(bytes, *self),
    ;
}

/// Decoding any encoding of `value` succeeds, and what it gives is exactly `value`.
pub proof fn lemma_round_trip_exact<T: RoundTrip>(value: T, bytes: Seq<u8>, decoded: T)
    requires
        value.spec_encodes(bytes),
        T::spec_decodes(bytes, decoded),
    ensures
        T::spec_check(bytes) is Ok,
        decoded == value,
{
    value.lemma_round_trip(bytes);
    T::lemma_decodes_unique(bytes, decoded, value);
}

/// A window whose bit pattern is no value of the type (a `bool` byte other
/// than 0 and 1, a zero for a non-zero integer).
#[derive(Debug, Clone, Copy, PartialEq, Eq)]
pub struct IllegalBitPattern;

/// A four-byte window whose number is no Unicode scalar value: a surrogate
/// (`0xD800..=0xDFFF`) or above `0x10FFFF`.
#[derive(Debug, Clone, Copy, PartialEq, Eq)]
pub struct InvalidScalarValue;

} // verus!
