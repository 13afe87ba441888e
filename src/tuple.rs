//! Tuples of up to twelve fields of any supported types: the fields fill
//! consecutive windows in declaration order, with no gap and no padding.
use crate::{Deserialize, RoundTrip, SerialSize, Serialize};
use core::convert::Infallible;
use vstd::prelude::*;

verus! {

impl SerialSize for () {
    open spec fn spec_size() -> nat {
        0
    }

    fn size() -> (r: usize) {
        0
    }
}

impl Serialize for () {
    open spec fn spec_encodes(&self, bytes: Seq<u8>) -> bool {
        bytes.len() == 0
    }

    proof fn lemma_encoding_len(&self, bytes: Seq<u8>) {
    }

    proof fn lemma_zero_size(&self) {
    }

    fn serialize(&self, buffer: &mut [u8]) {
    }
}

impl Deserialize for () {
    type Error = Infallible;

    proof fn lemma_zero_size_accepts() {
    }

    open spec fn spec_check(bytes: Seq<u8>) -> Result<(), Infallible> {
        Ok(())
    }

    open spec fn spec_decodes(bytes: Seq<u8>, value: Self) -> bool {
        true
    }

    fn deserialize(buffer: &[u8]) -> (r: Result<Self, Infallible>) {
        Ok(())
    }
}

/// Splitting the part of `whole` from `lo` on into `head` and `tail` places
/// `head` right at `lo`, and `tail` right after it.
proof fn lemma_split_window(whole: Seq<u8>, lo: int, head: Seq<u8>, tail: Seq<u8>)
    requires
        0 <= lo <= whole.len(),
        whole.subrange(lo, whole.len() as int) == head + tail,
    ensures
        whole.subrange(lo, lo + head.len()) == head,
        whole.subrange(lo + head.len(), whole.len() as int) == tail,
{
    let rest = whole.subrange(lo, whole.len() as int);
    assert(rest.len() == head.len() + tail.len());
    assert forall|i: int| 0 <= i < head.len() implies whole.subrange(lo, lo + head.len())[i]
        == head[i] by {
        assert(rest[i] == (head + tail)[i]);
    }
    assert forall|i: int| 0 <= i < tail.len() implies whole.subrange(
        lo + head.len(),
        whole.len() as int,
    )[i] == tail[i] by {
        assert(rest[head.len() + i] == (head + tail)[head.len() + i]);
    }
    assert(whole.subrange(lo, lo + head.len()) =~= head);
    assert(whole.subrange(lo + head.len(), whole.len() as int) =~= tail);
}

impl RoundTrip for () {
    proof fn lemma_decodes_unique(bytes: Seq<u8>, x: Self, y: Self) {
    }

    proof fn lemma_round_trip(&self, bytes: Seq<u8>) {
    }
}

/// Why the window of a tuple of 1 field holds no valid value: the
/// position of the first field that failed, carrying that field's own error.
#[derive(Debug, Clone, Copy, PartialEq, Eq)]
pub enum TupleError1<E0> {
    /// Field 0 failed, with its own error.
    Field0(E0),
}

impl<T0: SerialSize> SerialSize for (T0,) {
    open spec fn spec_size() -> nat {
        T0::spec_size()
    }

    fn size() -> (r: usize) {
        T0::size()
    }
}

impl<T0: Serialize> Serialize for (T0,) {
    open spec fn spec_encodes(&self, bytes: Seq<u8>) -> bool {
        &&& bytes.len() == Self::spec_size()
        &&& self.0.spec_encodes(bytes.subrange((0) as int, (T0::spec_size()) as int))
    }

    proof fn lemma_encoding_len(&self, bytes: Seq<u8>) {
    }

    proof fn lemma_zero_size(&self) {
        self.0.lemma_zero_size();
        assert forall|lo: int, hi: int| 0 <= lo <= hi <= 0 implies #[trigger] Seq::<u8>::empty().subrange(lo, hi) =~= Seq::<u8>::empty() by {}
    }

    fn serialize(&self, buffer: &mut [u8]) {
        let total = buffer.len();
        assert(total == Self::spec_size());
        self.0.serialize(buffer);
        proof {
            assert(final(buffer)@.subrange(0, final(buffer)@.len() as int) =~= final(buffer)@);
        }
    }
}

impl<T0: Deserialize> Deserialize for (T0,) {
    type Error = TupleError1<T0::Error>;

    proof fn lemma_zero_size_accepts() {
        T0::lemma_zero_size_accepts();
        assert(Seq::<u8>::empty().subrange(0, 0) =~= Seq::<u8>::empty());
    }

    open spec fn spec_check(bytes: Seq<u8>) -> Result<(), Self::Error> {
        match T0::spec_check(bytes.subrange((0) as int, (T0::spec_size()) as int)) {
            Err(e) => Err(TupleError1::Field0(e)),
            Ok(()) => Ok(()),
        }
    }

    open spec fn spec_decodes(bytes: Seq<u8>, value: Self) -> bool {
        &&& T0::spec_decodes(bytes.subrange((0) as int, (T0::spec_size()) as int), value.0)
    }

    fn deserialize(buffer: &[u8]) -> (r: Result<Self, Self::Error>) {
        let total = buffer.len();
        assert(total == Self::spec_size());
        assert(buffer@ == buffer@.subrange((0) as int, (T0::spec_size()) as int));
        let v0 = match T0::deserialize(buffer) {
            Ok(v) => v,
            Err(e) => {
                return Err(TupleError1::Field0(e));
            },
        };
        Ok((v0,))
    }
}

impl<T0: RoundTrip> RoundTrip for (T0,) {
    proof fn lemma_decodes_unique(bytes: Seq<u8>, x: Self, y: Self) {
        T0::lemma_decodes_unique(bytes.subrange((0) as int, (T0::spec_size()) as int), x.0, y.0);
    }

    proof fn lemma_round_trip(&self, bytes: Seq<u8>) {
        self.0.lemma_round_trip(bytes.subrange((0) as int, (T0::spec_size()) as int));
    }
}

/// Why the window of a tuple of 2 fields holds no valid value: the
/// position of the first field that failed, carrying that field's own error.
#[derive(Debug, Clone, Copy, PartialEq, Eq)]
pub enum TupleError2<E0, E1> {
    /// Field 0 failed, with its own error.
    Field0(E0),
    /// Field 1 failed, with its own error.
    Field1(E1),
}

impl<T0: SerialSize, T1: SerialSize> SerialSize for (T0, T1) {
    open spec fn spec_size() -> nat {
        T0::spec_size() + T1::spec_size()
    }

    fn size() -> (r: usize) {
        T0::size() + T1::size()
    }
}

impl<T0: Serialize, T1: Serialize> Serialize for (T0, T1) {
    open spec fn spec_encodes(&self, bytes: Seq<u8>) -> bool {
        &&& bytes.len() == Self::spec_size()
        &&& self.0.spec_encodes(bytes.subrange((0) as int, (T0::spec_size()) as int))
        &&& self.1.spec_encodes(bytes.subrange((T0::spec_size()) as int, (T0::spec_size() + T1::spec_size()) as int))
    }

    proof fn lemma_encoding_len(&self, bytes: Seq<u8>) {
    }

    proof fn lemma_zero_size(&self) {
        self.0.lemma_zero_size();
        self.1.lemma_zero_size();
        assert forall|lo: int, hi: int| 0 <= lo <= hi <= 0 implies #[trigger] Seq::<u8>::empty().subrange(lo, hi) =~= Seq::<u8>::empty() by {}
    }

    fn serialize(&self, buffer: &mut [u8]) {
        let total = buffer.len();
        assert(total == Self::spec_size());
        let n0 = T0::size();
        let (w0, rest0) = buffer.split_at_mut(n0);
        self.0.serialize(w0);
        self.1.serialize(rest0);
        proof {
            assert(final(buffer)@.subrange(0, final(buffer)@.len() as int) =~= final(buffer)@);
            lemma_split_window(final(buffer)@, (0) as int, final(w0)@, final(rest0)@);
        }
    }
}

impl<T0: Deserialize, T1: Deserialize> Deserialize for (T0, T1) {
    type Error = TupleError2<T0::Error, T1::Error>;

    proof fn lemma_zero_size_accepts() {
        T0::lemma_zero_size_accepts();
        T1::lemma_zero_size_accepts();
        assert(Seq::<u8>::empty().subrange(0, 0) =~= Seq::<u8>::empty());
    }

    open spec fn spec_check(bytes: Seq<u8>) -> Result<(), Self::Error> {
        match T0::spec_check(bytes.subrange((0) as int, (T0::spec_size()) as int)) {
            Err(e) => Err(TupleError2::Field0(e)),
            Ok(()) => match T1::spec_check(bytes.subrange((T0::spec_size()) as int, (T0::spec_size() + T1::spec_size()) as int)) {
                Err(e) => Err(TupleError2::Field1(e)),
                Ok(()) => Ok(()),
            },
        }
    }

    open spec fn spec_decodes(bytes: Seq<u8>, value: Self) -> bool {
        &&& T0::spec_decodes(bytes.subrange((0) as int, (T0::spec_size()) as int), value.0)
        &&& T1::spec_decodes(bytes.subrange((T0::spec_size()) as int, (T0::spec_size() + T1::spec_size()) as int), value.1)
    }

    fn deserialize(buffer: &[u8]) -> (r: Result<Self, Self::Error>) {
        let total = buffer.len();
        assert(total == Self::spec_size());
        let n0 = T0::size();
        let (w0, rest0) = buffer.split_at(n0);
        assert(w0@ == buffer@.subrange((0) as int, (T0::spec_size()) as int));
        let v0 = match T0::deserialize(w0) {
            Ok(v) => v,
            Err(e) => {
                return Err(TupleError2::Field0(e));
            },
        };
        assert(rest0@ == buffer@.subrange((T0::spec_size()) as int, (T0::spec_size() + T1::spec_size()) as int));
        let v1 = match T1::deserialize(rest0) {
            Ok(v) => v,
            Err(e) => {
                return Err(TupleError2::Field1(e));
            },
        };
        Ok((v0, v1))
    }
}

impl<T0: RoundTrip, T1: RoundTrip> RoundTrip for (T0, T1) {
    proof fn lemma_decodes_unique(bytes: Seq<u8>, x: Self, y: Self) {
        T0::lemma_decodes_unique(bytes.subrange((0) as int, (T0::spec_size()) as int), x.0, y.0);
        T1::lemma_decodes_unique(bytes.subrange((T0::spec_size()) as int, (T0::spec_size() + T1::spec_size()) as int), x.1, y.1);
    }

    proof fn lemma_round_trip(&self, bytes: Seq<u8>) {
        self.0.lemma_round_trip(bytes.subrange((0) as int, (T0::spec_size()) as int));
        self.1.lemma_round_trip(bytes.subrange((T0::spec_size()) as int, (T0::spec_size() + T1::spec_size()) as int));
    }
}

/// Why the window of a tuple of 3 fields holds no valid value: the
/// position of the first field that failed, carrying that field's own error.
#[derive(Debug, Clone, Copy, PartialEq, Eq)]
pub enum TupleError3<E0, E1, E2> {
    /// Field 0 failed, with its own error.
    Field0(E0),
    /// Field 1 failed, with its own error.
    Field1(E1),
    /// Field 2 failed, with its own error.
    Field2(E2),
}

impl<T0: SerialSize, T1: SerialSize, T2: SerialSize> SerialSize for (T0, T1, T2) {
    open spec fn spec_size() -> nat {
        T0::spec_size() + T1::spec_size() + T2::spec_size()
    }

    fn size() -> (r: usize) {
        T0::size() + T1::size() + T2::size()
    }
}

impl<T0: Serialize, T1: Serialize, T2: Serialize> Serialize for (T0, T1, T2) {
    open spec fn spec_encodes(&self, bytes: Seq<u8>) -> bool {
        &&& bytes.len() == Self::spec_size()
        &&& self.0.spec_encodes(bytes.subrange((0) as int, (T0::spec_size()) as int))
        &&& self.1.spec_encodes(bytes.subrange((T0::spec_size()) as int, (T0::spec_size() + T1::spec_size()) as int))
        &&& self.2.spec_encodes(bytes.subrange((T0::spec_size() + T1::spec_size()) as int, (T0::spec_size() + T1::spec_size() + T2::spec_size()) as int))
    }

    proof fn lemma_encoding_len(&self, bytes: Seq<u8>) {
    }

    proof fn lemma_zero_size(&self) {
        self.0.lemma_zero_size();
        self.1.lemma_zero_size();
        self.2.lemma_zero_size();
        assert forall|lo: int, hi: int| 0 <= lo <= hi <= 0 implies #[trigger] Seq::<u8>::empty().subrange(lo, hi) =~= Seq::<u8>::empty() by {}
    }

    fn serialize(&self, buffer: &mut [u8]) {
        let total = buffer.len();
        assert(total == Self::spec_size());
        let n0 = T0::size();
        let n1 = T1::size();
        let (w0, rest0) = buffer.split_at_mut(n0);
        self.0.serialize(w0);
        let (w1, rest1) = rest0.split_at_mut(n1);
        self.1.serialize(w1);
        self.2.serialize(rest1);
        proof {
            assert(final(buffer)@.subrange(0, final(buffer)@.len() as int) =~= final(buffer)@);
            lemma_split_window(final(buffer)@, (0) as int, final(w0)@, final(rest0)@);
            lemma_split_window(final(buffer)@, (T0::spec_size()) as int, final(w1)@, final(rest1)@);
        }
    }
}

impl<T0: Deserialize, T1: Deserialize, T2: Deserialize> Deserialize for (T0, T1, T2) {
    type Error = TupleError3<T0::Error, T1::Error, T2::Error>;

    proof fn lemma_zero_size_accepts() {
        T0::lemma_zero_size_accepts();
        T1::lemma_zero_size_accepts();
        T2::lemma_zero_size_accepts();
        assert(Seq::<u8>::empty().subrange(0, 0) =~= Seq::<u8>::empty());
    }

    open spec fn spec_check(bytes: Seq<u8>) -> Result<(), Self::Error> {
        match T0::spec_check(bytes.subrange((0) as int, (T0::spec_size()) as int)) {
            Err(e) => Err(TupleError3::Field0(e)),
            Ok(()) => match T1::spec_check(bytes.subrange((T0::spec_size()) as int, (T0::spec_size() + T1::spec_size()) as int)) {
                Err(e) => Err(TupleError3::Field1(e)),
                Ok(()) => match T2::spec_check(bytes.subrange((T0::spec_size() + T1::spec_size()) as int, (T0::spec_size() + T1::spec_size() + T2::spec_size()) as int)) {
                    Err(e) => Err(TupleError3::Field2(e)),
                    Ok(()) => Ok(()),
                },
            },
        }
    }

    open spec fn spec_decodes(bytes: Seq<u8>, value: Self) -> bool {
        &&& T0::spec_decodes(bytes.subrange((0) as int, (T0::spec_size()) as int), value.0)
        &&& T1::spec_decodes(bytes.subrange((T0::spec_size()) as int, (T0::spec_size() + T1::spec_size()) as int), value.1)
        &&& T2::spec_decodes(bytes.subrange((T0::spec_size() + T1::spec_size()) as int, (T0::spec_size() + T1::spec_size() + T2::spec_size()) as int), value.2)
    }

    fn deserialize(buffer: &[u8]) -> (r: Result<Self, Self::Error>) {
        let total = buffer.len();
        assert(total == Self::spec_size());
        let n0 = T0::size();
        let n1 = T1::size();
        let (w0, rest0) = buffer.split_at(n0);
        assert(w0@ == buffer@.subrange((0) as int, (T0::spec_size()) as int));
        let v0 = match T0::deserialize(w0) {
            Ok(v) => v,
            Err(e) => {
                return Err(TupleError3::Field0(e));
            },
        };
        let (w1, rest1) = rest0.split_at(n1);
        assert(w1@ == buffer@.subrange((T0::spec_size()) as int, (T0::spec_size() + T1::spec_size()) as int));
        let v1 = match T1::deserialize(w1) {
            Ok(v) => v,
            Err(e) => {
                return Err(TupleError3::Field1(e));
            },
        };
        assert(rest1@ == buffer@.subrange((T0::spec_size() + T1::spec_size()) as int, (T0::spec_size() + T1::spec_size() + T2::spec_size()) as int));
        let v2 = match T2::deserialize(rest1) {
            Ok(v) => v,
            Err(e) => {
                return Err(TupleError3::Field2(e));
            },
        };
        Ok((v0, v1, v2))
    }
}

impl<T0: RoundTrip, T1: RoundTrip, T2: RoundTrip> RoundTrip for (T0, T1, T2) {
    proof fn lemma_decodes_unique(bytes: Seq<u8>, x: Self, y: Self) {
        T0::lemma_decodes_unique(bytes.subrange((0) as int, (T0::spec_size()) as int), x.0, y.0);
        T1::lemma_decodes_unique(bytes.subrange((T0::spec_size()) as int, (T0::spec_size() + T1::spec_size()) as int), x.1, y.1);
        T2::lemma_decodes_unique(bytes.subrange((T0::spec_size() + T1::spec_size()) as int, (T0::spec_size() + T1::spec_size() + T2::spec_size()) as int), x.2, y.2);
    }

    proof fn lemma_round_trip(&self, bytes: Seq<u8>) {
        self.0.lemma_round_trip(bytes.subrange((0) as int, (T0::spec_size()) as int));
        self.1.lemma_round_trip(bytes.subrange((T0::spec_size()) as int, (T0::spec_size() + T1::spec_size()) as int));
        self.2.lemma_round_trip(bytes.subrange((T0::spec_size() + T1::spec_size()) as int, (T0::spec_size() + T1::spec_size() + T2::spec_size()) as int));
    }
}

/// Why the window of a tuple of 4 fields holds no valid value: the
/// position of the first field that failed, carrying that field's own error.
#[derive(Debug, Clone, Copy, PartialEq, Eq)]
pub enum TupleError4<E0, E1, E2, E3> {
    /// Field 0 failed, with its own error.
    Field0(E0),
    /// Field 1 failed, with its own error.
    Field1(E1),
    /// Field 2 failed, with its own error.
    Field2(E2),
    /// Field 3 failed, with its own error.
    Field3(E3),
}

impl<T0: SerialSize, T1: SerialSize, T2: SerialSize, T3: SerialSize> SerialSize for (T0, T1, T2, T3) {
    open spec fn spec_size() -> nat {
        T0::spec_size() + T1::spec_size() + T2::spec_size() + T3::spec_size()
    }

    fn size() -> (r: usize) {
        T0::size() + T1::size() + T2::size() + T3::size()
    }
}

impl<T0: Serialize, T1: Serialize, T2: Serialize, T3: Serialize> Serialize for (T0, T1, T2, T3) {
    open spec fn spec_encodes(&self, bytes: Seq<u8>) -> bool {
        &&& bytes.len() == Self::spec_size()
        &&& self.0.spec_encodes(bytes.subrange((0) as int, (T0::spec_size()) as int))
        &&& self.1.spec_encodes(bytes.subrange((T0::spec_size()) as int, (T0::spec_size() + T1::spec_size()) as int))
        &&& self.2.spec_encodes(bytes.subrange((T0::spec_size() + T1::spec_size()) as int, (T0::spec_size() + T1::spec_size() + T2::spec_size()) as int))
        &&& self.3.spec_encodes(bytes.subrange((T0::spec_size() + T1::spec_size() + T2::spec_size()) as int, (T0::spec_size() + T1::spec_size() + T2::spec_size() + T3::spec_size()) as int))
    }

    proof fn lemma_encoding_len(&self, bytes: Seq<u8>) {
    }

    proof fn lemma_zero_size(&self) {
        self.0.lemma_zero_size();
        self.1.lemma_zero_size();
        self.2.lemma_zero_size();
        self.3.lemma_zero_size();
        assert forall|lo: int, hi: int| 0 <= lo <= hi <= 0 implies #[trigger] Seq::<u8>::empty().subrange(lo, hi) =~= Seq::<u8>::empty() by {}
    }

    fn serialize(&self, buffer: &mut [u8]) {
        let total = buffer.len();
        assert(total == Self::spec_size());
        let n0 = T0::size();
        let n1 = T1::size();
        let n2 = T2::size();
        let (w0, rest0) = buffer.split_at_mut(n0);
        self.0.serialize(w0);
        let (w1, rest1) = rest0.split_at_mut(n1);
        self.1.serialize(w1);
        let (w2, rest2) = rest1.split_at_mut(n2);
        self.2.serialize(w2);
        self.3.serialize(rest2);
        proof {
            assert(final(buffer)@.subrange(0, final(buffer)@.len() as int) =~= final(buffer)@);
            lemma_split_window(final(buffer)@, (0) as int, final(w0)@, final(rest0)@);
            lemma_split_window(final(buffer)@, (T0::spec_size()) as int, final(w1)@, final(rest1)@);
            lemma_split_window(final(buffer)@, (T0::spec_size() + T1::spec_size()) as int, final(w2)@, final(rest2)@);
        }
    }
}

impl<T0: Deserialize, T1: Deserialize, T2: Deserialize, T3: Deserialize> Deserialize for (T0, T1, T2, T3) {
    type Error = TupleError4<T0::Error, T1::Error, T2::Error, T3::Error>;

    proof fn lemma_zero_size_accepts() {
        T0::lemma_zero_size_accepts();
        T1::lemma_zero_size_accepts();
        T2::lemma_zero_size_accepts();
        T3::lemma_zero_size_accepts();
        assert(Seq::<u8>::empty().subrange(0, 0) =~= Seq::<u8>::empty());
    }

    open spec fn spec_check(bytes: Seq<u8>) -> Result<(), Self::Error> {
        match T0::spec_check(bytes.subrange((0) as int, (T0::spec_size()) as int)) {
            Err(e) => Err(TupleError4::Field0(e)),
            Ok(()) => match T1::spec_check(bytes.subrange((T0::spec_size()) as int, (T0::spec_size() + T1::spec_size()) as int)) {
                Err(e) => Err(TupleError4::Field1(e)),
                Ok(()) => match T2::spec_check(bytes.subrange((T0::spec_size() + T1::spec_size()) as int, (T0::spec_size() + T1::spec_size() + T2::spec_size()) as int)) {
                    Err(e) => Err(TupleError4::Field2(e)),
                    Ok(()) => match T3::spec_check(bytes.subrange((T0::spec_size() + T1::spec_size() + T2::spec_size()) as int, (T0::spec_size() + T1::spec_size() + T2::spec_size() + T3::spec_size()) as int)) {
                        Err(e) => Err(TupleError4::Field3(e)),
                        Ok(()) => Ok(()),
                    },
                },
            },
        }
    }

    open spec fn spec_decodes(bytes: Seq<u8>, value: Self) -> bool {
        &&& T0::spec_decodes(bytes.subrange((0) as int, (T0::spec_size()) as int), value.0)
        &&& T1::spec_decodes(bytes.subrange((T0::spec_size()) as int, (T0::spec_size() + T1::spec_size()) as int), value.1)
        &&& T2::spec_decodes(bytes.subrange((T0::spec_size() + T1::spec_size()) as int, (T0::spec_size() + T1::spec_size() + T2::spec_size()) as int), value.2)
        &&& T3::spec_decodes(bytes.subrange((T0::spec_size() + T1::spec_size() + T2::spec_size()) as int, (T0::spec_size() + T1::spec_size() + T2::spec_size() + T3::spec_size()) as int), value.3)
    }

    fn deserialize(buffer: &[u8]) -> (r: Result<Self, Self::Error>) {
        let total = buffer.len();
        assert(total == Self::spec_size());
        let n0 = T0::size();
        let n1 = T1::size();
        let n2 = T2::size();
        let (w0, rest0) = buffer.split_at(n0);
        assert(w0@ == buffer@.subrange((0) as int, (T0::spec_size()) as int));
        let v0 = match T0::deserialize(w0) {
            Ok(v) => v,
            Err(e) => {
                return Err(TupleError4::Field0(e));
            },
        };
        let (w1, rest1) = rest0.split_at(n1);
        assert(w1@ == buffer@.subrange((T0::spec_size()) as int, (T0::spec_size() + T1::spec_size()) as int));
        let v1 = match T1::deserialize(w1) {
            Ok(v) => v,
            Err(e) => {
                return Err(TupleError4::Field1(e));
            },
        };
        let (w2, rest2) = rest1.split_at(n2);
        assert(w2@ == buffer@.subrange((T0::spec_size() + T1::spec_size()) as int, (T0::spec_size() + T1::spec_size() + T2::spec_size()) as int));
        let v2 = match T2::deserialize(w2) {
            Ok(v) => v,
            Err(e) => {
                return Err(TupleError4::Field2(e));
            },
        };
        assert(rest2@ == buffer@.subrange((T0::spec_size() + T1::spec_size() + T2::spec_size()) as int, (T0::spec_size() + T1::spec_size() + T2::spec_size() + T3::spec_size()) as int));
        let v3 = match T3::deserialize(rest2) {
            Ok(v) => v,
            Err(e) => {
                return Err(TupleError4::Field3(e));
            },
        };
        Ok((v0, v1, v2, v3))
    }
}

impl<T0: RoundTrip, T1: RoundTrip, T2: RoundTrip, T3: RoundTrip> RoundTrip for (T0, T1, T2, T3) {
    proof fn lemma_decodes_unique(bytes: Seq<u8>, x: Self, y: Self) {
        T0::lemma_decodes_unique(bytes.subrange((0) as int, (T0::spec_size()) as int), x.0, y.0);
        T1::lemma_decodes_unique(bytes.subrange((T0::spec_size()) as int, (T0::spec_size() + T1::spec_size()) as int), x.1, y.1);
        T2::lemma_decodes_unique(bytes.subrange((T0::spec_size() + T1::spec_size()) as int, (T0::spec_size() + T1::spec_size() + T2::spec_size()) as int), x.2, y.2);
        T3::lemma_decodes_unique(bytes.subrange((T0::spec_size() + T1::spec_size() + T2::spec_size()) as int, (T0::spec_size() + T1::spec_size() + T2::spec_size() + T3::spec_size()) as int), x.3, y.3);
    }

    proof fn lemma_round_trip(&self, bytes: Seq<u8>) {
        self.0.lemma_round_trip(bytes.subrange((0) as int, (T0::spec_size()) as int));
        self.1.lemma_round_trip(bytes.subrange((T0::spec_size()) as int, (T0::spec_size() + T1::spec_size()) as int));
        self.2.lemma_round_trip(bytes.subrange((T0::spec_size() + T1::spec_size()) as int, (T0::spec_size() + T1::spec_size() + T2::spec_size()) as int));
        self.3.lemma_round_trip(bytes.subrange((T0::spec_size() + T1::spec_size() + T2::spec_size()) as int, (T0::spec_size() + T1::spec_size() + T2::spec_size() + T3::spec_size()) as int));
    }
}

/// Why the window of a tuple of 5 fields holds no valid value: the
/// position of the first field that failed, carrying that field's own error.
#[derive(Debug, Clone, Copy, PartialEq, Eq)]
pub enum TupleError5<E0, E1, E2, E3, E4> {
    /// Field 0 failed, with its own error.
    Field0(E0),
    /// Field 1 failed, with its own error.
    Field1(E1),
    /// Field 2 failed, with its own error.
    Field2(E2),
    /// Field 3 failed, with its own error.
    Field3(E3),
    /// Field 4 failed, with its own error.
    Field4(E4),
}

impl<T0: SerialSize, T1: SerialSize, T2: SerialSize, T3: SerialSize, T4: SerialSize> SerialSize for (T0, T1, T2, T3, T4) {
    open spec fn spec_size() -> nat {
        T0::spec_size() + T1::spec_size() + T2::spec_size() + T3::spec_size() + T4::spec_size()
    }

    fn size() -> (r: usize) {
        T0::size() + T1::size() + T2::size() + T3::size() + T4::size()
    }
}

impl<T0: Serialize, T1: Serialize, T2: Serialize, T3: Serialize, T4: Serialize> Serialize for (T0, T1, T2, T3, T4) {
    open spec fn spec_encodes(&self, bytes: Seq<u8>) -> bool {
        &&& bytes.len() == Self::spec_size()
        &&& self.0.spec_encodes(bytes.subrange((0) as int, (T0::spec_size()) as int))
        &&& self.1.spec_encodes(bytes.subrange((T0::spec_size()) as int, (T0::spec_size() + T1::spec_size()) as int))
        &&& self.2.spec_encodes(bytes.subrange((T0::spec_size() + T1::spec_size()) as int, (T0::spec_size() + T1::spec_size() + T2::spec_size()) as int))
        &&& self.3.spec_encodes(bytes.subrange((T0::spec_size() + T1::spec_size() + T2::spec_size()) as int, (T0::spec_size() + T1::spec_size() + T2::spec_size() + T3::spec_size()) as int))
        &&& self.4.spec_encodes(bytes.subrange((T0::spec_size() + T1::spec_size() + T2::spec_size() + T3::spec_size()) as int, (T0::spec_size() + T1::spec_size() + T2::spec_size() + T3::spec_size() + T4::spec_size()) as int))
    }

    proof fn lemma_encoding_len(&self, bytes: Seq<u8>) {
    }

    proof fn lemma_zero_size(&self) {
        self.0.lemma_zero_size();
        self.1.lemma_zero_size();
        self.2.lemma_zero_size();
        self.3.lemma_zero_size();
        self.4.lemma_zero_size();
        assert forall|lo: int, hi: int| 0 <= lo <= hi <= 0 implies #[trigger] Seq::<u8>::empty().subrange(lo, hi) =~= Seq::<u8>::empty() by {}
    }

    fn serialize(&self, buffer: &mut [u8]) {
        let total = buffer.len();
        assert(total == Self::spec_size());
        let n0 = T0::size();
        let n1 = T1::size();
        let n2 = T2::size();
        let n3 = T3::size();
        let (w0, rest0) = buffer.split_at_mut(n0);
        self.0.serialize(w0);
        let (w1, rest1) = rest0.split_at_mut(n1);
        self.1.serialize(w1);
        let (w2, rest2) = rest1.split_at_mut(n2);
        self.2.serialize(w2);
        let (w3, rest3) = rest2.split_at_mut(n3);
        self.3.serialize(w3);
        self.4.serialize(rest3);
        proof {
            assert(final(buffer)@.subrange(0, final(buffer)@.len() as int) =~= final(buffer)@);
            lemma_split_window(final(buffer)@, (0) as int, final(w0)@, final(rest0)@);
            lemma_split_window(final(buffer)@, (T0::spec_size()) as int, final(w1)@, final(rest1)@);
            lemma_split_window(final(buffer)@, (T0::spec_size() + T1::spec_size()) as int, final(w2)@, final(rest2)@);
            lemma_split_window(final(buffer)@, (T0::spec_size() + T1::spec_size() + T2::spec_size()) as int, final(w3)@, final(rest3)@);
        }
    }
}

impl<T0: Deserialize, T1: Deserialize, T2: Deserialize, T3: Deserialize, T4: Deserialize> Deserialize for (T0, T1, T2, T3, T4) {
    type Error = TupleError5<T0::Error, T1::Error, T2::Error, T3::Error, T4::Error>;

    proof fn lemma_zero_size_accepts() {
        T0::lemma_zero_size_accepts();
        T1::lemma_zero_size_accepts();
        T2::lemma_zero_size_accepts();
        T3::lemma_zero_size_accepts();
        T4::lemma_zero_size_accepts();
        assert(Seq::<u8>::empty().subrange(0, 0) =~= Seq::<u8>::empty());
    }

    open spec fn spec_check(bytes: Seq<u8>) -> Result<(), Self::Error> {
        match T0::spec_check(bytes.subrange((0) as int, (T0::spec_size()) as int)) {
            Err(e) => Err(TupleError5::Field0(e)),
            Ok(()) => match T1::spec_check(bytes.subrange((T0::spec_size()) as int, (T0::spec_size() + T1::spec_size()) as int)) {
                Err(e) => Err(TupleError5::Field1(e)),
                Ok(()) => match T2::spec_check(bytes.subrange((T0::spec_size() + T1::spec_size()) as int, (T0::spec_size() + T1::spec_size() + T2::spec_size()) as int)) {
                    Err(e) => Err(TupleError5::Field2(e)),
                    Ok(()) => match T3::spec_check(bytes.subrange((T0::spec_size() + T1::spec_size() + T2::spec_size()) as int, (T0::spec_size() + T1::spec_size() + T2::spec_size() + T3::spec_size()) as int)) {
                        Err(e) => Err(TupleError5::Field3(e)),
                        Ok(()) => match T4::spec_check(bytes.subrange((T0::spec_size() + T1::spec_size() + T2::spec_size() + T3::spec_size()) as int, (T0::spec_size() + T1::spec_size() + T2::spec_size() + T3::spec_size() + T4::spec_size()) as int)) {
                            Err(e) => Err(TupleError5::Field4(e)),
                            Ok(()) => Ok(()),
                        },
                    },
                },
            },
        }
    }

    open spec fn spec_decodes(bytes: Seq<u8>, value: Self) -> bool {
        &&& T0::spec_decodes(bytes.subrange((0) as int, (T0::spec_size()) as int), value.0)
        &&& T1::spec_decodes(bytes.subrange((T0::spec_size()) as int, (T0::spec_size() + T1::spec_size()) as int), value.1)
        &&& T2::spec_decodes(bytes.subrange((T0::spec_size() + T1::spec_size()) as int, (T0::spec_size() + T1::spec_size() + T2::spec_size()) as int), value.2)
        &&& T3::spec_decodes(bytes.subrange((T0::spec_size() + T1::spec_size() + T2::spec_size()) as int, (T0::spec_size() + T1::spec_size() + T2::spec_size() + T3::spec_size()) as int), value.3)
        &&& T4::spec_decodes(bytes.subrange((T0::spec_size() + T1::spec_size() + T2::spec_size() + T3::spec_size()) as int, (T0::spec_size() + T1::spec_size() + T2::spec_size() + T3::spec_size() + T4::spec_size()) as int), value.4)
    }

    fn deserialize(buffer: &[u8]) -> (r: Result<Self, Self::Error>) {
        let total = buffer.len();
        assert(total == Self::spec_size());
        let n0 = T0::size();
        let n1 = T1::size();
        let n2 = T2::size();
        let n3 = T3::size();
        let (w0, rest0) = buffer.split_at(n0);
        assert(w0@ == buffer@.subrange((0) as int, (T0::spec_size()) as int));
        let v0 = match T0::deserialize(w0) {
            Ok(v) => v,
            Err(e) => {
                return Err(TupleError5::Field0(e));
            },
        };
        let (w1, rest1) = rest0.split_at(n1);
        assert(w1@ == buffer@.subrange((T0::spec_size()) as int, (T0::spec_size() + T1::spec_size()) as int));
        let v1 = match T1::deserialize(w1) {
            Ok(v) => v,
            Err(e) => {
                return Err(TupleError5::Field1(e));
            },
        };
        let (w2, rest2) = rest1.split_at(n2);
        assert(w2@ == buffer@.subrange((T0::spec_size() + T1::spec_size()) as int, (T0::spec_size() + T1::spec_size() + T2::spec_size()) as int));
        let v2 = match T2::deserialize(w2) {
            Ok(v) => v,
            Err(e) => {
                return Err(TupleError5::Field2(e));
            },
        };
        let (w3, rest3) = rest2.split_at(n3);
        assert(w3@ == buffer@.subrange((T0::spec_size() + T1::spec_size() + T2::spec_size()) as int, (T0::spec_size() + T1::spec_size() + T2::spec_size() + T3::spec_size()) as int));
        let v3 = match T3::deserialize(w3) {
            Ok(v) => v,
            Err(e) => {
                return Err(TupleError5::Field3(e));
            },
        };
        assert(rest3@ == buffer@.subrange((T0::spec_size() + T1::spec_size() + T2::spec_size() + T3::spec_size()) as int, (T0::spec_size() + T1::spec_size() + T2::spec_size() + T3::spec_size() + T4::spec_size()) as int));
        let v4 = match T4::deserialize(rest3) {
            Ok(v) => v,
            Err(e) => {
                return Err(TupleError5::Field4(e));
            },
        };
        Ok((v0, v1, v2, v3, v4))
    }
}

impl<T0: RoundTrip, T1: RoundTrip, T2: RoundTrip, T3: RoundTrip, T4: RoundTrip> RoundTrip for (T0, T1, T2, T3, T4) {
    proof fn lemma_decodes_unique(bytes: Seq<u8>, x: Self, y: Self) {
        T0::lemma_decodes_unique(bytes.subrange((0) as int, (T0::spec_size()) as int), x.0, y.0);
        T1::lemma_decodes_unique(bytes.subrange((T0::spec_size()) as int, (T0::spec_size() + T1::spec_size()) as int), x.1, y.1);
        T2::lemma_decodes_unique(bytes.subrange((T0::spec_size() + T1::spec_size()) as int, (T0::spec_size() + T1::spec_size() + T2::spec_size()) as int), x.2, y.2);
        T3::lemma_decodes_unique(bytes.subrange((T0::spec_size() + T1::spec_size() + T2::spec_size()) as int, (T0::spec_size() + T1::spec_size() + T2::spec_size() + T3::spec_size()) as int), x.3, y.3);
        T4::lemma_decodes_unique(bytes.subrange((T0::spec_size() + T1::spec_size() + T2::spec_size() + T3::spec_size()) as int, (T0::spec_size() + T1::spec_size() + T2::spec_size() + T3::spec_size() + T4::spec_size()) as int), x.4, y.4);
    }

    proof fn lemma_round_trip(&self, bytes: Seq<u8>) {
        self.0.lemma_round_trip(bytes.subrange((0) as int, (T0::spec_size()) as int));
        self.1.lemma_round_trip(bytes.subrange((T0::spec_size()) as int, (T0::spec_size() + T1::spec_size()) as int));
        self.2.lemma_round_trip(bytes.subrange((T0::spec_size() + T1::spec_size()) as int, (T0::spec_size() + T1::spec_size() + T2::spec_size()) as int));
        self.3.lemma_round_trip(bytes.subrange((T0::spec_size() + T1::spec_size() + T2::spec_size()) as int, (T0::spec_size() + T1::spec_size() + T2::spec_size() + T3::spec_size()) as int));
        self.4.lemma_round_trip(bytes.subrange((T0::spec_size() + T1::spec_size() + T2::spec_size() + T3::spec_size()) as int, (T0::spec_size() + T1::spec_size() + T2::spec_size() + T3::spec_size() + T4::spec_size()) as int));
    }
}

/// Why the window of a tuple of 6 fields holds no valid value: the
/// position of the first field that failed, carrying that field's own error.
#[derive(Debug, Clone, Copy, PartialEq, Eq)]
pub enum TupleError6<E0, E1, E2, E3, E4, E5> {
    /// Field 0 failed, with its own error.
    Field0(E0),
    /// Field 1 failed, with its own error.
    Field1(E1),
    /// Field 2 failed, with its own error.
    Field2(E2),
    /// Field 3 failed, with its own error.
    Field3(E3),
    /// Field 4 failed, with its own error.
    Field4(E4),
    /// Field 5 failed, with its own error.
    Field5(E5),
}

impl<T0: SerialSize, T1: SerialSize, T2: SerialSize, T3: SerialSize, T4: SerialSize, T5: SerialSize> SerialSize for (T0, T1, T2, T3, T4, T5) {
    open spec fn spec_size() -> nat {
        T0::spec_size() + T1::spec_size() + T2::spec_size() + T3::spec_size() + T4::spec_size() + T5::spec_size()
    }

    fn size() -> (r: usize) {
        T0::size() + T1::size() + T2::size() + T3::size() + T4::size() + T5::size()
    }
}

impl<T0: Serialize, T1: Serialize, T2: Serialize, T3: Serialize, T4: Serialize, T5: Serialize> Serialize for (T0, T1, T2, T3, T4, T5) {
    open spec fn spec_encodes(&self, bytes: Seq<u8>) -> bool {
        &&& bytes.len() == Self::spec_size()
        &&& self.0.spec_encodes(bytes.subrange((0) as int, (T0::spec_size()) as int))
        &&& self.1.spec_encodes(bytes.subrange((T0::spec_size()) as int, (T0::spec_size() + T1::spec_size()) as int))
        &&& self.2.spec_encodes(bytes.subrange((T0::spec_size() + T1::spec_size()) as int, (T0::spec_size() + T1::spec_size() + T2::spec_size()) as int))
        &&& self.3.spec_encodes(bytes.subrange((T0::spec_size() + T1::spec_size() + T2::spec_size()) as int, (T0::spec_size() + T1::spec_size() + T2::spec_size() + T3::spec_size()) as int))
        &&& self.4.spec_encodes(bytes.subrange((T0::spec_size() + T1::spec_size() + T2::spec_size() + T3::spec_size()) as int, (T0::spec_size() + T1::spec_size() + T2::spec_size() + T3::spec_size() + T4::spec_size()) as int))
        &&& self.5.spec_encodes(bytes.subrange((T0::spec_size() + T1::spec_size() + T2::spec_size() + T3::spec_size() + T4::spec_size()) as int, (T0::spec_size() + T1::spec_size() + T2::spec_size() + T3::spec_size() + T4::spec_size() + T5::spec_size()) as int))
    }

    proof fn lemma_encoding_len(&self, bytes: Seq<u8>) {
    }

    proof fn lemma_zero_size(&self) {
        self.0.lemma_zero_size();
        self.1.lemma_zero_size();
        self.2.lemma_zero_size();
        self.3.lemma_zero_size();
        self.4.lemma_zero_size();
        self.5.lemma_zero_size();
        assert forall|lo: int, hi: int| 0 <= lo <= hi <= 0 implies #[trigger] Seq::<u8>::empty().subrange(lo, hi) =~= Seq::<u8>::empty() by {}
    }

    #[verifier::rlimit(60)]
    fn serialize(&self, buffer: &mut [u8]) {
        let total = buffer.len();
        assert(total == Self::spec_size());
        let n0 = T0::size();
        let n1 = T1::size();
        let n2 = T2::size();
        let n3 = T3::size();
        let n4 = T4::size();
        let (w0, rest0) = buffer.split_at_mut(n0);
        self.0.serialize(w0);
        let (w1, rest1) = rest0.split_at_mut(n1);
        self.1.serialize(w1);
        let (w2, rest2) = rest1.split_at_mut(n2);
        self.2.serialize(w2);
        let (w3, rest3) = rest2.split_at_mut(n3);
        self.3.serialize(w3);
        let (w4, rest4) = rest3.split_at_mut(n4);
        self.4.serialize(w4);
        self.5.serialize(rest4);
        proof {
            assert(final(buffer)@.subrange(0, final(buffer)@.len() as int) =~= final(buffer)@);
            lemma_split_window(final(buffer)@, (0) as int, final(w0)@, final(rest0)@);
            lemma_split_window(final(buffer)@, (T0::spec_size()) as int, final(w1)@, final(rest1)@);
            lemma_split_window(final(buffer)@, (T0::spec_size() + T1::spec_size()) as int, final(w2)@, final(rest2)@);
            lemma_split_window(final(buffer)@, (T0::spec_size() + T1::spec_size() + T2::spec_size()) as int, final(w3)@, final(rest3)@);
            lemma_split_window(final(buffer)@, (T0::spec_size() + T1::spec_size() + T2::spec_size() + T3::spec_size()) as int, final(w4)@, final(rest4)@);
        }
    }
}

impl<T0: Deserialize, T1: Deserialize, T2: Deserialize, T3: Deserialize, T4: Deserialize, T5: Deserialize> Deserialize for (T0, T1, T2, T3, T4, T5) {
    type Error = TupleError6<T0::Error, T1::Error, T2::Error, T3::Error, T4::Error, T5::Error>;

    proof fn lemma_zero_size_accepts() {
        T0::lemma_zero_size_accepts();
        T1::lemma_zero_size_accepts();
        T2::lemma_zero_size_accepts();
        T3::lemma_zero_size_accepts();
        T4::lemma_zero_size_accepts();
        T5::lemma_zero_size_accepts();
        assert(Seq::<u8>::empty().subrange(0, 0) =~= Seq::<u8>::empty());
    }

    open spec fn spec_check(bytes: Seq<u8>) -> Result<(), Self::Error> {
        match T0::spec_check(bytes.subrange((0) as int, (T0::spec_size()) as int)) {
            Err(e) => Err(TupleError6::Field0(e)),
            Ok(()) => match T1::spec_check(bytes.subrange((T0::spec_size()) as int, (T0::spec_size() + T1::spec_size()) as int)) {
                Err(e) => Err(TupleError6::Field1(e)),
                Ok(()) => match T2::spec_check(bytes.subrange((T0::spec_size() + T1::spec_size()) as int, (T0::spec_size() + T1::spec_size() + T2::spec_size()) as int)) {
                    Err(e) => Err(TupleError6::Field2(e)),
                    Ok(()) => match T3::spec_check(bytes.subrange((T0::spec_size() + T1::spec_size() + T2::spec_size()) as int, (T0::spec_size() + T1::spec_size() + T2::spec_size() + T3::spec_size()) as int)) {
                        Err(e) => Err(TupleError6::Field3(e)),
                        Ok(()) => match T4::spec_check(bytes.subrange((T0::spec_size() + T1::spec_size() + T2::spec_size() + T3::spec_size()) as int, (T0::spec_size() + T1::spec_size() + T2::spec_size() + T3::spec_size() + T4::spec_size()) as int)) {
                            Err(e) => Err(TupleError6::Field4(e)),
                            Ok(()) => match T5::spec_check(bytes.subrange((T0::spec_size() + T1::spec_size() + T2::spec_size() + T3::spec_size() + T4::spec_size()) as int, (T0::spec_size() + T1::spec_size() + T2::spec_size() + T3::spec_size() + T4::spec_size() + T5::spec_size()) as int)) {
                                Err(e) => Err(TupleError6::Field5(e)),
                                Ok(()) => Ok(()),
                            },
                        },
                    },
                },
            },
        }
    }

    open spec fn spec_decodes(bytes: Seq<u8>, value: Self) -> bool {
        &&& T0::spec_decodes(bytes.subrange((0) as int, (T0::spec_size()) as int), value.0)
        &&& T1::spec_decodes(bytes.subrange((T0::spec_size()) as int, (T0::spec_size() + T1::spec_size()) as int), value.1)
        &&& T2::spec_decodes(bytes.subrange((T0::spec_size() + T1::spec_size()) as int, (T0::spec_size() + T1::spec_size() + T2::spec_size()) as int), value.2)
        &&& T3::spec_decodes(bytes.subrange((T0::spec_size() + T1::spec_size() + T2::spec_size()) as int, (T0::spec_size() + T1::spec_size() + T2::spec_size() + T3::spec_size()) as int), value.3)
        &&& T4::spec_decodes(bytes.subrange((T0::spec_size() + T1::spec_size() + T2::spec_size() + T3::spec_size()) as int, (T0::spec_size() + T1::spec_size() + T2::spec_size() + T3::spec_size() + T4::spec_size()) as int), value.4)
        &&& T5::spec_decodes(bytes.subrange((T0::spec_size() + T1::spec_size() + T2::spec_size() + T3::spec_size() + T4::spec_size()) as int, (T0::spec_size() + T1::spec_size() + T2::spec_size() + T3::spec_size() + T4::spec_size() + T5::spec_size()) as int), value.5)
    }

    #[verifier::rlimit(60)]
    fn deserialize(buffer: &[u8]) -> (r: Result<Self, Self::Error>) {
        let total = buffer.len();
        assert(total == Self::spec_size());
        let n0 = T0::size();
        let n1 = T1::size();
        let n2 = T2::size();
        let n3 = T3::size();
        let n4 = T4::size();
        let (w0, rest0) = buffer.split_at(n0);
        assert(w0@ == buffer@.subrange((0) as int, (T0::spec_size()) as int));
        let v0 = match T0::deserialize(w0) {
            Ok(v) => v,
            Err(e) => {
                return Err(TupleError6::Field0(e));
            },
        };
        let (w1, rest1) = rest0.split_at(n1);
        assert(w1@ == buffer@.subrange((T0::spec_size()) as int, (T0::spec_size() + T1::spec_size()) as int));
        let v1 = match T1::deserialize(w1) {
            Ok(v) => v,
            Err(e) => {
                return Err(TupleError6::Field1(e));
            },
        };
        let (w2, rest2) = rest1.split_at(n2);
        assert(w2@ == buffer@.subrange((T0::spec_size() + T1::spec_size()) as int, (T0::spec_size() + T1::spec_size() + T2::spec_size()) as int));
        let v2 = match T2::deserialize(w2) {
            Ok(v) => v,
            Err(e) => {
                return Err(TupleError6::Field2(e));
            },
        };
        let (w3, rest3) = rest2.split_at(n3);
        assert(w3@ == buffer@.subrange((T0::spec_size() + T1::spec_size() + T2::spec_size()) as int, (T0::spec_size() + T1::spec_size() + T2::spec_size() + T3::spec_size()) as int));
        let v3 = match T3::deserialize(w3) {
            Ok(v) => v,
            Err(e) => {
                return Err(TupleError6::Field3(e));
            },
        };
        let (w4, rest4) = rest3.split_at(n4);
        assert(w4@ == buffer@.subrange((T0::spec_size() + T1::spec_size() + T2::spec_size() + T3::spec_size()) as int, (T0::spec_size() + T1::spec_size() + T2::spec_size() + T3::spec_size() + T4::spec_size()) as int));
        let v4 = match T4::deserialize(w4) {
            Ok(v) => v,
            Err(e) => {
                return Err(TupleError6::Field4(e));
            },
        };
        assert(rest4@ == buffer@.subrange((T0::spec_size() + T1::spec_size() + T2::spec_size() + T3::spec_size() + T4::spec_size()) as int, (T0::spec_size() + T1::spec_size() + T2::spec_size() + T3::spec_size() + T4::spec_size() + T5::spec_size()) as int));
        let v5 = match T5::deserialize(rest4) {
            Ok(v) => v,
            Err(e) => {
                return Err(TupleError6::Field5(e));
            },
        };
        Ok((v0, v1, v2, v3, v4, v5))
    }
}

impl<T0: RoundTrip, T1: RoundTrip, T2: RoundTrip, T3: RoundTrip, T4: RoundTrip, T5: RoundTrip> RoundTrip for (T0, T1, T2, T3, T4, T5) {
    proof fn lemma_decodes_unique(bytes: Seq<u8>, x: Self, y: Self) {
        T0::lemma_decodes_unique(bytes.subrange((0) as int, (T0::spec_size()) as int), x.0, y.0);
        T1::lemma_decodes_unique(bytes.subrange((T0::spec_size()) as int, (T0::spec_size() + T1::spec_size()) as int), x.1, y.1);
        T2::lemma_decodes_unique(bytes.subrange((T0::spec_size() + T1::spec_size()) as int, (T0::spec_size() + T1::spec_size() + T2::spec_size()) as int), x.2, y.2);
        T3::lemma_decodes_unique(bytes.subrange((T0::spec_size() + T1::spec_size() + T2::spec_size()) as int, (T0::spec_size() + T1::spec_size() + T2::spec_size() + T3::spec_size()) as int), x.3, y.3);
        T4::lemma_decodes_unique(bytes.subrange((T0::spec_size() + T1::spec_size() + T2::spec_size() + T3::spec_size()) as int, (T0::spec_size() + T1::spec_size() + T2::spec_size() + T3::spec_size() + T4::spec_size()) as int), x.4, y.4);
        T5::lemma_decodes_unique(bytes.subrange((T0::spec_size() + T1::spec_size() + T2::spec_size() + T3::spec_size() + T4::spec_size()) as int, (T0::spec_size() + T1::spec_size() + T2::spec_size() + T3::spec_size() + T4::spec_size() + T5::spec_size()) as int), x.5, y.5);
    }

    proof fn lemma_round_trip(&self, bytes: Seq<u8>) {
        self.0.lemma_round_trip(bytes.subrange((0) as int, (T0::spec_size()) as int));
        self.1.lemma_round_trip(bytes.subrange((T0::spec_size()) as int, (T0::spec_size() + T1::spec_size()) as int));
        self.2.lemma_round_trip(bytes.subrange((T0::spec_size() + T1::spec_size()) as int, (T0::spec_size() + T1::spec_size() + T2::spec_size()) as int));
        self.3.lemma_round_trip(bytes.subrange((T0::spec_size() + T1::spec_size() + T2::spec_size()) as int, (T0::spec_size() + T1::spec_size() + T2::spec_size() + T3::spec_size()) as int));
        self.4.lemma_round_trip(bytes.subrange((T0::spec_size() + T1::spec_size() + T2::spec_size() + T3::spec_size()) as int, (T0::spec_size() + T1::spec_size() + T2::spec_size() + T3::spec_size() + T4::spec_size()) as int));
        self.5.lemma_round_trip(bytes.subrange((T0::spec_size() + T1::spec_size() + T2::spec_size() + T3::spec_size() + T4::spec_size()) as int, (T0::spec_size() + T1::spec_size() + T2::spec_size() + T3::spec_size() + T4::spec_size() + T5::spec_size()) as int));
    }
}

/// Why the window of a tuple of 7 fields holds no valid value: the
/// position of the first field that failed, carrying that field's own error.
#[derive(Debug, Clone, Copy, PartialEq, Eq)]
pub enum TupleError7<E0, E1, E2, E3, E4, E5, E6> {
    /// Field 0 failed, with its own error.
    Field0(E0),
    /// Field 1 failed, with its own error.
    Field1(E1),
    /// Field 2 failed, with its own error.
    Field2(E2),
    /// Field 3 failed, with its own error.
    Field3(E3),
    /// Field 4 failed, with its own error.
    Field4(E4),
    /// Field 5 failed, with its own error.
    Field5(E5),
    /// Field 6 failed, with its own error.
    Field6(E6),
}

impl<T0: SerialSize, T1: SerialSize, T2: SerialSize, T3: SerialSize, T4: SerialSize, T5: SerialSize, T6: SerialSize> SerialSize for (T0, T1, T2, T3, T4, T5, T6) {
    open spec fn spec_size() -> nat {
        T0::spec_size() + T1::spec_size() + T2::spec_size() + T3::spec_size() + T4::spec_size() + T5::spec_size() + T6::spec_size()
    }

    fn size() -> (r: usize) {
        T0::size() + T1::size() + T2::size() + T3::size() + T4::size() + T5::size() + T6::size()
    }
}

impl<T0: Serialize, T1: Serialize, T2: Serialize, T3: Serialize, T4: Serialize, T5: Serialize, T6: Serialize> Serialize for (T0, T1, T2, T3, T4, T5, T6) {
    open spec fn spec_encodes(&self, bytes: Seq<u8>) -> bool {
        &&& bytes.len() == Self::spec_size()
        &&& self.0.spec_encodes(bytes.subrange((0) as int, (T0::spec_size()) as int))
        &&& self.1.spec_encodes(bytes.subrange((T0::spec_size()) as int, (T0::spec_size() + T1::spec_size()) as int))
        &&& self.2.spec_encodes(bytes.subrange((T0::spec_size() + T1::spec_size()) as int, (T0::spec_size() + T1::spec_size() + T2::spec_size()) as int))
        &&& self.3.spec_encodes(bytes.subrange((T0::spec_size() + T1::spec_size() + T2::spec_size()) as int, (T0::spec_size() + T1::spec_size() + T2::spec_size() + T3::spec_size()) as int))
        &&& self.4.spec_encodes(bytes.subrange((T0::spec_size() + T1::spec_size() + T2::spec_size() + T3::spec_size()) as int, (T0::spec_size() + T1::spec_size() + T2::spec_size() + T3::spec_size() + T4::spec_size()) as int))
        &&& self.5.spec_encodes(bytes.subrange((T0::spec_size() + T1::spec_size() + T2::spec_size() + T3::spec_size() + T4::spec_size()) as int, (T0::spec_size() + T1::spec_size() + T2::spec_size() + T3::spec_size() + T4::spec_size() + T5::spec_size()) as int))
        &&& self.6.spec_encodes(bytes.subrange((T0::spec_size() + T1::spec_size() + T2::spec_size() + T3::spec_size() + T4::spec_size() + T5::spec_size()) as int, (T0::spec_size() + T1::spec_size() + T2::spec_size() + T3::spec_size() + T4::spec_size() + T5::spec_size() + T6::spec_size()) as int))
    }

    proof fn lemma_encoding_len(&self, bytes: Seq<u8>) {
    }

    proof fn lemma_zero_size(&self) {
        self.0.lemma_zero_size();
        self.1.lemma_zero_size();
        self.2.lemma_zero_size();
        self.3.lemma_zero_size();
        self.4.lemma_zero_size();
        self.5.lemma_zero_size();
        self.6.lemma_zero_size();
        assert forall|lo: int, hi: int| 0 <= lo <= hi <= 0 implies #[trigger] Seq::<u8>::empty().subrange(lo, hi) =~= Seq::<u8>::empty() by {}
    }

    #[verifier::rlimit(60)]
    fn serialize(&self, buffer: &mut [u8]) {
        let total = buffer.len();
        assert(total == Self::spec_size());
        let n0 = T0::size();
        let n1 = T1::size();
        let n2 = T2::size();
        let n3 = T3::size();
        let n4 = T4::size();
        let n5 = T5::size();
        let (w0, rest0) = buffer.split_at_mut(n0);
        self.0.serialize(w0);
        let (w1, rest1) = rest0.split_at_mut(n1);
        self.1.serialize(w1);
        let (w2, rest2) = rest1.split_at_mut(n2);
        self.2.serialize(w2);
        let (w3, rest3) = rest2.split_at_mut(n3);
        self.3.serialize(w3);
        let (w4, rest4) = rest3.split_at_mut(n4);
        self.4.serialize(w4);
        let (w5, rest5) = rest4.split_at_mut(n5);
        self.5.serialize(w5);
        self.6.serialize(rest5);
        proof {
            assert(final(buffer)@.subrange(0, final(buffer)@.len() as int) =~= final(buffer)@);
            lemma_split_window(final(buffer)@, (0) as int, final(w0)@, final(rest0)@);
            lemma_split_window(final(buffer)@, (T0::spec_size()) as int, final(w1)@, final(rest1)@);
            lemma_split_window(final(buffer)@, (T0::spec_size() + T1::spec_size()) as int, final(w2)@, final(rest2)@);
            lemma_split_window(final(buffer)@, (T0::spec_size() + T1::spec_size() + T2::spec_size()) as int, final(w3)@, final(rest3)@);
            lemma_split_window(final(buffer)@, (T0::spec_size() + T1::spec_size() + T2::spec_size() + T3::spec_size()) as int, final(w4)@, final(rest4)@);
            lemma_split_window(final(buffer)@, (T0::spec_size() + T1::spec_size() + T2::spec_size() + T3::spec_size() + T4::spec_size()) as int, final(w5)@, final(rest5)@);
        }
    }
}

impl<T0: Deserialize, T1: Deserialize, T2: Deserialize, T3: Deserialize, T4: Deserialize, T5: Deserialize, T6: Deserialize> Deserialize for (T0, T1, T2, T3, T4, T5, T6) {
    type Error = TupleError7<T0::Error, T1::Error, T2::Error, T3::Error, T4::Error, T5::Error, T6::Error>;

    proof fn lemma_zero_size_accepts() {
        T0::lemma_zero_size_accepts();
        T1::lemma_zero_size_accepts();
        T2::lemma_zero_size_accepts();
        T3::lemma_zero_size_accepts();
        T4::lemma_zero_size_accepts();
        T5::lemma_zero_size_accepts();
        T6::lemma_zero_size_accepts();
        assert(Seq::<u8>::empty().subrange(0, 0) =~= Seq::<u8>::empty());
    }

    open spec fn spec_check(bytes: Seq<u8>) -> Result<(), Self::Error> {
        match T0::spec_check(bytes.subrange((0) as int, (T0::spec_size()) as int)) {
            Err(e) => Err(TupleError7::Field0(e)),
            Ok(()) => match T1::spec_check(bytes.subrange((T0::spec_size()) as int, (T0::spec_size() + T1::spec_size()) as int)) {
                Err(e) => Err(TupleError7::Field1(e)),
                Ok(()) => match T2::spec_check(bytes.subrange((T0::spec_size() + T1::spec_size()) as int, (T0::spec_size() + T1::spec_size() + T2::spec_size()) as int)) {
                    Err(e) => Err(TupleError7::Field2(e)),
                    Ok(()) => match T3::spec_check(bytes.subrange((T0::spec_size() + T1::spec_size() + T2::spec_size()) as int, (T0::spec_size() + T1::spec_size() + T2::spec_size() + T3::spec_size()) as int)) {
                        Err(e) => Err(TupleError7::Field3(e)),
                        Ok(()) => match T4::spec_check(bytes.subrange((T0::spec_size() + T1::spec_size() + T2::spec_size() + T3::spec_size()) as int, (T0::spec_size() + T1::spec_size() + T2::spec_size() + T3::spec_size() + T4::spec_size()) as int)) {
                            Err(e) => Err(TupleError7::Field4(e)),
                            Ok(()) => match T5::spec_check(bytes.subrange((T0::spec_size() + T1::spec_size() + T2::spec_size() + T3::spec_size() + T4::spec_size()) as int, (T0::spec_size() + T1::spec_size() + T2::spec_size() + T3::spec_size() + T4::spec_size() + T5::spec_size()) as int)) {
                                Err(e) => Err(TupleError7::Field5(e)),
                                Ok(()) => match T6::spec_check(bytes.subrange((T0::spec_size() + T1::spec_size() + T2::spec_size() + T3::spec_size() + T4::spec_size() + T5::spec_size()) as int, (T0::spec_size() + T1::spec_size() + T2::spec_size() + T3::spec_size() + T4::spec_size() + T5::spec_size() + T6::spec_size()) as int)) {
                                    Err(e) => Err(TupleError7::Field6(e)),
                                    Ok(()) => Ok(()),
                                },
                            },
                        },
                    },
                },
            },
        }
    }

    open spec fn spec_decodes(bytes: Seq<u8>, value: Self) -> bool {
        &&& T0::spec_decodes(bytes.subrange((0) as int, (T0::spec_size()) as int), value.0)
        &&& T1::spec_decodes(bytes.subrange((T0::spec_size()) as int, (T0::spec_size() + T1::spec_size()) as int), value.1)
        &&& T2::spec_decodes(bytes.subrange((T0::spec_size() + T1::spec_size()) as int, (T0::spec_size() + T1::spec_size() + T2::spec_size()) as int), value.2)
        &&& T3::spec_decodes(bytes.subrange((T0::spec_size() + T1::spec_size() + T2::spec_size()) as int, (T0::spec_size() + T1::spec_size() + T2::spec_size() + T3::spec_size()) as int), value.3)
        &&& T4::spec_decodes(bytes.subrange((T0::spec_size() + T1::spec_size() + T2::spec_size() + T3::spec_size()) as int, (T0::spec_size() + T1::spec_size() + T2::spec_size() + T3::spec_size() + T4::spec_size()) as int), value.4)
        &&& T5::spec_decodes(bytes.subrange((T0::spec_size() + T1::spec_size() + T2::spec_size() + T3::spec_size() + T4::spec_size()) as int, (T0::spec_size() + T1::spec_size() + T2::spec_size() + T3::spec_size() + T4::spec_size() + T5::spec_size()) as int), value.5)
        &&& T6::spec_decodes(bytes.subrange((T0::spec_size() + T1::spec_size() + T2::spec_size() + T3::spec_size() + T4::spec_size() + T5::spec_size()) as int, (T0::spec_size() + T1::spec_size() + T2::spec_size() + T3::spec_size() + T4::spec_size() + T5::spec_size() + T6::spec_size()) as int), value.6)
    }

    #[verifier::rlimit(60)]
    fn deserialize(buffer: &[u8]) -> (r: Result<Self, Self::Error>) {
        let total = buffer.len();
        assert(total == Self::spec_size());
        let n0 = T0::size();
        let n1 = T1::size();
        let n2 = T2::size();
        let n3 = T3::size();
        let n4 = T4::size();
        let n5 = T5::size();
        let (w0, rest0) = buffer.split_at(n0);
        assert(w0@ == buffer@.subrange((0) as int, (T0::spec_size()) as int));
        let v0 = match T0::deserialize(w0) {
            Ok(v) => v,
            Err(e) => {
                return Err(TupleError7::Field0(e));
            },
        };
        let (w1, rest1) = rest0.split_at(n1);
        assert(w1@ == buffer@.subrange((T0::spec_size()) as int, (T0::spec_size() + T1::spec_size()) as int));
        let v1 = match T1::deserialize(w1) {
            Ok(v) => v,
            Err(e) => {
                return Err(TupleError7::Field1(e));
            },
        };
        let (w2, rest2) = rest1.split_at(n2);
        assert(w2@ == buffer@.subrange((T0::spec_size() + T1::spec_size()) as int, (T0::spec_size() + T1::spec_size() + T2::spec_size()) as int));
        let v2 = match T2::deserialize(w2) {
            Ok(v) => v,
            Err(e) => {
                return Err(TupleError7::Field2(e));
            },
        };
        let (w3, rest3) = rest2.split_at(n3);
        assert(w3@ == buffer@.subrange((T0::spec_size() + T1::spec_size() + T2::spec_size()) as int, (T0::spec_size() + T1::spec_size() + T2::spec_size() + T3::spec_size()) as int));
        let v3 = match T3::deserialize(w3) {
            Ok(v) => v,
            Err(e) => {
                return Err(TupleError7::Field3(e));
            },
        };
        let (w4, rest4) = rest3.split_at(n4);
        assert(w4@ == buffer@.subrange((T0::spec_size() + T1::spec_size() + T2::spec_size() + T3::spec_size()) as int, (T0::spec_size() + T1::spec_size() + T2::spec_size() + T3::spec_size() + T4::spec_size()) as int));
        let v4 = match T4::deserialize(w4) {
            Ok(v) => v,
            Err(e) => {
                return Err(TupleError7::Field4(e));
            },
        };
        let (w5, rest5) = rest4.split_at(n5);
        assert(w5@ == buffer@.subrange((T0::spec_size() + T1::spec_size() + T2::spec_size() + T3::spec_size() + T4::spec_size()) as int, (T0::spec_size() + T1::spec_size() + T2::spec_size() + T3::spec_size() + T4::spec_size() + T5::spec_size()) as int));
        let v5 = match T5::deserialize(w5) {
            Ok(v) => v,
            Err(e) => {
                return Err(TupleError7::Field5(e));
            },
        };
        assert(rest5@ == buffer@.subrange((T0::spec_size() + T1::spec_size() + T2::spec_size() + T3::spec_size() + T4::spec_size() + T5::spec_size()) as int, (T0::spec_size() + T1::spec_size() + T2::spec_size() + T3::spec_size() + T4::spec_size() + T5::spec_size() + T6::spec_size()) as int));
        let v6 = match T6::deserialize(rest5) {
            Ok(v) => v,
            Err(e) => {
                return Err(TupleError7::Field6(e));
            },
        };
        Ok((v0, v1, v2, v3, v4, v5, v6))
    }
}

impl<T0: RoundTrip, T1: RoundTrip, T2: RoundTrip, T3: RoundTrip, T4: RoundTrip, T5: RoundTrip, T6: RoundTrip> RoundTrip for (T0, T1, T2, T3, T4, T5, T6) {
    proof fn lemma_decodes_unique(bytes: Seq<u8>, x: Self, y: Self) {
        T0::lemma_decodes_unique(bytes.subrange((0) as int, (T0::spec_size()) as int), x.0, y.0);
        T1::lemma_decodes_unique(bytes.subrange((T0::spec_size()) as int, (T0::spec_size() + T1::spec_size()) as int), x.1, y.1);
        T2::lemma_decodes_unique(bytes.subrange((T0::spec_size() + T1::spec_size()) as int, (T0::spec_size() + T1::spec_size() + T2::spec_size()) as int), x.2, y.2);
        T3::lemma_decodes_unique(bytes.subrange((T0::spec_size() + T1::spec_size() + T2::spec_size()) as int, (T0::spec_size() + T1::spec_size() + T2::spec_size() + T3::spec_size()) as int), x.3, y.3);
        T4::lemma_decodes_unique(bytes.subrange((T0::spec_size() + T1::spec_size() + T2::spec_size() + T3::spec_size()) as int, (T0::spec_size() + T1::spec_size() + T2::spec_size() + T3::spec_size() + T4::spec_size()) as int), x.4, y.4);
        T5::lemma_decodes_unique(bytes.subrange((T0::spec_size() + T1::spec_size() + T2::spec_size() + T3::spec_size() + T4::spec_size()) as int, (T0::spec_size() + T1::spec_size() + T2::spec_size() + T3::spec_size() + T4::spec_size() + T5::spec_size()) as int), x.5, y.5);
        T6::lemma_decodes_unique(bytes.subrange((T0::spec_size() + T1::spec_size() + T2::spec_size() + T3::spec_size() + T4::spec_size() + T5::spec_size()) as int, (T0::spec_size() + T1::spec_size() + T2::spec_size() + T3::spec_size() + T4::spec_size() + T5::spec_size() + T6::spec_size()) as int), x.6, y.6);
    }

    proof fn lemma_round_trip(&self, bytes: Seq<u8>) {
        self.0.lemma_round_trip(bytes.subrange((0) as int, (T0::spec_size()) as int));
        self.1.lemma_round_trip(bytes.subrange((T0::spec_size()) as int, (T0::spec_size() + T1::spec_size()) as int));
        self.2.lemma_round_trip(bytes.subrange((T0::spec_size() + T1::spec_size()) as int, (T0::spec_size() + T1::spec_size() + T2::spec_size()) as int));
        self.3.lemma_round_trip(bytes.subrange((T0::spec_size() + T1::spec_size() + T2::spec_size()) as int, (T0::spec_size() + T1::spec_size() + T2::spec_size() + T3::spec_size()) as int));
        self.4.lemma_round_trip(bytes.subrange((T0::spec_size() + T1::spec_size() + T2::spec_size() + T3::spec_size()) as int, (T0::spec_size() + T1::spec_size() + T2::spec_size() + T3::spec_size() + T4::spec_size()) as int));
        self.5.lemma_round_trip(bytes.subrange((T0::spec_size() + T1::spec_size() + T2::spec_size() + T3::spec_size() + T4::spec_size()) as int, (T0::spec_size() + T1::spec_size() + T2::spec_size() + T3::spec_size() + T4::spec_size() + T5::spec_size()) as int));
        self.6.lemma_round_trip(bytes.subrange((T0::spec_size() + T1::spec_size() + T2::spec_size() + T3::spec_size() + T4::spec_size() + T5::spec_size()) as int, (T0::spec_size() + T1::spec_size() + T2::spec_size() + T3::spec_size() + T4::spec_size() + T5::spec_size() + T6::spec_size()) as int));
    }
}

/// Why the window of a tuple of 8 fields holds no valid value: the
/// position of the first field that failed, carrying that field's own error.
#[derive(Debug, Clone, Copy, PartialEq, Eq)]
pub enum TupleError8<E0, E1, E2, E3, E4, E5, E6, E7> {
    /// Field 0 failed, with its own error.
    Field0(E0),
    /// Field 1 failed, with its own error.
    Field1(E1),
    /// Field 2 failed, with its own error.
    Field2(E2),
    /// Field 3 failed, with its own error.
    Field3(E3),
    /// Field 4 failed, with its own error.
    Field4(E4),
    /// Field 5 failed, with its own error.
    Field5(E5),
    /// Field 6 failed, with its own error.
    Field6(E6),
    /// Field 7 failed, with its own error.
    Field7(E7),
}

impl<T0: SerialSize, T1: SerialSize, T2: SerialSize, T3: SerialSize, T4: SerialSize, T5: SerialSize, T6: SerialSize, T7: SerialSize> SerialSize for (T0, T1, T2, T3, T4, T5, T6, T7) {
    open spec fn spec_size() -> nat {
        T0::spec_size() + T1::spec_size() + T2::spec_size() + T3::spec_size() + T4::spec_size() + T5::spec_size() + T6::spec_size() + T7::spec_size()
    }

    fn size() -> (r: usize) {
        T0::size() + T1::size() + T2::size() + T3::size() + T4::size() + T5::size() + T6::size() + T7::size()
    }
}

impl<T0: Serialize, T1: Serialize, T2: Serialize, T3: Serialize, T4: Serialize, T5: Serialize, T6: Serialize, T7: Serialize> Serialize for (T0, T1, T2, T3, T4, T5, T6, T7) {
    open spec fn spec_encodes(&self, bytes: Seq<u8>) -> bool {
        &&& bytes.len() == Self::spec_size()
        &&& self.0.spec_encodes(bytes.subrange((0) as int, (T0::spec_size()) as int))
        &&& self.1.spec_encodes(bytes.subrange((T0::spec_size()) as int, (T0::spec_size() + T1::spec_size()) as int))
        &&& self.2.spec_encodes(bytes.subrange((T0::spec_size() + T1::spec_size()) as int, (T0::spec_size() + T1::spec_size() + T2::spec_size()) as int))
        &&& self.3.spec_encodes(bytes.subrange((T0::spec_size() + T1::spec_size() + T2::spec_size()) as int, (T0::spec_size() + T1::spec_size() + T2::spec_size() + T3::spec_size()) as int))
        &&& self.4.spec_encodes(bytes.subrange((T0::spec_size() + T1::spec_size() + T2::spec_size() + T3::spec_size()) as int, (T0::spec_size() + T1::spec_size() + T2::spec_size() + T3::spec_size() + T4::spec_size()) as int))
        &&& self.5.spec_encodes(bytes.subrange((T0::spec_size() + T1::spec_size() + T2::spec_size() + T3::spec_size() + T4::spec_size()) as int, (T0::spec_size() + T1::spec_size() + T2::spec_size() + T3::spec_size() + T4::spec_size() + T5::spec_size()) as int))
        &&& self.6.spec_encodes(bytes.subrange((T0::spec_size() + T1::spec_size() + T2::spec_size() + T3::spec_size() + T4::spec_size() + T5::spec_size()) as int, (T0::spec_size() + T1::spec_size() + T2::spec_size() + T3::spec_size() + T4::spec_size() + T5::spec_size() + T6::spec_size()) as int))
        &&& self.7.spec_encodes(bytes.subrange((T0::spec_size() + T1::spec_size() + T2::spec_size() + T3::spec_size() + T4::spec_size() + T5::spec_size() + T6::spec_size()) as int, (T0::spec_size() + T1::spec_size() + T2::spec_size() + T3::spec_size() + T4::spec_size() + T5::spec_size() + T6::spec_size() + T7::spec_size()) as int))
    }

    proof fn lemma_encoding_len(&self, bytes: Seq<u8>) {
    }

    proof fn lemma_zero_size(&self) {
        self.0.lemma_zero_size();
        self.1.lemma_zero_size();
        self.2.lemma_zero_size();
        self.3.lemma_zero_size();
        self.4.lemma_zero_size();
        self.5.lemma_zero_size();
        self.6.lemma_zero_size();
        self.7.lemma_zero_size();
        assert forall|lo: int, hi: int| 0 <= lo <= hi <= 0 implies #[trigger] Seq::<u8>::empty().subrange(lo, hi) =~= Seq::<u8>::empty() by {}
    }

    #[verifier::rlimit(60)]
    fn serialize(&self, buffer: &mut [u8]) {
        let total = buffer.len();
        assert(total == Self::spec_size());
        let n0 = T0::size();
        let n1 = T1::size();
        let n2 = T2::size();
        let n3 = T3::size();
        let n4 = T4::size();
        let n5 = T5::size();
        let n6 = T6::size();
        let (w0, rest0) = buffer.split_at_mut(n0);
        self.0.serialize(w0);
        let (w1, rest1) = rest0.split_at_mut(n1);
        self.1.serialize(w1);
        let (w2, rest2) = rest1.split_at_mut(n2);
        self.2.serialize(w2);
        let (w3, rest3) = rest2.split_at_mut(n3);
        self.3.serialize(w3);
        let (w4, rest4) = rest3.split_at_mut(n4);
        self.4.serialize(w4);
        let (w5, rest5) = rest4.split_at_mut(n5);
        self.5.serialize(w5);
        let (w6, rest6) = rest5.split_at_mut(n6);
        self.6.serialize(w6);
        self.7.serialize(rest6);
        proof {
            assert(final(buffer)@.subrange(0, final(buffer)@.len() as int) =~= final(buffer)@);
            lemma_split_window(final(buffer)@, (0) as int, final(w0)@, final(rest0)@);
            lemma_split_window(final(buffer)@, (T0::spec_size()) as int, final(w1)@, final(rest1)@);
            lemma_split_window(final(buffer)@, (T0::spec_size() + T1::spec_size()) as int, final(w2)@, final(rest2)@);
            lemma_split_window(final(buffer)@, (T0::spec_size() + T1::spec_size() + T2::spec_size()) as int, final(w3)@, final(rest3)@);
            lemma_split_window(final(buffer)@, (T0::spec_size() + T1::spec_size() + T2::spec_size() + T3::spec_size()) as int, final(w4)@, final(rest4)@);
            lemma_split_window(final(buffer)@, (T0::spec_size() + T1::spec_size() + T2::spec_size() + T3::spec_size() + T4::spec_size()) as int, final(w5)@, final(rest5)@);
            lemma_split_window(final(buffer)@, (T0::spec_size() + T1::spec_size() + T2::spec_size() + T3::spec_size() + T4::spec_size() + T5::spec_size()) as int, final(w6)@, final(rest6)@);
        }
    }
}

impl<T0: Deserialize, T1: Deserialize, T2: Deserialize, T3: Deserialize, T4: Deserialize, T5: Deserialize, T6: Deserialize, T7: Deserialize> Deserialize for (T0, T1, T2, T3, T4, T5, T6, T7) {
    type Error = TupleError8<T0::Error, T1::Error, T2::Error, T3::Error, T4::Error, T5::Error, T6::Error, T7::Error>;

    proof fn lemma_zero_size_accepts() {
        T0::lemma_zero_size_accepts();
        T1::lemma_zero_size_accepts();
        T2::lemma_zero_size_accepts();
        T3::lemma_zero_size_accepts();
        T4::lemma_zero_size_accepts();
        T5::lemma_zero_size_accepts();
        T6::lemma_zero_size_accepts();
        T7::lemma_zero_size_accepts();
        assert(Seq::<u8>::empty().subrange(0, 0) =~= Seq::<u8>::empty());
    }

    open spec fn spec_check(bytes: Seq<u8>) -> Result<(), Self::Error> {
        match T0::spec_check(bytes.subrange((0) as int, (T0::spec_size()) as int)) {
            Err(e) => Err(TupleError8::Field0(e)),
            Ok(()) => match T1::spec_check(bytes.subrange((T0::spec_size()) as int, (T0::spec_size() + T1::spec_size()) as int)) {
                Err(e) => Err(TupleError8::Field1(e)),
                Ok(()) => match T2::spec_check(bytes.subrange((T0::spec_size() + T1::spec_size()) as int, (T0::spec_size() + T1::spec_size() + T2::spec_size()) as int)) {
                    Err(e) => Err(TupleError8::Field2(e)),
                    Ok(()) => match T3::spec_check(bytes.subrange((T0::spec_size() + T1::spec_size() + T2::spec_size()) as int, (T0::spec_size() + T1::spec_size() + T2::spec_size() + T3::spec_size()) as int)) {
                        Err(e) => Err(TupleError8::Field3(e)),
                        Ok(()) => match T4::spec_check(bytes.subrange((T0::spec_size() + T1::spec_size() + T2::spec_size() + T3::spec_size()) as int, (T0::spec_size() + T1::spec_size() + T2::spec_size() + T3::spec_size() + T4::spec_size()) as int)) {
                            Err(e) => Err(TupleError8::Field4(e)),
                            Ok(()) => match T5::spec_check(bytes.subrange((T0::spec_size() + T1::spec_size() + T2::spec_size() + T3::spec_size() + T4::spec_size()) as int, (T0::spec_size() + T1::spec_size() + T2::spec_size() + T3::spec_size() + T4::spec_size() + T5::spec_size()) as int)) {
                                Err(e) => Err(TupleError8::Field5(e)),
                                Ok(()) => match T6::spec_check(bytes.subrange((T0::spec_size() + T1::spec_size() + T2::spec_size() + T3::spec_size() + T4::spec_size() + T5::spec_size()) as int, (T0::spec_size() + T1::spec_size() + T2::spec_size() + T3::spec_size() + T4::spec_size() + T5::spec_size() + T6::spec_size()) as int)) {
                                    Err(e) => Err(TupleError8::Field6(e)),
                                    Ok(()) => match T7::spec_check(bytes.subrange((T0::spec_size() + T1::spec_size() + T2::spec_size() + T3::spec_size() + T4::spec_size() + T5::spec_size() + T6::spec_size()) as int, (T0::spec_size() + T1::spec_size() + T2::spec_size() + T3::spec_size() + T4::spec_size() + T5::spec_size() + T6::spec_size() + T7::spec_size()) as int)) {
                                        Err(e) => Err(TupleError8::Field7(e)),
                                        Ok(()) => Ok(()),
                                    },
                                },
                            },
                        },
                    },
                },
            },
        }
    }

    open spec fn spec_decodes(bytes: Seq<u8>, value: Self) -> bool {
        &&& T0::spec_decodes(bytes.subrange((0) as int, (T0::spec_size()) as int), value.0)
        &&& T1::spec_decodes(bytes.subrange((T0::spec_size()) as int, (T0::spec_size() + T1::spec_size()) as int), value.1)
        &&& T2::spec_decodes(bytes.subrange((T0::spec_size() + T1::spec_size()) as int, (T0::spec_size() + T1::spec_size() + T2::spec_size()) as int), value.2)
        &&& T3::spec_decodes(bytes.subrange((T0::spec_size() + T1::spec_size() + T2::spec_size()) as int, (T0::spec_size() + T1::spec_size() + T2::spec_size() + T3::spec_size()) as int), value.3)
        &&& T4::spec_decodes(bytes.subrange((T0::spec_size() + T1::spec_size() + T2::spec_size() + T3::spec_size()) as int, (T0::spec_size() + T1::spec_size() + T2::spec_size() + T3::spec_size() + T4::spec_size()) as int), value.4)
        &&& T5::spec_decodes(bytes.subrange((T0::spec_size() + T1::spec_size() + T2::spec_size() + T3::spec_size() + T4::spec_size()) as int, (T0::spec_size() + T1::spec_size() + T2::spec_size() + T3::spec_size() + T4::spec_size() + T5::spec_size()) as int), value.5)
        &&& T6::spec_decodes(bytes.subrange((T0::spec_size() + T1::spec_size() + T2::spec_size() + T3::spec_size() + T4::spec_size() + T5::spec_size()) as int, (T0::spec_size() + T1::spec_size() + T2::spec_size() + T3::spec_size() + T4::spec_size() + T5::spec_size() + T6::spec_size()) as int), value.6)
        &&& T7::spec_decodes(bytes.subrange((T0::spec_size() + T1::spec_size() + T2::spec_size() + T3::spec_size() + T4::spec_size() + T5::spec_size() + T6::spec_size()) as int, (T0::spec_size() + T1::spec_size() + T2::spec_size() + T3::spec_size() + T4::spec_size() + T5::spec_size() + T6::spec_size() + T7::spec_size()) as int), value.7)
    }

    #[verifier::rlimit(60)]
    fn deserialize(buffer: &[u8]) -> (r: Result<Self, Self::Error>) {
        let total = buffer.len();
        assert(total == Self::spec_size());
        let n0 = T0::size();
        let n1 = T1::size();
        let n2 = T2::size();
        let n3 = T3::size();
        let n4 = T4::size();
        let n5 = T5::size();
        let n6 = T6::size();
        let (w0, rest0) = buffer.split_at(n0);
        assert(w0@ == buffer@.subrange((0) as int, (T0::spec_size()) as int));
        let v0 = match T0::deserialize(w0) {
            Ok(v) => v,
            Err(e) => {
                return Err(TupleError8::Field0(e));
            },
        };
        let (w1, rest1) = rest0.split_at(n1);
        assert(w1@ == buffer@.subrange((T0::spec_size()) as int, (T0::spec_size() + T1::spec_size()) as int));
        let v1 = match T1::deserialize(w1) {
            Ok(v) => v,
            Err(e) => {
                return Err(TupleError8::Field1(e));
            },
        };
        let (w2, rest2) = rest1.split_at(n2);
        assert(w2@ == buffer@.subrange((T0::spec_size() + T1::spec_size()) as int, (T0::spec_size() + T1::spec_size() + T2::spec_size()) as int));
        let v2 = match T2::deserialize(w2) {
            Ok(v) => v,
            Err(e) => {
                return Err(TupleError8::Field2(e));
            },
        };
        let (w3, rest3) = rest2.split_at(n3);
        assert(w3@ == buffer@.subrange((T0::spec_size() + T1::spec_size() + T2::spec_size()) as int, (T0::spec_size() + T1::spec_size() + T2::spec_size() + T3::spec_size()) as int));
        let v3 = match T3::deserialize(w3) {
            Ok(v) => v,
            Err(e) => {
                return Err(TupleError8::Field3(e));
            },
        };
        let (w4, rest4) = rest3.split_at(n4);
        assert(w4@ == buffer@.subrange((T0::spec_size() + T1::spec_size() + T2::spec_size() + T3::spec_size()) as int, (T0::spec_size() + T1::spec_size() + T2::spec_size() + T3::spec_size() + T4::spec_size()) as int));
        let v4 = match T4::deserialize(w4) {
            Ok(v) => v,
            Err(e) => {
                return Err(TupleError8::Field4(e));
            },
        };
        let (w5, rest5) = rest4.split_at(n5);
        assert(w5@ == buffer@.subrange((T0::spec_size() + T1::spec_size() + T2::spec_size() + T3::spec_size() + T4::spec_size()) as int, (T0::spec_size() + T1::spec_size() + T2::spec_size() + T3::spec_size() + T4::spec_size() + T5::spec_size()) as int));
        let v5 = match T5::deserialize(w5) {
            Ok(v) => v,
            Err(e) => {
                return Err(TupleError8::Field5(e));
            },
        };
        let (w6, rest6) = rest5.split_at(n6);
        assert(w6@ == buffer@.subrange((T0::spec_size() + T1::spec_size() + T2::spec_size() + T3::spec_size() + T4::spec_size() + T5::spec_size()) as int, (T0::spec_size() + T1::spec_size() + T2::spec_size() + T3::spec_size() + T4::spec_size() + T5::spec_size() + T6::spec_size()) as int));
        let v6 = match T6::deserialize(w6) {
            Ok(v) => v,
            Err(e) => {
                return Err(TupleError8::Field6(e));
            },
        };
        assert(rest6@ == buffer@.subrange((T0::spec_size() + T1::spec_size() + T2::spec_size() + T3::spec_size() + T4::spec_size() + T5::spec_size() + T6::spec_size()) as int, (T0::spec_size() + T1::spec_size() + T2::spec_size() + T3::spec_size() + T4::spec_size() + T5::spec_size() + T6::spec_size() + T7::spec_size()) as int));
        let v7 = match T7::deserialize(rest6) {
            Ok(v) => v,
            Err(e) => {
                return Err(TupleError8::Field7(e));
            },
        };
        Ok((v0, v1, v2, v3, v4, v5, v6, v7))
    }
}

impl<T0: RoundTrip, T1: RoundTrip, T2: RoundTrip, T3: RoundTrip, T4: RoundTrip, T5: RoundTrip, T6: RoundTrip, T7: RoundTrip> RoundTrip for (T0, T1, T2, T3, T4, T5, T6, T7) {
    proof fn lemma_decodes_unique(bytes: Seq<u8>, x: Self, y: Self) {
        T0::lemma_decodes_unique(bytes.subrange((0) as int, (T0::spec_size()) as int), x.0, y.0);
        T1::lemma_decodes_unique(bytes.subrange((T0::spec_size()) as int, (T0::spec_size() + T1::spec_size()) as int), x.1, y.1);
        T2::lemma_decodes_unique(bytes.subrange((T0::spec_size() + T1::spec_size()) as int, (T0::spec_size() + T1::spec_size() + T2::spec_size()) as int), x.2, y.2);
        T3::lemma_decodes_unique(bytes.subrange((T0::spec_size() + T1::spec_size() + T2::spec_size()) as int, (T0::spec_size() + T1::spec_size() + T2::spec_size() + T3::spec_size()) as int), x.3, y.3);
        T4::lemma_decodes_unique(bytes.subrange((T0::spec_size() + T1::spec_size() + T2::spec_size() + T3::spec_size()) as int, (T0::spec_size() + T1::spec_size() + T2::spec_size() + T3::spec_size() + T4::spec_size()) as int), x.4, y.4);
        T5::lemma_decodes_unique(bytes.subrange((T0::spec_size() + T1::spec_size() + T2::spec_size() + T3::spec_size() + T4::spec_size()) as int, (T0::spec_size() + T1::spec_size() + T2::spec_size() + T3::spec_size() + T4::spec_size() + T5::spec_size()) as int), x.5, y.5);
        T6::lemma_decodes_unique(bytes.subrange((T0::spec_size() + T1::spec_size() + T2::spec_size() + T3::spec_size() + T4::spec_size() + T5::spec_size()) as int, (T0::spec_size() + T1::spec_size() + T2::spec_size() + T3::spec_size() + T4::spec_size() + T5::spec_size() + T6::spec_size()) as int), x.6, y.6);
        T7::lemma_decodes_unique(bytes.subrange((T0::spec_size() + T1::spec_size() + T2::spec_size() + T3::spec_size() + T4::spec_size() + T5::spec_size() + T6::spec_size()) as int, (T0::spec_size() + T1::spec_size() + T2::spec_size() + T3::spec_size() + T4::spec_size() + T5::spec_size() + T6::spec_size() + T7::spec_size()) as int), x.7, y.7);
    }

    proof fn lemma_round_trip(&self, bytes: Seq<u8>) {
        self.0.lemma_round_trip(bytes.subrange((0) as int, (T0::spec_size()) as int));
        self.1.lemma_round_trip(bytes.subrange((T0::spec_size()) as int, (T0::spec_size() + T1::spec_size()) as int));
        self.2.lemma_round_trip(bytes.subrange((T0::spec_size() + T1::spec_size()) as int, (T0::spec_size() + T1::spec_size() + T2::spec_size()) as int));
        self.3.lemma_round_trip(bytes.subrange((T0::spec_size() + T1::spec_size() + T2::spec_size()) as int, (T0::spec_size() + T1::spec_size() + T2::spec_size() + T3::spec_size()) as int));
        self.4.lemma_round_trip(bytes.subrange((T0::spec_size() + T1::spec_size() + T2::spec_size() + T3::spec_size()) as int, (T0::spec_size() + T1::spec_size() + T2::spec_size() + T3::spec_size() + T4::spec_size()) as int));
        self.5.lemma_round_trip(bytes.subrange((T0::spec_size() + T1::spec_size() + T2::spec_size() + T3::spec_size() + T4::spec_size()) as int, (T0::spec_size() + T1::spec_size() + T2::spec_size() + T3::spec_size() + T4::spec_size() + T5::spec_size()) as int));
        self.6.lemma_round_trip(bytes.subrange((T0::spec_size() + T1::spec_size() + T2::spec_size() + T3::spec_size() + T4::spec_size() + T5::spec_size()) as int, (T0::spec_size() + T1::spec_size() + T2::spec_size() + T3::spec_size() + T4::spec_size() + T5::spec_size() + T6::spec_size()) as int));
        self.7.lemma_round_trip(bytes.subrange((T0::spec_size() + T1::spec_size() + T2::spec_size() + T3::spec_size() + T4::spec_size() + T5::spec_size() + T6::spec_size()) as int, (T0::spec_size() + T1::spec_size() + T2::spec_size() + T3::spec_size() + T4::spec_size() + T5::spec_size() + T6::spec_size() + T7::spec_size()) as int));
    }
}

/// Why the window of a tuple of 9 fields holds no valid value: the
/// position of the first field that failed, carrying that field's own error.
#[derive(Debug, Clone, Copy, PartialEq, Eq)]
pub enum TupleError9<E0, E1, E2, E3, E4, E5, E6, E7, E8> {
    /// Field 0 failed, with its own error.
    Field0(E0),
    /// Field 1 failed, with its own error.
    Field1(E1),
    /// Field 2 failed, with its own error.
    Field2(E2),
    /// Field 3 failed, with its own error.
    Field3(E3),
    /// Field 4 failed, with its own error.
    Field4(E4),
    /// Field 5 failed, with its own error.
    Field5(E5),
    /// Field 6 failed, with its own error.
    Field6(E6),
    /// Field 7 failed, with its own error.
    Field7(E7),
    /// Field 8 failed, with its own error.
    Field8(E8),
}

impl<T0: SerialSize, T1: SerialSize, T2: SerialSize, T3: SerialSize, T4: SerialSize, T5: SerialSize, T6: SerialSize, T7: SerialSize, T8: SerialSize> SerialSize for (T0, T1, T2, T3, T4, T5, T6, T7, T8) {
    open spec fn spec_size() -> nat {
        T0::spec_size() + T1::spec_size() + T2::spec_size() + T3::spec_size() + T4::spec_size() + T5::spec_size() + T6::spec_size() + T7::spec_size() + T8::spec_size()
    }

    fn size() -> (r: usize) {
        T0::size() + T1::size() + T2::size() + T3::size() + T4::size() + T5::size() + T6::size() + T7::size() + T8::size()
    }
}

impl<T0: Serialize, T1: Serialize, T2: Serialize, T3: Serialize, T4: Serialize, T5: Serialize, T6: Serialize, T7: Serialize, T8: Serialize> Serialize for (T0, T1, T2, T3, T4, T5, T6, T7, T8) {
    open spec fn spec_encodes(&self, bytes: Seq<u8>) -> bool {
        &&& bytes.len() == Self::spec_size()
        &&& self.0.spec_encodes(bytes.subrange((0) as int, (T0::spec_size()) as int))
        &&& self.1.spec_encodes(bytes.subrange((T0::spec_size()) as int, (T0::spec_size() + T1::spec_size()) as int))
        &&& self.2.spec_encodes(bytes.subrange((T0::spec_size() + T1::spec_size()) as int, (T0::spec_size() + T1::spec_size() + T2::spec_size()) as int))
        &&& self.3.spec_encodes(bytes.subrange((T0::spec_size() + T1::spec_size() + T2::spec_size()) as int, (T0::spec_size() + T1::spec_size() + T2::spec_size() + T3::spec_size()) as int))
        &&& self.4.spec_encodes(bytes.subrange((T0::spec_size() + T1::spec_size() + T2::spec_size() + T3::spec_size()) as int, (T0::spec_size() + T1::spec_size() + T2::spec_size() + T3::spec_size() + T4::spec_size()) as int))
        &&& self.5.spec_encodes(bytes.subrange((T0::spec_size() + T1::spec_size() + T2::spec_size() + T3::spec_size() + T4::spec_size()) as int, (T0::spec_size() + T1::spec_size() + T2::spec_size() + T3::spec_size() + T4::spec_size() + T5::spec_size()) as int))
        &&& self.6.spec_encodes(bytes.subrange((T0::spec_size() + T1::spec_size() + T2::spec_size() + T3::spec_size() + T4::spec_size() + T5::spec_size()) as int, (T0::spec_size() + T1::spec_size() + T2::spec_size() + T3::spec_size() + T4::spec_size() + T5::spec_size() + T6::spec_size()) as int))
        &&& self.7.spec_encodes(bytes.subrange((T0::spec_size() + T1::spec_size() + T2::spec_size() + T3::spec_size() + T4::spec_size() + T5::spec_size() + T6::spec_size()) as int, (T0::spec_size() + T1::spec_size() + T2::spec_size() + T3::spec_size() + T4::spec_size() + T5::spec_size() + T6::spec_size() + T7::spec_size()) as int))
        &&& self.8.spec_encodes(bytes.subrange((T0::spec_size() + T1::spec_size() + T2::spec_size() + T3::spec_size() + T4::spec_size() + T5::spec_size() + T6::spec_size() + T7::spec_size()) as int, (T0::spec_size() + T1::spec_size() + T2::spec_size() + T3::spec_size() + T4::spec_size() + T5::spec_size() + T6::spec_size() + T7::spec_size() + T8::spec_size()) as int))
    }

    proof fn lemma_encoding_len(&self, bytes: Seq<u8>) {
    }

    proof fn lemma_zero_size(&self) {
        self.0.lemma_zero_size();
        self.1.lemma_zero_size();
        self.2.lemma_zero_size();
        self.3.lemma_zero_size();
        self.4.lemma_zero_size();
        self.5.lemma_zero_size();
        self.6.lemma_zero_size();
        self.7.lemma_zero_size();
        self.8.lemma_zero_size();
        assert forall|lo: int, hi: int| 0 <= lo <= hi <= 0 implies #[trigger] Seq::<u8>::empty().subrange(lo, hi) =~= Seq::<u8>::empty() by {}
    }

    #[verifier::rlimit(60)]
    fn serialize(&self, buffer: &mut [u8]) {
        let total = buffer.len();
        assert(total == Self::spec_size());
        let n0 = T0::size();
        let n1 = T1::size();
        let n2 = T2::size();
        let n3 = T3::size();
        let n4 = T4::size();
        let n5 = T5::size();
        let n6 = T6::size();
        let n7 = T7::size();
        let (w0, rest0) = buffer.split_at_mut(n0);
        self.0.serialize(w0);
        let (w1, rest1) = rest0.split_at_mut(n1);
        self.1.serialize(w1);
        let (w2, rest2) = rest1.split_at_mut(n2);
        self.2.serialize(w2);
        let (w3, rest3) = rest2.split_at_mut(n3);
        self.3.serialize(w3);
        let (w4, rest4) = rest3.split_at_mut(n4);
        self.4.serialize(w4);
        let (w5, rest5) = rest4.split_at_mut(n5);
        self.5.serialize(w5);
        let (w6, rest6) = rest5.split_at_mut(n6);
        self.6.serialize(w6);
        let (w7, rest7) = rest6.split_at_mut(n7);
        self.7.serialize(w7);
        self.8.serialize(rest7);
        proof {
            assert(final(buffer)@.subrange(0, final(buffer)@.len() as int) =~= final(buffer)@);
            lemma_split_window(final(buffer)@, (0) as int, final(w0)@, final(rest0)@);
            lemma_split_window(final(buffer)@, (T0::spec_size()) as int, final(w1)@, final(rest1)@);
            lemma_split_window(final(buffer)@, (T0::spec_size() + T1::spec_size()) as int, final(w2)@, final(rest2)@);
            lemma_split_window(final(buffer)@, (T0::spec_size() + T1::spec_size() + T2::spec_size()) as int, final(w3)@, final(rest3)@);
            lemma_split_window(final(buffer)@, (T0::spec_size() + T1::spec_size() + T2::spec_size() + T3::spec_size()) as int, final(w4)@, final(rest4)@);
            lemma_split_window(final(buffer)@, (T0::spec_size() + T1::spec_size() + T2::spec_size() + T3::spec_size() + T4::spec_size()) as int, final(w5)@, final(rest5)@);
            lemma_split_window(final(buffer)@, (T0::spec_size() + T1::spec_size() + T2::spec_size() + T3::spec_size() + T4::spec_size() + T5::spec_size()) as int, final(w6)@, final(rest6)@);
            lemma_split_window(final(buffer)@, (T0::spec_size() + T1::spec_size() + T2::spec_size() + T3::spec_size() + T4::spec_size() + T5::spec_size() + T6::spec_size()) as int, final(w7)@, final(rest7)@);
        }
    }
}

impl<T0: Deserialize, T1: Deserialize, T2: Deserialize, T3: Deserialize, T4: Deserialize, T5: Deserialize, T6: Deserialize, T7: Deserialize, T8: Deserialize> Deserialize for (T0, T1, T2, T3, T4, T5, T6, T7, T8) {
    type Error = TupleError9<T0::Error, T1::Error, T2::Error, T3::Error, T4::Error, T5::Error, T6::Error, T7::Error, T8::Error>;

    proof fn lemma_zero_size_accepts() {
        T0::lemma_zero_size_accepts();
        T1::lemma_zero_size_accepts();
        T2::lemma_zero_size_accepts();
        T3::lemma_zero_size_accepts();
        T4::lemma_zero_size_accepts();
        T5::lemma_zero_size_accepts();
        T6::lemma_zero_size_accepts();
        T7::lemma_zero_size_accepts();
        T8::lemma_zero_size_accepts();
        assert(Seq::<u8>::empty().subrange(0, 0) =~= Seq::<u8>::empty());
    }

    open spec fn spec_check(bytes: Seq<u8>) -> Result<(), Self::Error> {
        match T0::spec_check(bytes.subrange((0) as int, (T0::spec_size()) as int)) {
            Err(e) => Err(TupleError9::Field0(e)),
            Ok(()) => match T1::spec_check(bytes.subrange((T0::spec_size()) as int, (T0::spec_size() + T1::spec_size()) as int)) {
                Err(e) => Err(TupleError9::Field1(e)),
                Ok(()) => match T2::spec_check(bytes.subrange((T0::spec_size() + T1::spec_size()) as int, (T0::spec_size() + T1::spec_size() + T2::spec_size()) as int)) {
                    Err(e) => Err(TupleError9::Field2(e)),
                    Ok(()) => match T3::spec_check(bytes.subrange((T0::spec_size() + T1::spec_size() + T2::spec_size()) as int, (T0::spec_size() + T1::spec_size() + T2::spec_size() + T3::spec_size()) as int)) {
                        Err(e) => Err(TupleError9::Field3(e)),
                        Ok(()) => match T4::spec_check(bytes.subrange((T0::spec_size() + T1::spec_size() + T2::spec_size() + T3::spec_size()) as int, (T0::spec_size() + T1::spec_size() + T2::spec_size() + T3::spec_size() + T4::spec_size()) as int)) {
                            Err(e) => Err(TupleError9::Field4(e)),
                            Ok(()) => match T5::spec_check(bytes.subrange((T0::spec_size() + T1::spec_size() + T2::spec_size() + T3::spec_size() + T4::spec_size()) as int, (T0::spec_size() + T1::spec_size() + T2::spec_size() + T3::spec_size() + T4::spec_size() + T5::spec_size()) as int)) {
                                Err(e) => Err(TupleError9::Field5(e)),
                                Ok(()) => match T6::spec_check(bytes.subrange((T0::spec_size() + T1::spec_size() + T2::spec_size() + T3::spec_size() + T4::spec_size() + T5::spec_size()) as int, (T0::spec_size() + T1::spec_size() + T2::spec_size() + T3::spec_size() + T4::spec_size() + T5::spec_size() + T6::spec_size()) as int)) {
                                    Err(e) => Err(TupleError9::Field6(e)),
                                    Ok(()) => match T7::spec_check(bytes.subrange((T0::spec_size() + T1::spec_size() + T2::spec_size() + T3::spec_size() + T4::spec_size() + T5::spec_size() + T6::spec_size()) as int, (T0::spec_size() + T1::spec_size() + T2::spec_size() + T3::spec_size() + T4::spec_size() + T5::spec_size() + T6::spec_size() + T7::spec_size()) as int)) {
                                        Err(e) => Err(TupleError9::Field7(e)),
                                        Ok(()) => match T8::spec_check(bytes.subrange((T0::spec_size() + T1::spec_size() + T2::spec_size() + T3::spec_size() + T4::spec_size() + T5::spec_size() + T6::spec_size() + T7::spec_size()) as int, (T0::spec_size() + T1::spec_size() + T2::spec_size() + T3::spec_size() + T4::spec_size() + T5::spec_size() + T6::spec_size() + T7::spec_size() + T8::spec_size()) as int)) {
                                            Err(e) => Err(TupleError9::Field8(e)),
                                            Ok(()) => Ok(()),
                                        },
                                    },
                                },
                            },
                        },
                    },
                },
            },
        }
    }

    open spec fn spec_decodes(bytes: Seq<u8>, value: Self) -> bool {
        &&& T0::spec_decodes(bytes.subrange((0) as int, (T0::spec_size()) as int), value.0)
        &&& T1::spec_decodes(bytes.subrange((T0::spec_size()) as int, (T0::spec_size() + T1::spec_size()) as int), value.1)
        &&& T2::spec_decodes(bytes.subrange((T0::spec_size() + T1::spec_size()) as int, (T0::spec_size() + T1::spec_size() + T2::spec_size()) as int), value.2)
        &&& T3::spec_decodes(bytes.subrange((T0::spec_size() + T1::spec_size() + T2::spec_size()) as int, (T0::spec_size() + T1::spec_size() + T2::spec_size() + T3::spec_size()) as int), value.3)
        &&& T4::spec_decodes(bytes.subrange((T0::spec_size() + T1::spec_size() + T2::spec_size() + T3::spec_size()) as int, (T0::spec_size() + T1::spec_size() + T2::spec_size() + T3::spec_size() + T4::spec_size()) as int), value.4)
        &&& T5::spec_decodes(bytes.subrange((T0::spec_size() + T1::spec_size() + T2::spec_size() + T3::spec_size() + T4::spec_size()) as int, (T0::spec_size() + T1::spec_size() + T2::spec_size() + T3::spec_size() + T4::spec_size() + T5::spec_size()) as int), value.5)
        &&& T6::spec_decodes(bytes.subrange((T0::spec_size() + T1::spec_size() + T2::spec_size() + T3::spec_size() + T4::spec_size() + T5::spec_size()) as int, (T0::spec_size() + T1::spec_size() + T2::spec_size() + T3::spec_size() + T4::spec_size() + T5::spec_size() + T6::spec_size()) as int), value.6)
        &&& T7::spec_decodes(bytes.subrange((T0::spec_size() + T1::spec_size() + T2::spec_size() + T3::spec_size() + T4::spec_size() + T5::spec_size() + T6::spec_size()) as int, (T0::spec_size() + T1::spec_size() + T2::spec_size() + T3::spec_size() + T4::spec_size() + T5::spec_size() + T6::spec_size() + T7::spec_size()) as int), value.7)
        &&& T8::spec_decodes(bytes.subrange((T0::spec_size() + T1::spec_size() + T2::spec_size() + T3::spec_size() + T4::spec_size() + T5::spec_size() + T6::spec_size() + T7::spec_size()) as int, (T0::spec_size() + T1::spec_size() + T2::spec_size() + T3::spec_size() + T4::spec_size() + T5::spec_size() + T6::spec_size() + T7::spec_size() + T8::spec_size()) as int), value.8)
    }

    #[verifier::rlimit(60)]
    fn deserialize(buffer: &[u8]) -> (r: Result<Self, Self::Error>) {
        let total = buffer.len();
        assert(total == Self::spec_size());
        let n0 = T0::size();
        let n1 = T1::size();
        let n2 = T2::size();
        let n3 = T3::size();
        let n4 = T4::size();
        let n5 = T5::size();
        let n6 = T6::size();
        let n7 = T7::size();
        let (w0, rest0) = buffer.split_at(n0);
        assert(w0@ == buffer@.subrange((0) as int, (T0::spec_size()) as int));
        let v0 = match T0::deserialize(w0) {
            Ok(v) => v,
            Err(e) => {
                return Err(TupleError9::Field0(e));
            },
        };
        let (w1, rest1) = rest0.split_at(n1);
        assert(w1@ == buffer@.subrange((T0::spec_size()) as int, (T0::spec_size() + T1::spec_size()) as int));
        let v1 = match T1::deserialize(w1) {
            Ok(v) => v,
            Err(e) => {
                return Err(TupleError9::Field1(e));
            },
        };
        let (w2, rest2) = rest1.split_at(n2);
        assert(w2@ == buffer@.subrange((T0::spec_size() + T1::spec_size()) as int, (T0::spec_size() + T1::spec_size() + T2::spec_size()) as int));
        let v2 = match T2::deserialize(w2) {
            Ok(v) => v,
            Err(e) => {
                return Err(TupleError9::Field2(e));
            },
        };
        let (w3, rest3) = rest2.split_at(n3);
        assert(w3@ == buffer@.subrange((T0::spec_size() + T1::spec_size() + T2::spec_size()) as int, (T0::spec_size() + T1::spec_size() + T2::spec_size() + T3::spec_size()) as int));
        let v3 = match T3::deserialize(w3) {
            Ok(v) => v,
            Err(e) => {
                return Err(TupleError9::Field3(e));
            },
        };
        let (w4, rest4) = rest3.split_at(n4);
        assert(w4@ == buffer@.subrange((T0::spec_size() + T1::spec_size() + T2::spec_size() + T3::spec_size()) as int, (T0::spec_size() + T1::spec_size() + T2::spec_size() + T3::spec_size() + T4::spec_size()) as int));
        let v4 = match T4::deserialize(w4) {
            Ok(v) => v,
            Err(e) => {
                return Err(TupleError9::Field4(e));
            },
        };
        let (w5, rest5) = rest4.split_at(n5);
        assert(w5@ == buffer@.subrange((T0::spec_size() + T1::spec_size() + T2::spec_size() + T3::spec_size() + T4::spec_size()) as int, (T0::spec_size() + T1::spec_size() + T2::spec_size() + T3::spec_size() + T4::spec_size() + T5::spec_size()) as int));
        let v5 = match T5::deserialize(w5) {
            Ok(v) => v,
            Err(e) => {
                return Err(TupleError9::Field5(e));
            },
        };
        let (w6, rest6) = rest5.split_at(n6);
        assert(w6@ == buffer@.subrange((T0::spec_size() + T1::spec_size() + T2::spec_size() + T3::spec_size() + T4::spec_size() + T5::spec_size()) as int, (T0::spec_size() + T1::spec_size() + T2::spec_size() + T3::spec_size() + T4::spec_size() + T5::spec_size() + T6::spec_size()) as int));
        let v6 = match T6::deserialize(w6) {
            Ok(v) => v,
            Err(e) => {
                return Err(TupleError9::Field6(e));
            },
        };
        let (w7, rest7) = rest6.split_at(n7);
        assert(w7@ == buffer@.subrange((T0::spec_size() + T1::spec_size() + T2::spec_size() + T3::spec_size() + T4::spec_size() + T5::spec_size() + T6::spec_size()) as int, (T0::spec_size() + T1::spec_size() + T2::spec_size() + T3::spec_size() + T4::spec_size() + T5::spec_size() + T6::spec_size() + T7::spec_size()) as int));
        let v7 = match T7::deserialize(w7) {
            Ok(v) => v,
            Err(e) => {
                return Err(TupleError9::Field7(e));
            },
        };
        assert(rest7@ == buffer@.subrange((T0::spec_size() + T1::spec_size() + T2::spec_size() + T3::spec_size() + T4::spec_size() + T5::spec_size() + T6::spec_size() + T7::spec_size()) as int, (T0::spec_size() + T1::spec_size() + T2::spec_size() + T3::spec_size() + T4::spec_size() + T5::spec_size() + T6::spec_size() + T7::spec_size() + T8::spec_size()) as int));
        let v8 = match T8::deserialize(rest7) {
            Ok(v) => v,
            Err(e) => {
                return Err(TupleError9::Field8(e));
            },
        };
        Ok((v0, v1, v2, v3, v4, v5, v6, v7, v8))
    }
}

impl<T0: RoundTrip, T1: RoundTrip, T2: RoundTrip, T3: RoundTrip, T4: RoundTrip, T5: RoundTrip, T6: RoundTrip, T7: RoundTrip, T8: RoundTrip> RoundTrip for (T0, T1, T2, T3, T4, T5, T6, T7, T8) {
    proof fn lemma_decodes_unique(bytes: Seq<u8>, x: Self, y: Self) {
        T0::lemma_decodes_unique(bytes.subrange((0) as int, (T0::spec_size()) as int), x.0, y.0);
        T1::lemma_decodes_unique(bytes.subrange((T0::spec_size()) as int, (T0::spec_size() + T1::spec_size()) as int), x.1, y.1);
        T2::lemma_decodes_unique(bytes.subrange((T0::spec_size() + T1::spec_size()) as int, (T0::spec_size() + T1::spec_size() + T2::spec_size()) as int), x.2, y.2);
        T3::lemma_decodes_unique(bytes.subrange((T0::spec_size() + T1::spec_size() + T2::spec_size()) as int, (T0::spec_size() + T1::spec_size() + T2::spec_size() + T3::spec_size()) as int), x.3, y.3);
        T4::lemma_decodes_unique(bytes.subrange((T0::spec_size() + T1::spec_size() + T2::spec_size() + T3::spec_size()) as int, (T0::spec_size() + T1::spec_size() + T2::spec_size() + T3::spec_size() + T4::spec_size()) as int), x.4, y.4);
        T5::lemma_decodes_unique(bytes.subrange((T0::spec_size() + T1::spec_size() + T2::spec_size() + T3::spec_size() + T4::spec_size()) as int, (T0::spec_size() + T1::spec_size() + T2::spec_size() + T3::spec_size() + T4::spec_size() + T5::spec_size()) as int), x.5, y.5);
        T6::lemma_decodes_unique(bytes.subrange((T0::spec_size() + T1::spec_size() + T2::spec_size() + T3::spec_size() + T4::spec_size() + T5::spec_size()) as int, (T0::spec_size() + T1::spec_size() + T2::spec_size() + T3::spec_size() + T4::spec_size() + T5::spec_size() + T6::spec_size()) as int), x.6, y.6);
        T7::lemma_decodes_unique(bytes.subrange((T0::spec_size() + T1::spec_size() + T2::spec_size() + T3::spec_size() + T4::spec_size() + T5::spec_size() + T6::spec_size()) as int, (T0::spec_size() + T1::spec_size() + T2::spec_size() + T3::spec_size() + T4::spec_size() + T5::spec_size() + T6::spec_size() + T7::spec_size()) as int), x.7, y.7);
        T8::lemma_decodes_unique(bytes.subrange((T0::spec_size() + T1::spec_size() + T2::spec_size() + T3::spec_size() + T4::spec_size() + T5::spec_size() + T6::spec_size() + T7::spec_size()) as int, (T0::spec_size() + T1::spec_size() + T2::spec_size() + T3::spec_size() + T4::spec_size() + T5::spec_size() + T6::spec_size() + T7::spec_size() + T8::spec_size()) as int), x.8, y.8);
    }

    proof fn lemma_round_trip(&self, bytes: Seq<u8>) {
        self.0.lemma_round_trip(bytes.subrange((0) as int, (T0::spec_size()) as int));
        self.1.lemma_round_trip(bytes.subrange((T0::spec_size()) as int, (T0::spec_size() + T1::spec_size()) as int));
        self.2.lemma_round_trip(bytes.subrange((T0::spec_size() + T1::spec_size()) as int, (T0::spec_size() + T1::spec_size() + T2::spec_size()) as int));
        self.3.lemma_round_trip(bytes.subrange((T0::spec_size() + T1::spec_size() + T2::spec_size()) as int, (T0::spec_size() + T1::spec_size() + T2::spec_size() + T3::spec_size()) as int));
        self.4.lemma_round_trip(bytes.subrange((T0::spec_size() + T1::spec_size() + T2::spec_size() + T3::spec_size()) as int, (T0::spec_size() + T1::spec_size() + T2::spec_size() + T3::spec_size() + T4::spec_size()) as int));
        self.5.lemma_round_trip(bytes.subrange((T0::spec_size() + T1::spec_size() + T2::spec_size() + T3::spec_size() + T4::spec_size()) as int, (T0::spec_size() + T1::spec_size() + T2::spec_size() + T3::spec_size() + T4::spec_size() + T5::spec_size()) as int));
        self.6.lemma_round_trip(bytes.subrange((T0::spec_size() + T1::spec_size() + T2::spec_size() + T3::spec_size() + T4::spec_size() + T5::spec_size()) as int, (T0::spec_size() + T1::spec_size() + T2::spec_size() + T3::spec_size() + T4::spec_size() + T5::spec_size() + T6::spec_size()) as int));
        self.7.lemma_round_trip(bytes.subrange((T0::spec_size() + T1::spec_size() + T2::spec_size() + T3::spec_size() + T4::spec_size() + T5::spec_size() + T6::spec_size()) as int, (T0::spec_size() + T1::spec_size() + T2::spec_size() + T3::spec_size() + T4::spec_size() + T5::spec_size() + T6::spec_size() + T7::spec_size()) as int));
        self.8.lemma_round_trip(bytes.subrange((T0::spec_size() + T1::spec_size() + T2::spec_size() + T3::spec_size() + T4::spec_size() + T5::spec_size() + T6::spec_size() + T7::spec_size()) as int, (T0::spec_size() + T1::spec_size() + T2::spec_size() + T3::spec_size() + T4::spec_size() + T5::spec_size() + T6::spec_size() + T7::spec_size() + T8::spec_size()) as int));
    }
}

/// Why the window of a tuple of 10 fields holds no valid value: the
/// position of the first field that failed, carrying that field's own error.
#[derive(Debug, Clone, Copy, PartialEq, Eq)]
pub enum TupleError10<E0, E1, E2, E3, E4, E5, E6, E7, E8, E9> {
    /// Field 0 failed, with its own error.
    Field0(E0),
    /// Field 1 failed, with its own error.
    Field1(E1),
    /// Field 2 failed, with its own error.
    Field2(E2),
    /// Field 3 failed, with its own error.
    Field3(E3),
    /// Field 4 failed, with its own error.
    Field4(E4),
    /// Field 5 failed, with its own error.
    Field5(E5),
    /// Field 6 failed, with its own error.
    Field6(E6),
    /// Field 7 failed, with its own error.
    Field7(E7),
    /// Field 8 failed, with its own error.
    Field8(E8),
    /// Field 9 failed, with its own error.
    Field9(E9),
}

impl<T0: SerialSize, T1: SerialSize, T2: SerialSize, T3: SerialSize, T4: SerialSize, T5: SerialSize, T6: SerialSize, T7: SerialSize, T8: SerialSize, T9: SerialSize> SerialSize for (T0, T1, T2, T3, T4, T5, T6, T7, T8, T9) {
    open spec fn spec_size() -> nat {
        T0::spec_size() + T1::spec_size() + T2::spec_size() + T3::spec_size() + T4::spec_size() + T5::spec_size() + T6::spec_size() + T7::spec_size() + T8::spec_size() + T9::spec_size()
    }

    fn size() -> (r: usize) {
        T0::size() + T1::size() + T2::size() + T3::size() + T4::size() + T5::size() + T6::size() + T7::size() + T8::size() + T9::size()
    }
}

impl<T0: Serialize, T1: Serialize, T2: Serialize, T3: Serialize, T4: Serialize, T5: Serialize, T6: Serialize, T7: Serialize, T8: Serialize, T9: Serialize> Serialize for (T0, T1, T2, T3, T4, T5, T6, T7, T8, T9) {
    open spec fn spec_encodes(&self, bytes: Seq<u8>) -> bool {
        &&& bytes.len() == Self::spec_size()
        &&& self.0.spec_encodes(bytes.subrange((0) as int, (T0::spec_size()) as int))
        &&& self.1.spec_encodes(bytes.subrange((T0::spec_size()) as int, (T0::spec_size() + T1::spec_size()) as int))
        &&& self.2.spec_encodes(bytes.subrange((T0::spec_size() + T1::spec_size()) as int, (T0::spec_size() + T1::spec_size() + T2::spec_size()) as int))
        &&& self.3.spec_encodes(bytes.subrange((T0::spec_size() + T1::spec_size() + T2::spec_size()) as int, (T0::spec_size() + T1::spec_size() + T2::spec_size() + T3::spec_size()) as int))
        &&& self.4.spec_encodes(bytes.subrange((T0::spec_size() + T1::spec_size() + T2::spec_size() + T3::spec_size()) as int, (T0::spec_size() + T1::spec_size() + T2::spec_size() + T3::spec_size() + T4::spec_size()) as int))
        &&& self.5.spec_encodes(bytes.subrange((T0::spec_size() + T1::spec_size() + T2::spec_size() + T3::spec_size() + T4::spec_size()) as int, (T0::spec_size() + T1::spec_size() + T2::spec_size() + T3::spec_size() + T4::spec_size() + T5::spec_size()) as int))
        &&& self.6.spec_encodes(bytes.subrange((T0::spec_size() + T1::spec_size() + T2::spec_size() + T3::spec_size() + T4::spec_size() + T5::spec_size()) as int, (T0::spec_size() + T1::spec_size() + T2::spec_size() + T3::spec_size() + T4::spec_size() + T5::spec_size() + T6::spec_size()) as int))
        &&& self.7.spec_encodes(bytes.subrange((T0::spec_size() + T1::spec_size() + T2::spec_size() + T3::spec_size() + T4::spec_size() + T5::spec_size() + T6::spec_size()) as int, (T0::spec_size() + T1::spec_size() + T2::spec_size() + T3::spec_size() + T4::spec_size() + T5::spec_size() + T6::spec_size() + T7::spec_size()) as int))
        &&& self.8.spec_encodes(bytes.subrange((T0::spec_size() + T1::spec_size() + T2::spec_size() + T3::spec_size() + T4::spec_size() + T5::spec_size() + T6::spec_size() + T7::spec_size()) as int, (T0::spec_size() + T1::spec_size() + T2::spec_size() + T3::spec_size() + T4::spec_size() + T5::spec_size() + T6::spec_size() + T7::spec_size() + T8::spec_size()) as int))
        &&& self.9.spec_encodes(bytes.subrange((T0::spec_size() + T1::spec_size() + T2::spec_size() + T3::spec_size() + T4::spec_size() + T5::spec_size() + T6::spec_size() + T7::spec_size() + T8::spec_size()) as int, (T0::spec_size() + T1::spec_size() + T2::spec_size() + T3::spec_size() + T4::spec_size() + T5::spec_size() + T6::spec_size() + T7::spec_size() + T8::spec_size() + T9::spec_size()) as int))
    }

    proof fn lemma_encoding_len(&self, bytes: Seq<u8>) {
    }

    proof fn lemma_zero_size(&self) {
        self.0.lemma_zero_size();
        self.1.lemma_zero_size();
        self.2.lemma_zero_size();
        self.3.lemma_zero_size();
        self.4.lemma_zero_size();
        self.5.lemma_zero_size();
        self.6.lemma_zero_size();
        self.7.lemma_zero_size();
        self.8.lemma_zero_size();
        self.9.lemma_zero_size();
        assert forall|lo: int, hi: int| 0 <= lo <= hi <= 0 implies #[trigger] Seq::<u8>::empty().subrange(lo, hi) =~= Seq::<u8>::empty() by {}
    }

    #[verifier::rlimit(60)]
    fn serialize(&self, buffer: &mut [u8]) {
        let total = buffer.len();
        assert(total == Self::spec_size());
        let n0 = T0::size();
        let n1 = T1::size();
        let n2 = T2::size();
        let n3 = T3::size();
        let n4 = T4::size();
        let n5 = T5::size();
        let n6 = T6::size();
        let n7 = T7::size();
        let n8 = T8::size();
        let (w0, rest0) = buffer.split_at_mut(n0);
        self.0.serialize(w0);
        let (w1, rest1) = rest0.split_at_mut(n1);
        self.1.serialize(w1);
        let (w2, rest2) = rest1.split_at_mut(n2);
        self.2.serialize(w2);
        let (w3, rest3) = rest2.split_at_mut(n3);
        self.3.serialize(w3);
        let (w4, rest4) = rest3.split_at_mut(n4);
        self.4.serialize(w4);
        let (w5, rest5) = rest4.split_at_mut(n5);
        self.5.serialize(w5);
        let (w6, rest6) = rest5.split_at_mut(n6);
        self.6.serialize(w6);
        let (w7, rest7) = rest6.split_at_mut(n7);
        self.7.serialize(w7);
        let (w8, rest8) = rest7.split_at_mut(n8);
        self.8.serialize(w8);
        self.9.serialize(rest8);
        proof {
            assert(final(buffer)@.subrange(0, final(buffer)@.len() as int) =~= final(buffer)@);
            lemma_split_window(final(buffer)@, (0) as int, final(w0)@, final(rest0)@);
            lemma_split_window(final(buffer)@, (T0::spec_size()) as int, final(w1)@, final(rest1)@);
            lemma_split_window(final(buffer)@, (T0::spec_size() + T1::spec_size()) as int, final(w2)@, final(rest2)@);
            lemma_split_window(final(buffer)@, (T0::spec_size() + T1::spec_size() + T2::spec_size()) as int, final(w3)@, final(rest3)@);
            lemma_split_window(final(buffer)@, (T0::spec_size() + T1::spec_size() + T2::spec_size() + T3::spec_size()) as int, final(w4)@, final(rest4)@);
            lemma_split_window(final(buffer)@, (T0::spec_size() + T1::spec_size() + T2::spec_size() + T3::spec_size() + T4::spec_size()) as int, final(w5)@, final(rest5)@);
            lemma_split_window(final(buffer)@, (T0::spec_size() + T1::spec_size() + T2::spec_size() + T3::spec_size() + T4::spec_size() + T5::spec_size()) as int, final(w6)@, final(rest6)@);
            lemma_split_window(final(buffer)@, (T0::spec_size() + T1::spec_size() + T2::spec_size() + T3::spec_size() + T4::spec_size() + T5::spec_size() + T6::spec_size()) as int, final(w7)@, final(rest7)@);
            lemma_split_window(final(buffer)@, (T0::spec_size() + T1::spec_size() + T2::spec_size() + T3::spec_size() + T4::spec_size() + T5::spec_size() + T6::spec_size() + T7::spec_size()) as int, final(w8)@, final(rest8)@);
        }
    }
}

impl<T0: Deserialize, T1: Deserialize, T2: Deserialize, T3: Deserialize, T4: Deserialize, T5: Deserialize, T6: Deserialize, T7: Deserialize, T8: Deserialize, T9: Deserialize> Deserialize for (T0, T1, T2, T3, T4, T5, T6, T7, T8, T9) {
    type Error = TupleError10<T0::Error, T1::Error, T2::Error, T3::Error, T4::Error, T5::Error, T6::Error, T7::Error, T8::Error, T9::Error>;

    proof fn lemma_zero_size_accepts() {
        T0::lemma_zero_size_accepts();
        T1::lemma_zero_size_accepts();
        T2::lemma_zero_size_accepts();
        T3::lemma_zero_size_accepts();
        T4::lemma_zero_size_accepts();
        T5::lemma_zero_size_accepts();
        T6::lemma_zero_size_accepts();
        T7::lemma_zero_size_accepts();
        T8::lemma_zero_size_accepts();
        T9::lemma_zero_size_accepts();
        assert(Seq::<u8>::empty().subrange(0, 0) =~= Seq::<u8>::empty());
    }

    open spec fn spec_check(bytes: Seq<u8>) -> Result<(), Self::Error> {
        match T0::spec_check(bytes.subrange((0) as int, (T0::spec_size()) as int)) {
            Err(e) => Err(TupleError10::Field0(e)),
            Ok(()) => match T1::spec_check(bytes.subrange((T0::spec_size()) as int, (T0::spec_size() + T1::spec_size()) as int)) {
                Err(e) => Err(TupleError10::Field1(e)),
                Ok(()) => match T2::spec_check(bytes.subrange((T0::spec_size() + T1::spec_size()) as int, (T0::spec_size() + T1::spec_size() + T2::spec_size()) as int)) {
                    Err(e) => Err(TupleError10::Field2(e)),
                    Ok(()) => match T3::spec_check(bytes.subrange((T0::spec_size() + T1::spec_size() + T2::spec_size()) as int, (T0::spec_size() + T1::spec_size() + T2::spec_size() + T3::spec_size()) as int)) {
                        Err(e) => Err(TupleError10::Field3(e)),
                        Ok(()) => match T4::spec_check(bytes.subrange((T0::spec_size() + T1::spec_size() + T2::spec_size() + T3::spec_size()) as int, (T0::spec_size() + T1::spec_size() + T2::spec_size() + T3::spec_size() + T4::spec_size()) as int)) {
                            Err(e) => Err(TupleError10::Field4(e)),
                            Ok(()) => match T5::spec_check(bytes.subrange((T0::spec_size() + T1::spec_size() + T2::spec_size() + T3::spec_size() + T4::spec_size()) as int, (T0::spec_size() + T1::spec_size() + T2::spec_size() + T3::spec_size() + T4::spec_size() + T5::spec_size()) as int)) {
                                Err(e) => Err(TupleError10::Field5(e)),
                                Ok(()) => match T6::spec_check(bytes.subrange((T0::spec_size() + T1::spec_size() + T2::spec_size() + T3::spec_size() + T4::spec_size() + T5::spec_size()) as int, (T0::spec_size() + T1::spec_size() + T2::spec_size() + T3::spec_size() + T4::spec_size() + T5::spec_size() + T6::spec_size()) as int)) {
                                    Err(e) => Err(TupleError10::Field6(e)),
                                    Ok(()) => match T7::spec_check(bytes.subrange((T0::spec_size() + T1::spec_size() + T2::spec_size() + T3::spec_size() + T4::spec_size() + T5::spec_size() + T6::spec_size()) as int, (T0::spec_size() + T1::spec_size() + T2::spec_size() + T3::spec_size() + T4::spec_size() + T5::spec_size() + T6::spec_size() + T7::spec_size()) as int)) {
                                        Err(e) => Err(TupleError10::Field7(e)),
                                        Ok(()) => match T8::spec_check(bytes.subrange((T0::spec_size() + T1::spec_size() + T2::spec_size() + T3::spec_size() + T4::spec_size() + T5::spec_size() + T6::spec_size() + T7::spec_size()) as int, (T0::spec_size() + T1::spec_size() + T2::spec_size() + T3::spec_size() + T4::spec_size() + T5::spec_size() + T6::spec_size() + T7::spec_size() + T8::spec_size()) as int)) {
                                            Err(e) => Err(TupleError10::Field8(e)),
                                            Ok(()) => match T9::spec_check(bytes.subrange((T0::spec_size() + T1::spec_size() + T2::spec_size() + T3::spec_size() + T4::spec_size() + T5::spec_size() + T6::spec_size() + T7::spec_size() + T8::spec_size()) as int, (T0::spec_size() + T1::spec_size() + T2::spec_size() + T3::spec_size() + T4::spec_size() + T5::spec_size() + T6::spec_size() + T7::spec_size() + T8::spec_size() + T9::spec_size()) as int)) {
                                                Err(e) => Err(TupleError10::Field9(e)),
                                                Ok(()) => Ok(()),
                                            },
                                        },
                                    },
                                },
                            },
                        },
                    },
                },
            },
        }
    }

    open spec fn spec_decodes(bytes: Seq<u8>, value: Self) -> bool {
        &&& T0::spec_decodes(bytes.subrange((0) as int, (T0::spec_size()) as int), value.0)
        &&& T1::spec_decodes(bytes.subrange((T0::spec_size()) as int, (T0::spec_size() + T1::spec_size()) as int), value.1)
        &&& T2::spec_decodes(bytes.subrange((T0::spec_size() + T1::spec_size()) as int, (T0::spec_size() + T1::spec_size() + T2::spec_size()) as int), value.2)
        &&& T3::spec_decodes(bytes.subrange((T0::spec_size() + T1::spec_size() + T2::spec_size()) as int, (T0::spec_size() + T1::spec_size() + T2::spec_size() + T3::spec_size()) as int), value.3)
        &&& T4::spec_decodes(bytes.subrange((T0::spec_size() + T1::spec_size() + T2::spec_size() + T3::spec_size()) as int, (T0::spec_size() + T1::spec_size() + T2::spec_size() + T3::spec_size() + T4::spec_size()) as int), value.4)
        &&& T5::spec_decodes(bytes.subrange((T0::spec_size() + T1::spec_size() + T2::spec_size() + T3::spec_size() + T4::spec_size()) as int, (T0::spec_size() + T1::spec_size() + T2::spec_size() + T3::spec_size() + T4::spec_size() + T5::spec_size()) as int), value.5)
        &&& T6::spec_decodes(bytes.subrange((T0::spec_size() + T1::spec_size() + T2::spec_size() + T3::spec_size() + T4::spec_size() + T5::spec_size()) as int, (T0::spec_size() + T1::spec_size() + T2::spec_size() + T3::spec_size() + T4::spec_size() + T5::spec_size() + T6::spec_size()) as int), value.6)
        &&& T7::spec_decodes(bytes.subrange((T0::spec_size() + T1::spec_size() + T2::spec_size() + T3::spec_size() + T4::spec_size() + T5::spec_size() + T6::spec_size()) as int, (T0::spec_size() + T1::spec_size() + T2::spec_size() + T3::spec_size() + T4::spec_size() + T5::spec_size() + T6::spec_size() + T7::spec_size()) as int), value.7)
        &&& T8::spec_decodes(bytes.subrange((T0::spec_size() + T1::spec_size() + T2::spec_size() + T3::spec_size() + T4::spec_size() + T5::spec_size() + T6::spec_size() + T7::spec_size()) as int, (T0::spec_size() + T1::spec_size() + T2::spec_size() + T3::spec_size() + T4::spec_size() + T5::spec_size() + T6::spec_size() + T7::spec_size() + T8::spec_size()) as int), value.8)
        &&& T9::spec_decodes(bytes.subrange((T0::spec_size() + T1::spec_size() + T2::spec_size() + T3::spec_size() + T4::spec_size() + T5::spec_size() + T6::spec_size() + T7::spec_size() + T8::spec_size()) as int, (T0::spec_size() + T1::spec_size() + T2::spec_size() + T3::spec_size() + T4::spec_size() + T5::spec_size() + T6::spec_size() + T7::spec_size() + T8::spec_size() + T9::spec_size()) as int), value.9)
    }

    #[verifier::rlimit(60)]
    fn deserialize(buffer: &[u8]) -> (r: Result<Self, Self::Error>) {
        let total = buffer.len();
        assert(total == Self::spec_size());
        let n0 = T0::size();
        let n1 = T1::size();
        let n2 = T2::size();
        let n3 = T3::size();
        let n4 = T4::size();
        let n5 = T5::size();
        let n6 = T6::size();
        let n7 = T7::size();
        let n8 = T8::size();
        let (w0, rest0) = buffer.split_at(n0);
        assert(w0@ == buffer@.subrange((0) as int, (T0::spec_size()) as int));
        let v0 = match T0::deserialize(w0) {
            Ok(v) => v,
            Err(e) => {
                return Err(TupleError10::Field0(e));
            },
        };
        let (w1, rest1) = rest0.split_at(n1);
        assert(w1@ == buffer@.subrange((T0::spec_size()) as int, (T0::spec_size() + T1::spec_size()) as int));
        let v1 = match T1::deserialize(w1) {
            Ok(v) => v,
            Err(e) => {
                return Err(TupleError10::Field1(e));
            },
        };
        let (w2, rest2) = rest1.split_at(n2);
        assert(w2@ == buffer@.subrange((T0::spec_size() + T1::spec_size()) as int, (T0::spec_size() + T1::spec_size() + T2::spec_size()) as int));
        let v2 = match T2::deserialize(w2) {
            Ok(v) => v,
            Err(e) => {
                return Err(TupleError10::Field2(e));
            },
        };
        let (w3, rest3) = rest2.split_at(n3);
        assert(w3@ == buffer@.subrange((T0::spec_size() + T1::spec_size() + T2::spec_size()) as int, (T0::spec_size() + T1::spec_size() + T2::spec_size() + T3::spec_size()) as int));
        let v3 = match T3::deserialize(w3) {
            Ok(v) => v,
            Err(e) => {
                return Err(TupleError10::Field3(e));
            },
        };
        let (w4, rest4) = rest3.split_at(n4);
        assert(w4@ == buffer@.subrange((T0::spec_size() + T1::spec_size() + T2::spec_size() + T3::spec_size()) as int, (T0::spec_size() + T1::spec_size() + T2::spec_size() + T3::spec_size() + T4::spec_size()) as int));
        let v4 = match T4::deserialize(w4) {
            Ok(v) => v,
            Err(e) => {
                return Err(TupleError10::Field4(e));
            },
        };
        let (w5, rest5) = rest4.split_at(n5);
        assert(w5@ == buffer@.subrange((T0::spec_size() + T1::spec_size() + T2::spec_size() + T3::spec_size() + T4::spec_size()) as int, (T0::spec_size() + T1::spec_size() + T2::spec_size() + T3::spec_size() + T4::spec_size() + T5::spec_size()) as int));
        let v5 = match T5::deserialize(w5) {
            Ok(v) => v,
            Err(e) => {
                return Err(TupleError10::Field5(e));
            },
        };
        let (w6, rest6) = rest5.split_at(n6);
        assert(w6@ == buffer@.subrange((T0::spec_size() + T1::spec_size() + T2::spec_size() + T3::spec_size() + T4::spec_size() + T5::spec_size()) as int, (T0::spec_size() + T1::spec_size() + T2::spec_size() + T3::spec_size() + T4::spec_size() + T5::spec_size() + T6::spec_size()) as int));
        let v6 = match T6::deserialize(w6) {
            Ok(v) => v,
            Err(e) => {
                return Err(TupleError10::Field6(e));
            },
        };
        let (w7, rest7) = rest6.split_at(n7);
        assert(w7@ == buffer@.subrange((T0::spec_size() + T1::spec_size() + T2::spec_size() + T3::spec_size() + T4::spec_size() + T5::spec_size() + T6::spec_size()) as int, (T0::spec_size() + T1::spec_size() + T2::spec_size() + T3::spec_size() + T4::spec_size() + T5::spec_size() + T6::spec_size() + T7::spec_size()) as int));
        let v7 = match T7::deserialize(w7) {
            Ok(v) => v,
            Err(e) => {
                return Err(TupleError10::Field7(e));
            },
        };
        let (w8, rest8) = rest7.split_at(n8);
        assert(w8@ == buffer@.subrange((T0::spec_size() + T1::spec_size() + T2::spec_size() + T3::spec_size() + T4::spec_size() + T5::spec_size() + T6::spec_size() + T7::spec_size()) as int, (T0::spec_size() + T1::spec_size() + T2::spec_size() + T3::spec_size() + T4::spec_size() + T5::spec_size() + T6::spec_size() + T7::spec_size() + T8::spec_size()) as int));
        let v8 = match T8::deserialize(w8) {
            Ok(v) => v,
            Err(e) => {
                return Err(TupleError10::Field8(e));
            },
        };
        assert(rest8@ == buffer@.subrange((T0::spec_size() + T1::spec_size() + T2::spec_size() + T3::spec_size() + T4::spec_size() + T5::spec_size() + T6::spec_size() + T7::spec_size() + T8::spec_size()) as int, (T0::spec_size() + T1::spec_size() + T2::spec_size() + T3::spec_size() + T4::spec_size() + T5::spec_size() + T6::spec_size() + T7::spec_size() + T8::spec_size() + T9::spec_size()) as int));
        let v9 = match T9::deserialize(rest8) {
            Ok(v) => v,
            Err(e) => {
                return Err(TupleError10::Field9(e));
            },
        };
        Ok((v0, v1, v2, v3, v4, v5, v6, v7, v8, v9))
    }
}

impl<T0: RoundTrip, T1: RoundTrip, T2: RoundTrip, T3: RoundTrip, T4: RoundTrip, T5: RoundTrip, T6: RoundTrip, T7: RoundTrip, T8: RoundTrip, T9: RoundTrip> RoundTrip for (T0, T1, T2, T3, T4, T5, T6, T7, T8, T9) {
    proof fn lemma_decodes_unique(bytes: Seq<u8>, x: Self, y: Self) {
        T0::lemma_decodes_unique(bytes.subrange((0) as int, (T0::spec_size()) as int), x.0, y.0);
        T1::lemma_decodes_unique(bytes.subrange((T0::spec_size()) as int, (T0::spec_size() + T1::spec_size()) as int), x.1, y.1);
        T2::lemma_decodes_unique(bytes.subrange((T0::spec_size() + T1::spec_size()) as int, (T0::spec_size() + T1::spec_size() + T2::spec_size()) as int), x.2, y.2);
        T3::lemma_decodes_unique(bytes.subrange((T0::spec_size() + T1::spec_size() + T2::spec_size()) as int, (T0::spec_size() + T1::spec_size() + T2::spec_size() + T3::spec_size()) as int), x.3, y.3);
        T4::lemma_decodes_unique(bytes.subrange((T0::spec_size() + T1::spec_size() + T2::spec_size() + T3::spec_size()) as int, (T0::spec_size() + T1::spec_size() + T2::spec_size() + T3::spec_size() + T4::spec_size()) as int), x.4, y.4);
        T5::lemma_decodes_unique(bytes.subrange((T0::spec_size() + T1::spec_size() + T2::spec_size() + T3::spec_size() + T4::spec_size()) as int, (T0::spec_size() + T1::spec_size() + T2::spec_size() + T3::spec_size() + T4::spec_size() + T5::spec_size()) as int), x.5, y.5);
        T6::lemma_decodes_unique(bytes.subrange((T0::spec_size() + T1::spec_size() + T2::spec_size() + T3::spec_size() + T4::spec_size() + T5::spec_size()) as int, (T0::spec_size() + T1::spec_size() + T2::spec_size() + T3::spec_size() + T4::spec_size() + T5::spec_size() + T6::spec_size()) as int), x.6, y.6);
        T7::lemma_decodes_unique(bytes.subrange((T0::spec_size() + T1::spec_size() + T2::spec_size() + T3::spec_size() + T4::spec_size() + T5::spec_size() + T6::spec_size()) as int, (T0::spec_size() + T1::spec_size() + T2::spec_size() + T3::spec_size() + T4::spec_size() + T5::spec_size() + T6::spec_size() + T7::spec_size()) as int), x.7, y.7);
        T8::lemma_decodes_unique(bytes.subrange((T0::spec_size() + T1::spec_size() + T2::spec_size() + T3::spec_size() + T4::spec_size() + T5::spec_size() + T6::spec_size() + T7::spec_size()) as int, (T0::spec_size() + T1::spec_size() + T2::spec_size() + T3::spec_size() + T4::spec_size() + T5::spec_size() + T6::spec_size() + T7::spec_size() + T8::spec_size()) as int), x.8, y.8);
        T9::lemma_decodes_unique(bytes.subrange((T0::spec_size() + T1::spec_size() + T2::spec_size() + T3::spec_size() + T4::spec_size() + T5::spec_size() + T6::spec_size() + T7::spec_size() + T8::spec_size()) as int, (T0::spec_size() + T1::spec_size() + T2::spec_size() + T3::spec_size() + T4::spec_size() + T5::spec_size() + T6::spec_size() + T7::spec_size() + T8::spec_size() + T9::spec_size()) as int), x.9, y.9);
    }

    proof fn lemma_round_trip(&self, bytes: Seq<u8>) {
        self.0.lemma_round_trip(bytes.subrange((0) as int, (T0::spec_size()) as int));
        self.1.lemma_round_trip(bytes.subrange((T0::spec_size()) as int, (T0::spec_size() + T1::spec_size()) as int));
        self.2.lemma_round_trip(bytes.subrange((T0::spec_size() + T1::spec_size()) as int, (T0::spec_size() + T1::spec_size() + T2::spec_size()) as int));
        self.3.lemma_round_trip(bytes.subrange((T0::spec_size() + T1::spec_size() + T2::spec_size()) as int, (T0::spec_size() + T1::spec_size() + T2::spec_size() + T3::spec_size()) as int));
        self.4.lemma_round_trip(bytes.subrange((T0::spec_size() + T1::spec_size() + T2::spec_size() + T3::spec_size()) as int, (T0::spec_size() + T1::spec_size() + T2::spec_size() + T3::spec_size() + T4::spec_size()) as int));
        self.5.lemma_round_trip(bytes.subrange((T0::spec_size() + T1::spec_size() + T2::spec_size() + T3::spec_size() + T4::spec_size()) as int, (T0::spec_size() + T1::spec_size() + T2::spec_size() + T3::spec_size() + T4::spec_size() + T5::spec_size()) as int));
        self.6.lemma_round_trip(bytes.subrange((T0::spec_size() + T1::spec_size() + T2::spec_size() + T3::spec_size() + T4::spec_size() + T5::spec_size()) as int, (T0::spec_size() + T1::spec_size() + T2::spec_size() + T3::spec_size() + T4::spec_size() + T5::spec_size() + T6::spec_size()) as int));
        self.7.lemma_round_trip(bytes.subrange((T0::spec_size() + T1::spec_size() + T2::spec_size() + T3::spec_size() + T4::spec_size() + T5::spec_size() + T6::spec_size()) as int, (T0::spec_size() + T1::spec_size() + T2::spec_size() + T3::spec_size() + T4::spec_size() + T5::spec_size() + T6::spec_size() + T7::spec_size()) as int));
        self.8.lemma_round_trip(bytes.subrange((T0::spec_size() + T1::spec_size() + T2::spec_size() + T3::spec_size() + T4::spec_size() + T5::spec_size() + T6::spec_size() + T7::spec_size()) as int, (T0::spec_size() + T1::spec_size() + T2::spec_size() + T3::spec_size() + T4::spec_size() + T5::spec_size() + T6::spec_size() + T7::spec_size() + T8::spec_size()) as int));
        self.9.lemma_round_trip(bytes.subrange((T0::spec_size() + T1::spec_size() + T2::spec_size() + T3::spec_size() + T4::spec_size() + T5::spec_size() + T6::spec_size() + T7::spec_size() + T8::spec_size()) as int, (T0::spec_size() + T1::spec_size() + T2::spec_size() + T3::spec_size() + T4::spec_size() + T5::spec_size() + T6::spec_size() + T7::spec_size() + T8::spec_size() + T9::spec_size()) as int));
    }
}

/// Why the window of a tuple of 11 fields holds no valid value: the
/// position of the first field that failed, carrying that field's own error.
#[derive(Debug, Clone, Copy, PartialEq, Eq)]
pub enum TupleError11<E0, E1, E2, E3, E4, E5, E6, E7, E8, E9, E10> {
    /// Field 0 failed, with its own error.
    Field0(E0),
    /// Field 1 failed, with its own error.
    Field1(E1),
    /// Field 2 failed, with its own error.
    Field2(E2),
    /// Field 3 failed, with its own error.
    Field3(E3),
    /// Field 4 failed, with its own error.
    Field4(E4),
    /// Field 5 failed, with its own error.
    Field5(E5),
    /// Field 6 failed, with its own error.
    Field6(E6),
    /// Field 7 failed, with its own error.
    Field7(E7),
    /// Field 8 failed, with its own error.
    Field8(E8),
    /// Field 9 failed, with its own error.
    Field9(E9),
    /// Field 10 failed, with its own error.
    Field10(E10),
}

impl<T0: SerialSize, T1: SerialSize, T2: SerialSize, T3: SerialSize, T4: SerialSize, T5: SerialSize, T6: SerialSize, T7: SerialSize, T8: SerialSize, T9: SerialSize, T10: SerialSize> SerialSize for (T0, T1, T2, T3, T4, T5, T6, T7, T8, T9, T10) {
    open spec fn spec_size() -> nat {
        T0::spec_size() + T1::spec_size() + T2::spec_size() + T3::spec_size() + T4::spec_size() + T5::spec_size() + T6::spec_size() + T7::spec_size() + T8::spec_size() + T9::spec_size() + T10::spec_size()
    }

    fn size() -> (r: usize) {
        T0::size() + T1::size() + T2::size() + T3::size() + T4::size() + T5::size() + T6::size() + T7::size() + T8::size() + T9::size() + T10::size()
    }
}

impl<T0: Serialize, T1: Serialize, T2: Serialize, T3: Serialize, T4: Serialize, T5: Serialize, T6: Serialize, T7: Serialize, T8: Serialize, T9: Serialize, T10: Serialize> Serialize for (T0, T1, T2, T3, T4, T5, T6, T7, T8, T9, T10) {
    open spec fn spec_encodes(&self, bytes: Seq<u8>) -> bool {
        &&& bytes.len() == Self::spec_size()
        &&& self.0.spec_encodes(bytes.subrange((0) as int, (T0::spec_size()) as int))
        &&& self.1.spec_encodes(bytes.subrange((T0::spec_size()) as int, (T0::spec_size() + T1::spec_size()) as int))
        &&& self.2.spec_encodes(bytes.subrange((T0::spec_size() + T1::spec_size()) as int, (T0::spec_size() + T1::spec_size() + T2::spec_size()) as int))
        &&& self.3.spec_encodes(bytes.subrange((T0::spec_size() + T1::spec_size() + T2::spec_size()) as int, (T0::spec_size() + T1::spec_size() + T2::spec_size() + T3::spec_size()) as int))
        &&& self.4.spec_encodes(bytes.subrange((T0::spec_size() + T1::spec_size() + T2::spec_size() + T3::spec_size()) as int, (T0::spec_size() + T1::spec_size() + T2::spec_size() + T3::spec_size() + T4::spec_size()) as int))
        &&& self.5.spec_encodes(bytes.subrange((T0::spec_size() + T1::spec_size() + T2::spec_size() + T3::spec_size() + T4::spec_size()) as int, (T0::spec_size() + T1::spec_size() + T2::spec_size() + T3::spec_size() + T4::spec_size() + T5::spec_size()) as int))
        &&& self.6.spec_encodes(bytes.subrange((T0::spec_size() + T1::spec_size() + T2::spec_size() + T3::spec_size() + T4::spec_size() + T5::spec_size()) as int, (T0::spec_size() + T1::spec_size() + T2::spec_size() + T3::spec_size() + T4::spec_size() + T5::spec_size() + T6::spec_size()) as int))
        &&& self.7.spec_encodes(bytes.subrange((T0::spec_size() + T1::spec_size() + T2::spec_size() + T3::spec_size() + T4::spec_size() + T5::spec_size() + T6::spec_size()) as int, (T0::spec_size() + T1::spec_size() + T2::spec_size() + T3::spec_size() + T4::spec_size() + T5::spec_size() + T6::spec_size() + T7::spec_size()) as int))
        &&& self.8.spec_encodes(bytes.subrange((T0::spec_size() + T1::spec_size() + T2::spec_size() + T3::spec_size() + T4::spec_size() + T5::spec_size() + T6::spec_size() + T7::spec_size()) as int, (T0::spec_size() + T1::spec_size() + T2::spec_size() + T3::spec_size() + T4::spec_size() + T5::spec_size() + T6::spec_size() + T7::spec_size() + T8::spec_size()) as int))
        &&& self.9.spec_encodes(bytes.subrange((T0::spec_size() + T1::spec_size() + T2::spec_size() + T3::spec_size() + T4::spec_size() + T5::spec_size() + T6::spec_size() + T7::spec_size() + T8::spec_size()) as int, (T0::spec_size() + T1::spec_size() + T2::spec_size() + T3::spec_size() + T4::spec_size() + T5::spec_size() + T6::spec_size() + T7::spec_size() + T8::spec_size() + T9::spec_size()) as int))
        &&& self.10.spec_encodes(bytes.subrange((T0::spec_size() + T1::spec_size() + T2::spec_size() + T3::spec_size() + T4::spec_size() + T5::spec_size() + T6::spec_size() + T7::spec_size() + T8::spec_size() + T9::spec_size()) as int, (T0::spec_size() + T1::spec_size() + T2::spec_size() + T3::spec_size() + T4::spec_size() + T5::spec_size() + T6::spec_size() + T7::spec_size() + T8::spec_size() + T9::spec_size() + T10::spec_size()) as int))
    }

    proof fn lemma_encoding_len(&self, bytes: Seq<u8>) {
    }

    proof fn lemma_zero_size(&self) {
        self.0.lemma_zero_size();
        self.1.lemma_zero_size();
        self.2.lemma_zero_size();
        self.3.lemma_zero_size();
        self.4.lemma_zero_size();
        self.5.lemma_zero_size();
        self.6.lemma_zero_size();
        self.7.lemma_zero_size();
        self.8.lemma_zero_size();
        self.9.lemma_zero_size();
        self.10.lemma_zero_size();
        assert forall|lo: int, hi: int| 0 <= lo <= hi <= 0 implies #[trigger] Seq::<u8>::empty().subrange(lo, hi) =~= Seq::<u8>::empty() by {}
    }

    #[verifier::rlimit(60)]
    fn serialize(&self, buffer: &mut [u8]) {
        let total = buffer.len();
        assert(total == Self::spec_size());
        let n0 = T0::size();
        let n1 = T1::size();
        let n2 = T2::size();
        let n3 = T3::size();
        let n4 = T4::size();
        let n5 = T5::size();
        let n6 = T6::size();
        let n7 = T7::size();
        let n8 = T8::size();
        let n9 = T9::size();
        let (w0, rest0) = buffer.split_at_mut(n0);
        self.0.serialize(w0);
        let (w1, rest1) = rest0.split_at_mut(n1);
        self.1.serialize(w1);
        let (w2, rest2) = rest1.split_at_mut(n2);
        self.2.serialize(w2);
        let (w3, rest3) = rest2.split_at_mut(n3);
        self.3.serialize(w3);
        let (w4, rest4) = rest3.split_at_mut(n4);
        self.4.serialize(w4);
        let (w5, rest5) = rest4.split_at_mut(n5);
        self.5.serialize(w5);
        let (w6, rest6) = rest5.split_at_mut(n6);
        self.6.serialize(w6);
        let (w7, rest7) = rest6.split_at_mut(n7);
        self.7.serialize(w7);
        let (w8, rest8) = rest7.split_at_mut(n8);
        self.8.serialize(w8);
        let (w9, rest9) = rest8.split_at_mut(n9);
        self.9.serialize(w9);
        self.10.serialize(rest9);
        proof {
            assert(final(buffer)@.subrange(0, final(buffer)@.len() as int) =~= final(buffer)@);
            lemma_split_window(final(buffer)@, (0) as int, final(w0)@, final(rest0)@);
            lemma_split_window(final(buffer)@, (T0::spec_size()) as int, final(w1)@, final(rest1)@);
            lemma_split_window(final(buffer)@, (T0::spec_size() + T1::spec_size()) as int, final(w2)@, final(rest2)@);
            lemma_split_window(final(buffer)@, (T0::spec_size() + T1::spec_size() + T2::spec_size()) as int, final(w3)@, final(rest3)@);
            lemma_split_window(final(buffer)@, (T0::spec_size() + T1::spec_size() + T2::spec_size() + T3::spec_size()) as int, final(w4)@, final(rest4)@);
            lemma_split_window(final(buffer)@, (T0::spec_size() + T1::spec_size() + T2::spec_size() + T3::spec_size() + T4::spec_size()) as int, final(w5)@, final(rest5)@);
            lemma_split_window(final(buffer)@, (T0::spec_size() + T1::spec_size() + T2::spec_size() + T3::spec_size() + T4::spec_size() + T5::spec_size()) as int, final(w6)@, final(rest6)@);
            lemma_split_window(final(buffer)@, (T0::spec_size() + T1::spec_size() + T2::spec_size() + T3::spec_size() + T4::spec_size() + T5::spec_size() + T6::spec_size()) as int, final(w7)@, final(rest7)@);
            lemma_split_window(final(buffer)@, (T0::spec_size() + T1::spec_size() + T2::spec_size() + T3::spec_size() + T4::spec_size() + T5::spec_size() + T6::spec_size() + T7::spec_size()) as int, final(w8)@, final(rest8)@);
            lemma_split_window(final(buffer)@, (T0::spec_size() + T1::spec_size() + T2::spec_size() + T3::spec_size() + T4::spec_size() + T5::spec_size() + T6::spec_size() + T7::spec_size() + T8::spec_size()) as int, final(w9)@, final(rest9)@);
        }
    }
}

impl<T0: Deserialize, T1: Deserialize, T2: Deserialize, T3: Deserialize, T4: Deserialize, T5: Deserialize, T6: Deserialize, T7: Deserialize, T8: Deserialize, T9: Deserialize, T10: Deserialize> Deserialize for (T0, T1, T2, T3, T4, T5, T6, T7, T8, T9, T10) {
    type Error = TupleError11<T0::Error, T1::Error, T2::Error, T3::Error, T4::Error, T5::Error, T6::Error, T7::Error, T8::Error, T9::Error, T10::Error>;

    proof fn lemma_zero_size_accepts() {
        T0::lemma_zero_size_accepts();
        T1::lemma_zero_size_accepts();
        T2::lemma_zero_size_accepts();
        T3::lemma_zero_size_accepts();
        T4::lemma_zero_size_accepts();
        T5::lemma_zero_size_accepts();
        T6::lemma_zero_size_accepts();
        T7::lemma_zero_size_accepts();
        T8::lemma_zero_size_accepts();
        T9::lemma_zero_size_accepts();
        T10::lemma_zero_size_accepts();
        assert(Seq::<u8>::empty().subrange(0, 0) =~= Seq::<u8>::empty());
    }

    open spec fn spec_check(bytes: Seq<u8>) -> Result<(), Self::Error> {
        match T0::spec_check(bytes.subrange((0) as int, (T0::spec_size()) as int)) {
            Err(e) => Err(TupleError11::Field0(e)),
            Ok(()) => match T1::spec_check(bytes.subrange((T0::spec_size()) as int, (T0::spec_size() + T1::spec_size()) as int)) {
                Err(e) => Err(TupleError11::Field1(e)),
                Ok(()) => match T2::spec_check(bytes.subrange((T0::spec_size() + T1::spec_size()) as int, (T0::spec_size() + T1::spec_size() + T2::spec_size()) as int)) {
                    Err(e) => Err(TupleError11::Field2(e)),
                    Ok(()) => match T3::spec_check(bytes.subrange((T0::spec_size() + T1::spec_size() + T2::spec_size()) as int, (T0::spec_size() + T1::spec_size() + T2::spec_size() + T3::spec_size()) as int)) {
                        Err(e) => Err(TupleError11::Field3(e)),
                        Ok(()) => match T4::spec_check(bytes.subrange((T0::spec_size() + T1::spec_size() + T2::spec_size() + T3::spec_size()) as int, (T0::spec_size() + T1::spec_size() + T2::spec_size() + T3::spec_size() + T4::spec_size()) as int)) {
                            Err(e) => Err(TupleError11::Field4(e)),
                            Ok(()) => match T5::spec_check(bytes.subrange((T0::spec_size() + T1::spec_size() + T2::spec_size() + T3::spec_size() + T4::spec_size()) as int, (T0::spec_size() + T1::spec_size() + T2::spec_size() + T3::spec_size() + T4::spec_size() + T5::spec_size()) as int)) {
                                Err(e) => Err(TupleError11::Field5(e)),
                                Ok(()) => match T6::spec_check(bytes.subrange((T0::spec_size() + T1::spec_size() + T2::spec_size() + T3::spec_size() + T4::spec_size() + T5::spec_size()) as int, (T0::spec_size() + T1::spec_size() + T2::spec_size() + T3::spec_size() + T4::spec_size() + T5::spec_size() + T6::spec_size()) as int)) {
                                    Err(e) => Err(TupleError11::Field6(e)),
                                    Ok(()) => match T7::spec_check(bytes.subrange((T0::spec_size() + T1::spec_size() + T2::spec_size() + T3::spec_size() + T4::spec_size() + T5::spec_size() + T6::spec_size()) as int, (T0::spec_size() + T1::spec_size() + T2::spec_size() + T3::spec_size() + T4::spec_size() + T5::spec_size() + T6::spec_size() + T7::spec_size()) as int)) {
                                        Err(e) => Err(TupleError11::Field7(e)),
                                        Ok(()) => match T8::spec_check(bytes.subrange((T0::spec_size() + T1::spec_size() + T2::spec_size() + T3::spec_size() + T4::spec_size() + T5::spec_size() + T6::spec_size() + T7::spec_size()) as int, (T0::spec_size() + T1::spec_size() + T2::spec_size() + T3::spec_size() + T4::spec_size() + T5::spec_size() + T6::spec_size() + T7::spec_size() + T8::spec_size()) as int)) {
                                            Err(e) => Err(TupleError11::Field8(e)),
                                            Ok(()) => match T9::spec_check(bytes.subrange((T0::spec_size() + T1::spec_size() + T2::spec_size() + T3::spec_size() + T4::spec_size() + T5::spec_size() + T6::spec_size() + T7::spec_size() + T8::spec_size()) as int, (T0::spec_size() + T1::spec_size() + T2::spec_size() + T3::spec_size() + T4::spec_size() + T5::spec_size() + T6::spec_size() + T7::spec_size() + T8::spec_size() + T9::spec_size()) as int)) {
                                                Err(e) => Err(TupleError11::Field9(e)),
                                                Ok(()) => match T10::spec_check(bytes.subrange((T0::spec_size() + T1::spec_size() + T2::spec_size() + T3::spec_size() + T4::spec_size() + T5::spec_size() + T6::spec_size() + T7::spec_size() + T8::spec_size() + T9::spec_size()) as int, (T0::spec_size() + T1::spec_size() + T2::spec_size() + T3::spec_size() + T4::spec_size() + T5::spec_size() + T6::spec_size() + T7::spec_size() + T8::spec_size() + T9::spec_size() + T10::spec_size()) as int)) {
                                                    Err(e) => Err(TupleError11::Field10(e)),
                                                    Ok(()) => Ok(()),
                                                },
                                            },
                                        },
                                    },
                                },
                            },
                        },
                    },
                },
            },
        }
    }

    open spec fn spec_decodes(bytes: Seq<u8>, value: Self) -> bool {
        &&& T0::spec_decodes(bytes.subrange((0) as int, (T0::spec_size()) as int), value.0)
        &&& T1::spec_decodes(bytes.subrange((T0::spec_size()) as int, (T0::spec_size() + T1::spec_size()) as int), value.1)
        &&& T2::spec_decodes(bytes.subrange((T0::spec_size() + T1::spec_size()) as int, (T0::spec_size() + T1::spec_size() + T2::spec_size()) as int), value.2)
        &&& T3::spec_decodes(bytes.subrange((T0::spec_size() + T1::spec_size() + T2::spec_size()) as int, (T0::spec_size() + T1::spec_size() + T2::spec_size() + T3::spec_size()) as int), value.3)
        &&& T4::spec_decodes(bytes.subrange((T0::spec_size() + T1::spec_size() + T2::spec_size() + T3::spec_size()) as int, (T0::spec_size() + T1::spec_size() + T2::spec_size() + T3::spec_size() + T4::spec_size()) as int), value.4)
        &&& T5::spec_decodes(bytes.subrange((T0::spec_size() + T1::spec_size() + T2::spec_size() + T3::spec_size() + T4::spec_size()) as int, (T0::spec_size() + T1::spec_size() + T2::spec_size() + T3::spec_size() + T4::spec_size() + T5::spec_size()) as int), value.5)
        &&& T6::spec_decodes(bytes.subrange((T0::spec_size() + T1::spec_size() + T2::spec_size() + T3::spec_size() + T4::spec_size() + T5::spec_size()) as int, (T0::spec_size() + T1::spec_size() + T2::spec_size() + T3::spec_size() + T4::spec_size() + T5::spec_size() + T6::spec_size()) as int), value.6)
        &&& T7::spec_decodes(bytes.subrange((T0::spec_size() + T1::spec_size() + T2::spec_size() + T3::spec_size() + T4::spec_size() + T5::spec_size() + T6::spec_size()) as int, (T0::spec_size() + T1::spec_size() + T2::spec_size() + T3::spec_size() + T4::spec_size() + T5::spec_size() + T6::spec_size() + T7::spec_size()) as int), value.7)
        &&& T8::spec_decodes(bytes.subrange((T0::spec_size() + T1::spec_size() + T2::spec_size() + T3::spec_size() + T4::spec_size() + T5::spec_size() + T6::spec_size() + T7::spec_size()) as int, (T0::spec_size() + T1::spec_size() + T2::spec_size() + T3::spec_size() + T4::spec_size() + T5::spec_size() + T6::spec_size() + T7::spec_size() + T8::spec_size()) as int), value.8)
        &&& T9::spec_decodes(bytes.subrange((T0::spec_size() + T1::spec_size() + T2::spec_size() + T3::spec_size() + T4::spec_size() + T5::spec_size() + T6::spec_size() + T7::spec_size() + T8::spec_size()) as int, (T0::spec_size() + T1::spec_size() + T2::spec_size() + T3::spec_size() + T4::spec_size() + T5::spec_size() + T6::spec_size() + T7::spec_size() + T8::spec_size() + T9::spec_size()) as int), value.9)
        &&& T10::spec_decodes(bytes.subrange((T0::spec_size() + T1::spec_size() + T2::spec_size() + T3::spec_size() + T4::spec_size() + T5::spec_size() + T6::spec_size() + T7::spec_size() + T8::spec_size() + T9::spec_size()) as int, (T0::spec_size() + T1::spec_size() + T2::spec_size() + T3::spec_size() + T4::spec_size() + T5::spec_size() + T6::spec_size() + T7::spec_size() + T8::spec_size() + T9::spec_size() + T10::spec_size()) as int), value.10)
    }

    #[verifier::rlimit(60)]
    fn deserialize(buffer: &[u8]) -> (r: Result<Self, Self::Error>) {
        let total = buffer.len();
        assert(total == Self::spec_size());
        let n0 = T0::size();
        let n1 = T1::size();
        let n2 = T2::size();
        let n3 = T3::size();
        let n4 = T4::size();
        let n5 = T5::size();
        let n6 = T6::size();
        let n7 = T7::size();
        let n8 = T8::size();
        let n9 = T9::size();
        let (w0, rest0) = buffer.split_at(n0);
        assert(w0@ == buffer@.subrange((0) as int, (T0::spec_size()) as int));
        let v0 = match T0::deserialize(w0) {
            Ok(v) => v,
            Err(e) => {
                return Err(TupleError11::Field0(e));
            },
        };
        let (w1, rest1) = rest0.split_at(n1);
        assert(w1@ == buffer@.subrange((T0::spec_size()) as int, (T0::spec_size() + T1::spec_size()) as int));
        let v1 = match T1::deserialize(w1) {
            Ok(v) => v,
            Err(e) => {
                return Err(TupleError11::Field1(e));
            },
        };
        let (w2, rest2) = rest1.split_at(n2);
        assert(w2@ == buffer@.subrange((T0::spec_size() + T1::spec_size()) as int, (T0::spec_size() + T1::spec_size() + T2::spec_size()) as int));
        let v2 = match T2::deserialize(w2) {
            Ok(v) => v,
            Err(e) => {
                return Err(TupleError11::Field2(e));
            },
        };
        let (w3, rest3) = rest2.split_at(n3);
        assert(w3@ == buffer@.subrange((T0::spec_size() + T1::spec_size() + T2::spec_size()) as int, (T0::spec_size() + T1::spec_size() + T2::spec_size() + T3::spec_size()) as int));
        let v3 = match T3::deserialize(w3) {
            Ok(v) => v,
            Err(e) => {
                return Err(TupleError11::Field3(e));
            },
        };
        let (w4, rest4) = rest3.split_at(n4);
        assert(w4@ == buffer@.subrange((T0::spec_size() + T1::spec_size() + T2::spec_size() + T3::spec_size()) as int, (T0::spec_size() + T1::spec_size() + T2::spec_size() + T3::spec_size() + T4::spec_size()) as int));
        let v4 = match T4::deserialize(w4) {
            Ok(v) => v,
            Err(e) => {
                return Err(TupleError11::Field4(e));
            },
        };
        let (w5, rest5) = rest4.split_at(n5);
        assert(w5@ == buffer@.subrange((T0::spec_size() + T1::spec_size() + T2::spec_size() + T3::spec_size() + T4::spec_size()) as int, (T0::spec_size() + T1::spec_size() + T2::spec_size() + T3::spec_size() + T4::spec_size() + T5::spec_size()) as int));
        let v5 = match T5::deserialize(w5) {
            Ok(v) => v,
            Err(e) => {
                return Err(TupleError11::Field5(e));
            },
        };
        let (w6, rest6) = rest5.split_at(n6);
        assert(w6@ == buffer@.subrange((T0::spec_size() + T1::spec_size() + T2::spec_size() + T3::spec_size() + T4::spec_size() + T5::spec_size()) as int, (T0::spec_size() + T1::spec_size() + T2::spec_size() + T3::spec_size() + T4::spec_size() + T5::spec_size() + T6::spec_size()) as int));
        let v6 = match T6::deserialize(w6) {
            Ok(v) => v,
            Err(e) => {
                return Err(TupleError11::Field6(e));
            },
        };
        let (w7, rest7) = rest6.split_at(n7);
        assert(w7@ == buffer@.subrange((T0::spec_size() + T1::spec_size() + T2::spec_size() + T3::spec_size() + T4::spec_size() + T5::spec_size() + T6::spec_size()) as int, (T0::spec_size() + T1::spec_size() + T2::spec_size() + T3::spec_size() + T4::spec_size() + T5::spec_size() + T6::spec_size() + T7::spec_size()) as int));
        let v7 = match T7::deserialize(w7) {
            Ok(v) => v,
            Err(e) => {
                return Err(TupleError11::Field7(e));
            },
        };
        let (w8, rest8) = rest7.split_at(n8);
        assert(w8@ == buffer@.subrange((T0::spec_size() + T1::spec_size() + T2::spec_size() + T3::spec_size() + T4::spec_size() + T5::spec_size() + T6::spec_size() + T7::spec_size()) as int, (T0::spec_size() + T1::spec_size() + T2::spec_size() + T3::spec_size() + T4::spec_size() + T5::spec_size() + T6::spec_size() + T7::spec_size() + T8::spec_size()) as int));
        let v8 = match T8::deserialize(w8) {
            Ok(v) => v,
            Err(e) => {
                return Err(TupleError11::Field8(e));
            },
        };
        let (w9, rest9) = rest8.split_at(n9);
        assert(w9@ == buffer@.subrange((T0::spec_size() + T1::spec_size() + T2::spec_size() + T3::spec_size() + T4::spec_size() + T5::spec_size() + T6::spec_size() + T7::spec_size() + T8::spec_size()) as int, (T0::spec_size() + T1::spec_size() + T2::spec_size() + T3::spec_size() + T4::spec_size() + T5::spec_size() + T6::spec_size() + T7::spec_size() + T8::spec_size() + T9::spec_size()) as int));
        let v9 = match T9::deserialize(w9) {
            Ok(v) => v,
            Err(e) => {
                return Err(TupleError11::Field9(e));
            },
        };
        assert(rest9@ == buffer@.subrange((T0::spec_size() + T1::spec_size() + T2::spec_size() + T3::spec_size() + T4::spec_size() + T5::spec_size() + T6::spec_size() + T7::spec_size() + T8::spec_size() + T9::spec_size()) as int, (T0::spec_size() + T1::spec_size() + T2::spec_size() + T3::spec_size() + T4::spec_size() + T5::spec_size() + T6::spec_size() + T7::spec_size() + T8::spec_size() + T9::spec_size() + T10::spec_size()) as int));
        let v10 = match T10::deserialize(rest9) {
            Ok(v) => v,
            Err(e) => {
                return Err(TupleError11::Field10(e));
            },
        };
        Ok((v0, v1, v2, v3, v4, v5, v6, v7, v8, v9, v10))
    }
}

impl<T0: RoundTrip, T1: RoundTrip, T2: RoundTrip, T3: RoundTrip, T4: RoundTrip, T5: RoundTrip, T6: RoundTrip, T7: RoundTrip, T8: RoundTrip, T9: RoundTrip, T10: RoundTrip> RoundTrip for (T0, T1, T2, T3, T4, T5, T6, T7, T8, T9, T10) {
    proof fn lemma_decodes_unique(bytes: Seq<u8>, x: Self, y: Self) {
        T0::lemma_decodes_unique(bytes.subrange((0) as int, (T0::spec_size()) as int), x.0, y.0);
        T1::lemma_decodes_unique(bytes.subrange((T0::spec_size()) as int, (T0::spec_size() + T1::spec_size()) as int), x.1, y.1);
        T2::lemma_decodes_unique(bytes.subrange((T0::spec_size() + T1::spec_size()) as int, (T0::spec_size() + T1::spec_size() + T2::spec_size()) as int), x.2, y.2);
        T3::lemma_decodes_unique(bytes.subrange((T0::spec_size() + T1::spec_size() + T2::spec_size()) as int, (T0::spec_size() + T1::spec_size() + T2::spec_size() + T3::spec_size()) as int), x.3, y.3);
        T4::lemma_decodes_unique(bytes.subrange((T0::spec_size() + T1::spec_size() + T2::spec_size() + T3::spec_size()) as int, (T0::spec_size() + T1::spec_size() + T2::spec_size() + T3::spec_size() + T4::spec_size()) as int), x.4, y.4);
        T5::lemma_decodes_unique(bytes.subrange((T0::spec_size() + T1::spec_size() + T2::spec_size() + T3::spec_size() + T4::spec_size()) as int, (T0::spec_size() + T1::spec_size() + T2::spec_size() + T3::spec_size() + T4::spec_size() + T5::spec_size()) as int), x.5, y.5);
        T6::lemma_decodes_unique(bytes.subrange((T0::spec_size() + T1::spec_size() + T2::spec_size() + T3::spec_size() + T4::spec_size() + T5::spec_size()) as int, (T0::spec_size() + T1::spec_size() + T2::spec_size() + T3::spec_size() + T4::spec_size() + T5::spec_size() + T6::spec_size()) as int), x.6, y.6);
        T7::lemma_decodes_unique(bytes.subrange((T0::spec_size() + T1::spec_size() + T2::spec_size() + T3::spec_size() + T4::spec_size() + T5::spec_size() + T6::spec_size()) as int, (T0::spec_size() + T1::spec_size() + T2::spec_size() + T3::spec_size() + T4::spec_size() + T5::spec_size() + T6::spec_size() + T7::spec_size()) as int), x.7, y.7);
        T8::lemma_decodes_unique(bytes.subrange((T0::spec_size() + T1::spec_size() + T2::spec_size() + T3::spec_size() + T4::spec_size() + T5::spec_size() + T6::spec_size() + T7::spec_size()) as int, (T0::spec_size() + T1::spec_size() + T2::spec_size() + T3::spec_size() + T4::spec_size() + T5::spec_size() + T6::spec_size() + T7::spec_size() + T8::spec_size()) as int), x.8, y.8);
        T9::lemma_decodes_unique(bytes.subrange((T0::spec_size() + T1::spec_size() + T2::spec_size() + T3::spec_size() + T4::spec_size() + T5::spec_size() + T6::spec_size() + T7::spec_size() + T8::spec_size()) as int, (T0::spec_size() + T1::spec_size() + T2::spec_size() + T3::spec_size() + T4::spec_size() + T5::spec_size() + T6::spec_size() + T7::spec_size() + T8::spec_size() + T9::spec_size()) as int), x.9, y.9);
        T10::lemma_decodes_unique(bytes.subrange((T0::spec_size() + T1::spec_size() + T2::spec_size() + T3::spec_size() + T4::spec_size() + T5::spec_size() + T6::spec_size() + T7::spec_size() + T8::spec_size() + T9::spec_size()) as int, (T0::spec_size() + T1::spec_size() + T2::spec_size() + T3::spec_size() + T4::spec_size() + T5::spec_size() + T6::spec_size() + T7::spec_size() + T8::spec_size() + T9::spec_size() + T10::spec_size()) as int), x.10, y.10);
    }

    proof fn lemma_round_trip(&self, bytes: Seq<u8>) {
        self.0.lemma_round_trip(bytes.subrange((0) as int, (T0::spec_size()) as int));
        self.1.lemma_round_trip(bytes.subrange((T0::spec_size()) as int, (T0::spec_size() + T1::spec_size()) as int));
        self.2.lemma_round_trip(bytes.subrange((T0::spec_size() + T1::spec_size()) as int, (T0::spec_size() + T1::spec_size() + T2::spec_size()) as int));
        self.3.lemma_round_trip(bytes.subrange((T0::spec_size() + T1::spec_size() + T2::spec_size()) as int, (T0::spec_size() + T1::spec_size() + T2::spec_size() + T3::spec_size()) as int));
        self.4.lemma_round_trip(bytes.subrange((T0::spec_size() + T1::spec_size() + T2::spec_size() + T3::spec_size()) as int, (T0::spec_size() + T1::spec_size() + T2::spec_size() + T3::spec_size() + T4::spec_size()) as int));
        self.5.lemma_round_trip(bytes.subrange((T0::spec_size() + T1::spec_size() + T2::spec_size() + T3::spec_size() + T4::spec_size()) as int, (T0::spec_size() + T1::spec_size() + T2::spec_size() + T3::spec_size() + T4::spec_size() + T5::spec_size()) as int));
        self.6.lemma_round_trip(bytes.subrange((T0::spec_size() + T1::spec_size() + T2::spec_size() + T3::spec_size() + T4::spec_size() + T5::spec_size()) as int, (T0::spec_size() + T1::spec_size() + T2::spec_size() + T3::spec_size() + T4::spec_size() + T5::spec_size() + T6::spec_size()) as int));
        self.7.lemma_round_trip(bytes.subrange((T0::spec_size() + T1::spec_size() + T2::spec_size() + T3::spec_size() + T4::spec_size() + T5::spec_size() + T6::spec_size()) as int, (T0::spec_size() + T1::spec_size() + T2::spec_size() + T3::spec_size() + T4::spec_size() + T5::spec_size() + T6::spec_size() + T7::spec_size()) as int));
        self.8.lemma_round_trip(bytes.subrange((T0::spec_size() + T1::spec_size() + T2::spec_size() + T3::spec_size() + T4::spec_size() + T5::spec_size() + T6::spec_size() + T7::spec_size()) as int, (T0::spec_size() + T1::spec_size() + T2::spec_size() + T3::spec_size() + T4::spec_size() + T5::spec_size() + T6::spec_size() + T7::spec_size() + T8::spec_size()) as int));
        self.9.lemma_round_trip(bytes.subrange((T0::spec_size() + T1::spec_size() + T2::spec_size() + T3::spec_size() + T4::spec_size() + T5::spec_size() + T6::spec_size() + T7::spec_size() + T8::spec_size()) as int, (T0::spec_size() + T1::spec_size() + T2::spec_size() + T3::spec_size() + T4::spec_size() + T5::spec_size() + T6::spec_size() + T7::spec_size() + T8::spec_size() + T9::spec_size()) as int));
        self.10.lemma_round_trip(bytes.subrange((T0::spec_size() + T1::spec_size() + T2::spec_size() + T3::spec_size() + T4::spec_size() + T5::spec_size() + T6::spec_size() + T7::spec_size() + T8::spec_size() + T9::spec_size()) as int, (T0::spec_size() + T1::spec_size() + T2::spec_size() + T3::spec_size() + T4::spec_size() + T5::spec_size() + T6::spec_size() + T7::spec_size() + T8::spec_size() + T9::spec_size() + T10::spec_size()) as int));
    }
}

/// Why the window of a tuple of 12 fields holds no valid value: the
/// position of the first field that failed, carrying that field's own error.
#[derive(Debug, Clone, Copy, PartialEq, Eq)]
pub enum TupleError12<E0, E1, E2, E3, E4, E5, E6, E7, E8, E9, E10, E11> {
    /// Field 0 failed, with its own error.
    Field0(E0),
    /// Field 1 failed, with its own error.
    Field1(E1),
    /// Field 2 failed, with its own error.
    Field2(E2),
    /// Field 3 failed, with its own error.
    Field3(E3),
    /// Field 4 failed, with its own error.
    Field4(E4),
    /// Field 5 failed, with its own error.
    Field5(E5),
    /// Field 6 failed, with its own error.
    Field6(E6),
    /// Field 7 failed, with its own error.
    Field7(E7),
    /// Field 8 failed, with its own error.
    Field8(E8),
    /// Field 9 failed, with its own error.
    Field9(E9),
    /// Field 10 failed, with its own error.
    Field10(E10),
    /// Field 11 failed, with its own error.
    Field11(E11),
}

impl<T0: SerialSize, T1: SerialSize, T2: SerialSize, T3: SerialSize, T4: SerialSize, T5: SerialSize, T6: SerialSize, T7: SerialSize, T8: SerialSize, T9: SerialSize, T10: SerialSize, T11: SerialSize> SerialSize for (T0, T1, T2, T3, T4, T5, T6, T7, T8, T9, T10, T11) {
    open spec fn spec_size() -> nat {
        T0::spec_size() + T1::spec_size() + T2::spec_size() + T3::spec_size() + T4::spec_size() + T5::spec_size() + T6::spec_size() + T7::spec_size() + T8::spec_size() + T9::spec_size() + T10::spec_size() + T11::spec_size()
    }

    fn size() -> (r: usize) {
        T0::size() + T1::size() + T2::size() + T3::size() + T4::size() + T5::size() + T6::size() + T7::size() + T8::size() + T9::size() + T10::size() + T11::size()
    }
}

impl<T0: Serialize, T1: Serialize, T2: Serialize, T3: Serialize, T4: Serialize, T5: Serialize, T6: Serialize, T7: Serialize, T8: Serialize, T9: Serialize, T10: Serialize, T11: Serialize> Serialize for (T0, T1, T2, T3, T4, T5, T6, T7, T8, T9, T10, T11) {
    open spec fn spec_encodes(&self, bytes: Seq<u8>) -> bool {
        &&& bytes.len() == Self::spec_size()
        &&& self.0.spec_encodes(bytes.subrange((0) as int, (T0::spec_size()) as int))
        &&& self.1.spec_encodes(bytes.subrange((T0::spec_size()) as int, (T0::spec_size() + T1::spec_size()) as int))
        &&& self.2.spec_encodes(bytes.subrange((T0::spec_size() + T1::spec_size()) as int, (T0::spec_size() + T1::spec_size() + T2::spec_size()) as int))
        &&& self.3.spec_encodes(bytes.subrange((T0::spec_size() + T1::spec_size() + T2::spec_size()) as int, (T0::spec_size() + T1::spec_size() + T2::spec_size() + T3::spec_size()) as int))
        &&& self.4.spec_encodes(bytes.subrange((T0::spec_size() + T1::spec_size() + T2::spec_size() + T3::spec_size()) as int, (T0::spec_size() + T1::spec_size() + T2::spec_size() + T3::spec_size() + T4::spec_size()) as int))
        &&& self.5.spec_encodes(bytes.subrange((T0::spec_size() + T1::spec_size() + T2::spec_size() + T3::spec_size() + T4::spec_size()) as int, (T0::spec_size() + T1::spec_size() + T2::spec_size() + T3::spec_size() + T4::spec_size() + T5::spec_size()) as int))
        &&& self.6.spec_encodes(bytes.subrange((T0::spec_size() + T1::spec_size() + T2::spec_size() + T3::spec_size() + T4::spec_size() + T5::spec_size()) as int, (T0::spec_size() + T1::spec_size() + T2::spec_size() + T3::spec_size() + T4::spec_size() + T5::spec_size() + T6::spec_size()) as int))
        &&& self.7.spec_encodes(bytes.subrange((T0::spec_size() + T1::spec_size() + T2::spec_size() + T3::spec_size() + T4::spec_size() + T5::spec_size() + T6::spec_size()) as int, (T0::spec_size() + T1::spec_size() + T2::spec_size() + T3::spec_size() + T4::spec_size() + T5::spec_size() + T6::spec_size() + T7::spec_size()) as int))
        &&& self.8.spec_encodes(bytes.subrange((T0::spec_size() + T1::spec_size() + T2::spec_size() + T3::spec_size() + T4::spec_size() + T5::spec_size() + T6::spec_size() + T7::spec_size()) as int, (T0::spec_size() + T1::spec_size() + T2::spec_size() + T3::spec_size() + T4::spec_size() + T5::spec_size() + T6::spec_size() + T7::spec_size() + T8::spec_size()) as int))
        &&& self.9.spec_encodes(bytes.subrange((T0::spec_size() + T1::spec_size() + T2::spec_size() + T3::spec_size() + T4::spec_size() + T5::spec_size() + T6::spec_size() + T7::spec_size() + T8::spec_size()) as int, (T0::spec_size() + T1::spec_size() + T2::spec_size() + T3::spec_size() + T4::spec_size() + T5::spec_size() + T6::spec_size() + T7::spec_size() + T8::spec_size() + T9::spec_size()) as int))
        &&& self.10.spec_encodes(bytes.subrange((T0::spec_size() + T1::spec_size() + T2::spec_size() + T3::spec_size() + T4::spec_size() + T5::spec_size() + T6::spec_size() + T7::spec_size() + T8::spec_size() + T9::spec_size()) as int, (T0::spec_size() + T1::spec_size() + T2::spec_size() + T3::spec_size() + T4::spec_size() + T5::spec_size() + T6::spec_size() + T7::spec_size() + T8::spec_size() + T9::spec_size() + T10::spec_size()) as int))
        &&& self.11.spec_encodes(bytes.subrange((T0::spec_size() + T1::spec_size() + T2::spec_size() + T3::spec_size() + T4::spec_size() + T5::spec_size() + T6::spec_size() + T7::spec_size() + T8::spec_size() + T9::spec_size() + T10::spec_size()) as int, (T0::spec_size() + T1::spec_size() + T2::spec_size() + T3::spec_size() + T4::spec_size() + T5::spec_size() + T6::spec_size() + T7::spec_size() + T8::spec_size() + T9::spec_size() + T10::spec_size() + T11::spec_size()) as int))
    }

    proof fn lemma_encoding_len(&self, bytes: Seq<u8>) {
    }

    proof fn lemma_zero_size(&self) {
        self.0.lemma_zero_size();
        self.1.lemma_zero_size();
        self.2.lemma_zero_size();
        self.3.lemma_zero_size();
        self.4.lemma_zero_size();
        self.5.lemma_zero_size();
        self.6.lemma_zero_size();
        self.7.lemma_zero_size();
        self.8.lemma_zero_size();
        self.9.lemma_zero_size();
        self.10.lemma_zero_size();
        self.11.lemma_zero_size();
        assert forall|lo: int, hi: int| 0 <= lo <= hi <= 0 implies #[trigger] Seq::<u8>::empty().subrange(lo, hi) =~= Seq::<u8>::empty() by {}
    }

    #[verifier::rlimit(60)]
    fn serialize(&self, buffer: &mut [u8]) {
        let total = buffer.len();
        assert(total == Self::spec_size());
        let n0 = T0::size();
        let n1 = T1::size();
        let n2 = T2::size();
        let n3 = T3::size();
        let n4 = T4::size();
        let n5 = T5::size();
        let n6 = T6::size();
        let n7 = T7::size();
        let n8 = T8::size();
        let n9 = T9::size();
        let n10 = T10::size();
        let (w0, rest0) = buffer.split_at_mut(n0);
        self.0.serialize(w0);
        let (w1, rest1) = rest0.split_at_mut(n1);
        self.1.serialize(w1);
        let (w2, rest2) = rest1.split_at_mut(n2);
        self.2.serialize(w2);
        let (w3, rest3) = rest2.split_at_mut(n3);
        self.3.serialize(w3);
        let (w4, rest4) = rest3.split_at_mut(n4);
        self.4.serialize(w4);
        let (w5, rest5) = rest4.split_at_mut(n5);
        self.5.serialize(w5);
        let (w6, rest6) = rest5.split_at_mut(n6);
        self.6.serialize(w6);
        let (w7, rest7) = rest6.split_at_mut(n7);
        self.7.serialize(w7);
        let (w8, rest8) = rest7.split_at_mut(n8);
        self.8.serialize(w8);
        let (w9, rest9) = rest8.split_at_mut(n9);
        self.9.serialize(w9);
        let (w10, rest10) = rest9.split_at_mut(n10);
        self.10.serialize(w10);
        self.11.serialize(rest10);
        proof {
            assert(final(buffer)@.subrange(0, final(buffer)@.len() as int) =~= final(buffer)@);
            lemma_split_window(final(buffer)@, (0) as int, final(w0)@, final(rest0)@);
            lemma_split_window(final(buffer)@, (T0::spec_size()) as int, final(w1)@, final(rest1)@);
            lemma_split_window(final(buffer)@, (T0::spec_size() + T1::spec_size()) as int, final(w2)@, final(rest2)@);
            lemma_split_window(final(buffer)@, (T0::spec_size() + T1::spec_size() + T2::spec_size()) as int, final(w3)@, final(rest3)@);
            lemma_split_window(final(buffer)@, (T0::spec_size() + T1::spec_size() + T2::spec_size() + T3::spec_size()) as int, final(w4)@, final(rest4)@);
            lemma_split_window(final(buffer)@, (T0::spec_size() + T1::spec_size() + T2::spec_size() + T3::spec_size() + T4::spec_size()) as int, final(w5)@, final(rest5)@);
            lemma_split_window(final(buffer)@, (T0::spec_size() + T1::spec_size() + T2::spec_size() + T3::spec_size() + T4::spec_size() + T5::spec_size()) as int, final(w6)@, final(rest6)@);
            lemma_split_window(final(buffer)@, (T0::spec_size() + T1::spec_size() + T2::spec_size() + T3::spec_size() + T4::spec_size() + T5::spec_size() + T6::spec_size()) as int, final(w7)@, final(rest7)@);
            lemma_split_window(final(buffer)@, (T0::spec_size() + T1::spec_size() + T2::spec_size() + T3::spec_size() + T4::spec_size() + T5::spec_size() + T6::spec_size() + T7::spec_size()) as int, final(w8)@, final(rest8)@);
            lemma_split_window(final(buffer)@, (T0::spec_size() + T1::spec_size() + T2::spec_size() + T3::spec_size() + T4::spec_size() + T5::spec_size() + T6::spec_size() + T7::spec_size() + T8::spec_size()) as int, final(w9)@, final(rest9)@);
            lemma_split_window(final(buffer)@, (T0::spec_size() + T1::spec_size() + T2::spec_size() + T3::spec_size() + T4::spec_size() + T5::spec_size() + T6::spec_size() + T7::spec_size() + T8::spec_size() + T9::spec_size()) as int, final(w10)@, final(rest10)@);
        }
    }
}

impl<T0: Deserialize, T1: Deserialize, T2: Deserialize, T3: Deserialize, T4: Deserialize, T5: Deserialize, T6: Deserialize, T7: Deserialize, T8: Deserialize, T9: Deserialize, T10: Deserialize, T11: Deserialize> Deserialize for (T0, T1, T2, T3, T4, T5, T6, T7, T8, T9, T10, T11) {
    type Error = TupleError12<T0::Error, T1::Error, T2::Error, T3::Error, T4::Error, T5::Error, T6::Error, T7::Error, T8::Error, T9::Error, T10::Error, T11::Error>;

    proof fn lemma_zero_size_accepts() {
        T0::lemma_zero_size_accepts();
        T1::lemma_zero_size_accepts();
        T2::lemma_zero_size_accepts();
        T3::lemma_zero_size_accepts();
        T4::lemma_zero_size_accepts();
        T5::lemma_zero_size_accepts();
        T6::lemma_zero_size_accepts();
        T7::lemma_zero_size_accepts();
        T8::lemma_zero_size_accepts();
        T9::lemma_zero_size_accepts();
        T10::lemma_zero_size_accepts();
        T11::lemma_zero_size_accepts();
        assert(Seq::<u8>::empty().subrange(0, 0) =~= Seq::<u8>::empty());
    }

    open spec fn spec_check(bytes: Seq<u8>) -> Result<(), Self::Error> {
        match T0::spec_check(bytes.subrange((0) as int, (T0::spec_size()) as int)) {
            Err(e) => Err(TupleError12::Field0(e)),
            Ok(()) => match T1::spec_check(bytes.subrange((T0::spec_size()) as int, (T0::spec_size() + T1::spec_size()) as int)) {
                Err(e) => Err(TupleError12::Field1(e)),
                Ok(()) => match T2::spec_check(bytes.subrange((T0::spec_size() + T1::spec_size()) as int, (T0::spec_size() + T1::spec_size() + T2::spec_size()) as int)) {
                    Err(e) => Err(TupleError12::Field2(e)),
                    Ok(()) => match T3::spec_check(bytes.subrange((T0::spec_size() + T1::spec_size() + T2::spec_size()) as int, (T0::spec_size() + T1::spec_size() + T2::spec_size() + T3::spec_size()) as int)) {
                        Err(e) => Err(TupleError12::Field3(e)),
                        Ok(()) => match T4::spec_check(bytes.subrange((T0::spec_size() + T1::spec_size() + T2::spec_size() + T3::spec_size()) as int, (T0::spec_size() + T1::spec_size() + T2::spec_size() + T3::spec_size() + T4::spec_size()) as int)) {
                            Err(e) => Err(TupleError12::Field4(e)),
                            Ok(()) => match T5::spec_check(bytes.subrange((T0::spec_size() + T1::spec_size() + T2::spec_size() + T3::spec_size() + T4::spec_size()) as int, (T0::spec_size() + T1::spec_size() + T2::spec_size() + T3::spec_size() + T4::spec_size() + T5::spec_size()) as int)) {
                                Err(e) => Err(TupleError12::Field5(e)),
                                Ok(()) => match T6::spec_check(bytes.subrange((T0::spec_size() + T1::spec_size() + T2::spec_size() + T3::spec_size() + T4::spec_size() + T5::spec_size()) as int, (T0::spec_size() + T1::spec_size() + T2::spec_size() + T3::spec_size() + T4::spec_size() + T5::spec_size() + T6::spec_size()) as int)) {
                                    Err(e) => Err(TupleError12::Field6(e)),
                                    Ok(()) => match T7::spec_check(bytes.subrange((T0::spec_size() + T1::spec_size() + T2::spec_size() + T3::spec_size() + T4::spec_size() + T5::spec_size() + T6::spec_size()) as int, (T0::spec_size() + T1::spec_size() + T2::spec_size() + T3::spec_size() + T4::spec_size() + T5::spec_size() + T6::spec_size() + T7::spec_size()) as int)) {
                                        Err(e) => Err(TupleError12::Field7(e)),
                                        Ok(()) => match T8::spec_check(bytes.subrange((T0::spec_size() + T1::spec_size() + T2::spec_size() + T3::spec_size() + T4::spec_size() + T5::spec_size() + T6::spec_size() + T7::spec_size()) as int, (T0::spec_size() + T1::spec_size() + T2::spec_size() + T3::spec_size() + T4::spec_size() + T5::spec_size() + T6::spec_size() + T7::spec_size() + T8::spec_size()) as int)) {
                                            Err(e) => Err(TupleError12::Field8(e)),
                                            Ok(()) => match T9::spec_check(bytes.subrange((T0::spec_size() + T1::spec_size() + T2::spec_size() + T3::spec_size() + T4::spec_size() + T5::spec_size() + T6::spec_size() + T7::spec_size() + T8::spec_size()) as int, (T0::spec_size() + T1::spec_size() + T2::spec_size() + T3::spec_size() + T4::spec_size() + T5::spec_size() + T6::spec_size() + T7::spec_size() + T8::spec_size() + T9::spec_size()) as int)) {
                                                Err(e) => Err(TupleError12::Field9(e)),
                                                Ok(()) => match T10::spec_check(bytes.subrange((T0::spec_size() + T1::spec_size() + T2::spec_size() + T3::spec_size() + T4::spec_size() + T5::spec_size() + T6::spec_size() + T7::spec_size() + T8::spec_size() + T9::spec_size()) as int, (T0::spec_size() + T1::spec_size() + T2::spec_size() + T3::spec_size() + T4::spec_size() + T5::spec_size() + T6::spec_size() + T7::spec_size() + T8::spec_size() + T9::spec_size() + T10::spec_size()) as int)) {
                                                    Err(e) => Err(TupleError12::Field10(e)),
                                                    Ok(()) => match T11::spec_check(bytes.subrange((T0::spec_size() + T1::spec_size() + T2::spec_size() + T3::spec_size() + T4::spec_size() + T5::spec_size() + T6::spec_size() + T7::spec_size() + T8::spec_size() + T9::spec_size() + T10::spec_size()) as int, (T0::spec_size() + T1::spec_size() + T2::spec_size() + T3::spec_size() + T4::spec_size() + T5::spec_size() + T6::spec_size() + T7::spec_size() + T8::spec_size() + T9::spec_size() + T10::spec_size() + T11::spec_size()) as int)) {
                                                        Err(e) => Err(TupleError12::Field11(e)),
                                                        Ok(()) => Ok(()),
                                                    },
                                                },
                                            },
                                        },
                                    },
                                },
                            },
                        },
                    },
                },
            },
        }
    }

    open spec fn spec_decodes(bytes: Seq<u8>, value: Self) -> bool {
        &&& T0::spec_decodes(bytes.subrange((0) as int, (T0::spec_size()) as int), value.0)
        &&& T1::spec_decodes(bytes.subrange((T0::spec_size()) as int, (T0::spec_size() + T1::spec_size()) as int), value.1)
        &&& T2::spec_decodes(bytes.subrange((T0::spec_size() + T1::spec_size()) as int, (T0::spec_size() + T1::spec_size() + T2::spec_size()) as int), value.2)
        &&& T3::spec_decodes(bytes.subrange((T0::spec_size() + T1::spec_size() + T2::spec_size()) as int, (T0::spec_size() + T1::spec_size() + T2::spec_size() + T3::spec_size()) as int), value.3)
        &&& T4::spec_decodes(bytes.subrange((T0::spec_size() + T1::spec_size() + T2::spec_size() + T3::spec_size()) as int, (T0::spec_size() + T1::spec_size() + T2::spec_size() + T3::spec_size() + T4::spec_size()) as int), value.4)
        &&& T5::spec_decodes(bytes.subrange((T0::spec_size() + T1::spec_size() + T2::spec_size() + T3::spec_size() + T4::spec_size()) as int, (T0::spec_size() + T1::spec_size() + T2::spec_size() + T3::spec_size() + T4::spec_size() + T5::spec_size()) as int), value.5)
        &&& T6::spec_decodes(bytes.subrange((T0::spec_size() + T1::spec_size() + T2::spec_size() + T3::spec_size() + T4::spec_size() + T5::spec_size()) as int, (T0::spec_size() + T1::spec_size() + T2::spec_size() + T3::spec_size() + T4::spec_size() + T5::spec_size() + T6::spec_size()) as int), value.6)
        &&& T7::spec_decodes(bytes.subrange((T0::spec_size() + T1::spec_size() + T2::spec_size() + T3::spec_size() + T4::spec_size() + T5::spec_size() + T6::spec_size()) as int, (T0::spec_size() + T1::spec_size() + T2::spec_size() + T3::spec_size() + T4::spec_size() + T5::spec_size() + T6::spec_size() + T7::spec_size()) as int), value.7)
        &&& T8::spec_decodes(bytes.subrange((T0::spec_size() + T1::spec_size() + T2::spec_size() + T3::spec_size() + T4::spec_size() + T5::spec_size() + T6::spec_size() + T7::spec_size()) as int, (T0::spec_size() + T1::spec_size() + T2::spec_size() + T3::spec_size() + T4::spec_size() + T5::spec_size() + T6::spec_size() + T7::spec_size() + T8::spec_size()) as int), value.8)
        &&& T9::spec_decodes(bytes.subrange((T0::spec_size() + T1::spec_size() + T2::spec_size() + T3::spec_size() + T4::spec_size() + T5::spec_size() + T6::spec_size() + T7::spec_size() + T8::spec_size()) as int, (T0::spec_size() + T1::spec_size() + T2::spec_size() + T3::spec_size() + T4::spec_size() + T5::spec_size() + T6::spec_size() + T7::spec_size() + T8::spec_size() + T9::spec_size()) as int), value.9)
        &&& T10::spec_decodes(bytes.subrange((T0::spec_size() + T1::spec_size() + T2::spec_size() + T3::spec_size() + T4::spec_size() + T5::spec_size() + T6::spec_size() + T7::spec_size() + T8::spec_size() + T9::spec_size()) as int, (T0::spec_size() + T1::spec_size() + T2::spec_size() + T3::spec_size() + T4::spec_size() + T5::spec_size() + T6::spec_size() + T7::spec_size() + T8::spec_size() + T9::spec_size() + T10::spec_size()) as int), value.10)
        &&& T11::spec_decodes(bytes.subrange((T0::spec_size() + T1::spec_size() + T2::spec_size() + T3::spec_size() + T4::spec_size() + T5::spec_size() + T6::spec_size() + T7::spec_size() + T8::spec_size() + T9::spec_size() + T10::spec_size()) as int, (T0::spec_size() + T1::spec_size() + T2::spec_size() + T3::spec_size() + T4::spec_size() + T5::spec_size() + T6::spec_size() + T7::spec_size() + T8::spec_size() + T9::spec_size() + T10::spec_size() + T11::spec_size()) as int), value.11)
    }

    #[verifier::rlimit(60)]
    fn deserialize(buffer: &[u8]) -> (r: Result<Self, Self::Error>) {
        let total = buffer.len();
        assert(total == Self::spec_size());
        let n0 = T0::size();
        let n1 = T1::size();
        let n2 = T2::size();
        let n3 = T3::size();
        let n4 = T4::size();
        let n5 = T5::size();
        let n6 = T6::size();
        let n7 = T7::size();
        let n8 = T8::size();
        let n9 = T9::size();
        let n10 = T10::size();
        let (w0, rest0) = buffer.split_at(n0);
        assert(w0@ == buffer@.subrange((0) as int, (T0::spec_size()) as int));
        let v0 = match T0::deserialize(w0) {
            Ok(v) => v,
            Err(e) => {
                return Err(TupleError12::Field0(e));
            },
        };
        let (w1, rest1) = rest0.split_at(n1);
        assert(w1@ == buffer@.subrange((T0::spec_size()) as int, (T0::spec_size() + T1::spec_size()) as int));
        let v1 = match T1::deserialize(w1) {
            Ok(v) => v,
            Err(e) => {
                return Err(TupleError12::Field1(e));
            },
        };
        let (w2, rest2) = rest1.split_at(n2);
        assert(w2@ == buffer@.subrange((T0::spec_size() + T1::spec_size()) as int, (T0::spec_size() + T1::spec_size() + T2::spec_size()) as int));
        let v2 = match T2::deserialize(w2) {
            Ok(v) => v,
            Err(e) => {
                return Err(TupleError12::Field2(e));
            },
        };
        let (w3, rest3) = rest2.split_at(n3);
        assert(w3@ == buffer@.subrange((T0::spec_size() + T1::spec_size() + T2::spec_size()) as int, (T0::spec_size() + T1::spec_size() + T2::spec_size() + T3::spec_size()) as int));
        let v3 = match T3::deserialize(w3) {
            Ok(v) => v,
            Err(e) => {
                return Err(TupleError12::Field3(e));
            },
        };
        let (w4, rest4) = rest3.split_at(n4);
        assert(w4@ == buffer@.subrange((T0::spec_size() + T1::spec_size() + T2::spec_size() + T3::spec_size()) as int, (T0::spec_size() + T1::spec_size() + T2::spec_size() + T3::spec_size() + T4::spec_size()) as int));
        let v4 = match T4::deserialize(w4) {
            Ok(v) => v,
            Err(e) => {
                return Err(TupleError12::Field4(e));
            },
        };
        let (w5, rest5) = rest4.split_at(n5);
        assert(w5@ == buffer@.subrange((T0::spec_size() + T1::spec_size() + T2::spec_size() + T3::spec_size() + T4::spec_size()) as int, (T0::spec_size() + T1::spec_size() + T2::spec_size() + T3::spec_size() + T4::spec_size() + T5::spec_size()) as int));
        let v5 = match T5::deserialize(w5) {
            Ok(v) => v,
            Err(e) => {
                return Err(TupleError12::Field5(e));
            },
        };
        let (w6, rest6) = rest5.split_at(n6);
        assert(w6@ == buffer@.subrange((T0::spec_size() + T1::spec_size() + T2::spec_size() + T3::spec_size() + T4::spec_size() + T5::spec_size()) as int, (T0::spec_size() + T1::spec_size() + T2::spec_size() + T3::spec_size() + T4::spec_size() + T5::spec_size() + T6::spec_size()) as int));
        let v6 = match T6::deserialize(w6) {
            Ok(v) => v,
            Err(e) => {
                return Err(TupleError12::Field6(e));
            },
        };
        let (w7, rest7) = rest6.split_at(n7);
        assert(w7@ == buffer@.subrange((T0::spec_size() + T1::spec_size() + T2::spec_size() + T3::spec_size() + T4::spec_size() + T5::spec_size() + T6::spec_size()) as int, (T0::spec_size() + T1::spec_size() + T2::spec_size() + T3::spec_size() + T4::spec_size() + T5::spec_size() + T6::spec_size() + T7::spec_size()) as int));
        let v7 = match T7::deserialize(w7) {
            Ok(v) => v,
            Err(e) => {
                return Err(TupleError12::Field7(e));
            },
        };
        let (w8, rest8) = rest7.split_at(n8);
        assert(w8@ == buffer@.subrange((T0::spec_size() + T1::spec_size() + T2::spec_size() + T3::spec_size() + T4::spec_size() + T5::spec_size() + T6::spec_size() + T7::spec_size()) as int, (T0::spec_size() + T1::spec_size() + T2::spec_size() + T3::spec_size() + T4::spec_size() + T5::spec_size() + T6::spec_size() + T7::spec_size() + T8::spec_size()) as int));
        let v8 = match T8::deserialize(w8) {
            Ok(v) => v,
            Err(e) => {
                return Err(TupleError12::Field8(e));
            },
        };
        let (w9, rest9) = rest8.split_at(n9);
        assert(w9@ == buffer@.subrange((T0::spec_size() + T1::spec_size() + T2::spec_size() + T3::spec_size() + T4::spec_size() + T5::spec_size() + T6::spec_size() + T7::spec_size() + T8::spec_size()) as int, (T0::spec_size() + T1::spec_size() + T2::spec_size() + T3::spec_size() + T4::spec_size() + T5::spec_size() + T6::spec_size() + T7::spec_size() + T8::spec_size() + T9::spec_size()) as int));
        let v9 = match T9::deserialize(w9) {
            Ok(v) => v,
            Err(e) => {
                return Err(TupleError12::Field9(e));
            },
        };
        let (w10, rest10) = rest9.split_at(n10);
        assert(w10@ == buffer@.subrange((T0::spec_size() + T1::spec_size() + T2::spec_size() + T3::spec_size() + T4::spec_size() + T5::spec_size() + T6::spec_size() + T7::spec_size() + T8::spec_size() + T9::spec_size()) as int, (T0::spec_size() + T1::spec_size() + T2::spec_size() + T3::spec_size() + T4::spec_size() + T5::spec_size() + T6::spec_size() + T7::spec_size() + T8::spec_size() + T9::spec_size() + T10::spec_size()) as int));
        let v10 = match T10::deserialize(w10) {
            Ok(v) => v,
            Err(e) => {
                return Err(TupleError12::Field10(e));
            },
        };
        assert(rest10@ == buffer@.subrange((T0::spec_size() + T1::spec_size() + T2::spec_size() + T3::spec_size() + T4::spec_size() + T5::spec_size() + T6::spec_size() + T7::spec_size() + T8::spec_size() + T9::spec_size() + T10::spec_size()) as int, (T0::spec_size() + T1::spec_size() + T2::spec_size() + T3::spec_size() + T4::spec_size() + T5::spec_size() + T6::spec_size() + T7::spec_size() + T8::spec_size() + T9::spec_size() + T10::spec_size() + T11::spec_size()) as int));
        let v11 = match T11::deserialize(rest10) {
            Ok(v) => v,
            Err(e) => {
                return Err(TupleError12::Field11(e));
            },
        };
        Ok((v0, v1, v2, v3, v4, v5, v6, v7, v8, v9, v10, v11))
    }
}

impl<T0: RoundTrip, T1: RoundTrip, T2: RoundTrip, T3: RoundTrip, T4: RoundTrip, T5: RoundTrip, T6: RoundTrip, T7: RoundTrip, T8: RoundTrip, T9: RoundTrip, T10: RoundTrip, T11: RoundTrip> RoundTrip for (T0, T1, T2, T3, T4, T5, T6, T7, T8, T9, T10, T11) {
    proof fn lemma_decodes_unique(bytes: Seq<u8>, x: Self, y: Self) {
        T0::lemma_decodes_unique(bytes.subrange((0) as int, (T0::spec_size()) as int), x.0, y.0);
        T1::lemma_decodes_unique(bytes.subrange((T0::spec_size()) as int, (T0::spec_size() + T1::spec_size()) as int), x.1, y.1);
        T2::lemma_decodes_unique(bytes.subrange((T0::spec_size() + T1::spec_size()) as int, (T0::spec_size() + T1::spec_size() + T2::spec_size()) as int), x.2, y.2);
        T3::lemma_decodes_unique(bytes.subrange((T0::spec_size() + T1::spec_size() + T2::spec_size()) as int, (T0::spec_size() + T1::spec_size() + T2::spec_size() + T3::spec_size()) as int), x.3, y.3);
        T4::lemma_decodes_unique(bytes.subrange((T0::spec_size() + T1::spec_size() + T2::spec_size() + T3::spec_size()) as int, (T0::spec_size() + T1::spec_size() + T2::spec_size() + T3::spec_size() + T4::spec_size()) as int), x.4, y.4);
        T5::lemma_decodes_unique(bytes.subrange((T0::spec_size() + T1::spec_size() + T2::spec_size() + T3::spec_size() + T4::spec_size()) as int, (T0::spec_size() + T1::spec_size() + T2::spec_size() + T3::spec_size() + T4::spec_size() + T5::spec_size()) as int), x.5, y.5);
        T6::lemma_decodes_unique(bytes.subrange((T0::spec_size() + T1::spec_size() + T2::spec_size() + T3::spec_size() + T4::spec_size() + T5::spec_size()) as int, (T0::spec_size() + T1::spec_size() + T2::spec_size() + T3::spec_size() + T4::spec_size() + T5::spec_size() + T6::spec_size()) as int), x.6, y.6);
        T7::lemma_decodes_unique(bytes.subrange((T0::spec_size() + T1::spec_size() + T2::spec_size() + T3::spec_size() + T4::spec_size() + T5::spec_size() + T6::spec_size()) as int, (T0::spec_size() + T1::spec_size() + T2::spec_size() + T3::spec_size() + T4::spec_size() + T5::spec_size() + T6::spec_size() + T7::spec_size()) as int), x.7, y.7);
        T8::lemma_decodes_unique(bytes.subrange((T0::spec_size() + T1::spec_size() + T2::spec_size() + T3::spec_size() + T4::spec_size() + T5::spec_size() + T6::spec_size() + T7::spec_size()) as int, (T0::spec_size() + T1::spec_size() + T2::spec_size() + T3::spec_size() + T4::spec_size() + T5::spec_size() + T6::spec_size() + T7::spec_size() + T8::spec_size()) as int), x.8, y.8);
        T9::lemma_decodes_unique(bytes.subrange((T0::spec_size() + T1::spec_size() + T2::spec_size() + T3::spec_size() + T4::spec_size() + T5::spec_size() + T6::spec_size() + T7::spec_size() + T8::spec_size()) as int, (T0::spec_size() + T1::spec_size() + T2::spec_size() + T3::spec_size() + T4::spec_size() + T5::spec_size() + T6::spec_size() + T7::spec_size() + T8::spec_size() + T9::spec_size()) as int), x.9, y.9);
        T10::lemma_decodes_unique(bytes.subrange((T0::spec_size() + T1::spec_size() + T2::spec_size() + T3::spec_size() + T4::spec_size() + T5::spec_size() + T6::spec_size() + T7::spec_size() + T8::spec_size() + T9::spec_size()) as int, (T0::spec_size() + T1::spec_size() + T2::spec_size() + T3::spec_size() + T4::spec_size() + T5::spec_size() + T6::spec_size() + T7::spec_size() + T8::spec_size() + T9::spec_size() + T10::spec_size()) as int), x.10, y.10);
        T11::lemma_decodes_unique(bytes.subrange((T0::spec_size() + T1::spec_size() + T2::spec_size() + T3::spec_size() + T4::spec_size() + T5::spec_size() + T6::spec_size() + T7::spec_size() + T8::spec_size() + T9::spec_size() + T10::spec_size()) as int, (T0::spec_size() + T1::spec_size() + T2::spec_size() + T3::spec_size() + T4::spec_size() + T5::spec_size() + T6::spec_size() + T7::spec_size() + T8::spec_size() + T9::spec_size() + T10::spec_size() + T11::spec_size()) as int), x.11, y.11);
    }

    proof fn lemma_round_trip(&self, bytes: Seq<u8>) {
        self.0.lemma_round_trip(bytes.subrange((0) as int, (T0::spec_size()) as int));
        self.1.lemma_round_trip(bytes.subrange((T0::spec_size()) as int, (T0::spec_size() + T1::spec_size()) as int));
        self.2.lemma_round_trip(bytes.subrange((T0::spec_size() + T1::spec_size()) as int, (T0::spec_size() + T1::spec_size() + T2::spec_size()) as int));
        self.3.lemma_round_trip(bytes.subrange((T0::spec_size() + T1::spec_size() + T2::spec_size()) as int, (T0::spec_size() + T1::spec_size() + T2::spec_size() + T3::spec_size()) as int));
        self.4.lemma_round_trip(bytes.subrange((T0::spec_size() + T1::spec_size() + T2::spec_size() + T3::spec_size()) as int, (T0::spec_size() + T1::spec_size() + T2::spec_size() + T3::spec_size() + T4::spec_size()) as int));
        self.5.lemma_round_trip(bytes.subrange((T0::spec_size() + T1::spec_size() + T2::spec_size() + T3::spec_size() + T4::spec_size()) as int, (T0::spec_size() + T1::spec_size() + T2::spec_size() + T3::spec_size() + T4::spec_size() + T5::spec_size()) as int));
        self.6.lemma_round_trip(bytes.subrange((T0::spec_size() + T1::spec_size() + T2::spec_size() + T3::spec_size() + T4::spec_size() + T5::spec_size()) as int, (T0::spec_size() + T1::spec_size() + T2::spec_size() + T3::spec_size() + T4::spec_size() + T5::spec_size() + T6::spec_size()) as int));
        self.7.lemma_round_trip(bytes.subrange((T0::spec_size() + T1::spec_size() + T2::spec_size() + T3::spec_size() + T4::spec_size() + T5::spec_size() + T6::spec_size()) as int, (T0::spec_size() + T1::spec_size() + T2::spec_size() + T3::spec_size() + T4::spec_size() + T5::spec_size() + T6::spec_size() + T7::spec_size()) as int));
        self.8.lemma_round_trip(bytes.subrange((T0::spec_size() + T1::spec_size() + T2::spec_size() + T3::spec_size() + T4::spec_size() + T5::spec_size() + T6::spec_size() + T7::spec_size()) as int, (T0::spec_size() + T1::spec_size() + T2::spec_size() + T3::spec_size() + T4::spec_size() + T5::spec_size() + T6::spec_size() + T7::spec_size() + T8::spec_size()) as int));
        self.9.lemma_round_trip(bytes.subrange((T0::spec_size() + T1::spec_size() + T2::spec_size() + T3::spec_size() + T4::spec_size() + T5::spec_size() + T6::spec_size() + T7::spec_size() + T8::spec_size()) as int, (T0::spec_size() + T1::spec_size() + T2::spec_size() + T3::spec_size() + T4::spec_size() + T5::spec_size() + T6::spec_size() + T7::spec_size() + T8::spec_size() + T9::spec_size()) as int));
        self.10.lemma_round_trip(bytes.subrange((T0::spec_size() + T1::spec_size() + T2::spec_size() + T3::spec_size() + T4::spec_size() + T5::spec_size() + T6::spec_size() + T7::spec_size() + T8::spec_size() + T9::spec_size()) as int, (T0::spec_size() + T1::spec_size() + T2::spec_size() + T3::spec_size() + T4::spec_size() + T5::spec_size() + T6::spec_size() + T7::spec_size() + T8::spec_size() + T9::spec_size() + T10::spec_size()) as int));
        self.11.lemma_round_trip(bytes.subrange((T0::spec_size() + T1::spec_size() + T2::spec_size() + T3::spec_size() + T4::spec_size() + T5::spec_size() + T6::spec_size() + T7::spec_size() + T8::spec_size() + T9::spec_size() + T10::spec_size()) as int, (T0::spec_size() + T1::spec_size() + T2::spec_size() + T3::spec_size() + T4::spec_size() + T5::spec_size() + T6::spec_size() + T7::spec_size() + T8::spec_size() + T9::spec_size() + T10::spec_size() + T11::spec_size()) as int));
    }
}

/// The window of a tuple of three fields is the fields' windows laid end to
/// end in declaration order: its size is the sum of theirs, and it decodes
/// to a tuple exactly when each field's window decodes to that field.
pub proof fn lemma_tuple_windows<A: Deserialize, B: Deserialize, C: Deserialize>(
    bytes: Seq<u8>,
    value: (A, B, C),
)
    requires
        bytes.len() == <(A, B, C)>::spec_size(),
    ensures
        <(A, B, C)>::spec_size() == A::spec_size() + B::spec_size() + C::spec_size(),
        <(A, B, C)>::spec_decodes(bytes, value) <==> {
            &&& A::spec_decodes(bytes.subrange(0, A::spec_size() as int), value.0)
            &&& B::spec_decodes(
                bytes.subrange(A::spec_size() as int, (A::spec_size() + B::spec_size()) as int),
                value.1,
            )
            &&& C::spec_decodes(
                bytes.subrange((A::spec_size() + B::spec_size()) as int, bytes.len() as int),
                value.2,
            )
        },
{
}

/// In a tuple of three fields whose first field's window is valid and whose
/// second field's window is not, decoding fails at field 1 with that field's
/// own error, whatever the third window holds.
pub proof fn lemma_field_attribution<A: Deserialize, B: Deserialize, C: Deserialize>(bytes: Seq<u8>)
    requires
        bytes.len() == <(A, B, C)>::spec_size(),
        A::spec_check(bytes.subrange(0, A::spec_size() as int)) is Ok,
        B::spec_check(
            bytes.subrange(A::spec_size() as int, (A::spec_size() + B::spec_size()) as int),
        ) is Err,
    ensures
        <(A, B, C)>::spec_check(bytes) == Err::<(), TupleError3<A::Error, B::Error, C::Error>>(
            TupleError3::Field1(
                B::spec_check(
                    bytes.subrange(A::spec_size() as int, (A::spec_size() + B::spec_size()) as int),
                )->Err_0,
            ),
        ),
{
}

} // verus!
