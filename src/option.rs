//! Optional values: a presence tag of one byte, then a payload slot of the
//! inner type's size that is always reserved, whether a value is there or not.
use crate::{Deserialize, IllegalBitPattern, RoundTrip, SerialSize, Serialize};
use vstd::prelude::*;

verus! {

/// Why the window of an `Option` holds no valid value.
#[derive(Debug, Clone, Copy, PartialEq, Eq)]
pub enum DeserializeOptionError<E> {
    /// The tag byte is neither 0 nor 1; the payload was not looked at.
    IllegalTag,
    /// The tag says a value is present, and the payload holds no valid one.
    Data(E),
}

/// The payload slot of an optional window: everything after the tag byte.
pub open spec fn payload(bytes: Seq<u8>) -> Seq<u8> {
    bytes.subrange(1, bytes.len() as int)
}

impl<T: SerialSize> SerialSize for Option<T> {
    open spec fn spec_size() -> nat {
        bool::spec_size() + T::spec_size()
    }

    fn size() -> (r: usize) {
        bool::size() + T::size()
    }
}

impl<T: Serialize> Serialize for Option<T> {
    /// `None` is tag 0 with a zero-filled payload; `Some(v)` is tag 1 with the encoding of `v`.
    open spec fn spec_encodes(&self, bytes: Seq<u8>) -> bool {
        &&& bytes.len() == Self::spec_size()
        &&& match self {
            None => bytes[0] == 0 && forall|i: int| 1 <= i < bytes.len() ==> #[trigger] bytes[i] == 0,
            Some(v) => bytes[0] == 1 && v.spec_encodes(payload(bytes)),
        }
    }

    proof fn lemma_encoding_len(&self, bytes: Seq<u8>) {
    }

    proof fn lemma_zero_size(&self) {
    }

    fn serialize(&self, buffer: &mut [u8]) {
        let (head, body) = buffer.split_at_mut(1);
        match self {
            None => {
                false.serialize(head);
                let n = body.len();
                let mut i: usize = 0;
                while i < n
                    invariant
                        n == body@.len(),
                        i <= n,
                        forall|j: int| 0 <= j < i ==> body@[j] == 0,
                    decreases n - i,
                {
                    body[i] = 0;
                    i = i + 1;
                }
            },
            Some(v) => {
                true.serialize(head);
                v.serialize(body);
            },
        }
        proof {
            assert(buffer@ =~= final(head)@ + final(body)@);
            assert(payload(buffer@) =~= final(body)@);
        }
    }
}

impl<T: Deserialize> Deserialize for Option<T> {
    type Error = DeserializeOptionError<T::Error>;

    proof fn lemma_zero_size_accepts() {
    }

    /// Tag 0 is valid whatever the payload holds; tag 1 is valid when the
    /// payload is; any other tag is rejected.
    open spec fn spec_check(bytes: Seq<u8>) -> Result<(), Self::Error> {
        if bytes[0] == 0 {
            Ok(())
        } else if bytes[0] == 1 {
            match T::spec_check(payload(bytes)) {
                Ok(()) => Ok(()),
                Err(e) => Err(DeserializeOptionError::Data(e)),
            }
        } else {
            Err(DeserializeOptionError::IllegalTag)
        }
    }

    open spec fn spec_decodes(bytes: Seq<u8>, value: Self) -> bool {
        match value {
            None => bytes[0] == 0,
            Some(v) => bytes[0] == 1 && T::spec_decodes(payload(bytes), v),
        }
    }

    fn deserialize(buffer: &[u8]) -> (r: Result<Self, Self::Error>) {
        let (head, body) = buffer.split_at(1);
        assert(body@ == payload(buffer@));
        match bool::deserialize(head) {
            Err(IllegalBitPattern) => Err(DeserializeOptionError::IllegalTag),
            Ok(false) => Ok(None),
            Ok(true) => match T::deserialize(body) {
                Ok(v) => Ok(Some(v)),
                Err(e) => Err(DeserializeOptionError::Data(e)),
            },
        }
    }
}

impl<T: RoundTrip> RoundTrip for Option<T> {
    proof fn lemma_decodes_unique(bytes: Seq<u8>, x: Self, y: Self) {
        if let (Some(a), Some(b)) = (x, y) {
            T::lemma_decodes_unique(payload(bytes), a, b);
        }
    }

    proof fn lemma_round_trip(&self, bytes: Seq<u8>) {
        if let Some(v) = self {
            v.lemma_round_trip(payload(bytes));
        }
    }
}

/// The window of an `Option` is one tag byte longer than that of its payload,
/// whether a value is present or not.
pub proof fn lemma_option_size<T: Serialize>(value: Option<T>, bytes: Seq<u8>)
    requires
        value.spec_encodes(bytes),
    ensures
        <Option<T>>::spec_size() == 1 + T::spec_size(),
        bytes.len() == 1 + T::spec_size(),
{
}

/// A window whose tag byte is neither 0 nor 1 is rejected with
/// [`DeserializeOptionError::IllegalTag`], whatever its payload holds.
pub proof fn lemma_option_tag_rejection<T: Deserialize>(bytes: Seq<u8>)
    requires
        bytes.len() == <Option<T>>::spec_size(),
        bytes[0] > 1,
    ensures
        <Option<T>>::spec_check(bytes) == Err::<(), DeserializeOptionError<T::Error>>(
            DeserializeOptionError::IllegalTag,
        ),
{
}

} // verus!
