//! Fixed arrays: element `i` fills the `i`-th window of the element's size,
//! in index order, with no gap between windows.
use crate::{Deserialize, RoundTrip, SerialSize, Serialize};
use vstd::prelude::*;

verus! {

/// The `i`-th of the consecutive windows of `size` bytes that make up `bytes`.
pub open spec fn element_window(bytes: Seq<u8>, size: nat, i: int) -> Seq<u8> {
    bytes.subrange(i * size, (i + 1) * size)
}

/// The outcome of checking element windows `i..n` in index order: the error
/// of the first element that fails, or `Ok(())` when none does.
pub open spec fn check_elements<T: Deserialize>(bytes: Seq<u8>, i: nat, n: nat) -> Result<
    (),
    T::Error,
>
    decreases n - i,
{
    if i >= n {
        Ok(())
    } else {
        match T::spec_check(element_window(bytes, T::spec_size(), i as int)) {
            Err(e) => Err(e),
            Ok(()) => check_elements::<T>(bytes, i + 1, n),
        }
    }
}

/// When every element window from `i` on is valid, so are the elements `i..n` together.
pub proof fn lemma_check_elements_ok<T: Deserialize>(bytes: Seq<u8>, i: nat, n: nat)
    requires
        forall|j: int|
            i <= j < n ==> #[trigger] T::spec_check(element_window(bytes, T::spec_size(), j)) is Ok,
    ensures
        check_elements::<T>(bytes, i, n) is Ok,
    decreases n - i,
{
    if i < n {
        assert(T::spec_check(element_window(bytes, T::spec_size(), i as int)) is Ok);
        lemma_check_elements_ok::<T>(bytes, i + 1, n);
    }
}

/// Element `i` of an array of `n` fits in a window of `n * size` bytes.
proof fn lemma_window_in_range(i: int, n: int, size: int)
    requires
        0 <= i < n,
        0 <= size,
    ensures
        0 <= i * size,
        i * size + size == (i + 1) * size,
        (i + 1) * size <= n * size,
        size <= n * size,
{
    assert((i + 1) * size <= n * size) by (nonlinear_arith)
        requires
            i + 1 <= n,
            0 <= size,
    ;
    assert(0 <= i * size) by (nonlinear_arith)
        requires
            0 <= i,
            0 <= size,
    ;
    assert(i * size + size == (i + 1) * size) by (nonlinear_arith);
    assert(size <= n * size) by (nonlinear_arith)
        requires
            1 <= n,
            0 <= size,
    ;
}

/// Relies on `<[T; N]>::try_from(Vec<T>)`: it succeeds exactly when the
/// vector holds `N` items, and the array then holds them in order.
#[verifier::external_body]
fn array_from_vec<T, const N: usize>(items: Vec<T>) -> (r: [T; N])
    requires
        items@.len() == N,
    ensures
        r@ == items@,
{
    <[T; N]>::try_from(items).ok().unwrap()
}

impl<T: SerialSize, const N: usize> SerialSize for [T; N] {
    open spec fn spec_size() -> nat {
        N as nat * T::spec_size()
    }

    fn size() -> (r: usize) {
        if N == 0 {
            0
        } else {
            proof {
                lemma_window_in_range(0, N as int, T::spec_size() as int);
            }
            let s = T::size();
            N * s
        }
    }
}

impl<T: Serialize, const N: usize> Serialize for [T; N] {
    open spec fn spec_encodes(&self, bytes: Seq<u8>) -> bool {
        &&& bytes.len() == Self::spec_size()
        &&& forall|i: int|
            0 <= i < N ==> #[trigger] self@[i].spec_encodes(
                element_window(bytes, T::spec_size(), i),
            )
    }

    proof fn lemma_encoding_len(&self, bytes: Seq<u8>) {
    }

    proof fn lemma_zero_size(&self) {
        if T::spec_size() == 0 {
            assert forall|i: int| 0 <= i < N implies #[trigger] self@[i].spec_encodes(
                element_window(Seq::empty(), T::spec_size(), i),
            ) by {
                self@[i].lemma_zero_size();
                assert(element_window(Seq::<u8>::empty(), 0, i) =~= Seq::empty());
            }
        } else {
            assert(N == 0) by (nonlinear_arith)
                requires
                    N as nat * T::spec_size() == 0,
                    T::spec_size() > 0,
            ;
        }
    }

    fn serialize(&self, buffer: &mut [u8]) {
        if N == 0 {
            assert(buffer@ =~= Seq::empty());
            return ;
        }
        let total = buffer.len();
        proof {
            lemma_window_in_range(0, N as int, T::spec_size() as int);
        }
        let s = T::size();
        if s == 0 {
            // The whole window is empty: there is nothing to write.
            proof {
                self.lemma_zero_size();
                assert(buffer@ =~= Seq::empty());
            }
            return ;
        }
        let ghost size = T::spec_size();
        let mut i: usize = 0;
        while i < N
            invariant
                0 < N,
                s == size,
                size == T::spec_size(),
                buffer@.len() == N * size,
                total == buffer@.len(),
                i <= N,
                forall|j: int|
                    0 <= j < i ==> #[trigger] self@[j].spec_encodes(
                        element_window(buffer@, size, j),
                    ),
            decreases N - i,
        {
            proof {
                lemma_window_in_range(i as int, N as int, size as int);
            }
            let ghost before = buffer@;
            let (head, tail) = buffer.split_at_mut((i + 1) * s);
            let (done, window) = head.split_at_mut(i * s);
            self[i].serialize(window);
            proof {
                assert(buffer@ =~= before.subrange(0, i * size) + final(window)@ + before.subrange(
                    (i + 1) * size,
                    N * size,
                ));
                assert forall|j: int| 0 <= j <= i implies #[trigger] self@[j].spec_encodes(
                    element_window(buffer@, size, j),
                ) by {
                    lemma_window_in_range(j, N as int, size as int);
                    if j < i {
                        lemma_window_in_range(j, i as int, size as int);
                        assert(element_window(buffer@, size, j) =~= element_window(
                            before,
                            size,
                            j,
                        ));
                    } else {
                        assert(element_window(buffer@, size, j) =~= final(window)@);
                    }
                }
            }
            i = i + 1;
        }
    }
}

impl<T: Deserialize, const N: usize> Deserialize for [T; N] {
    type Error = T::Error;

    proof fn lemma_zero_size_accepts() {
        if T::spec_size() == 0 {
            T::lemma_zero_size_accepts();
            assert forall|j: int| 0 <= j < N implies #[trigger] T::spec_check(
                element_window(Seq::empty(), T::spec_size(), j),
            ) is Ok by {
                assert(element_window(Seq::<u8>::empty(), 0, j) =~= Seq::empty());
            }
            lemma_check_elements_ok::<T>(Seq::empty(), 0, N as nat);
        } else {
            assert(N == 0) by (nonlinear_arith)
                requires
                    N as nat * T::spec_size() == 0,
                    T::spec_size() > 0,
            ;
        }
    }

    open spec fn spec_check(bytes: Seq<u8>) -> Result<(), T::Error> {
        check_elements::<T>(bytes, 0, N as nat)
    }

    open spec fn spec_decodes(bytes: Seq<u8>, value: Self) -> bool {
        forall|i: int|
            0 <= i < N ==> T::spec_decodes(
                element_window(bytes, T::spec_size(), i),
                #[trigger] value@[i],
            )
    }

    fn deserialize(buffer: &[u8]) -> (r: Result<Self, T::Error>) {
        let total = buffer.len();
        let s: usize = if N == 0 {
            0
        } else {
            proof {
                lemma_window_in_range(0, N as int, T::spec_size() as int);
            }
            T::size()
        };
        let ghost size = T::spec_size();
        let mut items: Vec<T> = Vec::new();
        let mut i: usize = 0;
        while i < N
            invariant
                N > 0 ==> s == size,
                size == T::spec_size(),
                buffer@.len() == N * size,
                total == buffer@.len(),
                i <= N,
                items@.len() == i,
                forall|j: int|
                    0 <= j < i ==> T::spec_decodes(
                        element_window(buffer@, size, j),
                        #[trigger] items@[j],
                    ),
                check_elements::<T>(buffer@, 0, N as nat) == check_elements::<T>(
                    buffer@,
                    i as nat,
                    N as nat,
                ),
            decreases N - i,
        {
            proof {
                lemma_window_in_range(i as int, N as int, size as int);
            }
            let window = &buffer[i * s..(i + 1) * s];
            assert(window@ == element_window(buffer@, size, i as int));
            match T::deserialize(window) {
                Ok(v) => {
                    items.push(v);
                },
                Err(e) => {
                    return Err(e);
                },
            }
            i = i + 1;
        }
        let r: [T; N] = array_from_vec(items);
        assert(r@ == items@);
        Ok(r)
    }
}

impl<T: RoundTrip, const N: usize> RoundTrip for [T; N] {
    proof fn lemma_decodes_unique(bytes: Seq<u8>, x: Self, y: Self) {
        assert forall|i: int| 0 <= i < N implies x@[i] == y@[i] by {
            T::lemma_decodes_unique(element_window(bytes, T::spec_size(), i), x@[i], y@[i]);
        }
        assert(x@ =~= y@);
    }

    proof fn lemma_round_trip(&self, bytes: Seq<u8>) {
        assert forall|j: int| 0 <= j < N implies #[trigger] T::spec_check(
            element_window(bytes, T::spec_size(), j),
        ) is Ok by {
            self@[j].lemma_round_trip(element_window(bytes, T::spec_size(), j));
        }
        assert forall|j: int| 0 <= j < N implies T::spec_decodes(
            element_window(bytes, T::spec_size(), j),
            #[trigger] self@[j],
        ) by {
            self@[j].lemma_round_trip(element_window(bytes, T::spec_size(), j));
        }
        lemma_check_elements_ok::<T>(bytes, 0, N as nat);
    }
}

/// An array of elements of size zero has size zero whatever its length:
/// every such array is encoded by the empty window, and decoding the empty
/// window succeeds.
pub proof fn lemma_zero_size_array<T: Serialize + Deserialize, const N: usize>()
    requires
        T::spec_size() == 0,
    ensures
        <[T; N]>::spec_size() == 0,
        forall|value: [T; N]| #[trigger] value.spec_encodes(Seq::empty()),
        <[T; N]>::spec_check(Seq::empty()) is Ok,
{
    <[T; N]>::lemma_zero_size_accepts();
    assert forall|value: [T; N]| #[trigger] value.spec_encodes(Seq::empty()) by {
        value.lemma_zero_size();
    }
}

} // verus!
