//! Byte-order policy and the base-256 layout of fixed-width integers.
use vstd::prelude::*;

verus! {

/// The order in which the bytes of a multi-byte scalar stand in its window.
#[derive(Debug, Clone, Copy, PartialEq, Eq)]
pub enum ByteOrder {
    /// Least significant byte first.
    Little,
    /// Most significant byte first.
    Big,
}

/// The single byte order that every multi-byte scalar of this crate uses.
///
/// It is fixed when the crate is built; sender and receiver must agree on it.
pub const BYTE_ORDER: ByteOrder = ByteOrder::Little;

/// `256` raised to the power `n`.
pub open spec fn pow256(n: nat) -> nat
    decreases n,
{
    if n == 0 {
        1
    } else {
        256 * pow256((n - 1) as nat)
    }
}

/// The lowest `n` base-256 digits of `x`, least significant first.
pub open spec fn le_bytes(x: nat, n: nat) -> Seq<u8>
    decreases n,
{
    if n == 0 {
        Seq::empty()
    } else {
        seq![(x % 256) as u8] + le_bytes(x / 256, (n - 1) as nat)
    }
}

/// The number whose base-256 digits, least significant first, are `s`.
pub open spec fn le_value(s: Seq<u8>) -> nat
    decreases s.len(),
{
    if s.len() == 0 {
        0
    } else {
        s[0] as nat + 256 * le_value(s.drop_first())
    }
}

/// Reorders little-endian digits into `order`; the map is its own inverse.
pub open spec fn in_order(s: Seq<u8>, order: ByteOrder) -> Seq<u8> {
    match order {
        ByteOrder::Little => s,
        ByteOrder::Big => s.reverse(),
    }
}

/// The position in a window of `n` bytes, laid out in `order`, that holds
/// digit `j` (digit 0 is the least significant).
pub open spec fn order_index(j: int, n: int, order: ByteOrder) -> int {
    match order {
        ByteOrder::Little => j,
        ByteOrder::Big => n - 1 - j,
    }
}

/// Reorders little-endian digits into the order of [`BYTE_ORDER`].
pub open spec fn wire_order(s: Seq<u8>) -> Seq<u8> {
    in_order(s, BYTE_ORDER)
}

/// The number that `x` stands for in `n` bytes of two's complement: `x`
/// itself when not negative, else `x + 256^n`.
pub open spec fn twos_complement(x: int, n: nat) -> int {
    if x >= 0 {
        x
    } else {
        x + pow256(n)
    }
}

/// The signed number whose `n`-byte two's complement is `v`.
pub open spec fn from_twos_complement(v: nat, n: nat) -> int {
    if 2 * v >= pow256(n) {
        v - pow256(n)
    } else {
        v as int
    }
}

/// The `n`-byte window of the unsigned number `x` (taken modulo `256^n`).
pub open spec fn unsigned_bytes(x: nat, n: nat) -> Seq<u8> {
    wire_order(le_bytes(x, n))
}

/// The unsigned number that a window holds.
pub open spec fn unsigned_value(s: Seq<u8>) -> nat {
    le_value(wire_order(s))
}

/// The `n`-byte two's-complement window of `x`.
pub open spec fn signed_bytes(x: int, n: nat) -> Seq<u8> {
    unsigned_bytes(twos_complement(x, n) as nat, n)
}

/// The signed number that a two's-complement window holds.
pub open spec fn signed_value(s: Seq<u8>) -> int {
    from_twos_complement(unsigned_value(s), s.len())
}

pub proof fn lemma_pow256_values()
    ensures
        pow256(0) == 1,
        pow256(1) == 0x100,
        pow256(2) == 0x1_0000,
        pow256(4) == 0x1_0000_0000,
        pow256(8) == 0x1_0000_0000_0000_0000,
        pow256(15) == 0x1_0000_0000_0000_0000_0000_0000_0000_00,
        pow256(16) == 0x1_0000_0000_0000_0000_0000_0000_0000_0000,
{
    reveal_with_fuel(pow256, 17);
}

pub proof fn lemma_pow256_mono(a: nat, b: nat)
    requires
        a <= b,
    ensures
        1 <= pow256(a) <= pow256(b),
    decreases b,
{
    if b > a {
        lemma_pow256_mono(a, (b - 1) as nat);
    } else if a > 0 {
        lemma_pow256_mono(0, (a - 1) as nat);
    }
}

pub proof fn lemma_le_bytes_len(x: nat, n: nat)
    ensures
        le_bytes(x, n).len() == n,
    decreases n,
{
    if n > 0 {
        lemma_le_bytes_len(x / 256, (n - 1) as nat);
    }
}

pub proof fn lemma_le_value_bound(s: Seq<u8>)
    ensures
        le_value(s) < pow256(s.len()),
    decreases s.len(),
{
    if s.len() > 0 {
        lemma_le_value_bound(s.drop_first());
        let r = le_value(s.drop_first());
        let p = pow256((s.len() - 1) as nat);
        assert(s[0] as nat + 256 * r < 256 * p) by (nonlinear_arith)
            requires
                r < p,
                s[0] < 256,
        ;
    }
}

pub proof fn lemma_le_round_trip(x: nat, n: nat)
    requires
        x < pow256(n),
    ensures
        le_value(le_bytes(x, n)) == x,
    decreases n,
{
    lemma_le_bytes_len(x, n);
    if n > 0 {
        let q = x / 256;
        let p = pow256((n - 1) as nat);
        assert(q < p) by (nonlinear_arith)
            requires
                x < 256 * p,
                q == x / 256,
        ;
        lemma_le_round_trip(q, (n - 1) as nat);
        assert(le_bytes(x, n).drop_first() =~= le_bytes(q, (n - 1) as nat));
        assert(x == (x % 256) + 256 * q) by (nonlinear_arith)
            requires
                q == x / 256,
        ;
    }
}

pub proof fn lemma_order_involution(s: Seq<u8>, order: ByteOrder)
    ensures
        in_order(in_order(s, order), order) == s,
        in_order(s, order).len() == s.len(),
        forall|j: int|
            0 <= j < s.len() ==> #[trigger] in_order(s, order)[order_index(
                j,
                s.len() as int,
                order,
            )] == s[j],
{
    assert(in_order(in_order(s, order), order) =~= s);
}

pub proof fn lemma_wire_order_involution(s: Seq<u8>)
    ensures
        wire_order(wire_order(s)) == s,
        wire_order(s).len() == s.len(),
{
    lemma_order_involution(s, BYTE_ORDER);
}

/// Decoding the `n`-byte window of an unsigned `x` below `256^n` gives `x` back.
pub proof fn lemma_unsigned_round_trip(x: nat, n: nat)
    requires
        x < pow256(n),
    ensures
        unsigned_bytes(x, n).len() == n,
        unsigned_value(unsigned_bytes(x, n)) == x,
{
    lemma_le_bytes_len(x, n);
    lemma_wire_order_involution(le_bytes(x, n));
    lemma_le_round_trip(x, n);
}

/// Every window holds an unsigned number below `256^len`.
pub proof fn lemma_unsigned_value_bound(s: Seq<u8>)
    ensures
        unsigned_value(s) < pow256(s.len()),
{
    lemma_wire_order_involution(s);
    lemma_le_value_bound(wire_order(s));
}

/// Decoding the two's-complement window of an `x` in range gives `x` back.
pub proof fn lemma_signed_round_trip(x: int, n: nat)
    requires
        n > 0,
        -pow256(n) <= 2 * x < pow256(n),
    ensures
        signed_bytes(x, n).len() == n,
        signed_value(signed_bytes(x, n)) == x,
{
    if x >= 0 {
        lemma_unsigned_round_trip(x as nat, n);
    } else {
        lemma_unsigned_round_trip((x + pow256(n)) as nat, n);
    }
}

/// Every window of `n` bytes holds a signed number in the range of `n` bytes.
pub proof fn lemma_signed_value_bound(s: Seq<u8>)
    ensures
        -pow256(s.len()) <= 2 * signed_value(s) < pow256(s.len()),
{
    lemma_unsigned_value_bound(s);
}

/// The windows of both encodings are exactly `n` bytes long.
pub proof fn lemma_bytes_len(x: int, n: nat)
    ensures
        x >= 0 ==> unsigned_bytes(x as nat, n).len() == n,
        signed_bytes(x, n).len() == n,
{
    if x >= 0 {
        lemma_le_bytes_len(x as nat, n);
        lemma_wire_order_involution(le_bytes(x as nat, n));
    } else {
        lemma_le_bytes_len((x + pow256(n)) as nat, n);
        lemma_wire_order_involution(le_bytes((x + pow256(n)) as nat, n));
    }
}

/// The window of a machine word is four or eight bytes, and spans the whole range of the word.
pub proof fn lemma_word_size()
    ensures
        usize::BITS == 32 || usize::BITS == 64,
        usize::MAX + 1 == pow256((usize::BITS / 8) as nat),
        2 * isize::MIN == -pow256((usize::BITS / 8) as nat),
        2 * isize::MAX + 2 == pow256((usize::BITS / 8) as nat),
{
    lemma_pow256_values();
}

/// A window of `n` zero bytes.
pub open spec fn zero_window(n: nat) -> Seq<u8> {
    Seq::new(n, |i: int| 0u8)
}

/// A window of zero bytes holds the number zero, signed or not.
pub proof fn lemma_zero_window(n: nat)
    ensures
        zero_window(n).len() == n,
        unsigned_value(zero_window(n)) == 0,
        signed_value(zero_window(n)) == 0,
{
    assert(wire_order(zero_window(n)) =~= zero_window(n));
    lemma_le_value_zeros(zero_window(n));
    lemma_pow256_mono(0, n);
}

proof fn lemma_le_value_zeros(s: Seq<u8>)
    requires
        forall|i: int| 0 <= i < s.len() ==> s[i] == 0,
    ensures
        le_value(s) == 0,
    decreases s.len(),
{
    if s.len() > 0 {
        lemma_le_value_zeros(s.drop_first());
    }
}

/// Writes the lowest base-256 digits of `x`, as many as `buffer` holds, in `order`.
pub fn write_unsigned(buffer: &mut [u8], x: u128, order: ByteOrder)
    ensures
        final(buffer)@.len() == old(buffer)@.len(),
        final(buffer)@ == in_order(le_bytes(x as nat, old(buffer)@.len()), order),
{
    let n = buffer.len();
    let ghost le = le_bytes(x as nat, n as nat);
    proof {
        lemma_le_bytes_len(x as nat, n as nat);
    }
    let mut cur: u128 = x;
    let mut i: usize = 0;
    while i < n
        invariant
            n == buffer@.len(),
            i <= n,
            le.len() == n,
            le == le_bytes(x as nat, n as nat),
            le.subrange(i as int, n as int) == le_bytes(cur as nat, (n - i) as nat),
            forall|j: int| 0 <= j < i ==> buffer@[order_index(j, n as int, order)] == le[j],
        decreases n - i,
    {
        let ghost rest = le_bytes(cur as nat, (n - i) as nat);
        assert(rest[0] == (cur % 256) as u8);
        assert(le.subrange(i + 1, n as int) =~= rest.drop_first());
        let pos: usize = match order {
            ByteOrder::Little => i,
            ByteOrder::Big => n - 1 - i,
        };
        buffer[pos] = (cur % 256) as u8;
        assert(le[i as int] == rest[0]);
        cur = cur / 256;
        i = i + 1;
    }
    proof {
        lemma_order_involution(le, order);
        assert(buffer@ =~= in_order(le, order));
    }
}

/// `256^n` for a window shorter than sixteen bytes.
fn pow256_exec(n: usize) -> (r: u128)
    requires
        n <= 15,
    ensures
        r == pow256(n as nat),
{
    let mut r: u128 = 1;
    let mut i: usize = 0;
    while i < n
        invariant
            i <= n <= 15,
            r == pow256(i as nat),
        decreases n - i,
    {
        proof {
            lemma_pow256_mono((i + 1) as nat, 15);
            lemma_pow256_values();
        }
        r = r * 256;
        i = i + 1;
    }
    r
}

/// Writes the two's complement of `x`, as wide as `buffer`, in `order`.
pub fn write_signed(buffer: &mut [u8], x: i128, order: ByteOrder)
    requires
        1 <= old(buffer)@.len() <= 16,
        -pow256(old(buffer)@.len()) <= 2 * x < pow256(old(buffer)@.len()),
    ensures
        final(buffer)@.len() == old(buffer)@.len(),
        final(buffer)@ == in_order(
            le_bytes(twos_complement(x as int, old(buffer)@.len()) as nat, old(buffer)@.len()),
            order,
        ),
{
    let n = buffer.len();
    proof {
        lemma_pow256_values();
    }
    if x >= 0 {
        write_unsigned(buffer, x as u128, order);
    } else if n == 16 {
        let r: u128 = (x - i128::MIN) as u128 + 0x8000_0000_0000_0000_0000_0000_0000_0000;
        write_unsigned(buffer, r, order);
    } else {
        let m = pow256_exec(n);
        proof {
            lemma_pow256_mono(n as nat, 15);
        }
        write_unsigned(buffer, (x + m as i128) as u128, order);
    }
}

/// Reads the signed number whose two's complement, in `order`, fills a window
/// of one to sixteen bytes.
pub fn read_signed(buffer: &[u8], order: ByteOrder) -> (r: i128)
    requires
        1 <= buffer@.len() <= 16,
    ensures
        r == from_twos_complement(le_value(in_order(buffer@, order)), buffer@.len()),
{
    let n = buffer.len();
    let v = read_unsigned(buffer, order);
    proof {
        lemma_pow256_values();
        lemma_order_involution(buffer@, order);
        lemma_le_value_bound(in_order(buffer@, order));
    }
    if n == 16 {
        if v >= 0x8000_0000_0000_0000_0000_0000_0000_0000 {
            ((v - 0x8000_0000_0000_0000_0000_0000_0000_0000) as i128) + i128::MIN
        } else {
            v as i128
        }
    } else {
        let m = pow256_exec(n);
        proof {
            lemma_pow256_mono(n as nat, 15);
        }
        if 2 * v >= m {
            v as i128 - m as i128
        } else {
            v as i128
        }
    }
}

/// Reads the unsigned number whose base-256 digits fill a window of at most
/// sixteen bytes in `order`.
pub fn read_unsigned(buffer: &[u8], order: ByteOrder) -> (r: u128)
    requires
        buffer@.len() <= 16,
    ensures
        r == le_value(in_order(buffer@, order)),
{
    let n = buffer.len();
    let ghost le = in_order(buffer@, order);
    proof {
        lemma_order_involution(buffer@, order);
        lemma_pow256_values();
    }
    let mut v: u128 = 0;
    let mut i: usize = n;
    while i > 0
        invariant
            n == buffer@.len(),
            n <= 16,
            i <= n,
            le == in_order(buffer@, order),
            le.len() == n,
            forall|j: int| 0 <= j < n ==> buffer@[order_index(j, n as int, order)] == le[j],
            v == le_value(le.subrange(i as int, n as int)),
            pow256(16) == 0x1_0000_0000_0000_0000_0000_0000_0000_0000,
        decreases i,
    {
        i = i - 1;
        let pos: usize = match order {
            ByteOrder::Little => i,
            ByteOrder::Big => n - 1 - i,
        };
        let b = buffer[pos];
        let ghost tail = le.subrange(i as int, n as int);
        assert(tail.drop_first() =~= le.subrange(i + 1, n as int));
        proof {
            lemma_le_value_bound(le.subrange(i + 1, n as int));
            lemma_pow256_mono((n - i - 1) as nat, 15);
            lemma_pow256_values();
            let p = pow256((n - i - 1) as nat);
            assert(v * 256 + b < 0x1_0000_0000_0000_0000_0000_0000_0000_0000) by (nonlinear_arith)
                requires
                    v < p,
                    p <= 0x1_0000_0000_0000_0000_0000_0000_0000_00,
                    b < 256,
            ;
        }
        v = v * 256 + b as u128;
    }
    assert(le.subrange(0, n as int) =~= le);
    v
}

} // verus!
