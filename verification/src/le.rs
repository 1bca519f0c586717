//! Little-endian encoding and decoding of fixed-width unsigned integers.
//!
//! The mathematical model is given by two spec functions: `le_bytes` maps a
//! value to its little-endian byte sequence of a chosen length, and
//! `le_value` maps a byte sequence back to the value it encodes.  The
//! executable codec functions are proved against these, and the round-trip
//! lemmas connect the two directions.

use vstd::prelude::*;

verus! {

/// 256 raised to the power `n`: the number of distinct values that an
/// `n`-byte field can hold.
pub open spec fn pow256(n: nat) -> nat
    decreases n,
{
    if n == 0 {
        1
    } else {
        256 * pow256((n - 1) as nat)
    }
}

/// The little-endian encoding of `v` in exactly `n` bytes: the least
/// significant byte stands first.  If `v` does not fit in `n` bytes, only its
/// low `n` bytes appear.
pub open spec fn le_bytes(v: nat, n: nat) -> Seq<u8>
    decreases n,
{
    if n == 0 {
        Seq::empty()
    } else {
        seq![(v % 256) as u8] + le_bytes(v / 256, (n - 1) as nat)
    }
}

/// The value that the byte sequence `s` encodes in little-endian order.
pub open spec fn le_value(s: Seq<u8>) -> nat
    decreases s.len(),
{
    if s.len() == 0 {
        0
    } else {
        (s[0] + 256 * le_value(s.skip(1))) as nat
    }
}

/// A little-endian encoding in `n` bytes has exactly `n` bytes.
pub proof fn lemma_le_bytes_len(v: nat, n: nat)
    ensures
        le_bytes(v, n).len() == n,
    decreases n,
{
    if n > 0 {
        lemma_le_bytes_len(v / 256, (n - 1) as nat);
    }
}

/// A byte sequence of length `n` encodes a value below `pow256(n)`.
pub proof fn lemma_le_value_bound(s: Seq<u8>)
    ensures
        le_value(s) < pow256(s.len()),
    decreases s.len(),
{
    if s.len() > 0 {
        lemma_le_value_bound(s.skip(1));
        assert(le_value(s) == s[0] + 256 * le_value(s.skip(1)));
        assert(256 * le_value(s.skip(1)) <= 256 * (pow256(s.skip(1).len()) - 1))
            by (nonlinear_arith)
            requires
                le_value(s.skip(1)) <= pow256(s.skip(1).len()) - 1,
        ;
    }
}

/// Round trip: decoding the `n`-byte little-endian encoding of a value below
/// `pow256(n)` gives that value back.  This is the law that ties the reader
/// extension to the writer extension: every value a writer emits is recovered
/// exactly by the matching read.
pub proof fn lemma_le_round_trip(v: nat, n: nat)
    requires
        v < pow256(n),
    ensures
        le_value(le_bytes(v, n)) == v,
    decreases n,
{
    if n == 0 {
    } else {
        let rest = le_bytes(v / 256, (n - 1) as nat);
        assert(le_bytes(v, n).skip(1) =~= rest);
        assert(v / 256 < pow256((n - 1) as nat)) by (nonlinear_arith)
            requires
                v < pow256(n),
                pow256(n) == 256 * pow256((n - 1) as nat),
        ;
        lemma_le_round_trip(v / 256, (n - 1) as nat);
        assert(le_value(le_bytes(v, n)) == v % 256 + 256 * (v / 256));
    }
}

/// Round trip through a channel: when the unread bytes of a source begin
/// with the `n`-byte little-endian encoding of `v`, the matching read — which
/// by its contract decodes the first `n` bytes and consumes exactly those —
/// hands `v` back and leaves the rest untouched.
pub proof fn lemma_write_then_read(v: nat, n: nat, rest: Seq<u8>)
    requires
        v < pow256(n),
    ensures
        ({
            let s = le_bytes(v, n) + rest;
            &&& le_value(s.take(n as int)) == v
            &&& s.skip(n as int) == rest
        }),
{
    lemma_le_bytes_len(v, n);
    assert((le_bytes(v, n) + rest).take(n as int) =~= le_bytes(v, n));
    assert((le_bytes(v, n) + rest).skip(n as int) =~= rest);
    lemma_le_round_trip(v, n);
}

/// Round trip for every 16-bit value: the two-byte little-endian encoding
/// decodes to the value itself.
pub proof fn lemma_round_trip_u16(v: u16)
    ensures
        le_value(le_bytes(v as nat, 2)) == v as nat,
{
    lemma_pow256_values();
    lemma_le_round_trip(v as nat, 2);
}

/// Round trip for every 32-bit value: the four-byte little-endian encoding
/// decodes to the value itself.
pub proof fn lemma_round_trip_u32(v: u32)
    ensures
        le_value(le_bytes(v as nat, 4)) == v as nat,
{
    lemma_pow256_values();
    lemma_le_round_trip(v as nat, 4);
}

/// Round trip for every 64-bit value: the eight-byte little-endian encoding
/// decodes to the value itself.
pub proof fn lemma_round_trip_u64(v: u64)
    ensures
        le_value(le_bytes(v as nat, 8)) == v as nat,
{
    lemma_pow256_values();
    lemma_le_round_trip(v as nat, 8);
}

/// Round trip for every 128-bit value.  No read operation of this width is
/// offered, but the sixteen bytes a 128-bit write emits still determine the
/// value exactly.
pub proof fn lemma_round_trip_u128(v: u128)
    ensures
        le_value(le_bytes(v as nat, 16)) == v as nat,
{
    lemma_pow256_values();
    lemma_le_round_trip(v as nat, 16);
}

/// `pow256` grows with its argument.
pub proof fn lemma_pow256_increases(a: nat, b: nat)
    requires
        a <= b,
    ensures
        pow256(a) <= pow256(b),
    decreases b,
{
    if a < b {
        lemma_pow256_increases(a, (b - 1) as nat);
        assert(pow256((b - 1) as nat) <= 256 * pow256((b - 1) as nat)) by (nonlinear_arith)
            requires
                pow256((b - 1) as nat) >= 0,
        ;
    }
}

/// The concrete field sizes this crate works with.
pub proof fn lemma_pow256_values()
    ensures
        pow256(2) == 0x1_0000,
        pow256(4) == 0x1_0000_0000,
        pow256(8) == 0x1_0000_0000_0000_0000,
        pow256(15) == 0x1_0000_0000_0000_0000_0000_0000_0000_00,
        pow256(16) == 0x1_0000_0000_0000_0000_0000_0000_0000_0000,
{
    reveal_with_fuel(pow256, 17);
}

/// Encode the low `n` bytes of `v` in little-endian order.
///
/// Every width-specific write operation goes through this function with `n`
/// covering the full width, so nothing is truncated there.
pub fn encode_le(v: u128, n: usize) -> (r: Vec<u8>)
    requires
        n <= 16,
    ensures
        r@ == le_bytes(v as nat, n as nat),
        r@.len() == n,
{
    proof {
        lemma_le_bytes_len(v as nat, n as nat);
    }
    let mut out: Vec<u8> = Vec::new();
    let mut x: u128 = v;
    let mut i: usize = 0;
    while i < n
        invariant
            i <= n,
            out@.len() == i,
            le_bytes(v as nat, n as nat) == out@ + le_bytes(x as nat, (n - i) as nat),
        decreases n - i,
    {
        let b: u8 = (x % 256) as u8;
        proof {
            let m = (n - i) as nat;
            assert(le_bytes(x as nat, m) == seq![b] + le_bytes(x as nat / 256, (m - 1) as nat));
            assert(out@ + (seq![b] + le_bytes(x as nat / 256, (m - 1) as nat)) =~= out@.push(b)
                + le_bytes(x as nat / 256, (m - 1) as nat));
        }
        out.push(b);
        x = x / 256;
        i = i + 1;
    }
    proof {
        assert(le_bytes(x as nat, 0) =~= Seq::<u8>::empty());
        assert(out@ + Seq::<u8>::empty() =~= out@);
    }
    out
}

/// Decode a little-endian byte sequence of at most 16 bytes.
///
/// Every width-specific read operation goes through this function, handing it
/// exactly the bytes of one field.
pub fn decode_le(b: &[u8]) -> (r: u128)
    requires
        b@.len() <= 16,
    ensures
        r as nat == le_value(b@),
{
    let mut acc: u128 = 0;
    let mut i: usize = b.len();
    proof {
        assert(b@.skip(b@.len() as int) =~= Seq::<u8>::empty());
    }
    while i > 0
        invariant
            i <= b@.len() <= 16,
            acc as nat == le_value(b@.skip(i as int)),
        decreases i,
    {
        i = i - 1;
        proof {
            let tail = b@.skip(i as int);
            assert(tail.skip(1) =~= b@.skip(i + 1));
            assert(le_value(tail) == b@[i as int] + 256 * le_value(b@.skip(i + 1)));
            lemma_le_value_bound(b@.skip(i + 1));
            lemma_pow256_increases(b@.skip(i + 1).len(), 15);
            lemma_pow256_values();
            assert(256 * le_value(b@.skip(i + 1)) <= 256 * (pow256(15) - 1)) by (nonlinear_arith)
                requires
                    le_value(b@.skip(i + 1)) <= pow256(15) - 1,
            ;
        }
        acc = acc * 256 + (b[i] as u128);
    }
    proof {
        assert(b@.skip(0) =~= b@);
    }
    acc
}

} // verus!
