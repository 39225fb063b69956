//! Mathematical model of the wire format: base-128 varints, little-endian
//! fixed-width words, ZigZag and two's-complement value mappings, and tags.
//!
//! Every executable contract in the crate is stated over these functions.

use vstd::prelude::*;

verus! {

/// Number of bytes in the canonical base-128 varint encoding of `v`.
pub open spec fn varint_len(v: nat) -> nat
    decreases v,
{
    if v < 128 {
        1
    } else {
        1 + varint_len(v / 128)
    }
}

/// The canonical base-128 varint encoding of `v`: little-endian groups of
/// seven bits, the continuation bit set on every byte except the last.
pub open spec fn varint_bytes(v: nat) -> Seq<u8>
    decreases v,
{
    if v < 128 {
        seq![v as u8]
    } else {
        seq![(128 + v % 128) as u8] + varint_bytes(v / 128)
    }
}

/// Value carried by a varint byte sequence: each byte contributes its low
/// seven bits, least significant group first.  Continuation bits are
/// ignored, so this reads the value of any (possibly unterminated) prefix.
pub open spec fn varint_value(s: Seq<u8>) -> nat
    decreases s.len(),
{
    if s.len() == 0 {
        0
    } else {
        ((s[0] % 128) as nat) + 128 * varint_value(s.skip(1))
    }
}

/// Number of leading bytes of `s` that carry a continuation bit; equals
/// `s.len()` when no byte terminates a varint.
pub open spec fn cont_prefix_len(s: Seq<u8>) -> int
    decreases s.len(),
{
    if s.len() == 0 {
        0
    } else if s[0] < 128 {
        0
    } else {
        1 + cont_prefix_len(s.skip(1))
    }
}

/// 128 to the power `n`.
pub open spec fn pow128(n: nat) -> nat
    decreases n,
{
    if n == 0 {
        1
    } else {
        128 * pow128((n - 1) as nat)
    }
}

/// Little-endian bytes of a 32-bit word.
pub open spec fn le_bytes_32(v: u32) -> Seq<u8> {
    seq![
        (v & 0xff) as u8,
        ((v >> 8) & 0xff) as u8,
        ((v >> 16) & 0xff) as u8,
        ((v >> 24) & 0xff) as u8,
    ]
}

/// Little-endian bytes of a 64-bit word.
pub open spec fn le_bytes_64(v: u64) -> Seq<u8> {
    seq![
        (v & 0xff) as u8,
        ((v >> 8) & 0xff) as u8,
        ((v >> 16) & 0xff) as u8,
        ((v >> 24) & 0xff) as u8,
        ((v >> 32) & 0xff) as u8,
        ((v >> 40) & 0xff) as u8,
        ((v >> 48) & 0xff) as u8,
        ((v >> 56) & 0xff) as u8,
    ]
}

/// 32-bit word read from four little-endian bytes.
pub open spec fn le_value_32(s: Seq<u8>) -> u32
    recommends
        s.len() == 4,
{
    (s[0] as u32) | ((s[1] as u32) << 8) | ((s[2] as u32) << 16) | ((s[3] as u32) << 24)
}

/// 64-bit word read from eight little-endian bytes.
pub open spec fn le_value_64(s: Seq<u8>) -> u64
    recommends
        s.len() == 8,
{
    (s[0] as u64) | ((s[1] as u64) << 8) | ((s[2] as u64) << 16) | ((s[3] as u64) << 24)
        | ((s[4] as u64) << 32) | ((s[5] as u64) << 40) | ((s[6] as u64) << 48) | ((s[7]
        as u64) << 56)
}

/// The raw 64-bit value that stands for a two's-complement integer on the
/// wire: non-negative values map to themselves, negative values to their
/// 64-bit two's-complement representation.
pub open spec fn twos_complement_64(n: int) -> nat
    recommends
        -0x8000_0000_0000_0000 <= n < 0x8000_0000_0000_0000,
{
    if n >= 0 {
        n as nat
    } else {
        (n + 0x1_0000_0000_0000_0000) as nat
    }
}

/// The raw 32-bit value that stands for a two's-complement 32-bit integer.
pub open spec fn twos_complement_32(n: int) -> nat
    recommends
        -0x8000_0000 <= n < 0x8000_0000,
{
    if n >= 0 {
        n as nat
    } else {
        (n + 0x1_0000_0000) as nat
    }
}

/// ZigZag mapping from a signed integer to an unsigned one: small
/// magnitudes, of either sign, map near zero.
pub open spec fn zigzag(n: int) -> nat {
    if n >= 0 {
        (2 * n) as nat
    } else {
        (-2 * n - 1) as nat
    }
}

/// Inverse of the ZigZag mapping.
pub open spec fn zigzag_inverse(u: nat) -> int {
    if u % 2 == 0 {
        (u / 2) as int
    } else {
        -((u / 2) as int) - 1
    }
}

/// The 32-bit tag word formed from a field number and a wire-type code.
pub open spec fn tag_value(f: u32, code: u32) -> u32
    recommends
        f <= 0x1FFF_FFFF,
        code < 8,
{
    (f << 3) | code
}

/// The bytes of an encoded tag.
pub open spec fn tag_bytes(f: u32, code: u32) -> Seq<u8>
    recommends
        f <= 0x1FFF_FFFF,
        code < 8,
{
    varint_bytes(tag_value(f, code) as nat)
}

/// The encoding and its length agree.
pub proof fn lemma_varint_bytes_len(v: nat)
    ensures
        varint_bytes(v).len() == varint_len(v),
    decreases v,
{
    if v >= 128 {
        lemma_varint_bytes_len(v / 128);
    }
}

/// A value below `128^k` needs at most `k` varint bytes.
pub proof fn lemma_varint_len_bound(v: nat, k: nat)
    requires
        k >= 1,
        v < pow128(k),
    ensures
        1 <= varint_len(v) <= k,
    decreases k,
{
    if v >= 128 {
        assert(pow128(k) == 128 * pow128((k - 1) as nat));
        assert(v / 128 < pow128((k - 1) as nat)) by (nonlinear_arith)
            requires
                v < 128 * pow128((k - 1) as nat),
        ;
        lemma_varint_len_bound(v / 128, (k - 1) as nat);
    }
}

/// A 32-bit value never needs more than five varint bytes.
pub proof fn lemma_varint_len_32(v: nat)
    requires
        v < 0x1_0000_0000,
    ensures
        1 <= varint_len(v) <= 5,
{
    assert(pow128(5) == 0x8_0000_0000) by {
        assert(pow128(0) == 1);
        assert(pow128(1) == 128);
        assert(pow128(2) == 0x4000);
        assert(pow128(3) == 0x20_0000);
        assert(pow128(4) == 0x1000_0000);
        assert(pow128(5) == 128 * pow128(4));
    };
    lemma_varint_len_bound(v, 5);
}

/// A 64-bit value never needs more than ten varint bytes.
pub proof fn lemma_varint_len_64(v: nat)
    requires
        v < 0x1_0000_0000_0000_0000,
    ensures
        1 <= varint_len(v) <= 10,
{
    assert(pow128(10) == 0x40_0000_0000_0000_0000) by {
        assert(pow128(0) == 1);
        assert(pow128(1) == 128);
        assert(pow128(2) == 0x4000);
        assert(pow128(3) == 0x20_0000);
        assert(pow128(4) == 0x1000_0000);
        assert(pow128(5) == 0x8_0000_0000);
        assert(pow128(6) == 0x400_0000_0000);
        assert(pow128(7) == 0x2_0000_0000_0000);
        assert(pow128(8) == 0x100_0000_0000_0000);
        assert(pow128(9) == 0x8000_0000_0000_0000);
        assert(pow128(10) == 128 * pow128(9));
    };
    lemma_varint_len_bound(v, 10);
}

/// Appending a byte to a varint fragment raises the value by that byte's
/// seven payload bits, scaled to its position.
pub proof fn lemma_varint_value_push(s: Seq<u8>, b: u8)
    ensures
        varint_value(s.push(b)) == varint_value(s) + (b % 128) * pow128(s.len()),
    decreases s.len(),
{
    if s.len() == 0 {
        assert(s.push(b) =~= seq![b]);
        assert(varint_value(seq![b].skip(1)) == 0) by {
            assert(seq![b].skip(1) =~= Seq::<u8>::empty());
        };
        assert(varint_value(seq![b]) == (b % 128) as nat);
        assert(pow128(s.len()) == 1);
        assert(varint_value(s) == 0);
    } else {
        assert(s.push(b).skip(1) =~= s.skip(1).push(b));
        lemma_varint_value_push(s.skip(1), b);
        let tail = varint_value(s.skip(1));
        let m = (b % 128) as nat;
        let p = pow128((s.len() - 1) as nat);
        assert(s.push(b)[0] == s[0]);
        assert(s.push(b).len() == s.len() + 1);
        assert(varint_value(s.push(b)) == ((s[0] % 128) as nat) + 128 * varint_value(
            s.push(b).skip(1)));
        assert(varint_value(s.push(b).skip(1)) == tail + m * p);
        assert(128 * (tail + m * p) == 128 * tail + m * (128 * p)) by (nonlinear_arith);
        assert(pow128(s.len()) == 128 * p);
        assert(varint_value(s) == ((s[0] % 128) as nat) + 128 * tail);
    }
}

/// A fragment of `n` varint bytes carries a value below `128^n`.
pub proof fn lemma_varint_value_bound(s: Seq<u8>)
    ensures
        varint_value(s) < pow128(s.len()),
    decreases s.len(),
{
    if s.len() > 0 {
        lemma_varint_value_bound(s.skip(1));
        assert(128 * varint_value(s.skip(1)) <= 128 * (pow128((s.len() - 1) as nat) - 1))
            by (nonlinear_arith)
            requires
                varint_value(s.skip(1)) <= pow128((s.len() - 1) as nat) - 1,
        ;
        assert(pow128(s.len()) == 128 * pow128((s.len() - 1) as nat));
    }
}

/// Reading back the canonical encoding yields the encoded value.
pub proof fn lemma_varint_bytes_value(v: nat)
    ensures
        varint_value(varint_bytes(v)) == v,
    decreases v,
{
    if v < 128 {
        assert(varint_bytes(v) =~= seq![v as u8]);
        assert(varint_value(seq![v as u8].skip(1)) == 0) by {
            assert(seq![v as u8].skip(1) =~= Seq::<u8>::empty());
        };
        assert(varint_value(seq![v as u8]) == ((v as u8) % 128) as nat);
    } else {
        lemma_varint_bytes_value(v / 128);
        let s = varint_bytes(v);
        assert(s.skip(1) =~= varint_bytes(v / 128));
        assert(s[0] == (128 + v % 128) as u8);
        assert(v % 128 < 128);
        assert((128 + v % 128) < 256);
        assert(((128 + v % 128) as u8) % 128 == v % 128);
        assert(s.len() > 0);
        assert(varint_value(s) == ((s[0] % 128) as nat) + 128 * varint_value(s.skip(1)));
        assert(varint_value(s) == v % 128 + 128 * (v / 128));
        vstd::arithmetic::div_mod::lemma_fundamental_div_mod(v as int, 128);
    }
}

/// Every byte of the canonical encoding except the last carries the
/// continuation bit, and the last does not; so, followed by anything, the
/// encoding terminates exactly at its own last byte.
pub proof fn lemma_varint_bytes_termination(v: nat, rest: Seq<u8>)
    ensures
        cont_prefix_len(varint_bytes(v) + rest) == varint_len(v) - 1,
        (varint_bytes(v) + rest).len() == varint_len(v) + rest.len(),
        (varint_bytes(v) + rest).take(varint_len(v) as int) =~= varint_bytes(v),
        (varint_bytes(v) + rest).skip(varint_len(v) as int) =~= rest,
    decreases v,
{
    lemma_varint_bytes_len(v);
    let s = varint_bytes(v) + rest;
    if v < 128 {
        assert(s[0] == v as u8);
        assert((v as u8) < 128);
    } else {
        assert(s[0] == (128 + v % 128) as u8);
        assert((128 + v % 128) as u8 >= 128);
        lemma_varint_bytes_termination(v / 128, rest);
        assert(s.skip(1) =~= varint_bytes(v / 128) + rest);
    }
}

/// The ZigZag mapping is injective: its inverse recovers the argument.
pub proof fn lemma_zigzag_round_trip(n: int)
    ensures
        zigzag_inverse(zigzag(n)) == n,
{
    if n >= 0 {
        assert((2 * n) % 2 == 0 && (2 * n) / 2 == n) by (nonlinear_arith);
    } else {
        assert((-2 * n - 1) % 2 == 1 && (-2 * n - 1) / 2 == -n - 1) by (nonlinear_arith);
    }
}

/// Truncation of a mathematical value to 32 bits.
pub open spec fn trunc32(v: nat) -> u32 {
    (v % 0x1_0000_0000) as u32
}

/// Truncation of a mathematical value to 64 bits.
pub open spec fn trunc64(v: nat) -> u64 {
    (v % 0x1_0000_0000_0000_0000) as u64
}

/// Inverse of [`twos_complement_32`]: the signed reading of a raw 32-bit
/// value.
pub open spec fn twos_complement_32_inverse(u: nat) -> int
    recommends
        u < 0x1_0000_0000,
{
    if u < 0x8000_0000 {
        u as int
    } else {
        u - 0x1_0000_0000
    }
}

/// Inverse of [`twos_complement_64`]: the signed reading of a raw 64-bit
/// value.
pub open spec fn twos_complement_64_inverse(u: nat) -> int
    recommends
        u < 0x1_0000_0000_0000_0000,
{
    if u < 0x8000_0000_0000_0000 {
        u as int
    } else {
        u - 0x1_0000_0000_0000_0000
    }
}

/// The values of `pow128` up to the tenth power, as literals.
pub proof fn lemma_pow128_values()
    ensures
        pow128(0) == 1,
        pow128(1) == 0x80,
        pow128(2) == 0x4000,
        pow128(3) == 0x20_0000,
        pow128(4) == 0x1000_0000,
        pow128(5) == 0x8_0000_0000,
        pow128(6) == 0x400_0000_0000,
        pow128(7) == 0x2_0000_0000_0000,
        pow128(8) == 0x100_0000_0000_0000,
        pow128(9) == 0x8000_0000_0000_0000,
        pow128(10) == 0x40_0000_0000_0000_0000,
{
    assert(pow128(1) == 128 * pow128(0));
    assert(pow128(2) == 128 * pow128(1));
    assert(pow128(3) == 128 * pow128(2));
    assert(pow128(4) == 128 * pow128(3));
    assert(pow128(5) == 128 * pow128(4));
    assert(pow128(6) == 128 * pow128(5));
    assert(pow128(7) == 128 * pow128(6));
    assert(pow128(8) == 128 * pow128(7));
    assert(pow128(9) == 128 * pow128(8));
    assert(pow128(10) == 128 * pow128(9));
}

/// A value takes exactly `k` varint bytes when it lies between
/// `128^(k-1)` and `128^k`.
pub proof fn lemma_varint_len_exact(v: nat, k: nat)
    requires
        k >= 1,
        v < pow128(k),
        k > 1 ==> v >= pow128((k - 1) as nat),
    ensures
        varint_len(v) == k,
    decreases k,
{
    if k == 1 {
        assert(pow128(0) == 1);
        assert(pow128(1) == 128 * pow128(0));
    } else {
        lemma_pow128_ge_128((k - 1) as nat);
        assert(pow128(k) == 128 * pow128((k - 1) as nat));
        assert(v >= 128);
        assert(varint_len(v) == 1 + varint_len(v / 128));
        assert(v / 128 < pow128((k - 1) as nat)) by (nonlinear_arith)
            requires
                v < 128 * pow128((k - 1) as nat),
        ;
        if k > 2 {
            assert(pow128((k - 1) as nat) == 128 * pow128((k - 2) as nat));
            assert(v / 128 >= pow128((k - 2) as nat)) by (nonlinear_arith)
                requires
                    v >= 128 * pow128((k - 2) as nat),
            ;
        }
        lemma_varint_len_exact(v / 128, (k - 1) as nat);
    }
}

/// Powers of 128 past the zeroth are at least 128.
pub proof fn lemma_pow128_ge_128(k: nat)
    requires
        k >= 1,
    ensures
        pow128(k) >= 128,
    decreases k,
{
    if k > 1 {
        lemma_pow128_ge_128((k - 1) as nat);
        assert(pow128(k) == 128 * pow128((k - 1) as nat));
        assert(128 * pow128((k - 1) as nat) >= 128 * 128) by (nonlinear_arith)
            requires
                pow128((k - 1) as nat) >= 128,
        ;
    } else {
        assert(pow128(0) == 1);
        assert(pow128(1) == 128 * pow128(0));
    }
}

/// Bit-level facts about one step of the varint emission loop.
pub proof fn lemma_varint_emit_step(v: u64)
    by (bit_vector)
    ensures
        v >= 128 ==> (((v & 0x7f) as u8) | 0x80) == ((128 + v % 128) as u8),
        v >= 128 ==> v >> 7 == v / 128,
        v >= 128 ==> v >> 7 < v,
        v < 128 ==> (v & 0x7f) == v,
{
}

/// A continuation bit is bit seven; the payload is the low seven bits.
pub proof fn lemma_byte_split(b: u8)
    by (bit_vector)
    ensures
        (b & 0x80 == 0) <==> b < 128,
        (b & 0x7f) == b % 128,
{
}

/// Casting a signed 64-bit value to unsigned yields its two's-complement
/// representation.
pub proof fn lemma_i64_to_u64(n: i64)
    by (bit_vector)
    ensures
        n >= 0 ==> (n as u64) == n,
        n < 0 ==> (n as u64) == n + 0x1_0000_0000_0000_0000,
{
}

/// Casting a signed 32-bit value to unsigned yields its two's-complement
/// representation.
pub proof fn lemma_i32_to_u32(n: i32)
    by (bit_vector)
    ensures
        n >= 0 ==> (n as u32) == n,
        n < 0 ==> (n as u32) == n + 0x1_0000_0000,
{
}

/// Reading a raw 64-bit value as signed inverts the two's-complement
/// mapping.
pub proof fn lemma_u64_to_i64(x: u64)
    by (bit_vector)
    ensures
        x < 0x8000_0000_0000_0000 ==> (x as i64) == x,
        x >= 0x8000_0000_0000_0000 ==> (x as i64) == x - 0x1_0000_0000_0000_0000,
{
}

/// Reading a raw 32-bit value as signed inverts the two's-complement
/// mapping; dropping a 64-bit value to 32 bits keeps its low half.
pub proof fn lemma_u64_low32(x: u64)
    by (bit_vector)
    ensures
        x <= 0xFFFF_FFFF ==> (x as u32) == x,
        (x as u32) == x % 0x1_0000_0000,
        (x as u32) < 0x8000_0000 ==> ((x as u32) as i32) == x % 0x1_0000_0000,
        (x as u32) >= 0x8000_0000 ==> ((x as u32) as i32) == x % 0x1_0000_0000 - 0x1_0000_0000,
{
}

/// Reading a raw 32-bit value as signed inverts the two's-complement
/// mapping.
pub proof fn lemma_u32_to_i32(x: u32)
    by (bit_vector)
    ensures
        x < 0x8000_0000 ==> (x as i32) == x,
        x >= 0x8000_0000 ==> (x as i32) == x - 0x1_0000_0000,
{
}

/// The shift-and-xor form of the 32-bit ZigZag encoding computes the
/// arithmetic mapping.
pub proof fn lemma_zigzag32_exec(n: i32)
    by (bit_vector)
    ensures
        n >= 0 ==> (((n << 1) ^ (n >> 31)) as u32) == 2 * n,
        n < 0 ==> (((n << 1) ^ (n >> 31)) as u32) == -2 * n - 1,
{
}

/// The shift-and-xor form of the 64-bit ZigZag encoding computes the
/// arithmetic mapping.
pub proof fn lemma_zigzag64_exec(n: i64)
    by (bit_vector)
    ensures
        n >= 0 ==> (((n << 1) ^ (n >> 63)) as u64) == 2 * n,
        n < 0 ==> (((n << 1) ^ (n >> 63)) as u64) == -2 * n - 1,
{
}

/// The shift-and-xor form of the 32-bit ZigZag decoding computes the
/// arithmetic inverse.
pub proof fn lemma_zigzag_dec32_exec(x: u32)
    by (bit_vector)
    ensures
        x & 1 == (x % 2) as u32,
        x % 2 == 0 ==> (((x >> 1) as i32) ^ 0i32) == x / 2,
        x % 2 == 1 ==> (((x >> 1) as i32) ^ (-1i32)) == -(x / 2) - 1,
{
}

/// The shift-and-xor form of the 64-bit ZigZag decoding computes the
/// arithmetic inverse.
pub proof fn lemma_zigzag_dec64_exec(x: u64)
    by (bit_vector)
    ensures
        x & 1 == (x % 2) as u64,
        x % 2 == 0 ==> (((x >> 1) as i64) ^ 0i64) == x / 2,
        x % 2 == 1 ==> (((x >> 1) as i64) ^ (-1i64)) == -(x / 2) - 1,
{
}

/// Merging seven payload bits into a 32-bit accumulator by a shifted `or`
/// adds them at their scaled position.
pub proof fn lemma_or_accum32(r: u32, m: u32)
    by (bit_vector)
    ensures
        m < 128 && r < 0x1 ==> (r | (m << 0)) == r + m * 0x1,
        m < 128 && r < 0x80 ==> (r | (m << 7)) == r + m * 0x80,
        m < 128 && r < 0x4000 ==> (r | (m << 14)) == r + m * 0x4000,
        m < 128 && r < 0x20_0000 ==> (r | (m << 21)) == r + m * 0x20_0000,
        m < 128 && r < 0x1000_0000 ==> (r | (m << 28)) == (r + m * 0x1000_0000) % 0x1_0000_0000,
{
}

/// Merging seven payload bits into a 64-bit accumulator by a shifted `or`
/// adds them at their scaled position.
pub proof fn lemma_or_accum64(r: u64, m: u64)
    by (bit_vector)
    ensures
        m < 128 && r < 0x1 ==> (r | (m << 0)) == r + m * 0x1,
        m < 128 && r < 0x80 ==> (r | (m << 7)) == r + m * 0x80,
        m < 128 && r < 0x4000 ==> (r | (m << 14)) == r + m * 0x4000,
        m < 128 && r < 0x20_0000 ==> (r | (m << 21)) == r + m * 0x20_0000,
        m < 128 && r < 0x1000_0000 ==> (r | (m << 28)) == r + m * 0x1000_0000,
        m < 128 && r < 0x8_0000_0000 ==> (r | (m << 35)) == r + m * 0x8_0000_0000,
        m < 128 && r < 0x400_0000_0000 ==> (r | (m << 42)) == r + m * 0x400_0000_0000,
        m < 128 && r < 0x2_0000_0000_0000 ==> (r | (m << 49)) == r + m * 0x2_0000_0000_0000,
        m < 128 && r < 0x100_0000_0000_0000 ==> (r | (m << 56)) == r + m * 0x100_0000_0000_0000,
        m < 128 && r < 0x8000_0000_0000_0000 ==> (r | (m << 63)) == (r + m
            * 0x8000_0000_0000_0000) % 0x1_0000_0000_0000_0000,
{
}

/// Shifting a bounded field number left by three multiplies it by eight;
/// a tag is the shifted field number plus the wire-type code.
pub proof fn lemma_tag_value_arith(f: u32, c: u32)
    by (bit_vector)
    ensures
        f <= 0x1FFF_FFFF ==> (f << 3) == 8 * f,
        f <= 0x1FFF_FFFF && c < 8 ==> ((f << 3) | c) == 8 * f + c,
{
}

/// Reassembling the four little-endian bytes of a 32-bit word yields the
/// word.
pub proof fn lemma_le32_round_trip(v: u32)
    by (bit_vector)
    ensures
        ((v & 0xff) as u8 as u32) | (((v >> 8) & 0xff) as u8 as u32) << 8 | (((v >> 16)
            & 0xff) as u8 as u32) << 16 | (((v >> 24) & 0xff) as u8 as u32) << 24 == v,
{
}

/// Reassembling the eight little-endian bytes of a 64-bit word yields the
/// word.
pub proof fn lemma_le64_round_trip(v: u64)
    by (bit_vector)
    ensures
        ((v & 0xff) as u8 as u64) | (((v >> 8) & 0xff) as u8 as u64) << 8 | (((v >> 16)
            & 0xff) as u8 as u64) << 16 | (((v >> 24) & 0xff) as u8 as u64) << 24 | (((v
            >> 32) & 0xff) as u8 as u64) << 32 | (((v >> 40) & 0xff) as u8 as u64) << 40 | (((v
            >> 48) & 0xff) as u8 as u64) << 48 | (((v >> 56) & 0xff) as u8 as u64) << 56 == v,
{
}

/// The byte count of a tag depends only on the field number, not on the
/// wire-type code, and follows four fixed break points.
pub proof fn lemma_tag_len(f: u32, c: u32)
    requires
        f <= 0x1FFF_FFFF,
        c < 8,
    ensures
        varint_len(tag_value(f, c) as nat) == (if f < 0x10 {
            1nat
        } else if f < 0x800 {
            2nat
        } else if f < 0x4_0000 {
            3nat
        } else if f < 0x200_0000 {
            4nat
        } else {
            5nat
        }),
        varint_len(tag_value(f, c) as nat) == varint_len(tag_value(f, 0) as nat),
{
    lemma_tag_value_arith(f, c);
    lemma_tag_value_arith(f, 0);
    lemma_pow128_values();
    let t = tag_value(f, c) as nat;
    let t0 = tag_value(f, 0) as nat;
    if f < 0x10 {
        lemma_varint_len_exact(t, 1);
        lemma_varint_len_exact(t0, 1);
    } else if f < 0x800 {
        lemma_varint_len_exact(t, 2);
        lemma_varint_len_exact(t0, 2);
    } else if f < 0x4_0000 {
        lemma_varint_len_exact(t, 3);
        lemma_varint_len_exact(t0, 3);
    } else if f < 0x200_0000 {
        lemma_varint_len_exact(t, 4);
        lemma_varint_len_exact(t0, 4);
    } else {
        lemma_varint_len_exact(t, 5);
        lemma_varint_len_exact(t0, 5);
    }
}

/// The byte at the continuation-prefix boundary, when there is one, lacks
/// the continuation bit, and every byte before it carries it.
pub proof fn lemma_cont_prefix_char(s: Seq<u8>)
    ensures
        0 <= cont_prefix_len(s) <= s.len(),
        cont_prefix_len(s) < s.len() ==> s[cont_prefix_len(s)] < 128,
        forall|j: int| 0 <= j < cont_prefix_len(s) ==> s[j] >= 128,
    decreases s.len(),
{
    if s.len() > 0 && s[0] >= 128 {
        lemma_cont_prefix_char(s.skip(1));
        let c = cont_prefix_len(s);
        assert(c == 1 + cont_prefix_len(s.skip(1)));
        assert forall|j: int| 0 <= j < c implies s[j] >= 128 by {
            if j > 0 {
                assert(s.skip(1)[j - 1] == s[j]);
            }
        }
        if c < s.len() {
            assert(s.skip(1)[c - 1] == s[c]);
        }
    }
}

} // verus!
