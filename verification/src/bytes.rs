//! Integers as little-endian bytes, and the lanes of a vector in its sixteen bytes.
use vstd::arithmetic::power::*;
use vstd::prelude::*;

verus! {

/// The number that a little-endian byte string stands for.
pub open spec fn le_value(s: Seq<u8>) -> nat
    decreases s.len(),
{
    if s.len() == 0 {
        0
    } else {
        s.first() as nat + 256 * le_value(s.drop_first())
    }
}

/// Byte `j` of the two's complement of `n`, counted from the least significant one.
pub open spec fn byte_at(n: int, j: nat) -> u8
    decreases j,
{
    if j == 0 {
        (n % 256) as u8
    } else {
        byte_at(n / 256, (j - 1) as nat)
    }
}

/// Lane `i` of a vector whose lanes are `width` bytes wide.
pub open spec fn lane_bytes(bytes: Seq<u8>, width: nat, i: int) -> Seq<u8> {
    bytes.subrange(i * width, i * width + width)
}

/// The sixteen bytes of the vector with these lanes of `width` bytes; bytes beyond the lanes are
/// zero.
pub open spec fn pack(lanes: Seq<i128>, width: nat) -> Seq<u8> {
    Seq::new(
        16,
        |k: int|
            if k < lanes.len() * width {
                byte_at(lanes[k / width as int] as int, (k % width as int) as nat)
            } else {
                0
            },
    )
}

/// A byte string of `n` bytes stands for a number below `256^n`.
pub proof fn lemma_le_value_bound(s: Seq<u8>)
    ensures
        le_value(s) < pow(256, s.len()),
    decreases s.len(),
{
    reveal(pow);
    if s.len() > 0 {
        lemma_le_value_bound(s.drop_first());
    }
}

/// Numbers of up to eight bytes fit in sixty-four bits.
pub proof fn lemma_le_value_u64(s: Seq<u8>)
    requires
        s.len() <= 8,
    ensures
        le_value(s) <= u64::MAX,
{
    lemma_le_value_bound(s);
    lemma_pow_increases(256, s.len(), 8);
    reveal_with_fuel(pow, 9);
}

/// Reading the bytes of a number back gives the number, modulo the width.
pub proof fn lemma_bytes_roundtrip(s: Seq<u8>, j: int)
    requires
        0 <= j < s.len(),
    ensures
        byte_at(le_value(s) as int, j as nat) == s[j],
    decreases s.len(),
{
    let rest = le_value(s.drop_first());
    assert(le_value(s) == s.first() + 256 * rest);
    assert((s.first() + 256 * rest) % 256 == s.first());
    assert((s.first() + 256 * rest) / 256 == rest);
    if j > 0 {
        lemma_bytes_roundtrip(s.drop_first(), j - 1);
        assert(s.drop_first()[j - 1] == s[j]);
    }
}

/// Shifting out the low byte is division by 256, rounding down, and the low byte is the remainder.
proof fn lemma_low_byte(n: i128)
    ensures
        (n >> 8) as int == n as int / 256,
        (n & 0xff) as u8 as int == n as int % 256,
{
    let q = n >> 8;
    let r = n & 0xff;
    assert(0 <= r <= 255 && q * 256 + r == n) by (bit_vector)
        requires
            q == n >> 8,
            r == n & 0xff,
    ;
    assert(r as u8 == r);
}

/// The lane that starts at byte `start`, as an integer.
pub fn read_lane(bytes: &[u8; 16], start: usize, width: usize) -> (n: u64)
    requires
        width <= 8,
        start + width <= 16,
    ensures
        n == le_value(bytes@.subrange(start as int, start + width)),
{
    let mut n: u64 = 0;
    let mut j: usize = width;
    assert(bytes@.subrange(start + width, start + width).len() == 0);
    while j > 0
        invariant
            j <= width <= 8,
            start + width <= 16,
            n == le_value(bytes@.subrange(start + j, start + width)),
        decreases j,
    {
        let ghost tail = bytes@.subrange(start + j, start + width);
        let ghost whole = bytes@.subrange(start + j - 1, start + width);
        proof {
            assert(whole.drop_first() =~= tail);
            assert(whole.first() == bytes@[start + j - 1]);
            lemma_le_value_u64(whole);
        }
        j = j - 1;
        n = 256 * n + bytes[start + j] as u64;
    }
    n
}

/// Write the low `width` bytes of `n` to `bytes`, from byte `start` on.
pub fn write_lane(bytes: &mut [u8; 16], start: usize, width: usize, n: i128)
    requires
        start + width <= 16,
    ensures
        forall|k: int|
            0 <= k < 16 ==> #[trigger] final(bytes)@[k] == (if start <= k < start + width {
                byte_at(n as int, (k - start) as nat)
            } else {
                old(bytes)@[k]
            }),
{
    let mut rest: i128 = n;
    let mut j: usize = 0;
    while j < width
        invariant
            j <= width,
            start + width <= 16,
            forall|k: int|
                0 <= k < 16 ==> #[trigger] bytes@[k] == (if start <= k < start + j {
                    byte_at(n as int, (k - start) as nat)
                } else {
                    old(bytes)@[k]
                }),
            forall|i: nat| #[trigger] byte_at(rest as int, i) == byte_at(n as int, (i + j) as nat),
        decreases width - j,
    {
        proof {
            lemma_low_byte(rest);
            assert(byte_at(rest as int, 0) == byte_at(n as int, (0 + j) as nat));
            assert forall|i: nat| #[trigger] byte_at((rest >> 8) as int, i) == byte_at(
                n as int,
                (i + (j + 1)) as nat,
            ) by {
                assert(byte_at(rest as int, i + 1) == byte_at(n as int, (i + 1 + j) as nat));
            }
        }
        bytes[start + j] = (rest & 0xff) as u8;
        rest = rest >> 8;
        j = j + 1;
    }
}

} // verus!
