//! The mathematical model of an identifier: a sequence of 20 bytes, stored
//! least significant byte first, read as 160 bits.
use vstd::prelude::*;

verus! {

/// Number of bits in an identifier.
pub const HASH_SIZE: usize = 160;

/// Number of bytes in an identifier.
pub const HASH_SIZE_BYTES: usize = 20;

/// The mask that selects bit `k` of a byte.
pub open spec fn mask(k: int) -> u8 {
    (1u8 << (k as u8)) as u8
}

/// Whether bit `i` of the little-endian byte sequence `raw` is set.
#[verifier::opaque]
pub open spec fn bit(raw: Seq<u8>, i: int) -> bool {
    raw[i / 8] & mask(i % 8) != 0
}

/// The bytes of the blank identifier: all zero.
pub open spec fn blank_seq() -> Seq<u8> {
    Seq::new(20, |i: int| 0u8)
}

/// The bytes after flipping bit `p`.
pub open spec fn flip_seq(raw: Seq<u8>, p: int) -> Seq<u8> {
    raw.update(p / 8, raw[p / 8] ^ mask(p % 8))
}

/// Byte-wise exclusive-or of two identifiers' bytes.
pub open spec fn xor_seq(a: Seq<u8>, b: Seq<u8>) -> Seq<u8> {
    Seq::new(a.len(), |i: int| a[i] ^ b[i])
}

/// Index of the highest set bit among bits `0..n`, if any is set.
pub open spec fn highest_below(raw: Seq<u8>, n: int) -> Option<int>
    decreases n,
{
    if n <= 0 {
        None
    } else if bit(raw, n - 1) {
        Some(n - 1)
    } else {
        highest_below(raw, n - 1)
    }
}

/// The height of an identifier: the index of its most significant set bit,
/// or `None` when every bit is clear.
pub open spec fn height_of(raw: Seq<u8>) -> Option<int> {
    highest_below(raw, 160)
}

/// Flipping bit `k` of a byte toggles bit `k` and leaves the others.
proof fn lemma_byte_flip(b: u8, k: u8, j: u8)
    requires
        k < 8,
        j < 8,
    ensures
        (b ^ (1u8 << k)) & (1u8 << j) != 0 <==> ((b & (1u8 << j) != 0) != (k == j)),
{
    assert((b ^ (1u8 << k)) & (1u8 << j) != 0 <==> ((b & (1u8 << j) != 0) != (k == j)))
        by (bit_vector)
        requires
            k < 8,
            j < 8,
    ;
}

/// A bit of a byte-wise XOR is the XOR of the operands' bits.
proof fn lemma_byte_xor(x: u8, y: u8, j: u8)
    requires
        j < 8,
    ensures
        (x ^ y) & (1u8 << j) != 0 <==> ((x & (1u8 << j) != 0) != (y & (1u8 << j) != 0)),
{
    assert((x ^ y) & (1u8 << j) != 0 <==> ((x & (1u8 << j) != 0) != (y & (1u8 << j) != 0)))
        by (bit_vector)
        requires
            j < 8,
    ;
}

/// Each bit of `xor_seq(a, b)` is set exactly when the bits of `a` and `b` differ.
pub proof fn lemma_xor_bit(a: Seq<u8>, b: Seq<u8>, i: int)
    requires
        a.len() == 20,
        b.len() == 20,
        0 <= i < 160,
    ensures
        bit(xor_seq(a, b), i) == (bit(a, i) != bit(b, i)),
{
    reveal(bit);
    lemma_byte_xor(a[i / 8], b[i / 8], (i % 8) as u8);
}

/// Flipping bit `p` toggles bit `p` and leaves every other bit as it was.
pub proof fn lemma_flip_bit(raw: Seq<u8>, p: int, i: int)
    requires
        raw.len() == 20,
        0 <= p < 160,
        0 <= i < 160,
    ensures
        bit(raw.update(p / 8, raw[p / 8] ^ mask(p % 8)), i) == (bit(raw, i) != (i == p)),
{
    reveal(bit);
    let flipped = raw.update(p / 8, raw[p / 8] ^ mask(p % 8));
    if i / 8 == p / 8 {
        lemma_byte_flip(raw[p / 8], (p % 8) as u8, (i % 8) as u8);
    } else {
        assert(flipped[i / 8] == raw[i / 8]);
    }
}

/// What `highest_below` returns: the largest set bit under `n`, or `None`
/// when all of them are clear.
pub proof fn lemma_highest_below(raw: Seq<u8>, n: int)
    requires
        0 <= n,
    ensures
        match highest_below(raw, n) {
            Some(h) => 0 <= h < n && bit(raw, h) && forall|j: int| h < j < n ==> !bit(raw, j),
            None => forall|j: int| 0 <= j < n ==> !bit(raw, j),
        },
    decreases n,
{
    if n > 0 {
        lemma_highest_below(raw, n - 1);
    }
}

/// The height is the index of the top set bit, or `None` when every bit is
/// clear.
pub proof fn lemma_height_of(raw: Seq<u8>)
    ensures
        match height_of(raw) {
            Some(h) => 0 <= h < 160 && bit(raw, h) && forall|j: int| h < j < 160 ==> !bit(raw, j),
            None => forall|j: int| 0 <= j < 160 ==> !bit(raw, j),
        },
{
    lemma_highest_below(raw, 160);
}

/// A set bit with every bit above it clear is the height.
pub proof fn lemma_height_is(raw: Seq<u8>, h: int)
    requires
        0 <= h < 160,
        bit(raw, h),
        forall|j: int| h < j < 160 ==> !bit(raw, j),
    ensures
        height_of(raw) == Some(h),
{
    lemma_height_of(raw);
    if let Some(g) = height_of(raw) {
        if g < h {
            assert(!bit(raw, h));
        } else if g > h {
            assert(!bit(raw, g));
        }
    }
}

} // verus!
