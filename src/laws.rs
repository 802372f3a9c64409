//! Laws of the identifier arithmetic, stated over the byte model.
use vstd::prelude::*;

use crate::bits::{blank_seq, flip_seq, height_of, xor_seq};
use crate::hash::{cmp_below, hash_cmp, sha1_of, SubotaiHash};
use core::cmp::Ordering;

verus! {

/// XOR of an identifier with itself is blank, and XOR with the blank
/// identifier leaves it unchanged.
pub proof fn lemma_xor_self_and_blank(a: SubotaiHash)
    ensures
        xor_seq(a.raw@, a.raw@) == blank_seq(),
        xor_seq(a.raw@, blank_seq()) == a.raw@,
{
    assert forall|i: int| 0 <= i < 20 implies xor_seq(a.raw@, a.raw@)[i] == 0u8 by {
        let x = a.raw@[i];
        assert(x ^ x == 0u8) by (bit_vector);
    }
    assert forall|i: int| 0 <= i < 20 implies xor_seq(a.raw@, blank_seq())[i] == a.raw@[i] by {
        let x = a.raw@[i];
        assert(x ^ 0u8 == x) by (bit_vector);
    }
    assert(xor_seq(a.raw@, a.raw@) =~= blank_seq());
    assert(xor_seq(a.raw@, blank_seq()) =~= a.raw@);
}

/// XOR is commutative, so the height of the distance between two
/// identifiers does not depend on their order.
pub proof fn lemma_xor_commutes(a: SubotaiHash, b: SubotaiHash)
    ensures
        xor_seq(a.raw@, b.raw@) == xor_seq(b.raw@, a.raw@),
        height_of(xor_seq(a.raw@, b.raw@)) == height_of(xor_seq(b.raw@, a.raw@)),
{
    assert forall|i: int| 0 <= i < 20 implies xor_seq(a.raw@, b.raw@)[i] == xor_seq(
        b.raw@,
        a.raw@,
    )[i] by {
        let x = a.raw@[i];
        let y = b.raw@[i];
        assert(x ^ y == y ^ x) by (bit_vector);
    }
    assert(xor_seq(a.raw@, b.raw@) =~= xor_seq(b.raw@, a.raw@));
}

/// Hashing the same text twice gives the same identifier.
pub proof fn lemma_sha1_deterministic(data: Seq<char>, h1: SubotaiHash, h2: SubotaiHash)
    requires
        h1.raw@ == sha1_of(data),
        h2.raw@ == sha1_of(data),
    ensures
        h1.raw@ == h2.raw@,
{
}

/// Flipping the same bit twice restores the identifier.
pub proof fn lemma_flip_twice(a: SubotaiHash, p: int)
    requires
        0 <= p < 160,
    ensures
        flip_seq(flip_seq(a.raw@, p), p) == a.raw@,
{
    let x = a.raw@[p / 8];
    let k = (p % 8) as u8;
    assert((x ^ (1u8 << k)) ^ (1u8 << k) == x) by (bit_vector);
    assert(flip_seq(flip_seq(a.raw@, p), p) =~= a.raw@);
}

/// Identifiers compare as unsigned numbers, most significant byte first:
/// where `a` holds a larger byte at `k` and the same bytes above it, `a` is
/// the greater.
pub proof fn lemma_cmp_by_magnitude(a: SubotaiHash, b: SubotaiHash, k: int)
    requires
        0 <= k < 20,
        a.raw@[k] > b.raw@[k],
        forall|j: int| k < j < 20 ==> a.raw@[j] == b.raw@[j],
    ensures
        hash_cmp(a.raw@, b.raw@) == Some(Ordering::Greater),
        hash_cmp(b.raw@, a.raw@) == Some(Ordering::Less),
{
    lemma_cmp_above(a.raw@, b.raw@, k, 20);
    lemma_cmp_above(b.raw@, a.raw@, k, 20);
}

/// Bytes equal from `k + 1` up to `n` leave the decision to byte `k`.
proof fn lemma_cmp_above(a: Seq<u8>, b: Seq<u8>, k: int, n: int)
    requires
        0 <= k < n <= 20,
        forall|j: int| k < j < 20 ==> a[j] == b[j],
    ensures
        cmp_below(a, b, n) == cmp_below(a, b, k + 1),
    decreases n,
{
    if n > k + 1 {
        lemma_cmp_above(a, b, k, n - 1);
    }
}

} // verus!
