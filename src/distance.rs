//! Synthesising identifiers at an exact XOR distance from a reference.
use vstd::prelude::*;

use crate::bits::{bit, height_of, mask, lemma_flip_bit, lemma_height_is, lemma_height_of, lemma_xor_bit, xor_seq};
use crate::hash::SubotaiHash;
use crate::iter::{is_last, none_in};

verus! {

/// Bit `i` of what `at_distance_from(start, reference, distance)` returns:
/// above `distance` the reference's bit, at `distance` the opposite of the
/// reference's bit, below it the starting bit, except that the top bit where
/// `start` and `reference` differ takes the reference's value when it lies
/// below `distance`.
pub open spec fn at_distance_bit(start: Seq<u8>, reference: Seq<u8>, distance: int, i: int) -> bool {
    if i > distance {
        bit(reference, i)
    } else if i == distance {
        !bit(reference, i)
    } else if height_of(xor_seq(start, reference)) == Some(i) {
        bit(reference, i)
    } else {
        bit(start, i)
    }
}

/// An identifier whose bits agree with the reference above `distance` and
/// differ from it at `distance` lies at height `distance` from it.
proof fn lemma_height_at_distance(r: Seq<u8>, reference: Seq<u8>, distance: int)
    requires
        r.len() == 20,
        reference.len() == 20,
        0 <= distance < 160,
        bit(r, distance) != bit(reference, distance),
        forall|i: int| distance < i < 160 ==> bit(r, i) == bit(reference, i),
    ensures
        height_of(xor_seq(r, reference)) == Some(distance),
{
    let x = xor_seq(r, reference);
    assert forall|j: int| distance < j < 160 implies !bit(x, j) by {
        lemma_xor_bit(r, reference, j);
    }
    lemma_xor_bit(r, reference, distance);
    lemma_height_is(x, distance);
}

/// The bits of `c` are those of `reference` from `index` up and those of
/// `start` below it.
pub open spec fn split_at(c: Seq<u8>, start: Seq<u8>, reference: Seq<u8>, index: int) -> bool {
    forall|i: int|
        0 <= i < 160 ==> bit(c, i) == if i >= index {
            bit(reference, i)
        } else {
            bit(start, i)
        }
}

/// Flipping the top differing bit below `back` moves the split down to it.
proof fn lemma_flip_top(before: Seq<u8>, s: Seq<u8>, refr: Seq<u8>, index: int, back: int)
    requires
        before.len() == 20,
        s.len() == 20,
        refr.len() == 20,
        0 <= index < back <= 160,
        split_at(before, s, refr, back),
        is_last(xor_seq(s, refr), true, 0, back, index),
    ensures
        split_at(before.update(index / 8, before[index / 8] ^ mask(index % 8)), s, refr, index),
{
    let after = before.update(index / 8, before[index / 8] ^ mask(index % 8));
    assert forall|i: int| 0 <= i < 160 implies bit(after, i) == if i >= index {
        bit(refr, i)
    } else {
        bit(s, i)
    } by {
        lemma_flip_bit(before, index, i);
        lemma_xor_bit(s, refr, i);
    }
}

/// Under a split at `index`, the distance to the reference keeps the
/// starting distance's bits below `index` and none above.
proof fn lemma_split_distance(c: Seq<u8>, s: Seq<u8>, refr: Seq<u8>, index: int)
    requires
        c.len() == 20,
        s.len() == 20,
        refr.len() == 20,
        split_at(c, s, refr, index),
    ensures
        forall|i: int|
            0 <= i < 160 ==> bit(xor_seq(c, refr), i) == (bit(xor_seq(s, refr), i) && i < index),
{
    assert forall|i: int| 0 <= i < 160 implies bit(xor_seq(c, refr), i) == (bit(
        xor_seq(s, refr),
        i,
    ) && i < index) by {
        lemma_xor_bit(c, refr, i);
        lemma_xor_bit(s, refr, i);
    }
}

/// The walk stops where the height reaches `distance` exactly.
proof fn lemma_stop_exact(c: Seq<u8>, s: Seq<u8>, refr: Seq<u8>, d: int, index: int, h0: int)
    requires
        c.len() == 20,
        s.len() == 20,
        refr.len() == 20,
        0 <= d < 160,
        split_at(c, s, refr, index),
        height_of(xor_seq(c, refr)) == Some(d),
        height_of(xor_seq(s, refr)) == Some(h0),
        h0 >= index,
    ensures
        forall|i: int| 0 <= i < 160 ==> bit(c, i) == at_distance_bit(s, refr, d, i),
        height_of(xor_seq(c, refr)) == Some(d),
{
    let x = xor_seq(c, refr);
    lemma_height_of(x);
    lemma_height_of(xor_seq(s, refr));
    lemma_split_distance(c, s, refr, index);
    assert(bit(x, d));
    assert(d < index);
    assert forall|i: int| 0 <= i < 160 implies bit(c, i) == at_distance_bit(s, refr, d, i) by {
        lemma_xor_bit(c, refr, i);
        if i > d {
            assert(!bit(x, i));
        } else if i < d {
            assert(bit(c, i) == bit(s, i));
            assert(height_of(xor_seq(s, refr)) != Some(i));
        }
    }
}

/// The walk overshoots: the height fell below `distance`, and flipping the
/// bit at `distance` puts it back at `distance`.
proof fn lemma_stop_overshoot(c: Seq<u8>, s: Seq<u8>, refr: Seq<u8>, d: int, index: int, h0: int)
    requires
        c.len() == 20,
        s.len() == 20,
        refr.len() == 20,
        0 <= d < 160,
        split_at(c, s, refr, index),
        forall|j: int| d <= j < 160 ==> !bit(xor_seq(c, refr), j),
        height_of(xor_seq(s, refr)) == Some(h0),
        h0 >= index,
        index > d || h0 == index,
    ensures
        forall|i: int|
            0 <= i < 160 ==> bit(c.update(d / 8, c[d / 8] ^ mask(d % 8)), i) == at_distance_bit(
                s,
                refr,
                d,
                i,
            ),
{
    lemma_height_of(xor_seq(s, refr));
    let r = c.update(d / 8, c[d / 8] ^ mask(d % 8));
    let x = xor_seq(c, refr);
    let d0 = xor_seq(s, refr);
    assert forall|i: int| 0 <= i < 160 implies bit(r, i) == at_distance_bit(s, refr, d, i) by {
        lemma_flip_bit(c, d, i);
        lemma_xor_bit(c, refr, i);
        lemma_xor_bit(s, refr, i);
        if i >= d {
            assert(!bit(x, i));
        } else if i >= index {
            assert(h0 == index);
            if i > h0 {
                assert(!bit(d0, i));
            }
        } else {
            assert(bit(c, i) == bit(s, i));
            assert(height_of(d0) != Some(i));
        }
    }
}

/// The starting identifier already agrees with the reference everywhere:
/// flipping the bit at `distance` is all that is needed.
proof fn lemma_stop_equal(c: Seq<u8>, s: Seq<u8>, refr: Seq<u8>, d: int)
    requires
        c.len() == 20,
        s.len() == 20,
        refr.len() == 20,
        0 <= d < 160,
        forall|i: int| 0 <= i < 160 ==> bit(c, i) == bit(s, i) && !bit(xor_seq(s, refr), i),
    ensures
        forall|i: int|
            0 <= i < 160 ==> bit(c.update(d / 8, c[d / 8] ^ mask(d % 8)), i) == at_distance_bit(
                s,
                refr,
                d,
                i,
            ),
{
    lemma_height_of(xor_seq(s, refr));
    let r = c.update(d / 8, c[d / 8] ^ mask(d % 8));
    assert forall|i: int| 0 <= i < 160 implies bit(r, i) == at_distance_bit(s, refr, d, i) by {
        lemma_flip_bit(c, d, i);
        lemma_xor_bit(s, refr, i);
    }
}

/// What `at_distance_from` returns is at height `distance` from the reference.
proof fn lemma_at_distance_height(r: Seq<u8>, s: Seq<u8>, refr: Seq<u8>, d: int)
    requires
        r.len() == 20,
        refr.len() == 20,
        0 <= d < 160,
        forall|i: int| 0 <= i < 160 ==> bit(r, i) == at_distance_bit(s, refr, d, i),
    ensures
        height_of(xor_seq(r, refr)) == Some(d),
{
    lemma_height_at_distance(r, refr, d);
}

impl SubotaiHash {
    /// Moves `start` to XOR height exactly `distance` from `reference`: walks
    /// the bits where the two differ from the top down, flipping each in
    /// turn, and stops as soon as the height of the distance equals
    /// `distance`. Where a flip takes the height below `distance`, or clears
    /// the distance entirely, the bit at `distance` itself is flipped instead.
    pub fn at_distance_from(start: SubotaiHash, reference: &SubotaiHash, distance: usize) -> (r:
        SubotaiHash)
        requires
            distance < 160,
        ensures
            forall|i: int|
                0 <= i < 160 ==> bit(r.raw@, i) == at_distance_bit(
                    start.raw@,
                    reference.raw@,
                    distance as int,
                    i,
                ),
            height_of(xor_seq(r.raw@, reference.raw@)) == Some(distance as int),
    {
        let ghost s = start.raw@;
        let ghost refr = reference.raw@;
        let ghost d = distance as int;
        let ghost d0 = xor_seq(s, refr);
        let mut candidate = start;
        let mut ones = candidate.xor(reference).into_ones();
        let ghost mut first = true;
        loop
            invariant_except_break
                split_at(candidate.raw@, s, refr, ones.back()),
                first ==> ones.back() == 160,
                !first ==> exists|j: int| d < j < ones.back() && bit(d0, j),
                !first ==> exists|h: int| height_of(d0) == Some(h) && h > d && h >= ones.back(),
            invariant
                ones.wf(),
                ones.bits() == d0,
                ones.front() == 0,
                ones.back() <= 160,
                distance < 160,
                d == distance as int,
                s == start.raw@,
                refr == reference.raw@,
                d0 == xor_seq(s, refr),
            ensures
                forall|i: int|
                    0 <= i < 160 ==> bit(candidate.raw@, i) == bit(s, i) && !bit(d0, i),
            decreases ones.back(),
        {
            let ghost back_before = ones.back();
            match ones.next_back() {
                None => {
                    assert(first);
                    proof {
                        assert forall|i: int| 0 <= i < 160 implies bit(candidate.raw@, i) == bit(
                            s,
                            i,
                        ) && !bit(d0, i) by {}
                    }
                    break;
                },
                Some(index) => {
                    let ghost before = candidate.raw@;
                    candidate.flip_bit(index);
                    let ghost h0: int;
                    proof {
                        lemma_flip_top(before, s, refr, index as int, back_before);
                        if first {
                            lemma_height_of(d0);
                            h0 = index as int;
                        } else {
                            h0 = choose|h: int| height_of(d0) == Some(h) && h > d && h >= back_before;
                        }
                        lemma_split_distance(candidate.raw@, s, refr, index as int);
                    }
                    let dist = candidate.xor(reference);
                    let h = dist.height();
                    proof {
                        lemma_height_of(dist.raw@);
                    }
                    match h {
                        Some(hv) => {
                            if hv == distance {
                                proof {
                                    lemma_stop_exact(candidate.raw@, s, refr, d, index as int, h0);
                                }
                                return candidate;
                            } else if hv < distance {
                                let ghost mid = candidate.raw@;
                                candidate.flip_bit(distance);
                                proof {
                                    lemma_stop_overshoot(mid, s, refr, d, index as int, h0);
                                    lemma_at_distance_height(candidate.raw@, s, refr, d);
                                }
                                return candidate;
                            }
                        },
                        None => {
                            let ghost mid = candidate.raw@;
                            candidate.flip_bit(distance);
                            proof {
                                lemma_stop_overshoot(mid, s, refr, d, index as int, h0);
                                lemma_at_distance_height(candidate.raw@, s, refr, d);
                            }
                            return candidate;
                        },
                    }
                    proof {
                        first = false;
                    }
                },
            }
        }
        let ghost mid = candidate.raw@;
        candidate.flip_bit(distance);
        proof {
            lemma_stop_equal(mid, s, refr, d);
            lemma_at_distance_height(candidate.raw@, s, refr, d);
        }
        candidate
    }

    /// Creates a random hash at a given XOR distance from another (the height
    /// of their XOR value).
    pub fn random_at_distance(reference: &SubotaiHash, distance: usize) -> (r: SubotaiHash)
        requires
            distance < 160,
        ensures
            height_of(xor_seq(r.raw@, reference.raw@)) == Some(distance as int),
    {
        SubotaiHash::at_distance_from(SubotaiHash::random(), reference, distance)
    }
}

} // verus!
