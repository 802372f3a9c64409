//! Double-ended iteration over the positions of the set or clear bits of an
//! identifier. Each iterator holds a front cursor and a back cursor that move
//! toward each other and never cross.
use vstd::prelude::*;

use crate::bits::{bit, HASH_SIZE};
use crate::hash::SubotaiHash;

verus! {

/// `k` is the lowest position in `lo..hi` whose bit equals `want`.
pub open spec fn is_first(raw: Seq<u8>, want: bool, lo: int, hi: int, k: int) -> bool {
    &&& lo <= k < hi
    &&& bit(raw, k) == want
    &&& forall|j: int| lo <= j < k ==> bit(raw, j) != want
}

/// `k` is the highest position in `lo..hi` whose bit equals `want`.
pub open spec fn is_last(raw: Seq<u8>, want: bool, lo: int, hi: int, k: int) -> bool {
    &&& lo <= k < hi
    &&& bit(raw, k) == want
    &&& forall|j: int| k < j < hi ==> bit(raw, j) != want
}

/// No position in `lo..hi` has its bit equal to `want`.
pub open spec fn none_in(raw: Seq<u8>, want: bool, lo: int, hi: int) -> bool {
    forall|j: int| lo <= j < hi ==> bit(raw, j) != want
}

/// Moves the front cursor `index` to just past the next position whose bit is
/// `want`, stopping at `rev`.
fn scan_front(hash: &SubotaiHash, want: bool, index: usize, rev: usize) -> (r: (Option<usize>, usize))
    requires
        index <= rev <= 160,
    ensures
        match r.0 {
            Some(k) => is_first(hash.raw@, want, index as int, rev as int, k as int) && r.1 == k + 1,
            None => none_in(hash.raw@, want, index as int, rev as int) && r.1 == rev,
        },
{
    let mut i: usize = index;
    while i < rev
        invariant
            index <= i <= rev <= 160,
            none_in(hash.raw@, want, index as int, i as int),
        decreases rev - i,
    {
        let set = hash.bit_at(i);
        i = i + 1;
        if set == want {
            return (Some(i - 1), i);
        }
    }
    (None, rev)
}

/// Moves the back cursor `rev` down onto the previous position whose bit is
/// `want`, stopping at `index`.
fn scan_back(hash: &SubotaiHash, want: bool, index: usize, rev: usize) -> (r: (Option<usize>, usize))
    requires
        index <= rev <= 160,
    ensures
        match r.0 {
            Some(k) => is_last(hash.raw@, want, index as int, rev as int, k as int) && r.1 == k,
            None => none_in(hash.raw@, want, index as int, rev as int) && r.1 == index,
        },
{
    let mut i: usize = rev;
    while index < i
        invariant
            index <= i <= rev <= 160,
            none_in(hash.raw@, want, i as int, rev as int),
        decreases i - index,
    {
        let set = hash.bit_at(i - 1);
        i = i - 1;
        if set == want {
            return (Some(i), i);
        }
    }
    (None, index)
}

/// Iterator through the indices of each '0' in a hash.
pub struct Zeroes<'a> {
    hash: &'a SubotaiHash,
    index: usize,
    rev: usize,
}

impl<'a> Zeroes<'a> {
    /// The bytes of the identifier being walked.
    pub closed spec fn bits(&self) -> Seq<u8> {
        self.hash.raw@
    }

    /// The front cursor: positions below it have been handed out or skipped.
    pub closed spec fn front(&self) -> int {
        self.index as int
    }

    /// The back cursor: positions from it up have been handed out or skipped.
    pub closed spec fn back(&self) -> int {
        self.rev as int
    }

    /// The cursors have not crossed and stay within the identifier.
    pub closed spec fn wf(&self) -> bool {
        self.index <= self.rev <= 160
    }

    /// The next clear position from the front, in ascending order.
    pub fn next(&mut self) -> (r: Option<usize>)
        requires
            old(self).wf(),
        ensures
            final(self).wf(),
            final(self).bits() == old(self).bits(),
            final(self).back() == old(self).back(),
            match r {
                Some(k) => is_first(old(self).bits(), false, old(self).front(), old(self).back(), k as int)
                    && final(self).front() == k + 1,
                None => none_in(old(self).bits(), false, old(self).front(), old(self).back())
                    && final(self).front() == old(self).back(),
            },
    {
        let (r, i) = scan_front(self.hash, false, self.index, self.rev);
        self.index = i;
        r
    }

    /// The next clear position from the back, in descending order.
    pub fn next_back(&mut self) -> (r: Option<usize>)
        requires
            old(self).wf(),
        ensures
            final(self).wf(),
            final(self).bits() == old(self).bits(),
            final(self).front() == old(self).front(),
            match r {
                Some(k) => is_last(old(self).bits(), false, old(self).front(), old(self).back(), k as int)
                    && final(self).back() == k,
                None => none_in(old(self).bits(), false, old(self).front(), old(self).back())
                    && final(self).back() == old(self).front(),
            },
    {
        let (r, i) = scan_back(self.hash, false, self.index, self.rev);
        self.rev = i;
        r
    }
}

/// Iterator through the indices of each '1' in a hash.
pub struct Ones<'a> {
    hash: &'a SubotaiHash,
    index: usize,
    rev: usize,
}

impl<'a> Ones<'a> {
    /// The bytes of the identifier being walked.
    pub closed spec fn bits(&self) -> Seq<u8> {
        self.hash.raw@
    }

    /// The front cursor: positions below it have been handed out or skipped.
    pub closed spec fn front(&self) -> int {
        self.index as int
    }

    /// The back cursor: positions from it up have been handed out or skipped.
    pub closed spec fn back(&self) -> int {
        self.rev as int
    }

    /// The cursors have not crossed and stay within the identifier.
    pub closed spec fn wf(&self) -> bool {
        self.index <= self.rev <= 160
    }

    /// The next set position from the front, in ascending order.
    pub fn next(&mut self) -> (r: Option<usize>)
        requires
            old(self).wf(),
        ensures
            final(self).wf(),
            final(self).bits() == old(self).bits(),
            final(self).back() == old(self).back(),
            match r {
                Some(k) => is_first(old(self).bits(), true, old(self).front(), old(self).back(), k as int)
                    && final(self).front() == k + 1,
                None => none_in(old(self).bits(), true, old(self).front(), old(self).back())
                    && final(self).front() == old(self).back(),
            },
    {
        let (r, i) = scan_front(self.hash, true, self.index, self.rev);
        self.index = i;
        r
    }

    /// The next set position from the back, in descending order.
    pub fn next_back(&mut self) -> (r: Option<usize>)
        requires
            old(self).wf(),
        ensures
            final(self).wf(),
            final(self).bits() == old(self).bits(),
            final(self).front() == old(self).front(),
            match r {
                Some(k) => is_last(old(self).bits(), true, old(self).front(), old(self).back(), k as int)
                    && final(self).back() == k,
                None => none_in(old(self).bits(), true, old(self).front(), old(self).back())
                    && final(self).back() == old(self).front(),
            },
    {
        let (r, i) = scan_back(self.hash, true, self.index, self.rev);
        self.rev = i;
        r
    }
}

/// Consuming iterator through the indices of each '0' in a hash.
pub struct IntoZeroes {
    hash: SubotaiHash,
    index: usize,
    rev: usize,
}

impl IntoZeroes {
    /// The bytes of the identifier being walked.
    pub closed spec fn bits(&self) -> Seq<u8> {
        self.hash.raw@
    }

    /// The front cursor: positions below it have been handed out or skipped.
    pub closed spec fn front(&self) -> int {
        self.index as int
    }

    /// The back cursor: positions from it up have been handed out or skipped.
    pub closed spec fn back(&self) -> int {
        self.rev as int
    }

    /// The cursors have not crossed and stay within the identifier.
    pub closed spec fn wf(&self) -> bool {
        self.index <= self.rev <= 160
    }

    /// The next clear position from the front, in ascending order.
    pub fn next(&mut self) -> (r: Option<usize>)
        requires
            old(self).wf(),
        ensures
            final(self).wf(),
            final(self).bits() == old(self).bits(),
            final(self).back() == old(self).back(),
            match r {
                Some(k) => is_first(old(self).bits(), false, old(self).front(), old(self).back(), k as int)
                    && final(self).front() == k + 1,
                None => none_in(old(self).bits(), false, old(self).front(), old(self).back())
                    && final(self).front() == old(self).back(),
            },
    {
        let (r, i) = scan_front(&self.hash, false, self.index, self.rev);
        self.index = i;
        r
    }

    /// The next clear position from the back, in descending order.
    pub fn next_back(&mut self) -> (r: Option<usize>)
        requires
            old(self).wf(),
        ensures
            final(self).wf(),
            final(self).bits() == old(self).bits(),
            final(self).front() == old(self).front(),
            match r {
                Some(k) => is_last(old(self).bits(), false, old(self).front(), old(self).back(), k as int)
                    && final(self).back() == k,
                None => none_in(old(self).bits(), false, old(self).front(), old(self).back())
                    && final(self).back() == old(self).front(),
            },
    {
        let (r, i) = scan_back(&self.hash, false, self.index, self.rev);
        self.rev = i;
        r
    }
}

/// Consuming iterator through the indices of each '1' in a hash.
pub struct IntoOnes {
    hash: SubotaiHash,
    index: usize,
    rev: usize,
}

impl IntoOnes {
    /// The bytes of the identifier being walked.
    pub closed spec fn bits(&self) -> Seq<u8> {
        self.hash.raw@
    }

    /// The front cursor: positions below it have been handed out or skipped.
    pub closed spec fn front(&self) -> int {
        self.index as int
    }

    /// The back cursor: positions from it up have been handed out or skipped.
    pub closed spec fn back(&self) -> int {
        self.rev as int
    }

    /// The cursors have not crossed and stay within the identifier.
    pub closed spec fn wf(&self) -> bool {
        self.index <= self.rev <= 160
    }

    /// The next set position from the front, in ascending order.
    pub fn next(&mut self) -> (r: Option<usize>)
        requires
            old(self).wf(),
        ensures
            final(self).wf(),
            final(self).bits() == old(self).bits(),
            final(self).back() == old(self).back(),
            match r {
                Some(k) => is_first(old(self).bits(), true, old(self).front(), old(self).back(), k as int)
                    && final(self).front() == k + 1,
                None => none_in(old(self).bits(), true, old(self).front(), old(self).back())
                    && final(self).front() == old(self).back(),
            },
    {
        let (r, i) = scan_front(&self.hash, true, self.index, self.rev);
        self.index = i;
        r
    }

    /// The next set position from the back, in descending order.
    pub fn next_back(&mut self) -> (r: Option<usize>)
        requires
            old(self).wf(),
        ensures
            final(self).wf(),
            final(self).bits() == old(self).bits(),
            final(self).front() == old(self).front(),
            match r {
                Some(k) => is_last(old(self).bits(), true, old(self).front(), old(self).back(), k as int)
                    && final(self).back() == k,
                None => none_in(old(self).bits(), true, old(self).front(), old(self).back())
                    && final(self).back() == old(self).front(),
            },
    {
        let (r, i) = scan_back(&self.hash, true, self.index, self.rev);
        self.rev = i;
        r
    }
}

impl SubotaiHash {
    /// Provides a iterator through the indices of each of its "0" bits.
    pub fn zeroes(&self) -> (r: Zeroes<'_>)
        ensures
            r.wf(),
            r.bits() == self.raw@,
            r.front() == 0,
            r.back() == 160,
    {
        Zeroes { hash: self, index: 0, rev: HASH_SIZE }
    }

    /// Provides a iterator through the indices of each of its "1" bits.
    pub fn ones(&self) -> (r: Ones<'_>)
        ensures
            r.wf(),
            r.bits() == self.raw@,
            r.front() == 0,
            r.back() == 160,
    {
        Ones { hash: self, index: 0, rev: HASH_SIZE }
    }

    /// Provides a consuming iterator through the indices of each of its "0" bits.
    pub fn into_zeroes(self) -> (r: IntoZeroes)
        ensures
            r.wf(),
            r.bits() == self.raw@,
            r.front() == 0,
            r.back() == 160,
    {
        IntoZeroes { hash: self, index: 0, rev: HASH_SIZE }
    }

    /// Provides a consuming iterator through the indices of each of its "1" bits.
    pub fn into_ones(self) -> (r: IntoOnes)
        ensures
            r.wf(),
            r.bits() == self.raw@,
            r.front() == 0,
            r.back() == 160,
    {
        IntoOnes { hash: self, index: 0, rev: HASH_SIZE }
    }
}

} // verus!
