//! The identifier type: construction, bit inspection and mutation, height,
//! XOR distance, ordering and textual rendering.
use vstd::prelude::*;

use crate::bits::{
    bit, blank_seq, flip_seq, height_of, highest_below, xor_seq,
};
use core::cmp::Ordering;

pub use crate::bits::{HASH_SIZE, HASH_SIZE_BYTES};
pub use crate::iter::{IntoOnes, IntoZeroes, Ones, Zeroes};

verus! {

/// The SHA-1 digest of a text's UTF-8 bytes, as 20 bytes in the order the
/// digest lists them.
pub uninterp spec fn sha1_of(data: Seq<char>) -> Seq<u8>;

/// Relies on `sha1::Sha1` (`new`, `update`, `digest`, `Digest::bytes`): the
/// 20-byte SHA-1 digest of the text's UTF-8 bytes, a function of the text alone.
#[verifier::external_body]
fn sha1_digest(data: &str) -> (r: [u8; HASH_SIZE_BYTES])
    ensures
        r@ == sha1_of(data@),
{
    let mut m = sha1::Sha1::new();
    m.update(data.as_bytes());
    m.digest().bytes()
}

/// Relies on `rand::thread_rng` and `RngCore::fill_bytes`: 20 bytes from the
/// thread-local generator. Nothing is promised of their values.
#[verifier::external_body]
fn random_bytes() -> (r: [u8; HASH_SIZE_BYTES]) {
    let mut raw = [0u8; HASH_SIZE_BYTES];
    rand::RngCore::fill_bytes(&mut rand::thread_rng(), &mut raw);
    raw
}

/// A 160-bit identifier, stored least significant byte first. It names nodes
/// and storage keys, and the XOR of two identifiers is their distance.
#[derive(Debug, Clone, Hash)]
pub struct SubotaiHash {
    pub raw: [u8; HASH_SIZE_BYTES],
}

impl PartialEq for SubotaiHash {
    fn eq(&self, other: &SubotaiHash) -> (r: bool) {
        let mut i: usize = 0;
        while i < HASH_SIZE_BYTES
            invariant
                i <= 20,
                forall|j: int| 0 <= j < i ==> self.raw@[j] == other.raw@[j],
            decreases 20 - i,
        {
            if self.raw[i] != other.raw[i] {
                return false;
            }
            i = i + 1;
        }
        assert(self.raw@ =~= other.raw@);
        true
    }
}

impl vstd::std_specs::cmp::PartialEqSpecImpl for SubotaiHash {
    open spec fn obeys_eq_spec() -> bool {
        true
    }

    open spec fn eq_spec(&self, other: &SubotaiHash) -> bool {
        self.raw@ == other.raw@
    }
}

impl Eq for SubotaiHash {

}

impl SubotaiHash {
    /// Generates a blank hash (every bit set to 0).
    pub fn blank() -> (r: SubotaiHash)
        ensures
            r.raw@ == blank_seq(),
    {
        let r = SubotaiHash { raw: [0u8; HASH_SIZE_BYTES] };
        assert(r.raw@ =~= blank_seq());
        r
    }

    /// Generates a random hash via kernel supplied entropy.
    pub fn random() -> (r: SubotaiHash) {
        SubotaiHash { raw: random_bytes() }
    }

    /// Generates a SHA-1 hash from a string.
    pub fn sha1(data: &str) -> (r: SubotaiHash)
        ensures
            r.raw@ == sha1_of(data@),
    {
        SubotaiHash { raw: sha1_digest(data) }
    }

    /// Whether bit `i` is set.
    pub(crate) fn bit_at(&self, i: usize) -> (r: bool)
        requires
            i < 160,
        ensures
            r == bit(self.raw@, i as int),
    {
        reveal(bit);
        self.raw[i / 8] & (1u8 << ((i % 8) as u8)) != 0
    }

    /// Flips a bit in the hash. Positions past the last bit are ignored.
    pub fn flip_bit(&mut self, position: usize)
        ensures
            position >= 160 ==> *final(self) == *old(self),
            position < 160 ==> final(self).raw@ == flip_seq(old(self).raw@, position as int),
    {
        if position >= HASH_SIZE {
            return;
        }
        let idx = position / 8;
        self.raw[idx] = self.raw[idx] ^ (1u8 << ((position % 8) as u8));
    }

    /// Computes the bit index of the highest "1". Returns None for a blank hash.
    pub fn height(&self) -> (r: Option<usize>)
        ensures
            height_of(self.raw@) == match r {
                Some(h) => Some(h as int),
                None => None::<int>,
            },
    {
        let mut n: usize = HASH_SIZE;
        while n > 0
            invariant
                n <= 160,
                height_of(self.raw@) == highest_below(self.raw@, n as int),
            decreases n,
        {
            if self.bit_at(n - 1) {
                return Some(n - 1);
            }
            n = n - 1;
        }
        None
    }

    /// Byte-wise exclusive-or of two hashes: their XOR distance.
    pub fn xor(&self, other: &SubotaiHash) -> (r: SubotaiHash)
        ensures
            r.raw@ == xor_seq(self.raw@, other.raw@),
    {
        let mut result = SubotaiHash::blank();
        let mut i: usize = 0;
        while i < HASH_SIZE_BYTES
            invariant
                i <= 20,
                forall|j: int| 0 <= j < i ==> result.raw@[j] == self.raw@[j] ^ other.raw@[j],
            decreases 20 - i,
        {
            result.raw[i] = self.raw[i] ^ other.raw[i];
            i = i + 1;
        }
        assert(result.raw@ =~= xor_seq(self.raw@, other.raw@));
        result
    }
}

/// Compares bytes `0..n` as an unsigned number, most significant byte first.
/// The first unequal byte decides; when all are equal there is no relation.
pub open spec fn cmp_below(a: Seq<u8>, b: Seq<u8>, n: int) -> Option<Ordering>
    decreases n,
{
    if n <= 0 {
        None
    } else if a[n - 1] < b[n - 1] {
        Some(Ordering::Less)
    } else if a[n - 1] > b[n - 1] {
        Some(Ordering::Greater)
    } else {
        cmp_below(a, b, n - 1)
    }
}

/// The comparison of two identifiers: `None` when they are equal.
pub open spec fn hash_cmp(a: Seq<u8>, b: Seq<u8>) -> Option<Ordering> {
    cmp_below(a, b, 20)
}

impl PartialOrd for SubotaiHash {
    /// Compares as unsigned numbers, most significant byte first. Equal
    /// hashes are reported as unordered.
    fn partial_cmp(&self, other: &SubotaiHash) -> (r: Option<Ordering>) {
        let mut n: usize = HASH_SIZE_BYTES;
        while n > 0
            invariant
                n <= 20,
                hash_cmp(self.raw@, other.raw@) == cmp_below(self.raw@, other.raw@, n as int),
            decreases n,
        {
            let a = self.raw[n - 1];
            let b = other.raw[n - 1];
            if a < b {
                return Some(Ordering::Less);
            } else if a > b {
                return Some(Ordering::Greater);
            }
            n = n - 1;
        }
        None
    }
}

impl vstd::std_specs::cmp::PartialOrdSpecImpl for SubotaiHash {
    open spec fn obeys_partial_cmp_spec() -> bool {
        true
    }

    open spec fn partial_cmp_spec(&self, other: &SubotaiHash) -> Option<Ordering> {
        hash_cmp(self.raw@, other.raw@)
    }
}

impl SubotaiHash {
    /// The total order: the partial comparison, with equal hashes reported
    /// as `Equal`.
    pub fn cmp(&self, other: &SubotaiHash) -> (r: Ordering)
        ensures
            r == match hash_cmp(self.raw@, other.raw@) {
                Some(o) => o,
                None => Ordering::Equal,
            },
    {
        match self.partial_cmp(other) {
            Some(order) => order,
            None => Ordering::Equal,
        }
    }
}

/// The hash whose bytes are the byte-wise XOR of `a` and `b`.
pub open spec fn xor_of(a: SubotaiHash, b: SubotaiHash) -> SubotaiHash {
    choose|r: SubotaiHash| r.raw@ == xor_seq(a.raw@, b.raw@)
}

/// `xor_of` names the one hash with the XOR bytes.
proof fn lemma_xor_of(r: SubotaiHash, a: SubotaiHash, b: SubotaiHash)
    requires
        r.raw@ == xor_seq(a.raw@, b.raw@),
    ensures
        r == xor_of(a, b),
{
    let c = xor_of(a, b);
    assert(c.raw@ == xor_seq(a.raw@, b.raw@));
    assert(r.raw =~= c.raw);
}

impl<'a, 'b> core::ops::BitXor<&'b SubotaiHash> for &'a SubotaiHash {
    type Output = SubotaiHash;

    /// The XOR distance of two borrowed hashes; see `SubotaiHash::xor`.
    fn bitxor(self, rhs: &'b SubotaiHash) -> SubotaiHash {
        let r = self.xor(rhs);
        proof {
            lemma_xor_of(r, *self, *rhs);
        }
        r
    }
}

impl<'a, 'b> vstd::std_specs::ops::BitXorSpecImpl<&'b SubotaiHash> for &'a SubotaiHash {
    open spec fn obeys_bitxor_spec() -> bool {
        true
    }

    open spec fn bitxor_req(self, rhs: &'b SubotaiHash) -> bool {
        true
    }

    open spec fn bitxor_spec(self, rhs: &'b SubotaiHash) -> SubotaiHash {
        xor_of(*self, *rhs)
    }
}

impl core::ops::BitXor for SubotaiHash {
    type Output = SubotaiHash;

    /// The XOR distance of two owned hashes; see `SubotaiHash::xor`.
    fn bitxor(self, rhs: SubotaiHash) -> SubotaiHash {
        let r = self.xor(&rhs);
        proof {
            lemma_xor_of(r, self, rhs);
        }
        r
    }
}

impl vstd::std_specs::ops::BitXorSpecImpl for SubotaiHash {
    open spec fn obeys_bitxor_spec() -> bool {
        true
    }

    open spec fn bitxor_req(self, rhs: SubotaiHash) -> bool {
        true
    }

    open spec fn bitxor_spec(self, rhs: SubotaiHash) -> SubotaiHash {
        xor_of(self, rhs)
    }
}

} // verus!
