//! Fixed-width 160-bit identifiers for a Kademlia-style lookup overlay, with
//! the XOR-distance arithmetic, ordering and bit iteration that routing uses.
use vstd::prelude::*;

pub mod bits;
pub mod hash;
pub mod iter;
pub mod distance;
pub mod display;
pub mod laws;

pub use hash::{IntoOnes, IntoZeroes, Ones, SubotaiHash, Zeroes, HASH_SIZE, HASH_SIZE_BYTES};
