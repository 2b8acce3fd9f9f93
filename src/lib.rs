//! An incremental set hash over the Ristretto255 group.
//!
//! Each byte-string element is hashed to a group element; the digest of a
//! collection is the group sum of its elements' hashes. Inserting an element
//! adds its hash and removing it subtracts it, so the digest does not depend on
//! the order of updates.
use vstd::prelude::*;

use core::marker::PhantomData;

use curve25519_dalek::ristretto::RistrettoPoint;

pub mod algorithm;
pub mod compressed_ristretto;
pub mod group;
pub mod hex_text;
pub mod laws;
pub mod ristretto;

pub use algorithm::{Blake2b512, HashAlgorithm};
pub use compressed_ristretto::{CompRistBlakeIncHash, CompressedPoint};
pub use ristretto::RistBlakeIncHash;

verus! {

/// A digest of a collection of byte strings: a group element `P` (a
/// `RistrettoPoint`, or its 32-byte `CompressedPoint` encoding), tagged by the
/// hash algorithm `H` that turned elements into group elements. Digests made
/// with different algorithms have different types and cannot be combined.
#[derive(Debug)]
pub struct IncrHash<P, H> {
    pub(crate) point: P,
    pub(crate) h: PhantomData<H>,
}

/// A group representation that byte strings can be hashed into.
pub trait HashableFromBytes: Sized {
    /// Whether `self` stands for the group element `k`.
    spec fn represents(&self, k: nat) -> bool;

    fn hash_from_bytes<H: HashAlgorithm>(bytes: &[u8]) -> (r: Self)
        ensures
            r.represents(H::hash_element(bytes@)),
    ;
}

/// Bytes that are not the canonical encoding of any group element.
#[derive(Debug, Clone, Copy, PartialEq, Eq)]
pub struct DecodingError;

impl HashableFromBytes for RistrettoPoint {
    open spec fn represents(&self, k: nat) -> bool {
        group::element_of(*self) == k
    }

    fn hash_from_bytes<H: HashAlgorithm>(bytes: &[u8]) -> (r: Self) {
        H::hash_to_point(bytes)
    }
}

} // verus!
