//! The digest algorithms that map byte strings into the group.
use vstd::prelude::*;

use curve25519_dalek::ristretto::RistrettoPoint;

use crate::group::{blake2b_hash_element, element_of, hash_blake2b};

verus! {

/// A 512-bit digest algorithm, used as a zero-size tag on digests, together
/// with the hash-to-group map built on it.
pub trait HashAlgorithm {
    /// The group element that `bytes` hash to.
    spec fn hash_element(bytes: Seq<u8>) -> nat;

    /// Hashes `bytes` to a point of the group; the same bytes always give the same element.
    fn hash_to_point(bytes: &[u8]) -> (r: RistrettoPoint)
        ensures
            element_of(r) == Self::hash_element(bytes@),
    ;
}

/// BLAKE2b with 512 bits of output.
#[derive(Debug, Clone, Copy, PartialEq, Eq)]
pub struct Blake2b512;

impl HashAlgorithm for Blake2b512 {
    open spec fn hash_element(bytes: Seq<u8>) -> nat {
        blake2b_hash_element(bytes)
    }

    fn hash_to_point(bytes: &[u8]) -> (r: RistrettoPoint) {
        hash_blake2b(bytes)
    }
}

} // verus!
