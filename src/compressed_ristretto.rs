//! The compact form of a digest: the 32-byte canonical encoding of its group element.
use vstd::prelude::*;

use core::marker::PhantomData;

use curve25519_dalek::ristretto::RistrettoPoint;

use crate::algorithm::{Blake2b512, HashAlgorithm};
use crate::group::{
    compressed_identity, group_add, group_sub, point_compress, point_decompress,
    ristretto_decoding, ristretto_encoding,
};
use crate::hex_text::{hex_chars, hex_encode};
use crate::{DecodingError, HashableFromBytes, IncrHash};

verus! {

/// The canonical 32-byte encoding of a Ristretto point. Any 32 bytes can be
/// held here; only canonical encodings decode to a point.
#[derive(Debug, Clone, Copy)]
pub struct CompressedPoint {
    pub bytes: [u8; 32],
}

/// Compact digests over BLAKE2b-512.
pub type CompRistBlakeIncHash = IncrHash<CompressedPoint, Blake2b512>;

impl HashableFromBytes for CompressedPoint {
    open spec fn represents(&self, k: nat) -> bool {
        self.bytes@ == ristretto_encoding(k) && ristretto_decoding(self.bytes@) == Some(k)
    }

    fn hash_from_bytes<H: HashAlgorithm>(bytes: &[u8]) -> (r: Self) {
        let point = H::hash_to_point(bytes);
        CompressedPoint { bytes: point_compress(&point) }
    }
}

impl<H> View for IncrHash<CompressedPoint, H> {
    /// The 32 stored bytes.
    type V = Seq<u8>;

    open(crate) spec fn view(&self) -> Seq<u8> {
        self.point.bytes@
    }
}

impl<H: HashAlgorithm> IncrHash<CompressedPoint, H> {
    /// The digest of the empty collection.
    pub fn identity() -> (r: Self)
        ensures
            r@ == ristretto_encoding(0),
            ristretto_decoding(r@) == Some(0nat),
    {
        IncrHash { point: CompressedPoint { bytes: compressed_identity() }, h: PhantomData }
    }

    /// The digest of the collection that holds `bytes` alone.
    pub fn from_bytes(bytes: &[u8]) -> (r: Self)
        ensures
            r@ == ristretto_encoding(H::hash_element(bytes@)),
            ristretto_decoding(r@) == Some(H::hash_element(bytes@)),
    {
        IncrHash { point: CompressedPoint::hash_from_bytes::<H>(bytes), h: PhantomData }
    }

    /// A digest that holds the given bytes as they are, whether or not they
    /// encode a group element (as when read back from storage).
    pub fn from_compressed_bytes(bytes: [u8; 32]) -> (r: Self)
        ensures
            r@ == bytes@,
    {
        IncrHash { point: CompressedPoint { bytes }, h: PhantomData }
    }

    /// The 32 stored bytes.
    pub fn to_bytes(&self) -> (r: [u8; 32])
        ensures
            r@ == self@,
    {
        self.point.bytes
    }

    /// The expanded form of the same digest, or `DecodingError` when the
    /// stored bytes are not the canonical encoding of a group element.
    pub fn decompress(&self) -> (r: Result<IncrHash<RistrettoPoint, H>, DecodingError>)
        ensures
            match ristretto_decoding(self@) {
                Some(k) => r is Ok && r->Ok_0@ == k,
                None => r is Err,
            },
    {
        match point_decompress(&self.point.bytes) {
            Some(point) => Ok(IncrHash { point, h: PhantomData }),
            None => Err(DecodingError),
        }
    }

    /// Folds an expanded delta into the digest by decompressing, adding and
    /// compressing again. On `DecodingError` the digest is left unchanged.
    pub fn add_assign(&mut self, delta: &IncrHash<RistrettoPoint, H>) -> (r: Result<(), DecodingError>)
        ensures
            match ristretto_decoding(old(self)@) {
                Some(k) => {
                    &&& r is Ok
                    &&& final(self)@ == ristretto_encoding(group_add(k, delta@))
                    &&& ristretto_decoding(final(self)@) == Some(group_add(k, delta@))
                },
                None => r is Err && final(self)@ == old(self)@,
            },
    {
        let expanded = self.decompress()?;
        let sum = expanded.add(delta);
        *self = sum.compress();
        Ok(())
    }

    /// Takes an expanded delta out of the digest by decompressing,
    /// subtracting and compressing again. On `DecodingError` the digest is
    /// left unchanged.
    pub fn sub_assign(&mut self, delta: &IncrHash<RistrettoPoint, H>) -> (r: Result<(), DecodingError>)
        ensures
            match ristretto_decoding(old(self)@) {
                Some(k) => {
                    &&& r is Ok
                    &&& final(self)@ == ristretto_encoding(group_sub(k, delta@))
                    &&& ristretto_decoding(final(self)@) == Some(group_sub(k, delta@))
                },
                None => r is Err && final(self)@ == old(self)@,
            },
    {
        let expanded = self.decompress()?;
        let difference = expanded.sub(delta);
        *self = difference.compress();
        Ok(())
    }

    /// The 64 lowercase hexadecimal digits of the stored bytes.
    pub fn to_hex(&self) -> (r: String)
        ensures
            r@ == hex_chars(self@),
    {
        hex_encode(self.point.bytes.as_slice())
    }
}

impl<H> PartialEq for IncrHash<CompressedPoint, H> {
    fn eq(&self, other: &Self) -> (r: bool) {
        let mut i: usize = 0;
        while i < 32
            invariant
                i <= 32,
                forall|j: int| 0 <= j < i ==> self.point.bytes@[j] == other.point.bytes@[j],
            decreases 32 - i,
        {
            if self.point.bytes[i] != other.point.bytes[i] {
                return false;
            }
            i = i + 1;
        }
        proof {
            assert(self.point.bytes@ =~= other.point.bytes@);
        }
        true
    }
}

impl<H> vstd::std_specs::cmp::PartialEqSpecImpl for IncrHash<CompressedPoint, H> {
    open spec fn obeys_eq_spec() -> bool {
        true
    }

    open spec fn eq_spec(&self, other: &Self) -> bool {
        self@ == other@
    }
}

impl<H: HashAlgorithm> Default for IncrHash<CompressedPoint, H> {
    fn default() -> (r: Self)
        ensures
            r@ == ristretto_encoding(0),
    {
        Self::identity()
    }
}

impl<H> Clone for IncrHash<CompressedPoint, H> {
    fn clone(&self) -> (r: Self)
        ensures
            r == *self,
    {
        IncrHash { point: self.point, h: PhantomData }
    }
}

} // verus!
