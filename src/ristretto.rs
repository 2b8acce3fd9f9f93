//! The expanded form of a digest: a Ristretto point, ready for arithmetic.
use vstd::prelude::*;

use core::marker::PhantomData;

use curve25519_dalek::ristretto::RistrettoPoint;

use crate::algorithm::{Blake2b512, HashAlgorithm};
use crate::compressed_ristretto::CompressedPoint;
use crate::group::{
    element_of, group_add, group_order, group_sub, point_add, point_compress, point_decompress,
    point_identity, point_sub, points_equal, ristretto_decoding, ristretto_encoding, ristretto_log,
};
use crate::hex_text::{hex_chars, hex_encode};
use crate::{DecodingError, IncrHash};

verus! {

/// Expanded digests over BLAKE2b-512.
pub type RistBlakeIncHash = IncrHash<RistrettoPoint, Blake2b512>;

impl<H> View for IncrHash<RistrettoPoint, H> {
    /// The group element of the digest, an integer below the group order.
    type V = nat;

    open(crate) spec fn view(&self) -> nat {
        element_of(self.point)
    }
}

impl<H: HashAlgorithm> IncrHash<RistrettoPoint, H> {
    /// The digest of the empty collection.
    pub fn identity() -> (r: Self)
        ensures
            r@ == 0,
    {
        IncrHash { point: point_identity(), h: PhantomData }
    }

    /// The digest of the collection that holds `bytes` alone.
    pub fn from_bytes(bytes: &[u8]) -> (r: Self)
        ensures
            r@ == H::hash_element(bytes@),
    {
        IncrHash { point: H::hash_to_point(bytes), h: PhantomData }
    }

    /// The digest of the union of two disjoint collections.
    pub fn add(&self, other: &Self) -> (r: Self)
        ensures
            r@ == group_add(self@, other@),
    {
        let point = point_add(&self.point, &other.point);
        proof {
            vstd::arithmetic::div_mod::lemma_add_mod_noop(
                ristretto_log(self.point) as int,
                ristretto_log(other.point) as int,
                group_order() as int,
            );
        }
        IncrHash { point, h: PhantomData }
    }

    /// The digest of `self`'s collection with `other`'s taken out.
    pub fn sub(&self, other: &Self) -> (r: Self)
        ensures
            r@ == group_sub(self@, other@),
    {
        let point = point_sub(&self.point, &other.point);
        proof {
            vstd::arithmetic::div_mod::lemma_sub_mod_noop(
                ristretto_log(self.point) as int,
                ristretto_log(other.point) as int,
                group_order() as int,
            );
        }
        IncrHash { point, h: PhantomData }
    }

    /// Adds `other` in place.
    pub fn add_assign(&mut self, other: &Self)
        ensures
            final(self)@ == group_add(old(self)@, other@),
    {
        *self = self.add(other);
    }

    /// Subtracts `other` in place.
    pub fn sub_assign(&mut self, other: &Self)
        ensures
            final(self)@ == group_sub(old(self)@, other@),
    {
        *self = self.sub(other);
    }

    /// The compact form of the same digest.
    pub fn compress(&self) -> (r: IncrHash<CompressedPoint, H>)
        ensures
            r@ == ristretto_encoding(self@),
            ristretto_decoding(r@) == Some(self@),
    {
        IncrHash { point: CompressedPoint { bytes: point_compress(&self.point) }, h: PhantomData }
    }

    /// The digest that a compact encoding read from the wire stands for, or
    /// `DecodingError` when the bytes are not 32 long or are not the
    /// canonical encoding of a group element.
    pub fn from_compressed_slice(bytes: &[u8]) -> (r: Result<Self, DecodingError>)
        ensures
            bytes@.len() == 32 && ristretto_decoding(bytes@) is Some <==> r is Ok,
            r is Ok ==> ristretto_decoding(bytes@) == Some(r->Ok_0@),
    {
        if bytes.len() != 32 {
            return Err(DecodingError);
        }
        let mut encoding: [u8; 32] = [0u8; 32];
        let mut i: usize = 0;
        while i < 32
            invariant
                i <= 32,
                bytes@.len() == 32,
                forall|j: int| 0 <= j < i ==> encoding@[j] == bytes@[j],
            decreases 32 - i,
        {
            encoding[i] = bytes[i];
            i = i + 1;
        }
        assert(encoding@ =~= bytes@);
        match point_decompress(&encoding) {
            Some(point) => Ok(IncrHash { point, h: PhantomData }),
            None => Err(DecodingError),
        }
    }

    /// The 64 lowercase hexadecimal digits of the digest's compact encoding.
    pub fn to_hex(&self) -> (r: String)
        ensures
            r@ == hex_chars(ristretto_encoding(self@)),
    {
        let bytes = point_compress(&self.point);
        hex_encode(bytes.as_slice())
    }
}

impl<H> PartialEq for IncrHash<RistrettoPoint, H> {
    fn eq(&self, other: &Self) -> (r: bool) {
        points_equal(&self.point, &other.point)
    }
}

impl<H> vstd::std_specs::cmp::PartialEqSpecImpl for IncrHash<RistrettoPoint, H> {
    open spec fn obeys_eq_spec() -> bool {
        true
    }

    open spec fn eq_spec(&self, other: &Self) -> bool {
        self@ == other@
    }
}

impl<H> Clone for IncrHash<RistrettoPoint, H> {
    fn clone(&self) -> (r: Self)
        ensures
            r == *self,
    {
        IncrHash { point: self.point, h: PhantomData }
    }
}

impl<H: HashAlgorithm> Default for IncrHash<RistrettoPoint, H> {
    fn default() -> (r: Self)
        ensures
            r@ == 0,
    {
        Self::identity()
    }
}

} // verus!
