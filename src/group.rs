//! The Ristretto255 group as this library sees it: every point stands for an
//! integer modulo the group order, and the curve library's operations act on
//! those integers.
use vstd::prelude::*;

use curve25519_dalek::ristretto::{CompressedRistretto, RistrettoPoint};
use curve25519_dalek::traits::Identity;

verus! {

/// The order of the Ristretto255 group, the prime 2^252 + 27742317777372353535851937790883648493.
pub open spec fn group_order() -> nat {
    7237005577332262213973186563042994240857116359379907606001950938285454250989nat
}

#[verifier::external_type_specification]
#[verifier::external_body]
pub struct ExRistrettoPoint(RistrettoPoint);

/// The discrete logarithm of a point with respect to the Ristretto basepoint.
/// Ristretto255 is cyclic of prime order, so `ristretto_log(p) % group_order()`
/// is the group element that `p` stands for, whatever projective coordinates
/// the point happens to carry.
pub uninterp spec fn ristretto_log(p: RistrettoPoint) -> nat;

/// The canonical 32-byte Ristretto encoding of a group element.
pub uninterp spec fn ristretto_encoding(k: nat) -> Seq<u8>;

/// The group element that a byte string encodes, if it is a canonical encoding.
pub uninterp spec fn ristretto_decoding(b: Seq<u8>) -> Option<nat>;

/// The group element that `RistrettoPoint::hash_from_bytes::<Blake2b512>` gives for a byte string.
pub uninterp spec fn blake2b_hash_element(b: Seq<u8>) -> nat;

/// The group element (an integer modulo the group order) that a point stands for.
pub open spec fn element_of(p: RistrettoPoint) -> nat {
    ristretto_log(p) % group_order()
}

/// Addition in the group, on elements.
pub open spec fn group_add(a: nat, b: nat) -> nat {
    (a + b) % group_order()
}

/// Subtraction in the group, on elements.
pub open spec fn group_sub(a: nat, b: nat) -> nat {
    ((a - b) % (group_order() as int)) as nat
}

/// Relies on `Identity::identity` for `RistrettoPoint`: the neutral element.
#[verifier::external_body]
pub(crate) fn point_identity() -> (r: RistrettoPoint)
    ensures
        element_of(r) == 0,
{
    RistrettoPoint::identity()
}

/// Relies on `&RistrettoPoint + &RistrettoPoint`: the group law.
#[verifier::external_body]
pub(crate) fn point_add(a: &RistrettoPoint, b: &RistrettoPoint) -> (r: RistrettoPoint)
    ensures
        element_of(r) == (ristretto_log(*a) + ristretto_log(*b)) % group_order(),
{
    a + b
}

/// Relies on `&RistrettoPoint - &RistrettoPoint`: adding the inverse of `b`.
#[verifier::external_body]
pub(crate) fn point_sub(a: &RistrettoPoint, b: &RistrettoPoint) -> (r: RistrettoPoint)
    ensures
        element_of(r) == ((ristretto_log(*a) - ristretto_log(*b)) % (group_order() as int)) as nat,
{
    a - b
}

/// Relies on `PartialEq` for `RistrettoPoint`: equality of group elements,
/// not of the projective coordinates that represent them.
#[verifier::external_body]
pub(crate) fn points_equal(a: &RistrettoPoint, b: &RistrettoPoint) -> (r: bool)
    ensures
        r == (ristretto_log(*a) % group_order() == ristretto_log(*b) % group_order()),
{
    a == b
}

/// Relies on `RistrettoPoint::compress`: the canonical encoding of the point,
/// which decodes back to the same element.
#[verifier::external_body]
pub(crate) fn point_compress(p: &RistrettoPoint) -> (r: [u8; 32])
    ensures
        r@ == ristretto_encoding(element_of(*p)),
        ristretto_decoding(r@) == Some(element_of(*p)),
{
    p.compress().to_bytes()
}

/// Relies on `CompressedRistretto::decompress`: `Some` exactly when the bytes
/// are the canonical encoding of a point, and then that point.
#[verifier::external_body]
pub(crate) fn point_decompress(b: &[u8; 32]) -> (r: Option<RistrettoPoint>)
    ensures
        r is Some <==> ristretto_decoding(b@) is Some,
        r is Some ==> ristretto_decoding(b@) == Some(element_of(r->0)),
{
    CompressedRistretto(*b).decompress()
}

/// Relies on `Identity::identity` for `CompressedRistretto`: thirty-two zero
/// bytes, the canonical encoding of the neutral element.
#[verifier::external_body]
pub(crate) fn compressed_identity() -> (r: [u8; 32])
    ensures
        r@ == ristretto_encoding(0),
        ristretto_decoding(r@) == Some(0nat),
{
    CompressedRistretto::identity().to_bytes()
}

/// Relies on `RistrettoPoint::hash_from_bytes` with BLAKE2b-512: a point that
/// depends on the bytes alone.
#[verifier::external_body]
pub(crate) fn hash_blake2b(bytes: &[u8]) -> (r: RistrettoPoint)
    ensures
        element_of(r) == blake2b_hash_element(bytes@),
{
    RistrettoPoint::hash_from_bytes::<blake2::Blake2b512>(bytes)
}

} // verus!
