//! The algebra of digests: the laws that make the hash incremental and
//! independent of the order of updates.
use vstd::prelude::*;

use curve25519_dalek::ristretto::RistrettoPoint;

use vstd::arithmetic::div_mod::{
    lemma_add_mod_noop_right, lemma_mod_bound, lemma_mod_twice, lemma_small_mod,
    lemma_sub_mod_noop,
};

use crate::algorithm::HashAlgorithm;
use crate::compressed_ristretto::CompressedPoint;
use crate::group::{group_add, group_order, group_sub, ristretto_decoding, ristretto_encoding};
use crate::IncrHash;

verus! {

/// The view of an expanded digest is always below the group order.
pub proof fn lemma_view_below_order<H>(a: IncrHash<RistrettoPoint, H>)
    ensures
        a@ < group_order(),
{
    lemma_mod_bound(crate::group::ristretto_log(a.point) as int, group_order() as int);
}

/// Adding or subtracting the digest of the empty collection changes nothing.
pub proof fn lemma_identity<H>(a: IncrHash<RistrettoPoint, H>)
    ensures
        group_add(a@, 0) == a@,
        group_sub(a@, 0) == a@,
{
    lemma_view_below_order(a);
    lemma_small_mod(a@, group_order());
}

/// Subtracting what was added gives back the digest one started from.
pub proof fn lemma_sub_undoes_add<H>(a: IncrHash<RistrettoPoint, H>, b: IncrHash<RistrettoPoint, H>)
    ensures
        group_sub(group_add(a@, b@), b@) == a@,
{
    let m = group_order() as int;
    lemma_view_below_order(a);
    mod_sub_noop_left((a@ + b@) as int, b@ as int, m);
    assert((a@ + b@) - b@ == a@);
    lemma_small_mod(a@, group_order());
}

/// The order of the two operands of an addition does not matter.
pub proof fn lemma_add_commutes<H>(a: IncrHash<RistrettoPoint, H>, b: IncrHash<RistrettoPoint, H>)
    ensures
        group_add(a@, b@) == group_add(b@, a@),
{
    assert(a@ + b@ == b@ + a@);
}

/// Sums of digests can be grouped in either way.
pub proof fn lemma_add_associates<H>(
    a: IncrHash<RistrettoPoint, H>,
    b: IncrHash<RistrettoPoint, H>,
    c: IncrHash<RistrettoPoint, H>,
)
    ensures
        group_add(group_add(a@, b@), c@) == group_add(a@, group_add(b@, c@)),
{
    mod_add_associates(a@ as int, b@ as int, c@ as int, group_order() as int);
}

proof fn mod_add_noop_left(x: int, y: int, m: int)
    requires
        0 < m,
    ensures
        ((x % m) + y) % m == (x + y) % m,
{
    lemma_add_mod_noop_right(y, x, m);
    assert((x % m) + y == y + (x % m));
    assert(x + y == y + x);
}

proof fn mod_sub_noop_left(x: int, y: int, m: int)
    requires
        0 < m,
    ensures
        ((x % m) - y) % m == (x - y) % m,
{
    lemma_sub_mod_noop(x, y, m);
    lemma_sub_mod_noop(x % m, y, m);
    lemma_mod_twice(x, m);
}

proof fn mod_add_associates(x: int, y: int, z: int, m: int)
    requires
        0 < m,
    ensures
        ((x + y) % m + z) % m == (x + (y + z) % m) % m,
{
    mod_add_noop_left(x + y, z, m);
    lemma_add_mod_noop_right(x, y + z, m);
    assert((x + y) + z == x + (y + z));
}

/// The digest of a sequence of elements, folded by addition from the
/// digest of the empty collection.
pub open spec fn digest_of<H: HashAlgorithm>(elems: Seq<Seq<u8>>) -> nat
    decreases elems.len(),
{
    if elems.len() == 0 {
        0
    } else {
        group_add(digest_of::<H>(elems.drop_last()), H::hash_element(elems.last()))
    }
}

/// The integer sum of the elements' hashes, before reduction modulo the group order.
pub open spec fn hash_sum<H: HashAlgorithm>(elems: Seq<Seq<u8>>) -> int
    decreases elems.len(),
{
    if elems.len() == 0 {
        0
    } else {
        hash_sum::<H>(elems.drop_last()) + H::hash_element(elems.last())
    }
}

proof fn digest_is_reduced_sum<H: HashAlgorithm>(elems: Seq<Seq<u8>>)
    ensures
        digest_of::<H>(elems) == hash_sum::<H>(elems) % (group_order() as int),
    decreases elems.len(),
{
    if elems.len() > 0 {
        let rest = elems.drop_last();
        digest_is_reduced_sum::<H>(rest);
        mod_add_noop_left(
            hash_sum::<H>(rest),
            H::hash_element(elems.last()) as int,
            group_order() as int,
        );
    }
}

proof fn hash_sum_remove<H: HashAlgorithm>(elems: Seq<Seq<u8>>, i: int)
    requires
        0 <= i < elems.len(),
    ensures
        hash_sum::<H>(elems) == hash_sum::<H>(elems.remove(i)) + H::hash_element(elems[i]),
    decreases elems.len(),
{
    let rest = elems.drop_last();
    if i == elems.len() - 1 {
        assert(elems.remove(i) =~= rest);
    } else {
        hash_sum_remove::<H>(rest, i);
        assert(elems.remove(i).drop_last() =~= rest.remove(i));
        assert(elems.remove(i).last() == elems.last());
    }
}

proof fn hash_sum_permutation<H: HashAlgorithm>(s: Seq<Seq<u8>>, t: Seq<Seq<u8>>)
    requires
        s.to_multiset() == t.to_multiset(),
    ensures
        hash_sum::<H>(s) == hash_sum::<H>(t),
    decreases s.len(),
{
    broadcast use vstd::seq_lib::group_to_multiset_ensures;

    if s.len() == 0 {
        assert(s.to_multiset().len() == s.len());
        assert(t.to_multiset().len() == t.len());
    } else {
        let e = s.last();
        let rest = s.drop_last();
        assert(rest.push(e) =~= s);
        assert(s.to_multiset() =~= rest.to_multiset().insert(e));
        assert(t.to_multiset().count(e) > 0);
        assert(t.contains(e));
        let j = choose|j: int| 0 <= j < t.len() && t[j] == e;
        assert(t.remove(j).to_multiset() =~= t.to_multiset().remove(e));
        assert(rest.to_multiset() =~= rest.to_multiset().insert(e).remove(e));
        hash_sum_permutation::<H>(rest, t.remove(j));
        hash_sum_remove::<H>(t, j);
    }
}

/// Folding the same elements, each as many times, in any order gives the same digest.
pub proof fn lemma_order_independent<H: HashAlgorithm>(s: Seq<Seq<u8>>, t: Seq<Seq<u8>>)
    requires
        s.to_multiset() == t.to_multiset(),
    ensures
        digest_of::<H>(s) == digest_of::<H>(t),
{
    digest_is_reduced_sum::<H>(s);
    digest_is_reduced_sum::<H>(t);
    hash_sum_permutation::<H>(s, t);
}

/// Hashing the same bytes twice, with the same algorithm, gives equal
/// digests in either form.
pub proof fn lemma_hash_deterministic<H: HashAlgorithm>(
    x: Seq<u8>,
    a: IncrHash<RistrettoPoint, H>,
    b: IncrHash<RistrettoPoint, H>,
    c: IncrHash<CompressedPoint, H>,
    d: IncrHash<CompressedPoint, H>,
)
    requires
        a@ == H::hash_element(x),
        b@ == H::hash_element(x),
        c@ == ristretto_encoding(H::hash_element(x)),
        d@ == ristretto_encoding(H::hash_element(x)),
    ensures
        a@ == b@,
        c@ == d@,
{
}

/// Decompressing the compact form of a digest gives back that digest: `c`
/// is what `a.compress()` returns and `b` what `c.decompress()` then holds.
pub proof fn lemma_round_trip<H>(
    a: IncrHash<RistrettoPoint, H>,
    c: IncrHash<CompressedPoint, H>,
    b: IncrHash<RistrettoPoint, H>,
)
    requires
        c@ == ristretto_encoding(a@),
        ristretto_decoding(c@) == Some(a@),
        ristretto_decoding(c@) == Some(b@),
    ensures
        b@ == a@,
{
}

/// Folding an expanded delta `d` into a compact digest `c` in place gives
/// the same bytes as decompressing `c`, adding `d` and compressing the sum;
/// likewise for taking `d` out. `e` is the decompressed digest, `sum` and
/// `difference` the compressed results of the expanded route, and `added`
/// and `taken` what `c` holds after `add_assign` and `sub_assign`.
pub proof fn lemma_compact_update_matches_expanded<H>(
    c: IncrHash<CompressedPoint, H>,
    d: IncrHash<RistrettoPoint, H>,
    e: IncrHash<RistrettoPoint, H>,
    sum: IncrHash<CompressedPoint, H>,
    difference: IncrHash<CompressedPoint, H>,
    added: IncrHash<CompressedPoint, H>,
    taken: IncrHash<CompressedPoint, H>,
)
    requires
        ristretto_decoding(c@) == Some(e@),
        sum@ == ristretto_encoding(group_add(e@, d@)),
        difference@ == ristretto_encoding(group_sub(e@, d@)),
        added@ == ristretto_encoding(group_add(ristretto_decoding(c@)->0, d@)),
        taken@ == ristretto_encoding(group_sub(ristretto_decoding(c@)->0, d@)),
    ensures
        added@ == sum@,
        taken@ == difference@,
{
}

} // verus!
