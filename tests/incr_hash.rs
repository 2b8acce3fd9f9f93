use rust_incrhash::{
    Blake2b512, CompRistBlakeIncHash, CompressedPoint, DecodingError, HashableFromBytes,
    RistBlakeIncHash,
};
use curve25519_dalek::ristretto::RistrettoPoint;
use std::mem::size_of;

fn h(s: &str) -> RistBlakeIncHash {
    RistBlakeIncHash::from_bytes(s.as_bytes())
}

#[test]
fn small_size() {
    let size = size_of::<CompRistBlakeIncHash>();
    println!("CompressedRistretto incremental hashes are {} bytes", size);
    assert_eq!(size, 32);
}

#[test]
fn compressed_ristretto_bvt() {
    let mut h1: CompRistBlakeIncHash = CompRistBlakeIncHash::default();
    let h2: CompRistBlakeIncHash = CompRistBlakeIncHash::default();
    assert_eq!(h1, h2);

    assert_eq!(
        CompRistBlakeIncHash::from_bytes(b"hello world".as_slice()),
        CompRistBlakeIncHash::from_bytes(b"hello world".as_slice())
    );

    let a = RistBlakeIncHash::from_bytes(b"hello world".as_slice());
    let b = RistBlakeIncHash::from_bytes(b"sup universe".as_slice());

    let c = a.add(&b);
    h1 = CompRistBlakeIncHash::default();
    h1.add_assign(&c).unwrap();
    assert_eq!(c.compress(), h1);

    h1.sub_assign(&c).unwrap();
    assert_eq!(h1, CompRistBlakeIncHash::default());
}

#[test]
fn ristretto_bvt() {
    let mut h1: RistBlakeIncHash = RistBlakeIncHash::default();
    let h2: RistBlakeIncHash = RistBlakeIncHash::default();
    assert_eq!(h1, h2);

    assert_eq!(
        RistBlakeIncHash::from_bytes(b"hello world".as_slice()),
        RistBlakeIncHash::from_bytes(b"hello world".as_slice())
    );

    let a = RistBlakeIncHash::from_bytes(b"hello world".as_slice());
    let b = RistBlakeIncHash::from_bytes(b"sup universe".as_slice());

    let mut c = a.add(&b);
    h1.add_assign(&a);
    h1.add_assign(&b);
    assert_eq!(c, h1);

    c.sub_assign(&a);
    c.sub_assign(&b);
    assert_eq!(c, RistBlakeIncHash::default());
}

#[test]
fn commutes() {
    let a = RistBlakeIncHash::from_bytes(b"hello world".as_slice());
    let b = RistBlakeIncHash::from_bytes(b"sup universe".as_slice());
    let c = RistBlakeIncHash::from_bytes(b"peace".as_slice());

    let h1 = a.add(&b).add(&c);
    let h2 = c.add(&b).add(&a);
    let h3 = c.add(&a).add(&b);

    assert_eq!(h1, h2);
    assert_eq!(h1, h3);
}

#[test]
fn identity_is_neutral() {
    let a = h("hello world");
    let e = RistBlakeIncHash::identity();
    assert_eq!(a.add(&e), a);
    assert_eq!(a.sub(&e), a);
    assert_eq!(e, RistBlakeIncHash::default());
}

#[test]
fn sub_undoes_add() {
    let a = h("hello world");
    let b = h("sup universe");
    assert_eq!(a.add(&b).sub(&b), a);
    assert_ne!(a.add(&b), a);
}

#[test]
fn add_commutes_on_two() {
    let a = h("hello world");
    let b = h("sup universe");
    assert_eq!(a.add(&b), b.add(&a));
}

#[test]
fn add_associates() {
    let a = h("hello world");
    let b = h("sup universe");
    let c = h("peace");
    assert_eq!(a.add(&b).add(&c), a.add(&b.add(&c)));
}

#[test]
fn all_six_orders_agree() {
    let es = [h("E1"), h("E2"), h("E3")];
    let orders = [[0, 1, 2], [0, 2, 1], [1, 0, 2], [1, 2, 0], [2, 0, 1], [2, 1, 0]];
    let fold = |o: &[usize; 3]| {
        let mut acc = RistBlakeIncHash::identity();
        for &i in o.iter() {
            acc.add_assign(&es[i]);
        }
        acc
    };
    let first = fold(&orders[0]);
    for o in orders.iter() {
        assert_eq!(fold(o), first);
    }
}

#[test]
fn hashing_is_deterministic() {
    assert_eq!(h("key1 = val1"), h("key1 = val1"));
    assert_eq!(
        CompRistBlakeIncHash::from_bytes(b"key1 = val1"),
        CompRistBlakeIncHash::from_bytes(b"key1 = val1")
    );
    assert_eq!(h("").to_hex(), h("").to_hex());
}

#[test]
fn distinct_inputs_hash_apart() {
    assert_ne!(h("hello world"), h("sup universe"));
    assert_ne!(h("hello world"), h("peace"));
    assert_ne!(h(""), h("\0"));
    assert_ne!(h(""), RistBlakeIncHash::identity());
    assert_ne!(
        CompRistBlakeIncHash::from_bytes(b"hello world"),
        CompRistBlakeIncHash::from_bytes(b"sup universe")
    );
}

#[test]
fn compress_then_decompress() {
    for s in ["hello world", "sup universe", ""] {
        let a = h(s);
        assert_eq!(a.compress().decompress().unwrap(), a);
    }
    let e = RistBlakeIncHash::identity();
    assert_eq!(e.compress().decompress().unwrap(), e);
    assert_eq!(e.compress(), CompRistBlakeIncHash::identity());
}

#[test]
fn compact_add_matches_expanded() {
    let c = CompRistBlakeIncHash::from_bytes(b"hello world");
    let d = h("sup universe");
    let expected = c.decompress().unwrap().add(&d).compress();
    let mut folded = c.clone();
    assert_eq!(folded.add_assign(&d), Ok(()));
    assert_eq!(folded, expected);

    let expected = c.decompress().unwrap().sub(&d).compress();
    let mut folded = c.clone();
    assert_eq!(folded.sub_assign(&d), Ok(()));
    assert_eq!(folded, expected);
}

#[test]
fn compact_from_bytes_is_compressed_expanded() {
    assert_eq!(CompRistBlakeIncHash::from_bytes(b"peace"), h("peace").compress());
}

#[test]
fn invalid_encoding_fails_to_decode() {
    let bad = CompRistBlakeIncHash::from_compressed_bytes([0xFF; 32]);
    assert_eq!(bad.decompress(), Err(DecodingError));
    assert_eq!(RistBlakeIncHash::from_compressed_slice(&[0xFF; 32]), Err(DecodingError));
    assert_eq!(RistBlakeIncHash::from_compressed_slice(&[0u8; 31]), Err(DecodingError));
    assert_eq!(RistBlakeIncHash::from_compressed_slice(&[0u8; 33]), Err(DecodingError));
}

#[test]
fn compact_update_on_invalid_bytes_leaves_it_unchanged() {
    let mut bad = CompRistBlakeIncHash::from_compressed_bytes([0xFF; 32]);
    let d = h("hello world");
    assert_eq!(bad.add_assign(&d), Err(DecodingError));
    assert_eq!(bad.to_bytes(), [0xFF; 32]);
    assert_eq!(bad.sub_assign(&d), Err(DecodingError));
    assert_eq!(bad.to_bytes(), [0xFF; 32]);
}

#[test]
fn slice_decoding_round_trips() {
    let a = h("sup universe");
    let bytes = a.compress().to_bytes();
    assert_eq!(RistBlakeIncHash::from_compressed_slice(&bytes), Ok(a.clone()));
    assert_eq!(RistBlakeIncHash::from_compressed_slice(&[0u8; 32]), Ok(RistBlakeIncHash::identity()));
}

#[test]
fn insert_then_remove_scenario() {
    let mut acc = RistBlakeIncHash::identity();
    let e1 = h("key1 = val1");
    let e2 = h("key2 = val1");
    acc.add_assign(&e1);
    acc.add_assign(&e2);
    acc.sub_assign(&e2);
    assert_eq!(acc, e1);
    acc.sub_assign(&e1);
    assert_eq!(acc, RistBlakeIncHash::identity());

    let mut compact = CompRistBlakeIncHash::identity();
    compact.add_assign(&e1).unwrap();
    compact.add_assign(&e2).unwrap();
    compact.sub_assign(&e2).unwrap();
    assert_eq!(compact, e1.compress());
    compact.sub_assign(&e1).unwrap();
    assert_eq!(compact, CompRistBlakeIncHash::identity());
}

#[test]
fn hex_rendering() {
    let zeros = "0".repeat(64);
    assert_eq!(RistBlakeIncHash::identity().to_hex(), zeros);
    assert_eq!(CompRistBlakeIncHash::identity().to_hex(), zeros);
    let c = CompRistBlakeIncHash::from_compressed_bytes([0xAB; 32]);
    assert_eq!(c.to_hex(), "ab".repeat(32));
    let mut bytes = [0u8; 32];
    bytes[0] = 0x0F;
    bytes[31] = 0xF0;
    let c = CompRistBlakeIncHash::from_compressed_bytes(bytes);
    let text = c.to_hex();
    assert_eq!(text.len(), 64);
    assert!(text.starts_with("0f00"));
    assert!(text.ends_with("00f0"));
    let a = h("hello world");
    assert_eq!(a.to_hex(), a.compress().to_hex());
    assert!(a.to_hex().chars().all(|ch| "0123456789abcdef".contains(ch)));
}

#[test]
fn identity_encodes_as_zero_bytes() {
    assert_eq!(CompRistBlakeIncHash::identity().to_bytes(), [0u8; 32]);
    assert_eq!(RistBlakeIncHash::identity().compress().to_bytes(), [0u8; 32]);
}

#[test]
fn hashable_from_bytes_agrees_with_digests() {
    let p = <RistrettoPoint as HashableFromBytes>::hash_from_bytes::<Blake2b512>(b"peace");
    let c = CompressedPoint::hash_from_bytes::<Blake2b512>(b"peace");
    assert_eq!(p.compress().to_bytes(), h("peace").compress().to_bytes());
    assert_eq!(c.bytes, h("peace").compress().to_bytes());
}
