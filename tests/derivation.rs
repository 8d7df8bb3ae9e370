use keyless_taproot::nums::{derive_point, NumsPoint};
use sha2::Digest;

fn hex32(s: &str) -> [u8; 32] {
    let v = hex::decode(s).unwrap();
    let mut out = [0u8; 32];
    out.copy_from_slice(&v);
    out
}

fn point_of(seed: &[u8]) -> NumsPoint {
    derive_point(seed).expect("a valid point within the round limit")
}

#[test]
fn hello_world_point_is_reproducible() {
    let p = point_of(b"hello world");
    assert_eq!(
        p.to_bytes(),
        hex32("b94d27b9934d3e08a52e52d7da7dabfac484efe37a5380ee9088f7ace2efcde9")
    );
    assert_eq!(
        p.to_hex(),
        "b94d27b9934d3e08a52e52d7da7dabfac484efe37a5380ee9088f7ace2efcde9"
    );
}

#[test]
fn hello_world_first_digest_is_taken_when_valid() {
    let digest: [u8; 32] = sha2::Sha256::digest(b"hello world").into();
    assert!(secp256k1::XOnlyPublicKey::from_slice(&digest).is_ok());
    assert_eq!(point_of(b"hello world").to_bytes(), digest);
}

#[test]
fn seed_needing_two_rehashes() {
    let d0: [u8; 32] = sha2::Sha256::digest(b"a").into();
    let d1: [u8; 32] = sha2::Sha256::digest(d0).into();
    let d2: [u8; 32] = sha2::Sha256::digest(d1).into();
    assert!(secp256k1::XOnlyPublicKey::from_slice(&d0).is_err());
    assert!(secp256k1::XOnlyPublicKey::from_slice(&d1).is_err());
    let p = point_of(b"a");
    assert_eq!(p.to_bytes(), d2);
    assert_eq!(
        p.to_bytes(),
        hex32("eb48bdfa15fc43dbea3aabb1ee847b6e69232c0f0d9705935e50d60cce77877f")
    );
}

#[test]
fn seed_needing_four_rehashes() {
    assert_eq!(
        point_of(b"nums").to_bytes(),
        hex32("ec71348354b2e7df746829071034e9d3afad7572e90f45dc9f7ec49deb8f7ac7")
    );
}

#[test]
fn empty_seed_derives_a_point() {
    assert_eq!(
        point_of(b"").to_bytes(),
        hex32("e3b0c44298fc1c149afbf4c8996fb92427ae41e4649b934ca495991b7852b855")
    );
}

#[test]
fn derivation_is_deterministic() {
    for seed in [&b"hello world"[..], b"a", b"nums", b"", b"keyless", b"hello"] {
        assert_eq!(derive_point(seed), derive_point(seed));
    }
}

#[test]
fn derived_points_are_valid_keys() {
    for i in 0u32..64 {
        let seed = format!("seed {i}");
        let p = point_of(seed.as_bytes());
        assert!(secp256k1::XOnlyPublicKey::from_slice(&p.to_bytes()).is_ok());
        assert_ne!(p.to_bytes().to_vec(), seed.as_bytes().to_vec());
    }
}
