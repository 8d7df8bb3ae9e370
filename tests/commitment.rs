use keyless_taproot::address::Network;
use keyless_taproot::nums::derive_point;
use keyless_taproot::script::locking_script;
use keyless_taproot::taproot::{build_commitment, verify_script_path, CommitError, TaprootCommitment};

fn commitment() -> TaprootCommitment {
    let point = derive_point(b"hello world").unwrap();
    build_commitment(&point, &locking_script()).unwrap()
}

#[test]
fn leaf_script_bytes() {
    assert_eq!(locking_script(), vec![0x51, 0x93, 0x53, 0x87]);
    assert_eq!(locking_script(), locking_script());
}

#[test]
fn commitment_fields() {
    let c = commitment();
    assert_eq!(
        hex::encode(c.output_key),
        "b413edf5f3a6a8b438334b254b8307e3512b4b3bb7dc90b06ab623d843450213"
    );
    assert!(!c.output_key_odd);
    assert_eq!(
        hex::encode(c.merkle_root),
        "d382ff5c7f41a304a6273c0944b8b2cb3db76e0fdf9a2f3eda27144303ab188c"
    );
    assert_eq!(c.leaf_script, locking_script());
}

#[test]
fn control_block_of_committed_leaf() {
    let c = commitment();
    let block = c.control_block_for(&locking_script()).unwrap();
    assert_eq!(
        hex::encode(&block),
        "c0b94d27b9934d3e08a52e52d7da7dabfac484efe37a5380ee9088f7ace2efcde9"
    );
}

#[test]
fn control_block_of_unknown_leaf_fails() {
    let c = commitment();
    assert_eq!(c.control_block_for(&[0x51]), Err(CommitError::UnknownLeaf));
    assert_eq!(c.control_block_for(&[]), Err(CommitError::UnknownLeaf));
}

#[test]
fn control_block_verifies_against_output_key() {
    let c = commitment();
    let script = locking_script();
    let block = c.control_block_for(&script).unwrap();
    assert!(verify_script_path(&block, &c.output_key, &script));
    assert!(!verify_script_path(&block, &c.output_key, &[0x51, 0x93, 0x52, 0x87]));
    assert!(!verify_script_path(&block, &c.internal_key.to_bytes(), &script));
    assert!(!verify_script_path(&block[..32], &c.output_key, &script));
}

#[test]
fn control_block_round_trip_for_other_seeds() {
    for seed in [&b"a"[..], b"nums", b"keyless"] {
        let point = derive_point(seed).unwrap();
        let script = locking_script();
        let c = build_commitment(&point, &script).unwrap();
        let block = c.control_block_for(&script).unwrap();
        assert!(verify_script_path(&block, &c.output_key, &script));
        assert_eq!(block[0] & 0xfe, 0xc0);
        assert_eq!(block[0] & 1 == 1, c.output_key_odd);
        assert_eq!(&block[1..], &point.to_bytes()[..]);
    }
}

#[test]
fn funding_address_per_network() {
    let c = commitment();
    assert_eq!(
        c.address(Network::Regtest),
        "bcrt1pksf7ma0n565tgwpnfvj5hqc8udgjkjemklwfpvr2kc3ass69qgfsx0nsp7"
    );
    assert_eq!(
        c.address(Network::Bitcoin),
        "bc1pksf7ma0n565tgwpnfvj5hqc8udgjkjemklwfpvr2kc3ass69qgfsu70ewt"
    );
}

#[test]
fn commitment_is_built_the_same_twice() {
    let point = derive_point(b"nums").unwrap();
    let a = build_commitment(&point, &locking_script()).unwrap();
    let b = build_commitment(&point, &locking_script()).unwrap();
    assert_eq!(a, b);
    assert_ne!(a.output_key, point.to_bytes());
}
