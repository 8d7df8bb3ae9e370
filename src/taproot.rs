use crate::address::Network;
use crate::encoding::{bytes_equal, copy_bytes};
use crate::nums::{is_x_only_key, NumsPoint};
use vstd::prelude::*;

verus! {

/// The leaf version of tapscript leaves.
pub const TAPSCRIPT_LEAF_VERSION: u8 = 0xc0;

/// The output key of a tree with one leaf, tweaked from the internal key.
pub uninterp spec fn tap_output_key(internal_key: Seq<u8>, script: Seq<u8>) -> Seq<u8>;

/// Whether that output key has an odd y coordinate.
pub uninterp spec fn tap_output_key_odd(internal_key: Seq<u8>, script: Seq<u8>) -> bool;

/// The merkle root of a tree whose one leaf is `script` at the tapscript
/// version.
pub uninterp spec fn tap_leaf_root(script: Seq<u8>) -> Seq<u8>;

/// The text of the pay-to-taproot address that pays to an output key on a
/// network.
pub uninterp spec fn p2tr_address_text(output_key: Seq<u8>, network: Network) -> Seq<char>;

/// Whether a serialized control block proves that `script` is committed in
/// the output key.
pub uninterp spec fn commitment_verifies(
    control_block: Seq<u8>,
    output_key: Seq<u8>,
    script: Seq<u8>,
) -> bool;

/// The control block of a leaf at the root of its tree: the leaf version with
/// the output key's parity in its low bit, then the internal key, then an
/// empty merkle path.
pub open spec fn control_block_bytes(odd: bool, internal_key: Seq<u8>) -> Seq<u8> {
    seq![if odd { TAPSCRIPT_LEAF_VERSION | 1 } else { TAPSCRIPT_LEAF_VERSION }] + internal_key
}

/// Relies on `TaprootBuilder::add_leaf` at depth 0 and
/// `TaprootBuilder::finalize`, and on the resulting spend info's
/// `output_key`, `output_key_parity`, `merkle_root` and
/// `control_block(..).serialize()`. A leaf at depth 0 on a new builder is
/// always accepted and finalizes, so only a key that `XOnlyPublicKey::from_slice`
/// refuses gives nothing. For a single leaf the control block holds the
/// tapscript version with the parity bit, the internal key, and no path; the
/// output key comes from `tap_tweak`, which adds the very tweak that
/// `verify_taproot_commitment` recomputes from that block, and as the
/// serialization of a valid key it parses back.
#[verifier::external_body]
fn finalize_single_leaf(internal_key: &[u8; 32], script: &[u8]) -> (r: Option<([u8; 32], bool, [u8; 32], Vec<u8>)>)
    ensures
        r is Some <==> is_x_only_key(internal_key@),
        r matches Some(p) ==> p.0@ == tap_output_key(internal_key@, script@),
        r matches Some(p) ==> is_x_only_key(p.0@),
        r matches Some(p) ==> p.1 == tap_output_key_odd(internal_key@, script@),
        r matches Some(p) ==> p.2@ == tap_leaf_root(script@),
        r matches Some(p) ==> p.3@ == control_block_bytes(p.1, internal_key@),
        r matches Some(p) ==> commitment_verifies(p.3@, p.0@, script@),
{
    let key = secp256k1::XOnlyPublicKey::from_slice(internal_key).ok()?;
    let leaf = bitcoin::ScriptBuf::from_bytes(script.to_vec());
    let builder = bitcoin::taproot::TaprootBuilder::new().add_leaf(0, leaf.clone()).ok()?;
    let info = builder.finalize(secp256k1::SECP256K1, key).ok()?;
    let block = info.control_block(&(leaf, bitcoin::taproot::LeafVersion::TapScript))?;
    let odd = info.output_key_parity() == secp256k1::Parity::Odd;
    let root = bitcoin::hashes::Hash::to_byte_array(info.merkle_root()?);
    Some((info.output_key().to_inner().serialize(), odd, root, block.serialize()))
}

/// Relies on `bitcoin::Address::p2tr_tweaked`, given the output key as it
/// stands, and on the address's `Display`; the key is accepted by
/// `XOnlyPublicKey::from_slice` exactly when it is valid.
#[verifier::external_body]
fn p2tr_address(output_key: &[u8; 32], network: Network) -> (r: Option<String>)
    ensures
        r is Some <==> is_x_only_key(output_key@),
        r matches Some(s) ==> s@ == p2tr_address_text(output_key@, network),
{
    let net = match network {
        Network::Bitcoin => bitcoin::Network::Bitcoin,
        Network::Testnet => bitcoin::Network::Testnet,
        Network::Testnet4 => bitcoin::Network::Testnet4,
        Network::Signet => bitcoin::Network::Signet,
        Network::Regtest => bitcoin::Network::Regtest,
    };
    let key = secp256k1::XOnlyPublicKey::from_slice(output_key).ok()?;
    let tweaked = bitcoin::key::TweakedPublicKey::dangerous_assume_tweaked(key);
    Some(bitcoin::Address::p2tr_tweaked(tweaked, net).to_string())
}

/// Relies on `ControlBlock::decode` and
/// `ControlBlock::verify_taproot_commitment`; bytes that do not decode, or an
/// output key that is not valid, verify nothing.
#[verifier::external_body]
fn control_block_verifies(control_block: &[u8], output_key: &[u8; 32], script: &[u8]) -> (r: bool)
    ensures
        r == commitment_verifies(control_block@, output_key@, script@),
{
    match (
        bitcoin::taproot::ControlBlock::decode(control_block),
        secp256k1::XOnlyPublicKey::from_slice(output_key),
    ) {
        (Ok(block), Ok(key)) => {
            block.verify_taproot_commitment(secp256k1::SECP256K1, key, bitcoin::Script::from_bytes(script))
        },
        _ => false,
    }
}

/// Why a commitment could not be built or used.
#[derive(Debug, Clone, Copy, PartialEq, Eq, Structural)]
pub enum CommitError {
    /// The tree could not be built or finalized.
    TreeConstruction,
    /// A control block was asked for a leaf the tree does not hold.
    UnknownLeaf,
}

/// A Taproot output committing to one script leaf under an internal point.
#[derive(Debug, Clone, PartialEq, Eq)]
pub struct TaprootCommitment {
    pub internal_key: NumsPoint,
    pub leaf_script: Vec<u8>,
    pub output_key: [u8; 32],
    pub output_key_odd: bool,
    pub merkle_root: [u8; 32],
    pub control_block: Vec<u8>,
}

impl TaprootCommitment {
    /// Every derived field is what the tree over `leaf_script` and
    /// `internal_key` gives.
    pub open spec fn wf(&self) -> bool {
        &&& self.internal_key.wf()
        &&& self.output_key@ == tap_output_key(self.internal_key@, self.leaf_script@)
        &&& self.output_key_odd == tap_output_key_odd(self.internal_key@, self.leaf_script@)
        &&& self.merkle_root@ == tap_leaf_root(self.leaf_script@)
        &&& self.control_block@ == control_block_bytes(self.output_key_odd, self.internal_key@)
        &&& commitment_verifies(self.control_block@, self.output_key@, self.leaf_script@)
        &&& is_x_only_key(self.output_key@)
    }

    /// The control block proving that `script` is the committed leaf; fails
    /// for any other script.
    pub fn control_block_for(&self, script: &[u8]) -> (r: Result<Vec<u8>, CommitError>)
        requires
            self.wf(),
        ensures
            r is Err <==> script@ != self.leaf_script@,
            r matches Err(e) ==> e == CommitError::UnknownLeaf,
            r matches Ok(b) ==> b@ == control_block_bytes(self.output_key_odd, self.internal_key@),
    {
        if bytes_equal(script, self.leaf_script.as_slice()) {
            Ok(copy_bytes(self.control_block.as_slice()))
        } else {
            Err(CommitError::UnknownLeaf)
        }
    }

    /// The pay-to-taproot address that pays to the output key on `network`.
    pub fn address(&self, network: Network) -> (r: String)
        requires
            self.wf(),
        ensures
            r@ == p2tr_address_text(self.output_key@, network),
    {
        match p2tr_address(&self.output_key, network) {
            Some(s) => s,
            None => {
                assert(false);
                String::new()
            },
        }
    }
}

/// Commits `leaf_script` as the single leaf of a tree under `point`.
pub fn build_commitment(point: &NumsPoint, leaf_script: &[u8]) -> (r: Result<
    TaprootCommitment,
    CommitError,
>)
    requires
        point.wf(),
    ensures
        r is Ok,
        r matches Ok(c) ==> c.wf() && c.internal_key@ == point@ && c.leaf_script@ == leaf_script@,
        r matches Ok(c) ==> c.output_key@ == tap_output_key(point@, leaf_script@),
        r matches Ok(c) ==> c.output_key_odd == tap_output_key_odd(point@, leaf_script@),
        r matches Ok(c) ==> c.merkle_root@ == tap_leaf_root(leaf_script@),
        r matches Ok(c) ==> c.control_block@ == control_block_bytes(c.output_key_odd, point@),
        r matches Ok(c) ==> commitment_verifies(c.control_block@, c.output_key@, leaf_script@),
{
    let key = point.to_bytes();
    match finalize_single_leaf(&key, leaf_script) {
        Some((output_key, output_key_odd, merkle_root, control_block)) => Ok(TaprootCommitment {
            internal_key: *point,
            leaf_script: copy_bytes(leaf_script),
            output_key,
            output_key_odd,
            merkle_root,
            control_block,
        }),
        None => Err(CommitError::TreeConstruction),
    }
}

/// Two well-formed commitments to one leaf under one point hold the same
/// output key, parity, merkle root and control block: building a commitment
/// twice gives the same commitment.
pub proof fn lemma_commitment_determined(a: TaprootCommitment, b: TaprootCommitment)
    requires
        a.wf(),
        b.wf(),
        a.internal_key@ == b.internal_key@,
        a.leaf_script@ == b.leaf_script@,
    ensures
        a.output_key@ == b.output_key@,
        a.output_key_odd == b.output_key_odd,
        a.merkle_root@ == b.merkle_root@,
        a.control_block@ == b.control_block@,
{
}

/// Whether `control_block` proves that `script` is committed in
/// `output_key`.
pub fn verify_script_path(control_block: &[u8], output_key: &[u8; 32], script: &[u8]) -> (r: bool)
    ensures
        r == commitment_verifies(control_block@, output_key@, script@),
{
    control_block_verifies(control_block, output_key, script)
}

} // verus!
