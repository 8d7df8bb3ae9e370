use crate::address::{CheckedAddress, Network};
use crate::encoding::{copy_bytes, hex_encode, hex_lower};
use crate::script::SATISFYING_WITNESS;
use crate::taproot::{control_block_bytes, CommitError, TaprootCommitment};
use bitcoin::absolute::LockTime;
use bitcoin::consensus::serialize;
use bitcoin::hashes::Hash as _;
use bitcoin::transaction::Version;
use bitcoin::{Amount, ScriptBuf, Sequence, Transaction, TxIn, TxOut, Txid, Witness};
use vstd::prelude::*;

verus! {

/// The fee the spend leaves to miners, in base units.
pub const SPEND_FEE: u64 = 200;

/// One whole coin in base units: the amount the funding output is meant to
/// hold.
pub const ONE_COIN: u64 = 100_000_000;

/// The version of the spend transaction.
pub const SPEND_VERSION: i32 = 2;

/// A reference to an output of an earlier transaction.
#[derive(Debug, Clone, Copy, PartialEq, Eq)]
pub struct OutPoint {
    /// The transaction id, in its internal byte order.
    pub txid: [u8; 32],
    pub vout: u32,
}

/// A transaction input.
#[derive(Debug, Clone, PartialEq, Eq)]
pub struct TxInput {
    pub previous_output: OutPoint,
    pub script_sig: Vec<u8>,
    pub sequence: u32,
    pub witness: Vec<Vec<u8>>,
}

/// A transaction output.
#[derive(Debug, Clone, PartialEq, Eq)]
pub struct TxOutput {
    /// The value in base units.
    pub value: u64,
    pub script_pubkey: Vec<u8>,
}

/// A transaction, as the spend builds it.
#[derive(Debug, Clone, PartialEq, Eq)]
pub struct SpendTransaction {
    pub version: i32,
    pub lock_time: u32,
    pub input: Vec<TxInput>,
    pub output: Vec<TxOutput>,
}

/// The consensus serialization of a transaction.
pub uninterp spec fn consensus_encoding(tx: SpendTransaction) -> Seq<u8>;

/// Relies on `bitcoin::consensus::serialize` of the `bitcoin::Transaction`
/// that holds the same fields.
#[verifier::external_body]
fn consensus_serialize(tx: &SpendTransaction) -> (r: Vec<u8>)
    ensures
        r@ == consensus_encoding(*tx),
{
    let input = tx.input.iter().map(|i| TxIn {
        previous_output: bitcoin::OutPoint::new(Txid::from_byte_array(i.previous_output.txid), i.previous_output.vout),
        script_sig: ScriptBuf::from_bytes(i.script_sig.clone()),
        sequence: Sequence(i.sequence),
        witness: Witness::from_slice(&i.witness),
    });
    let output = tx.output.iter().map(|o| TxOut {
        value: Amount::from_sat(o.value),
        script_pubkey: ScriptBuf::from_bytes(o.script_pubkey.clone()),
    });
    let version = Version(tx.version);
    let lock_time = LockTime::from_consensus(tx.lock_time);
    serialize(&Transaction { version, lock_time, input: input.collect(), output: output.collect() })
}

impl SpendTransaction {
    /// The consensus serialization of the transaction.
    pub fn serialize(&self) -> (r: Vec<u8>)
        ensures
            r@ == consensus_encoding(*self),
    {
        consensus_serialize(self)
    }

    /// The consensus serialization in lowercase hexadecimal.
    pub fn to_hex(&self) -> (r: String)
        ensures
            r@ == hex_lower(consensus_encoding(*self)),
    {
        let bytes = consensus_serialize(self);
        hex_encode(bytes.as_slice())
    }
}

/// Why no spend could be built.
#[derive(Debug, Clone, Copy, PartialEq, Eq, Structural)]
pub enum SpendError {
    /// The destination was confirmed against another network.
    NetworkMismatch,
    /// The script is not the committed leaf.
    UnknownLeaf,
    /// The funding amount is smaller than the fee.
    AmountUnderflow,
}

/// `tx` spends `funding`, worth `amount`, through the leaf `leaf_script` of
/// `c` and pays what is left after the fee to `destination_script`: one
/// input with no signature script, sequence 0 and the witness stack
/// {satisfying item, leaf script, control block}, and one output.
pub open spec fn is_leaf_spend(
    tx: SpendTransaction,
    c: TaprootCommitment,
    leaf_script: Seq<u8>,
    funding: OutPoint,
    amount: u64,
    destination_script: Seq<u8>,
) -> bool {
    &&& tx.version == SPEND_VERSION
    &&& tx.lock_time == 0
    &&& tx.input@.len() == 1
    &&& tx.input@[0].previous_output.txid@ == funding.txid@
    &&& tx.input@[0].previous_output.vout == funding.vout
    &&& tx.input@[0].script_sig@.len() == 0
    &&& tx.input@[0].sequence == 0
    &&& tx.input@[0].witness@.len() == 3
    &&& tx.input@[0].witness@[0]@ == seq![SATISFYING_WITNESS]
    &&& tx.input@[0].witness@[1]@ == leaf_script
    &&& tx.input@[0].witness@[2]@ == control_block_bytes(c.output_key_odd, c.internal_key@)
    &&& tx.output@.len() == 1
    &&& tx.output@[0].value == amount - SPEND_FEE
    &&& tx.output@[0].script_pubkey@ == destination_script
}

/// Builds the transaction that spends `funding`, worth `funding_amount`,
/// through the leaf `leaf_script` of `commitment`, paying `destination` on
/// `network`.
pub fn build_spend(
    commitment: &TaprootCommitment,
    leaf_script: &[u8],
    funding: OutPoint,
    funding_amount: u64,
    destination: &CheckedAddress,
    network: Network,
) -> (r: Result<SpendTransaction, SpendError>)
    requires
        commitment.wf(),
    ensures
        r is Ok <==> (destination@.0 == network && leaf_script@ == commitment.leaf_script@
            && funding_amount >= SPEND_FEE),
        (r matches Err(SpendError::NetworkMismatch)) <==> destination@.0 != network,
        (r matches Err(SpendError::UnknownLeaf)) <==> (destination@.0 == network
            && leaf_script@ != commitment.leaf_script@),
        (r matches Err(SpendError::AmountUnderflow)) <==> (destination@.0 == network
            && leaf_script@ == commitment.leaf_script@ && funding_amount < SPEND_FEE),
        r matches Ok(tx) ==> is_leaf_spend(
            tx,
            *commitment,
            leaf_script@,
            funding,
            funding_amount,
            destination@.1,
        ),
{
    if destination.network() != network {
        return Err(SpendError::NetworkMismatch);
    }
    let control_block = match commitment.control_block_for(leaf_script) {
        Ok(b) => b,
        Err(_) => return Err(SpendError::UnknownLeaf),
    };
    if funding_amount < SPEND_FEE {
        return Err(SpendError::AmountUnderflow);
    }
    let mut witness: Vec<Vec<u8>> = Vec::new();
    witness.push(vec![SATISFYING_WITNESS]);
    witness.push(copy_bytes(leaf_script));
    witness.push(control_block);
    let mut input: Vec<TxInput> = Vec::new();
    input.push(
        TxInput { previous_output: funding, script_sig: Vec::new(), sequence: 0, witness },
    );
    let mut output: Vec<TxOutput> = Vec::new();
    output.push(
        TxOutput {
            value: funding_amount - SPEND_FEE,
            script_pubkey: copy_bytes(destination.script_pubkey().as_slice()),
        },
    );
    let tx = SpendTransaction { version: SPEND_VERSION, lock_time: 0, input, output };
    assert(tx.input@[0].witness@[0]@ == seq![SATISFYING_WITNESS]);
    Ok(tx)
}

} // verus!
