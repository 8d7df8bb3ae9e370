use crate::encoding::{hex_encode, hex_lower};
use vstd::prelude::*;

verus! {

/// How many digests of the hash chain are tried before giving up.
pub const MAX_DERIVATION_ROUNDS: u32 = 1024;

/// The SHA-256 digest of a byte string.
pub uninterp spec fn sha256_of(data: Seq<u8>) -> Seq<u8>;

/// Whether 32 bytes are the x coordinate of a point on secp256k1.
pub uninterp spec fn is_x_only_key(bytes: Seq<u8>) -> bool;

/// Relies on `sha2::Sha256::digest`: the 32-byte SHA-256 digest of `data`.
#[verifier::external_body]
pub(crate) fn sha256_digest(data: &[u8]) -> (r: [u8; 32])
    ensures
        r@ == sha256_of(data@),
{
    sha2::Digest::finalize(sha2::Digest::chain_update(<sha2::Sha256 as sha2::Digest>::new(), data)).into()
}

/// Relies on `secp256k1::XOnlyPublicKey::from_slice`: it accepts 32 bytes
/// exactly when they are a valid x-only public key.
#[verifier::external_body]
pub(crate) fn is_valid_x_only(bytes: &[u8; 32]) -> (r: bool)
    ensures
        r == is_x_only_key(bytes@),
{
    secp256k1::XOnlyPublicKey::from_slice(bytes).is_ok()
}

/// The digest after `k + 1` rounds of hashing, starting from the seed.
pub open spec fn chain_digest(seed: Seq<u8>, k: nat) -> Seq<u8>
    decreases k,
{
    if k == 0 {
        sha256_of(seed)
    } else {
        sha256_of(chain_digest(seed, (k - 1) as nat))
    }
}

/// Round `k` of the chain is the first whose digest is a valid x-only key.
pub open spec fn is_first_valid(seed: Seq<u8>, k: nat) -> bool {
    &&& is_x_only_key(chain_digest(seed, k))
    &&& forall|j: nat| j < k ==> !is_x_only_key(#[trigger] chain_digest(seed, j))
}

/// What a derivation from `seed` may end in: the first valid digest within
/// the round limit, or nothing when no digest within the limit is valid.
pub open spec fn derivation_outcome(seed: Seq<u8>, out: Option<Seq<u8>>) -> bool {
    match out {
        Some(p) => exists|k: nat|
            k < MAX_DERIVATION_ROUNDS && is_first_valid(seed, k) && p == #[trigger] chain_digest(
                seed,
                k,
            ),
        None => forall|k: nat|
            k < MAX_DERIVATION_ROUNDS ==> !is_x_only_key(#[trigger] chain_digest(seed, k)),
    }
}

/// Why no point could be derived.
#[derive(Debug, Clone, Copy, PartialEq, Eq, Structural)]
pub enum DeriveError {
    /// No digest within the round limit is a valid x-only key.
    DerivationExhausted,
}

/// A valid x-only curve point, held as its 32 serialized bytes.
#[derive(Debug, Clone, Copy, PartialEq, Eq)]
pub struct NumsPoint {
    bytes: [u8; 32],
}

impl View for NumsPoint {
    type V = Seq<u8>;

    closed spec fn view(&self) -> Seq<u8> {
        self.bytes@
    }
}

impl NumsPoint {
    /// The bytes are a valid x-only key.
    pub open spec fn wf(&self) -> bool {
        is_x_only_key(self@)
    }

    /// The 32 serialized bytes of the point.
    pub fn to_bytes(&self) -> (r: [u8; 32])
        ensures
            r@ == self@,
    {
        self.bytes
    }

    /// The point in lowercase hexadecimal.
    pub fn to_hex(&self) -> (r: String)
        ensures
            r@ == hex_lower(self@),
    {
        hex_encode(&self.bytes)
    }
}

/// The view of a derivation's result.
pub open spec fn derived_view(r: Result<NumsPoint, DeriveError>) -> Option<Seq<u8>> {
    match r {
        Ok(p) => Some(p@),
        Err(_) => None,
    }
}

/// Hashes `seed`, then hashes each digest again, until a digest is a valid
/// x-only key; gives up after `MAX_DERIVATION_ROUNDS` digests.
pub fn derive_point(seed: &[u8]) -> (r: Result<NumsPoint, DeriveError>)
    ensures
        derivation_outcome(seed@, derived_view(r)),
        r matches Ok(p) ==> p.wf(),
{
    let mut digest = sha256_digest(seed);
    let mut round: u32 = 0;
    loop
        invariant
            round < MAX_DERIVATION_ROUNDS,
            digest@ == chain_digest(seed@, round as nat),
            forall|j: nat| j < round ==> !is_x_only_key(#[trigger] chain_digest(seed@, j)),
        decreases MAX_DERIVATION_ROUNDS - round,
    {
        if is_valid_x_only(&digest) {
            let p = NumsPoint { bytes: digest };
            assert(is_first_valid(seed@, round as nat));
            return Ok(p);
        }
        if round + 1 >= MAX_DERIVATION_ROUNDS {
            assert forall|k: nat| k < MAX_DERIVATION_ROUNDS implies !is_x_only_key(
                #[trigger] chain_digest(seed@, k),
            ) by {
                if k < round {
                } else {
                    assert(k == round);
                }
            }
            return Err(DeriveError::DerivationExhausted);
        }
        let next = sha256_digest(&digest);
        assert(next@ == chain_digest(seed@, (round + 1) as nat));
        digest = next;
        round = round + 1;
    }
}

/// A seed has exactly one derivation outcome: two runs on the same seed
/// agree, whichever way each one ended.
pub proof fn lemma_derivation_deterministic(seed: Seq<u8>, a: Option<Seq<u8>>, b: Option<Seq<u8>>)
    requires
        derivation_outcome(seed, a),
        derivation_outcome(seed, b),
    ensures
        a == b,
{
    match (a, b) {
        (Some(p), Some(q)) => {
            let j = choose|j: nat|
                j < MAX_DERIVATION_ROUNDS && is_first_valid(seed, j) && p == #[trigger] chain_digest(
                    seed,
                    j,
                );
            let k = choose|k: nat|
                k < MAX_DERIVATION_ROUNDS && is_first_valid(seed, k) && q == #[trigger] chain_digest(
                    seed,
                    k,
                );
            if j < k {
                assert(!is_x_only_key(chain_digest(seed, j)));
            } else if k < j {
                assert(!is_x_only_key(chain_digest(seed, k)));
            }
        },
        (Some(p), None) => {
            let j = choose|j: nat|
                j < MAX_DERIVATION_ROUNDS && is_first_valid(seed, j) && p == #[trigger] chain_digest(
                    seed,
                    j,
                );
            assert(!is_x_only_key(chain_digest(seed, j)));
        },
        (None, Some(q)) => {
            let k = choose|k: nat|
                k < MAX_DERIVATION_ROUNDS && is_first_valid(seed, k) && q == #[trigger] chain_digest(
                    seed,
                    k,
                );
            assert(!is_x_only_key(chain_digest(seed, k)));
        },
        (None, None) => {},
    }
}

/// When round `k`, within the round limit, is the first whose digest is a
/// valid key, every derivation from `seed` yields exactly that digest.
pub proof fn lemma_derivation_yields_first_valid(seed: Seq<u8>, k: nat, out: Option<Seq<u8>>)
    requires
        k < MAX_DERIVATION_ROUNDS,
        is_first_valid(seed, k),
        derivation_outcome(seed, out),
    ensures
        out == Some(chain_digest(seed, k)),
{
    assert(derivation_outcome(seed, Some(chain_digest(seed, k))));
    lemma_derivation_deterministic(seed, out, Some(chain_digest(seed, k)));
}

} // verus!
