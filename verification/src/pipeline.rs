//! The end-to-end verification pipeline executed by the proof backend: from
//! the public inputs (market conditions, Merkle root, expected nullifier
//! hash) and the private witness (order, nullifier, balance, sibling path),
//! compute the single pass/fail decision and the echoed public fields.

use crate::bytes_util::bytes32_eq;
use crate::hashing::{
    commitment_hash_of, compute_commitment_hash, compute_nullifier_hash, nullifier_hash_of,
};
use crate::merkle::{fold_path, verify_commitment_merkle_proof, views};
use crate::order::{
    nullifier_order_ok, verify_nullifier_order, MarketConditions, OrderCommitment, OrderData,
};
use vstd::prelude::*;

verus! {

/// The public outputs of one pipeline run: the decision, the recomputed
/// replay key, and the order fields echoed for settlement.
#[derive(Clone, Copy, Debug)]
pub struct VerificationOutcome {
    pub is_valid: bool,
    pub nullifier_hash: [u8; 32],
    pub wallet_address: [u8; 20],
    pub amount_in: u64,
    pub min_amount_out: u64,
}

/// The full end-to-end predicate: the supplied nullifier hash matches the
/// one recomputed from the private nullifier, the commitment hash recomputed
/// from the witness sits in the tree under the public root, and the order
/// passes the composite verification — all conditions conjoined, with no
/// short-circuit ordering promised to callers.
pub open spec fn pipeline_valid(
    market: MarketConditions,
    merkle_root: Seq<u8>,
    expected_nullifier_hash: Seq<u8>,
    commitment: OrderCommitment,
    siblings: Seq<Seq<u8>>,
    indices: Seq<u8>,
) -> bool {
    let commitment_hash = commitment_hash_of(
        commitment.order_data,
        commitment.nullifier@,
        commitment.balance,
    );
    &&& nullifier_hash_of(commitment.nullifier@) == expected_nullifier_hash
    &&& siblings.len() == indices.len()
    &&& fold_path(commitment_hash, siblings, indices) == merkle_root
    &&& nullifier_order_ok(commitment, market, commitment_hash, expected_nullifier_hash)
}

/// Runs the whole pipeline on public inputs and private witness. This is the
/// exact program the external proof backend re-executes; it must behave
/// byte-for-byte the same here and inside that backend.
pub fn run_order_verification(
    market: &MarketConditions,
    merkle_root: &[u8; 32],
    expected_nullifier_hash: &[u8; 32],
    order_data: &OrderData,
    nullifier: &[u8; 32],
    user_balance: u64,
    merkle_siblings: &Vec<[u8; 32]>,
    merkle_indices: &Vec<u8>,
) -> (r: VerificationOutcome)
    ensures
        r.nullifier_hash@ == nullifier_hash_of(nullifier@),
        r.wallet_address == order_data.wallet_address,
        r.amount_in == order_data.amount_in,
        r.min_amount_out == order_data.min_amount_out,
        r.is_valid == pipeline_valid(
            *market,
            merkle_root@,
            expected_nullifier_hash@,
            (OrderCommitment {
                order_data: *order_data,
                nullifier: *nullifier,
                balance: user_balance,
            }),
            views(merkle_siblings@),
            merkle_indices@,
        ),
{
    let computed_nullifier_hash = compute_nullifier_hash(nullifier);
    let nullifier_hash_valid = bytes32_eq(&computed_nullifier_hash, expected_nullifier_hash);

    let commitment_hash = compute_commitment_hash(order_data, nullifier, user_balance);
    let commitment = OrderCommitment {
        order_data: *order_data,
        nullifier: *nullifier,
        balance: user_balance,
    };

    let merkle_valid = verify_commitment_merkle_proof(
        &commitment_hash,
        merkle_siblings,
        merkle_indices,
        merkle_root,
    );

    let order_executable = verify_nullifier_order(
        &commitment,
        market,
        &commitment_hash,
        expected_nullifier_hash,
    );

    VerificationOutcome {
        is_valid: nullifier_hash_valid && merkle_valid && order_executable,
        nullifier_hash: computed_nullifier_hash,
        wallet_address: order_data.wallet_address,
        amount_in: order_data.amount_in,
        min_amount_out: order_data.min_amount_out,
    }
}

} // verus!
