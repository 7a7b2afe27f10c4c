//! Order model, the price/deadline validator, the commitment engine and the
//! composite order-verification predicate.

use crate::bytes_util::bytes32_eq;
use crate::hashing::{
    commitment_hash_of, compute_commitment_hash, compute_nullifier_hash, generate_order_nullifier,
    hash_order, nullifier_hash_of, order_hash, order_nullifier_of,
};
use vstd::prelude::*;

verus! {

/// An order: immutable once created, identified by its content hash.
#[derive(Clone, Copy, Debug)]
pub struct OrderData {
    pub wallet_address: [u8; 20],
    pub token_in: [u8; 20],
    pub token_out: [u8; 20],
    pub amount_in: u64,
    pub min_amount_out: u64,
    pub target_price: u64,
    pub deadline: u64,
}

/// Market data supplied fresh at verification time.
#[derive(Clone, Copy, Debug)]
pub struct MarketConditions {
    pub current_price: u64,
    pub block_timestamp: u64,
}

/// The private commitment: order, private nullifier and private balance.
/// Only its two hashes are ever published.
#[derive(Clone, Copy, Debug)]
pub struct OrderCommitment {
    pub order_data: OrderData,
    pub nullifier: [u8; 32],
    pub balance: u64,
}

/// The public hash pair: the replay key and the tree leaf.
#[derive(Clone, Copy, Debug)]
pub struct NullifierData {
    pub nullifier_hash: [u8; 32],
    pub commitment_hash: [u8; 32],
}

/// An order is valid against the market and an expected digest when the
/// deadline has not passed (inclusive), the price has reached the target
/// (inclusive floor), and the order's content hash equals the digest.
pub open spec fn order_valid(o: OrderData, m: MarketConditions, expected: Seq<u8>) -> bool {
    &&& m.block_timestamp <= o.deadline
    &&& m.current_price >= o.target_price
    &&& order_hash(o) == expected
}

/// Holding the private commitment matching a public hash pair: both hashes
/// recomputed from the witness equal the expected public values.
pub open spec fn knowledge_ok(c: OrderCommitment, expected_commitment: Seq<u8>, expected_nullifier: Seq<u8>) -> bool {
    &&& commitment_hash_of(c.order_data, c.nullifier@, c.balance) == expected_commitment
    &&& nullifier_hash_of(c.nullifier@) == expected_nullifier
}

/// The composite order-verification predicate: nullifier knowledge, balance
/// sufficiency, and order validity against the order's own recomputed hash.
pub open spec fn nullifier_order_ok(
    c: OrderCommitment,
    m: MarketConditions,
    expected_commitment: Seq<u8>,
    expected_nullifier: Seq<u8>,
) -> bool {
    &&& knowledge_ok(c, expected_commitment, expected_nullifier)
    &&& c.balance >= c.order_data.amount_in
    &&& order_valid(c.order_data, m, order_hash(c.order_data))
}

/// Checks order conditions: deadline not passed, price at or above target,
/// and content hash equal to the expected digest. All three checks are
/// mandatory; any failing one invalidates the order.
pub fn validate_order(order: &OrderData, market: &MarketConditions, expected_hash: &[u8; 32]) -> (r:
    bool)
    ensures
        r == order_valid(*order, *market, expected_hash@),
{
    if market.block_timestamp > order.deadline {
        return false;
    }
    if market.current_price < order.target_price {
        return false;
    }
    let computed_hash = hash_order(order);
    bytes32_eq(&computed_hash, expected_hash)
}

/// Checks that the holder of `commitment` knows the witness behind the two
/// expected public hashes, revealing only pass/fail.
pub fn verify_nullifier_knowledge(
    commitment: &OrderCommitment,
    expected_commitment_hash: &[u8; 32],
    expected_nullifier_hash: &[u8; 32],
) -> (r: bool)
    ensures
        r == knowledge_ok(*commitment, expected_commitment_hash@, expected_nullifier_hash@),
{
    let computed_commitment = compute_commitment_hash(
        &commitment.order_data,
        &commitment.nullifier,
        commitment.balance,
    );
    if !bytes32_eq(&computed_commitment, expected_commitment_hash) {
        return false;
    }
    let computed_nullifier_hash = compute_nullifier_hash(&commitment.nullifier);
    if !bytes32_eq(&computed_nullifier_hash, expected_nullifier_hash) {
        return false;
    }
    true
}

/// Decides whether an order can execute: nullifier knowledge, sufficient
/// balance (inclusive), and order conditions against the order's own
/// recomputed hash. Any failing step yields false; no partial credit.
pub fn verify_nullifier_order(
    commitment: &OrderCommitment,
    market: &MarketConditions,
    commitment_hash: &[u8; 32],
    nullifier_hash: &[u8; 32],
) -> (r: bool)
    ensures
        r == nullifier_order_ok(*commitment, *market, commitment_hash@, nullifier_hash@),
{
    if !verify_nullifier_knowledge(commitment, commitment_hash, nullifier_hash) {
        return false;
    }
    if commitment.balance < commitment.order_data.amount_in {
        return false;
    }
    let order_digest = hash_order(&commitment.order_data);
    if !validate_order(&commitment.order_data, market, &order_digest) {
        return false;
    }
    true
}

/// Derives the nullifier, builds the private commitment, and returns it with
/// the public hash pair. Side-effect-free; the caller persists the private
/// commitment and publishes the `NullifierData`.
pub fn create_order_commitment(
    order: &OrderData,
    user_secret: &[u8; 32],
    balance: u64,
    order_context: &[u8; 32],
) -> (r: (OrderCommitment, NullifierData))
    ensures
        r.0.order_data == *order,
        r.0.nullifier@ == order_nullifier_of(user_secret@, order_context@),
        r.0.balance == balance,
        r.1.nullifier_hash@ == nullifier_hash_of(r.0.nullifier@),
        r.1.commitment_hash@ == commitment_hash_of(*order, r.0.nullifier@, balance),
{
    let nullifier = generate_order_nullifier(user_secret, order_context);
    let commitment = OrderCommitment { order_data: order.clone(), nullifier, balance };
    let nullifier_data = NullifierData {
        nullifier_hash: compute_nullifier_hash(&nullifier),
        commitment_hash: compute_commitment_hash(order, &nullifier, balance),
    };
    (commitment, nullifier_data)
}

/// Law: every private commitment passes the knowledge check against its own
/// recomputed hash pair. Together with the contract of
/// `create_order_commitment` — whose published `NullifierData` holds exactly
/// these two hashes of the commitment it returns — this says that
/// `create_order_commitment` followed by `verify_nullifier_knowledge` on the
/// resulting pair returns true, for every order, secret, balance and context.
pub proof fn lemma_create_then_verify_knowledge(c: OrderCommitment)
    ensures
        knowledge_ok(
            c,
            commitment_hash_of(c.order_data, c.nullifier@, c.balance),
            nullifier_hash_of(c.nullifier@),
        ),
{
}

} // verus!
