//! Domain-separated SHA-256 constructions. Every hash begins with a fixed
//! ASCII tag unique to its purpose (the order hash alone carries none, kept
//! for compatibility with already-committed data), followed by the tagged
//! fields in a fixed order, integers in fixed-width little-endian form.

use crate::bytes_util::{push_bytes, push_u64_le};
use crate::order::OrderData;
use vstd::bytes::spec_u64_to_le_bytes;
use vstd::prelude::*;

verus! {

/// The 32-byte SHA-256 digest of a byte sequence, as a function of the input
/// bytes alone.
pub uninterp spec fn sha256_of(data: Seq<u8>) -> Seq<u8>;

/// Relies on sha2::Sha256 through the `Digest::digest` entry point: a pure
/// function of the input bytes, returning the 32-byte SHA-256 digest.
#[verifier::external_body]
pub(crate) fn sha256_digest(data: &Vec<u8>) -> (r: [u8; 32])
    ensures
        r@ == sha256_of(data@),
{
    <sha2::Sha256 as sha2::Digest>::digest(data.as_slice()).into()
}

/// The ASCII bytes of the tag `NULLIFIER_HASH`.
pub open spec fn tag_nullifier_hash() -> Seq<u8> {
    seq![78u8, 85u8, 76u8, 76u8, 73u8, 70u8, 73u8, 69u8, 82u8, 95u8, 72u8, 65u8, 83u8, 72u8]
}

/// The ASCII bytes of the tag `COMMITMENT_HASH`.
pub open spec fn tag_commitment_hash() -> Seq<u8> {
    seq![67u8, 79u8, 77u8, 77u8, 73u8, 84u8, 77u8, 69u8, 78u8, 84u8, 95u8, 72u8, 65u8, 83u8, 72u8]
}

/// The ASCII bytes of the tag `MERKLE_NODE`.
pub open spec fn tag_merkle_node() -> Seq<u8> {
    seq![77u8, 69u8, 82u8, 75u8, 76u8, 69u8, 95u8, 78u8, 79u8, 68u8, 69u8]
}

/// The ASCII bytes of the tag `BALANCE_LEAF`.
pub open spec fn tag_balance_leaf() -> Seq<u8> {
    seq![66u8, 65u8, 76u8, 65u8, 78u8, 67u8, 69u8, 95u8, 76u8, 69u8, 65u8, 70u8]
}

/// The ASCII bytes of the tag `ORDER_NULLIFIER`.
pub open spec fn tag_order_nullifier() -> Seq<u8> {
    seq![79u8, 82u8, 68u8, 69u8, 82u8, 95u8, 78u8, 85u8, 76u8, 76u8, 73u8, 70u8, 73u8, 69u8, 82u8]
}

/// The untagged message hashed by `hash_order`: addresses, then the four
/// amounts in fixed-width little-endian form.
pub open spec fn order_msg(o: OrderData) -> Seq<u8> {
    o.wallet_address@ + o.token_in@ + o.token_out@ + spec_u64_to_le_bytes(o.amount_in)
        + spec_u64_to_le_bytes(o.min_amount_out) + spec_u64_to_le_bytes(o.target_price)
        + spec_u64_to_le_bytes(o.deadline)
}

/// The content hash identifying an order.
pub open spec fn order_hash(o: OrderData) -> Seq<u8> {
    sha256_of(order_msg(o))
}

/// The public replay key derived from a private nullifier.
pub open spec fn nullifier_hash_of(nullifier: Seq<u8>) -> Seq<u8> {
    sha256_of(tag_nullifier_hash() + nullifier)
}

/// The tree leaf binding order terms, spending secret and balance.
pub open spec fn commitment_hash_of(o: OrderData, nullifier: Seq<u8>, balance: u64) -> Seq<u8> {
    sha256_of(tag_commitment_hash() + order_hash(o) + nullifier + spec_u64_to_le_bytes(balance))
}

/// The deterministic nullifier derived from a user secret and an order
/// context.
pub open spec fn order_nullifier_of(secret: Seq<u8>, context: Seq<u8>) -> Seq<u8> {
    sha256_of(tag_order_nullifier() + secret + context)
}

/// Writes the ASCII bytes of `NULLIFIER_HASH` into a fresh buffer.
fn tag_nullifier_hash_buf() -> (r: Vec<u8>)
    ensures
        r@ == tag_nullifier_hash(),
{
    let tag: [u8; 14] = [78, 85, 76, 76, 73, 70, 73, 69, 82, 95, 72, 65, 83, 72];
    let mut r: Vec<u8> = Vec::new();
    push_bytes(&mut r, &tag);
    assert(r@ =~= tag_nullifier_hash());
    r
}

/// Writes the ASCII bytes of `COMMITMENT_HASH` into a fresh buffer.
fn tag_commitment_hash_buf() -> (r: Vec<u8>)
    ensures
        r@ == tag_commitment_hash(),
{
    let tag: [u8; 15] = [67, 79, 77, 77, 73, 84, 77, 69, 78, 84, 95, 72, 65, 83, 72];
    let mut r: Vec<u8> = Vec::new();
    push_bytes(&mut r, &tag);
    assert(r@ =~= tag_commitment_hash());
    r
}

/// Writes the ASCII bytes of `MERKLE_NODE` into a fresh buffer.
pub(crate) fn tag_merkle_node_buf() -> (r: Vec<u8>)
    ensures
        r@ == tag_merkle_node(),
{
    let tag: [u8; 11] = [77, 69, 82, 75, 76, 69, 95, 78, 79, 68, 69];
    let mut r: Vec<u8> = Vec::new();
    push_bytes(&mut r, &tag);
    assert(r@ =~= tag_merkle_node());
    r
}

/// Writes the ASCII bytes of `BALANCE_LEAF` into a fresh buffer.
pub(crate) fn tag_balance_leaf_buf() -> (r: Vec<u8>)
    ensures
        r@ == tag_balance_leaf(),
{
    let tag: [u8; 12] = [66, 65, 76, 65, 78, 67, 69, 95, 76, 69, 65, 70];
    let mut r: Vec<u8> = Vec::new();
    push_bytes(&mut r, &tag);
    assert(r@ =~= tag_balance_leaf());
    r
}

/// Writes the ASCII bytes of `ORDER_NULLIFIER` into a fresh buffer.
fn tag_order_nullifier_buf() -> (r: Vec<u8>)
    ensures
        r@ == tag_order_nullifier(),
{
    let tag: [u8; 15] = [79, 82, 68, 69, 82, 95, 78, 85, 76, 76, 73, 70, 73, 69, 82];
    let mut r: Vec<u8> = Vec::new();
    push_bytes(&mut r, &tag);
    assert(r@ =~= tag_order_nullifier());
    r
}

/// Computes the deterministic content hash of an order: addresses then
/// little-endian amounts, with no domain tag.
pub fn hash_order(order: &OrderData) -> (r: [u8; 32])
    ensures
        r@ == order_hash(*order),
{
    let mut msg: Vec<u8> = Vec::new();
    push_bytes(&mut msg, &order.wallet_address);
    push_bytes(&mut msg, &order.token_in);
    push_bytes(&mut msg, &order.token_out);
    push_u64_le(&mut msg, order.amount_in);
    push_u64_le(&mut msg, order.min_amount_out);
    push_u64_le(&mut msg, order.target_price);
    push_u64_le(&mut msg, order.deadline);
    assert(msg@ =~= order_msg(*order));
    sha256_digest(&msg)
}

/// Computes the public nullifier hash of a private nullifier: the replay key
/// published once the order executes.
pub fn compute_nullifier_hash(nullifier: &[u8; 32]) -> (r: [u8; 32])
    ensures
        r@ == nullifier_hash_of(nullifier@),
{
    let mut msg = tag_nullifier_hash_buf();
    push_bytes(&mut msg, nullifier);
    sha256_digest(&msg)
}

/// Computes the commitment hash over the order's content hash, the private
/// nullifier and the little-endian balance: the Merkle tree leaf.
pub fn compute_commitment_hash(order: &OrderData, nullifier: &[u8; 32], balance: u64) -> (r: [u8;
    32])
    ensures
        r@ == commitment_hash_of(*order, nullifier@, balance),
{
    let mut msg = tag_commitment_hash_buf();
    let order_digest = hash_order(order);
    push_bytes(&mut msg, &order_digest);
    push_bytes(&mut msg, nullifier);
    push_u64_le(&mut msg, balance);
    assert(msg@ =~= tag_commitment_hash() + order_hash(*order) + nullifier@
        + spec_u64_to_le_bytes(balance));
    sha256_digest(&msg)
}

/// Derives the deterministic nullifier for a user secret and order context:
/// the same pair always yields the same nullifier, which is how replay is
/// detected downstream.
pub fn generate_order_nullifier(user_secret: &[u8; 32], order_context: &[u8; 32]) -> (r: [u8; 32])
    ensures
        r@ == order_nullifier_of(user_secret@, order_context@),
{
    let mut msg = tag_order_nullifier_buf();
    push_bytes(&mut msg, user_secret);
    push_bytes(&mut msg, order_context);
    assert(msg@ =~= tag_order_nullifier() + user_secret@ + order_context@);
    sha256_digest(&msg)
}

} // verus!
