//! Commitment and verification core of a privacy-preserving order-matching
//! venue. Traders commit to orders through a private nullifier and balance,
//! publish only hashes, and later show that an order is eligible: its
//! commitment sits in an append-only Merkle tree, its nullifier hash matches,
//! and its price and deadline conditions hold against current market data.

pub mod bytes_util;
pub mod hashing;
pub mod merkle;
pub mod order;
pub mod pipeline;
pub mod user;

pub use hashing::{
    compute_commitment_hash, compute_nullifier_hash, generate_order_nullifier, hash_order,
};
pub use merkle::{
    verify_commitment_merkle_proof, verify_merkle_proof, CommitmentMerkleTree, TreeError,
};
pub use order::{
    create_order_commitment, validate_order, verify_nullifier_knowledge, verify_nullifier_order,
    MarketConditions, NullifierData, OrderCommitment, OrderData,
};
pub use pipeline::{run_order_verification, VerificationOutcome};
pub use user::User;
