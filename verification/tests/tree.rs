use order_engine::{
    create_order_commitment, hash_order, verify_commitment_merkle_proof, verify_merkle_proof,
    verify_nullifier_order, CommitmentMerkleTree, MarketConditions, OrderData, TreeError, User,
};
use sha2::{Digest, Sha256};

fn node(left: &[u8; 32], right: &[u8; 32]) -> [u8; 32] {
    let mut hasher = Sha256::new();
    hasher.update(b"MERKLE_NODE");
    hasher.update(left);
    hasher.update(right);
    hasher.finalize().into()
}

fn leaf(tag: u8) -> [u8; 32] {
    [tag; 32]
}

#[test]
fn empty_tree_has_zero_root_and_no_levels() {
    let tree = CommitmentMerkleTree::new();
    let (root, levels) = tree.build_tree();
    assert_eq!(root, [0u8; 32]);
    assert!(levels.is_empty());
}

#[test]
fn single_leaf_is_its_own_root() {
    let mut tree = CommitmentMerkleTree::new();
    tree.add_commitment(leaf(1), "only".to_string());
    let (root, levels) = tree.build_tree();
    assert_eq!(root, leaf(1));
    assert_eq!(levels.len(), 1);
    assert_eq!(levels[0], vec![leaf(1)]);

    let (siblings, indices) = tree.generate_proof(leaf(1)).unwrap();
    assert!(siblings.is_empty());
    assert!(indices.is_empty());
    assert!(verify_commitment_merkle_proof(&leaf(1), &siblings, &indices, &root));
}

#[test]
fn two_leaf_root_is_pair_hash() {
    let mut tree = CommitmentMerkleTree::new();
    tree.add_commitment(leaf(1), "a".to_string());
    tree.add_commitment(leaf(2), "b".to_string());
    let (root, levels) = tree.build_tree();
    assert_eq!(root, node(&leaf(1), &leaf(2)));
    assert_eq!(levels.len(), 2);
}

#[test]
fn three_leaf_root_duplicates_odd_node() {
    let mut tree = CommitmentMerkleTree::new();
    tree.add_commitment(leaf(1), "a".to_string());
    tree.add_commitment(leaf(2), "b".to_string());
    tree.add_commitment(leaf(3), "c".to_string());
    let (root, levels) = tree.build_tree();
    let expected = node(&node(&leaf(1), &leaf(2)), &node(&leaf(3), &leaf(3)));
    assert_eq!(root, expected);
    assert_eq!(levels.len(), 3);
    // the same structure through the tree's own pair hashing
    let lower_left = tree.hash_pair(leaf(1), leaf(2));
    let lower_right = tree.hash_pair(leaf(3), leaf(3));
    assert_eq!(root, tree.hash_pair(lower_left, lower_right));
}

#[test]
fn build_is_deterministic() {
    let mut first = CommitmentMerkleTree::new();
    let mut second = CommitmentMerkleTree::new();
    for tag in 1..=5u8 {
        first.add_commitment(leaf(tag), format!("user{}", tag));
        second.add_commitment(leaf(tag), format!("user{}", tag));
    }
    let (root_a, levels_a) = first.build_tree();
    let (root_b, levels_b) = second.build_tree();
    assert_eq!(root_a, root_b);
    assert_eq!(levels_a, levels_b);
    let (root_again, levels_again) = first.build_tree();
    assert_eq!(root_a, root_again);
    assert_eq!(levels_a, levels_again);
}

#[test]
fn fresh_proof_verifies_for_every_leaf() {
    let mut tree = CommitmentMerkleTree::new();
    for tag in 1..=7u8 {
        tree.add_commitment(leaf(tag), format!("user{}", tag));
    }
    let (root, _) = tree.build_tree();
    for tag in 1..=7u8 {
        let (siblings, indices) = tree.generate_proof(leaf(tag)).unwrap();
        // path length is the tree height: 7 leaves give levels of 7, 4, 2, 1
        assert_eq!(siblings.len(), 3);
        assert_eq!(indices.len(), 3);
        assert!(verify_commitment_merkle_proof(&leaf(tag), &siblings, &indices, &root));
    }
}

#[test]
fn growth_keeps_old_members_provable() {
    let mut tree = CommitmentMerkleTree::new();
    tree.add_commitment(leaf(1), "a".to_string());
    tree.add_commitment(leaf(2), "b".to_string());
    let (old_root, _) = tree.build_tree();
    let (old_siblings, old_indices) = tree.generate_proof(leaf(1)).unwrap();
    assert!(verify_commitment_merkle_proof(&leaf(1), &old_siblings, &old_indices, &old_root));

    for tag in 3..=6u8 {
        tree.add_commitment(leaf(tag), format!("user{}", tag));
    }
    let (new_root, _) = tree.build_tree();
    assert_ne!(old_root, new_root);

    // a proof regenerated after growth verifies against the new root
    let (new_siblings, new_indices) = tree.generate_proof(leaf(1)).unwrap();
    assert!(verify_commitment_merkle_proof(&leaf(1), &new_siblings, &new_indices, &new_root));

    // and the old proof still verifies against the historical root
    assert!(verify_commitment_merkle_proof(&leaf(1), &old_siblings, &old_indices, &old_root));
}

#[test]
fn proof_for_absent_leaf_is_an_error() {
    let mut tree = CommitmentMerkleTree::new();
    tree.add_commitment(leaf(1), "a".to_string());
    assert_eq!(tree.generate_proof(leaf(9)).unwrap_err(), TreeError::LeafNotFound);
}

#[test]
fn verify_rejects_length_mismatch() {
    let siblings = vec![leaf(2)];
    let indices: Vec<u8> = Vec::new();
    assert!(!verify_commitment_merkle_proof(&leaf(1), &siblings, &indices, &leaf(3)));
}

#[test]
fn verify_rejects_wrong_root() {
    let mut tree = CommitmentMerkleTree::new();
    tree.add_commitment(leaf(1), "a".to_string());
    tree.add_commitment(leaf(2), "b".to_string());
    let (root, _) = tree.build_tree();
    let (siblings, indices) = tree.generate_proof(leaf(2)).unwrap();
    let mut wrong_root = root;
    wrong_root[0] ^= 1;
    assert!(!verify_commitment_merkle_proof(&leaf(2), &siblings, &indices, &wrong_root));
}

#[test]
fn legacy_balance_proof_verifies() {
    let address = [0xCCu8; 20];
    let balance = 777u64;
    let mut hasher = Sha256::new();
    hasher.update(b"BALANCE_LEAF");
    hasher.update(address);
    hasher.update(balance.to_le_bytes());
    let balance_leaf: [u8; 32] = hasher.finalize().into();

    let sibling = leaf(4);
    let root = node(&balance_leaf, &sibling);
    let siblings = vec![sibling];
    let indices = vec![0u8];
    assert!(verify_merkle_proof(&address, balance, &siblings, &indices, &root));
    assert!(!verify_merkle_proof(&address, balance + 1, &siblings, &indices, &root));
}

#[test]
fn user_flow_commits_and_executes() {
    let deadline = 1_735_689_600u64;
    let order = OrderData {
        wallet_address: [1u8; 20],
        token_in: [0xAu8; 20],
        token_out: [0xBu8; 20],
        amount_in: 5_000_000_000_000_000_000u64,
        min_amount_out: 10_000_000_000u64,
        target_price: 2_000_000_000u64,
        deadline,
    };
    let mut alice = User::new("Alice".to_string(), [1u8; 32], 10_000_000_000_000_000_000u64);
    let (commitment, nullifier_data) = alice.create_order(order.clone());
    assert_eq!(alice.orders.len(), 1);
    assert_eq!(alice.commitments.len(), 1);

    // the context the user commits under is the order's own hash
    let (expected_commitment, expected_data) = create_order_commitment(
        &order,
        &alice.secret,
        alice.balance,
        &hash_order(&order),
    );
    assert_eq!(commitment.nullifier, expected_commitment.nullifier);
    assert_eq!(nullifier_data.commitment_hash, expected_data.commitment_hash);
    assert_eq!(nullifier_data.nullifier_hash, expected_data.nullifier_hash);

    let mut tree = CommitmentMerkleTree::new();
    tree.add_commitment(nullifier_data.commitment_hash, "Alice".to_string());
    let (root, _) = tree.build_tree();
    let (siblings, indices) = tree.generate_proof(nullifier_data.commitment_hash).unwrap();
    assert!(verify_commitment_merkle_proof(
        &nullifier_data.commitment_hash,
        &siblings,
        &indices,
        &root,
    ));

    let market = MarketConditions {
        current_price: 2_050_000_000u64,
        block_timestamp: deadline - 1,
    };
    assert!(verify_nullifier_order(
        &commitment,
        &market,
        &nullifier_data.commitment_hash,
        &nullifier_data.nullifier_hash,
    ));
}
