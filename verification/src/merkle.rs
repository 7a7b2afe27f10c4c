//! Append-only Merkle tree over commitment hashes, its proof generator, and
//! the bottom-up proof verifiers. The tree is rebuilt deterministically from
//! the leaf sequence on every query; nothing is memoized, so every answer is
//! consistent with the current leaves.

use crate::bytes_util::{bytes32_eq, push_bytes, push_u64_le};
use crate::hashing::{
    sha256_of, tag_balance_leaf, tag_balance_leaf_buf, tag_merkle_node, tag_merkle_node_buf,
};
use vstd::bytes::spec_u64_to_le_bytes;
use vstd::prelude::*;

verus! {

/// An internal node: the `MERKLE_NODE`-tagged hash of left then right child.
pub open spec fn node_hash(left: Seq<u8>, right: Seq<u8>) -> Seq<u8> {
    sha256_of(tag_merkle_node() + left + right)
}

/// The legacy balance leaf: the `BALANCE_LEAF`-tagged hash of an address and
/// a little-endian balance.
pub open spec fn balance_leaf_of(address: Seq<u8>, balance: u64) -> Seq<u8> {
    sha256_of(tag_balance_leaf() + address + spec_u64_to_le_bytes(balance))
}

/// One verification step: bit 0 hashes current‖sibling, any other bit hashes
/// sibling‖current.
pub open spec fn path_step(current: Seq<u8>, sibling: Seq<u8>, bit: u8) -> Seq<u8> {
    if bit == 0 {
        node_hash(current, sibling)
    } else {
        node_hash(sibling, current)
    }
}

/// Folds a sibling path bottom-up from a leaf, one `path_step` per level.
pub open spec fn fold_path(leaf: Seq<u8>, siblings: Seq<Seq<u8>>, bits: Seq<u8>) -> Seq<u8>
    recommends
        siblings.len() == bits.len(),
    decreases siblings.len(),
{
    if siblings.len() == 0 {
        leaf
    } else {
        path_step(
            fold_path(leaf, siblings.drop_last(), bits.drop_last()),
            siblings.last(),
            bits.last(),
        )
    }
}

/// The byte sequences of a sequence of 32-byte digests.
pub open spec fn views(s: Seq<[u8; 32]>) -> Seq<Seq<u8>> {
    s.map_values(|a: [u8; 32]| a@)
}

/// The nested byte sequences of a sequence of digest vectors.
pub open spec fn levels_views(s: Seq<Vec<[u8; 32]>>) -> Seq<Seq<Seq<u8>>> {
    s.map_values(|v: Vec<[u8; 32]>| views(v@))
}

/// The level above `level`: adjacent nodes are paired in order, and an odd
/// final node is paired with itself.
pub open spec fn next_level(level: Seq<Seq<u8>>) -> Seq<Seq<u8>> {
    Seq::new(
        ((level.len() + 1) / 2) as nat,
        |i: int|
            if 2 * i + 1 < level.len() {
                node_hash(level[2 * i], level[2 * i + 1])
            } else {
                node_hash(level[2 * i], level[2 * i])
            },
    )
}

/// All levels of the tree built over `level`, bottom first, ending with the
/// single root node.
pub open spec fn levels_of(level: Seq<Seq<u8>>) -> Seq<Seq<Seq<u8>>>
    decreases level.len(),
{
    if level.len() <= 1 {
        seq![level]
    } else {
        seq![level] + levels_of(next_level(level))
    }
}

/// The all-zero digest: the root of an empty tree.
pub open spec fn zero_digest() -> Seq<u8> {
    Seq::new(32, |i: int| 0u8)
}

/// The root of the tree over a leaf sequence.
pub open spec fn tree_root(leaves: Seq<Seq<u8>>) -> Seq<u8> {
    if leaves.len() == 0 {
        zero_digest()
    } else {
        levels_of(leaves).last()[0]
    }
}

/// Whether `leaf` occurs in the leaf sequence.
pub open spec fn has_leaf(leaves: Seq<Seq<u8>>, leaf: Seq<u8>) -> bool {
    exists|i: int| 0 <= i < leaves.len() && leaves[i] == leaf
}

/// Shape of the level stack: at least one level, leaves at the bottom, each
/// level above the next-level of the one below, a single node on top.
pub proof fn lemma_levels_of(level: Seq<Seq<u8>>)
    requires
        level.len() >= 1,
    ensures
        levels_of(level).len() >= 1,
        levels_of(level)[0] == level,
        levels_of(level).last().len() == 1,
        forall|k: int|
            0 <= k < levels_of(level).len() - 1 ==> (#[trigger] levels_of(level)[k]).len() >= 2
                && levels_of(level)[k + 1] == next_level(levels_of(level)[k]),
    decreases level.len(),
{
    if level.len() <= 1 {
    } else {
        let nl = next_level(level);
        assert(nl.len() == (level.len() + 1) / 2);
        assert(nl.len() >= 1);
        lemma_levels_of(nl);
        let ls = levels_of(level);
        assert(ls == seq![level] + levels_of(nl));
        assert(ls.last() == levels_of(nl).last());
        assert forall|k: int|
            0 <= k < ls.len() - 1 implies (#[trigger] ls[k]).len() >= 2 && ls[k + 1] == next_level(
            ls[k],
        ) by {
            if k == 0 {
                assert(ls[0] == level);
                assert(ls[1] == levels_of(nl)[0]);
            } else {
                assert(ls[k] == levels_of(nl)[k - 1]);
                assert(ls[k + 1] == levels_of(nl)[k]);
            }
        }
    }
}

/// Error surfaced by proof generation.
#[derive(Clone, Copy, Debug, PartialEq, Eq)]
pub enum TreeError {
    /// The requested leaf is absent from the tree.
    LeafNotFound,
}

/// Append-only Merkle tree over commitment hashes, with an opaque label per
/// leaf for bookkeeping. Leaf order is insertion order; leaves are never
/// reordered or removed.
pub struct CommitmentMerkleTree {
    leaves: Vec<[u8; 32]>,
    users: Vec<String>,
}

impl CommitmentMerkleTree {
    /// The ordered leaf byte sequences.
    pub closed spec fn leaves_view(&self) -> Seq<Seq<u8>> {
        views(self.leaves@)
    }

    /// The ordered labels, parallel to the leaves.
    pub closed spec fn users_view(&self) -> Seq<Seq<char>> {
        self.users@.map_values(|s: String| s@)
    }

    /// One label per leaf.
    pub open spec fn wf(&self) -> bool {
        self.leaves_view().len() == self.users_view().len()
    }

    /// Creates an empty tree.
    pub fn new() -> (r: CommitmentMerkleTree)
        ensures
            r.wf(),
            r.leaves_view() == Seq::<Seq<u8>>::empty(),
            r.users_view() == Seq::<Seq<char>>::empty(),
    {
        let r = CommitmentMerkleTree { leaves: Vec::new(), users: Vec::new() };
        assert(r.leaves_view() =~= Seq::<Seq<u8>>::empty());
        assert(r.users_view() =~= Seq::<Seq<char>>::empty());
        r
    }

    /// Appends a commitment hash with its label. The existing leaves keep
    /// their positions: the tree only grows.
    pub fn add_commitment(&mut self, commitment_hash: [u8; 32], user_name: String)
        requires
            old(self).wf(),
        ensures
            final(self).wf(),
            final(self).leaves_view() == old(self).leaves_view().push(commitment_hash@),
            final(self).users_view() == old(self).users_view().push(user_name@),
    {
        self.leaves.push(commitment_hash);
        self.users.push(user_name);
        assert(self.leaves_view() =~= old(self).leaves_view().push(commitment_hash@));
        assert(self.users_view() =~= old(self).users_view().push(user_name@));
    }

    /// Hashes an adjacent pair into its parent node.
    pub fn hash_pair(&self, left: [u8; 32], right: [u8; 32]) -> (r: [u8; 32])
        ensures
            r@ == node_hash(left@, right@),
    {
        hash_nodes(&left, &right)
    }

    /// Rebuilds the whole tree from the current leaves and returns the root
    /// with every level, bottom first. The result is a function of the leaf
    /// sequence alone, so building the same leaves twice yields the same
    /// root and the same levels.
    pub fn build_tree(&self) -> (r: ([u8; 32], Vec<Vec<[u8; 32]>>))
        ensures
            r.0@ == tree_root(self.leaves_view()),
            self.leaves_view().len() == 0 ==> r.1@.len() == 0,
            self.leaves_view().len() > 0 ==> levels_views(r.1@) == levels_of(self.leaves_view()),
    {
        if self.leaves.len() == 0 {
            let root = [0u8; 32];
            assert(root@ =~= zero_digest());
            return (root, Vec::new());
        }
        let ghost lvs = levels_of(self.leaves_view());
        proof {
            lemma_levels_of(self.leaves_view());
        }
        let mut tree_levels: Vec<Vec<[u8; 32]>> = Vec::new();
        tree_levels.push(copy_digests(&self.leaves));
        let mut current_level: Vec<[u8; 32]> = copy_digests(&self.leaves);
        proof {
            assert(levels_views(tree_levels@) =~~= lvs.take(1));
        }
        while current_level.len() > 1
            invariant
                lvs == levels_of(self.leaves_view()),
                self.leaves_view().len() >= 1,
                1 <= tree_levels@.len() <= lvs.len(),
                levels_views(tree_levels@) == lvs.take(tree_levels@.len() as int),
                views(current_level@) == lvs[tree_levels@.len() - 1],
                current_level@.len() >= 1,
            decreases current_level@.len(),
        {
            proof {
                lemma_levels_of(self.leaves_view());
                // more than one node left, so this is not the top level
                assert(tree_levels@.len() - 1 < lvs.len() - 1);
            }
            let n = current_level.len();
            let ghost cv = views(current_level@);
            let half = n / 2 + n % 2;
            assert(half == (n + 1) / 2 && half >= 1);
            let mut next: Vec<[u8; 32]> = Vec::new();
            let mut j: usize = 0;
            while j < half
                invariant
                    n == current_level@.len(),
                    n >= 2,
                    cv == views(current_level@),
                    half == (n + 1) / 2,
                    j <= half,
                    views(next@) == next_level(cv).take(j as int),
                decreases half - j,
            {
                proof {
                    assert(n == 2 * (n / 2) + n % 2);
                    assert(2 * j <= n - 1);
                }
                let li = 2 * j;
                let left = current_level[li];
                let right = if li + 1 < n {
                    current_level[li + 1]
                } else {
                    left
                };
                let parent = hash_nodes(&left, &right);
                proof {
                    assert(parent@ == next_level(cv)[j as int]);
                    assert(next_level(cv).take(j + 1) =~= next_level(cv).take(j as int).push(
                        next_level(cv)[j as int],
                    ));
                }
                next.push(parent);
                j += 1;
            }
            proof {
                assert(views(next@) =~= next_level(cv));
                assert(next_level(cv) == lvs[tree_levels@.len() as int]);
            }
            let next_copy = copy_digests(&next);
            tree_levels.push(next_copy);
            proof {
                assert(levels_views(tree_levels@) =~~= lvs.take(tree_levels@.len() as int));
            }
            current_level = next;
        }
        proof {
            lemma_levels_of(self.leaves_view());
            // a single node left: this is the top level
            assert(tree_levels@.len() - 1 == lvs.len() - 1);
            assert(levels_views(tree_levels@) =~~= lvs);
        }
        let root = current_level[0];
        (root, tree_levels)
    }

    /// Finds some index holding the target leaf.
    fn find_leaf(&self, target: &[u8; 32]) -> (r: Option<usize>)
        ensures
            match r {
                Some(i) => i < self.leaves_view().len() && self.leaves_view()[i as int] == target@,
                None => !has_leaf(self.leaves_view(), target@),
            },
    {
        let n = self.leaves.len();
        let mut i: usize = 0;
        while i < n
            invariant
                n == self.leaves_view().len(),
                i <= n,
                forall|k: int| 0 <= k < i ==> self.leaves_view()[k] != target@,
            decreases n - i,
        {
            if bytes32_eq(&self.leaves[i], target) {
                return Some(i);
            }
            i += 1;
        }
        None
    }

    /// Locates the leaf and records, bottom to top, the sibling value and a
    /// bit saying whether the current node is a left (0) or right (1) child;
    /// where the sibling position falls past the level's end, the node
    /// itself is recorded. The returned path folds to the current root, so a
    /// freshly generated proof always passes `verify_commitment_merkle_proof`
    /// against the freshly built root — and a proof regenerated after more
    /// leaves were appended folds to the then-current root just the same,
    /// since the leaf keeps its place.
    #[verifier::rlimit(50)]
    pub fn generate_proof(&self, commitment_hash: [u8; 32]) -> (r: Result<
        (Vec<[u8; 32]>, Vec<u8>),
        TreeError,
    >)
        ensures
            r is Ok <==> has_leaf(self.leaves_view(), commitment_hash@),
            r matches Ok(p) ==> {
                &&& p.0@.len() == p.1@.len()
                &&& p.1@.len() == levels_of(self.leaves_view()).len() - 1
                &&& forall|k: int| 0 <= k < p.1@.len() ==> p.1@[k] == 0 || p.1@[k] == 1
                &&& fold_path(commitment_hash@, views(p.0@), p.1@) == tree_root(self.leaves_view())
            },
    {
        let leaf_index = match self.find_leaf(&commitment_hash) {
            Some(i) => i,
            None => {
                return Err(TreeError::LeafNotFound);
            },
        };
        assert(has_leaf(self.leaves_view(), commitment_hash@));
        let (_, tree_levels) = self.build_tree();
        let ghost lvs = levels_of(self.leaves_view());
        proof {
            lemma_levels_of(self.leaves_view());
        }
        let num_levels = tree_levels.len();
        let mut siblings: Vec<[u8; 32]> = Vec::new();
        let mut indices: Vec<u8> = Vec::new();
        let mut current_index = leaf_index;
        let mut level: usize = 0;
        while level < num_levels - 1
            invariant
                lvs == levels_of(self.leaves_view()),
                self.leaves_view().len() >= 1,
                levels_views(tree_levels@) == lvs,
                num_levels == lvs.len(),
                level <= num_levels - 1,
                current_index < lvs[level as int].len(),
                siblings@.len() == level,
                indices@.len() == level,
                forall|k: int| 0 <= k < indices@.len() ==> indices@[k] == 0 || indices@[k] == 1,
                fold_path(commitment_hash@, views(siblings@), indices@) == lvs[level as int][current_index as int],
            decreases num_levels - 1 - level,
        {
            proof {
                lemma_levels_of(self.leaves_view());
            }
            let ghost cur_level = lvs[level as int];
            let len_here = tree_levels[level].len();
            assert(len_here == cur_level.len());
            assert(cur_level.len() >= 2);
            let sibling_index = if current_index % 2 == 0 {
                current_index + 1
            } else {
                current_index - 1
            };
            let sibling = if sibling_index < len_here {
                tree_levels[level][sibling_index]
            } else {
                tree_levels[level][current_index]
            };
            let bit = (current_index % 2) as u8;
            proof {
                let half = current_index as int / 2;
                assert(current_index == 2 * half + current_index % 2);
                let nxt = next_level(cur_level);
                if current_index % 2 == 0 {
                    if sibling_index < len_here {
                        assert(nxt[half] == node_hash(cur_level[current_index as int], sibling@));
                    } else {
                        assert(sibling@ == cur_level[current_index as int]);
                        assert(nxt[half] == node_hash(sibling@, sibling@));
                    }
                } else {
                    assert(2 * half + 1 == current_index);
                    assert(nxt[half] == node_hash(sibling@, cur_level[current_index as int]));
                }
                assert(path_step(lvs[level as int][current_index as int], sibling@, bit) == nxt[half]);
                assert(views(siblings@.push(sibling)).drop_last() =~= views(siblings@));
                assert(indices@.push(bit).drop_last() =~= indices@);
                assert(views(siblings@.push(sibling)).last() == sibling@);
                assert(lvs[level as int + 1] == nxt);
                assert(half < nxt.len());
            }
            siblings.push(sibling);
            indices.push(bit);
            current_index = current_index / 2;
            level += 1;
        }
        proof {
            lemma_levels_of(self.leaves_view());
            assert(level == lvs.len() - 1);
            assert(lvs.last().len() == 1);
            assert(current_index == 0);
            assert(fold_path(commitment_hash@, views(siblings@), indices@) == tree_root(
                self.leaves_view(),
            ));
        }
        Ok((siblings, indices))
    }
}

/// Copies a digest vector.
fn copy_digests(v: &Vec<[u8; 32]>) -> (r: Vec<[u8; 32]>)
    ensures
        r@ == v@,
{
    let n = v.len();
    let mut r: Vec<[u8; 32]> = Vec::new();
    let mut i: usize = 0;
    while i < n
        invariant
            n == v@.len(),
            i <= n,
            r@ == v@.take(i as int),
        decreases n - i,
    {
        r.push(v[i]);
        assert(v@.take(i + 1) =~= v@.take(i as int).push(v@[i as int]));
        i += 1;
    }
    assert(v@.take(n as int) =~= v@);
    r
}

/// Hashes two child nodes into their `MERKLE_NODE`-tagged parent.
fn hash_nodes(left: &[u8; 32], right: &[u8; 32]) -> (r: [u8; 32])
    ensures
        r@ == node_hash(left@, right@),
{
    let mut msg = tag_merkle_node_buf();
    push_bytes(&mut msg, left);
    push_bytes(&mut msg, right);
    assert(msg@ =~= tag_merkle_node() + left@ + right@);
    crate::hashing::sha256_digest(&msg)
}

/// Folds a sibling path bottom-up from `leaf`, one step per level.
fn fold_proof(leaf: &[u8; 32], siblings: &Vec<[u8; 32]>, indices: &Vec<u8>) -> (r: [u8; 32])
    requires
        siblings@.len() == indices@.len(),
    ensures
        r@ == fold_path(leaf@, views(siblings@), indices@),
{
    let mut current_hash: [u8; 32] = *leaf;
    let n = siblings.len();
    let mut i: usize = 0;
    while i < n
        invariant
            n == siblings@.len(),
            n == indices@.len(),
            i <= n,
            current_hash@ == fold_path(leaf@, views(siblings@).take(i as int), indices@.take(
                i as int,
            )),
        decreases n - i,
    {
        let sibling = siblings[i];
        if indices[i] == 0 {
            current_hash = hash_nodes(&current_hash, &sibling);
        } else {
            current_hash = hash_nodes(&sibling, &current_hash);
        }
        proof {
            assert(views(siblings@).take(i + 1).drop_last() =~= views(siblings@).take(i as int));
            assert(indices@.take(i + 1).drop_last() =~= indices@.take(i as int));
            assert(views(siblings@).take(i + 1).last() == siblings@[i as int]@);
            assert(indices@.take(i + 1).last() == indices@[i as int]);
        }
        i += 1;
    }
    proof {
        assert(views(siblings@).take(n as int) =~= views(siblings@));
        assert(indices@.take(n as int) =~= indices@);
    }
    current_hash
}

/// Verifies a Merkle proof for a commitment-hash leaf: the sibling and bit
/// lists must have equal length, and the bottom-up fold must reach the
/// expected root. Identical off-chain and inside the proof backend.
pub fn verify_commitment_merkle_proof(
    commitment_hash: &[u8; 32],
    siblings: &Vec<[u8; 32]>,
    indices: &Vec<u8>,
    expected_root: &[u8; 32],
) -> (r: bool)
    ensures
        r == (siblings@.len() == indices@.len() && fold_path(
            commitment_hash@,
            views(siblings@),
            indices@,
        ) == expected_root@),
{
    if siblings.len() != indices.len() {
        return false;
    }
    let current_hash = fold_proof(commitment_hash, siblings, indices);
    bytes32_eq(&current_hash, expected_root)
}

/// Legacy verifier kept for backward compatibility with the older balance
/// tree: the leaf is the `BALANCE_LEAF`-tagged hash of address and balance,
/// folded exactly as a commitment proof is.
pub fn verify_merkle_proof(
    address: &[u8; 20],
    balance: u64,
    siblings: &Vec<[u8; 32]>,
    indices: &Vec<u8>,
    expected_root: &[u8; 32],
) -> (r: bool)
    ensures
        r == (siblings@.len() == indices@.len() && fold_path(
            balance_leaf_of(address@, balance),
            views(siblings@),
            indices@,
        ) == expected_root@),
{
    if siblings.len() != indices.len() {
        return false;
    }
    let mut msg = tag_balance_leaf_buf();
    push_bytes(&mut msg, address);
    push_u64_le(&mut msg, balance);
    assert(msg@ =~= tag_balance_leaf() + address@ + spec_u64_to_le_bytes(balance));
    let leaf = crate::hashing::sha256_digest(&msg);
    let current_hash = fold_proof(&leaf, siblings, indices);
    bytes32_eq(&current_hash, expected_root)
}

/// Law: a leaf just appended is a member of the new leaf sequence; with the
/// contract of `generate_proof`, proof generation for it succeeds and the
/// returned path folds to the freshly built root, which is exactly what
/// `verify_commitment_merkle_proof` checks.
pub proof fn lemma_appended_leaf_member(leaves: Seq<Seq<u8>>, leaf: Seq<u8>)
    ensures
        has_leaf(leaves.push(leaf), leaf),
{
    assert(leaves.push(leaf)[leaves.len() as int] == leaf);
}

/// Law: growth does not break old members. A leaf present before an append
/// is still present after it, so a proof regenerated by `generate_proof`
/// against the new root keeps verifying.
pub proof fn lemma_member_preserved_by_append(leaves: Seq<Seq<u8>>, leaf: Seq<u8>, appended: Seq<u8>)
    requires
        has_leaf(leaves, leaf),
    ensures
        has_leaf(leaves.push(appended), leaf),
{
    let i = choose|i: int| 0 <= i < leaves.len() && leaves[i] == leaf;
    assert(leaves.push(appended)[i] == leaf);
}

/// Law: with three leaves, the odd level pads by duplicating its last node,
/// so the root is the hash of the pair over (leaf 0, leaf 1) and the
/// self-pair over leaf 2.
pub proof fn lemma_three_leaf_root(l0: Seq<u8>, l1: Seq<u8>, l2: Seq<u8>)
    ensures
        tree_root(seq![l0, l1, l2]) == node_hash(node_hash(l0, l1), node_hash(l2, l2)),
{
    let level0 = seq![l0, l1, l2];
    let level1 = next_level(level0);
    let level2 = next_level(level1);
    assert(level1 =~= seq![node_hash(l0, l1), node_hash(l2, l2)]);
    assert(level2 =~= seq![node_hash(node_hash(l0, l1), node_hash(l2, l2))]);
    assert(levels_of(level2) == seq![level2]);
    assert(levels_of(level1) == seq![level1] + levels_of(level2));
    assert(levels_of(level0) == seq![level0] + levels_of(level1));
    assert(levels_of(level0).last() == level2);
}

} // verus!
