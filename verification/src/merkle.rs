//! Merkle commitments to the rows of an extended segment.
//!
//! The tree is a `winter_crypto::MerkleTree` over BLAKE3 digests. Its nodes
//! are hidden; what the library knows of a tree is the sequence of its
//! leaves, and everything else is stated over that sequence.
use vstd::arithmetic::logarithm::log;
use vstd::arithmetic::power2::is_pow2;
use vstd::prelude::*;
use winter_crypto::hashers::Blake3_256;
use winter_crypto::{Digest, Hasher, MerkleTree, MerkleTreeError};
use winter_math::fields::f62::BaseElement;

verus! {

/// The largest number of positions that one batch proof can open.
pub const MAX_OPENINGS: usize = 255;

/// The error type of `winter_crypto::MerkleTree`.
#[verifier::external_type_specification]
#[verifier::external_body]
pub struct ExMerkleTreeError(MerkleTreeError);

/// A Merkle tree over the row digests of one segment.
#[verifier::external_body]
pub struct SegmentTree {
    inner: MerkleTree<Blake3_256<BaseElement>>,
}

/// The leaves of a tree, in order, each as its bytes.
pub uninterp spec fn tree_leaves(tree: SegmentTree) -> Seq<Seq<u8>>;

/// The root that `winter_crypto::MerkleTree::root` returns for a tree built
/// over the given leaves.
pub uninterp spec fn merkle_root(leaves: Seq<Seq<u8>>) -> Seq<u8>;

/// The internal nodes that `winter_crypto::MerkleTree::prove_batch` puts into
/// the proof that opens the given positions of a tree over the given leaves.
pub uninterp spec fn batch_proof_nodes(leaves: Seq<Seq<u8>>, positions: Seq<usize>) -> Seq<
    Seq<Seq<u8>>,
>;

/// A sequence of digests, each as its bytes.
pub open spec fn digest_seqs(digests: Seq<[u8; 32]>) -> Seq<Seq<u8>> {
    Seq::new(digests.len(), |i: int| digests[i]@)
}

/// The lists of digests of a proof's node layers, each digest as its bytes.
pub open spec fn node_seqs(nodes: Seq<Vec<[u8; 32]>>) -> Seq<Seq<Seq<u8>>> {
    Seq::new(nodes.len(), |i: int| digest_seqs(nodes[i]@))
}

/// The positions that one batch proof can open in a tree with `num_leaves`
/// leaves: at least one and at most 255 of them, each within the tree, none
/// twice.
pub open spec fn openable(positions: Seq<usize>, num_leaves: nat) -> bool {
    &&& 1 <= positions.len() <= MAX_OPENINGS
    &&& forall|k: int| 0 <= k < positions.len() ==> positions[k] < num_leaves
    &&& positions.no_duplicates()
}

/// Why no tree can be built over a list of leaves.
#[derive(Clone, Copy, Debug, PartialEq, Eq)]
pub enum TreeError {
    /// There are fewer than two leaves.
    TooFewLeaves,
    /// The number of leaves is not a power of two.
    NotPowerOfTwo,
}

/// Merkle paths to several leaves of one tree, merged into one proof.
#[derive(Debug, PartialEq, Eq)]
pub struct BatchProof {
    /// The leaves that are opened, in the order of the positions asked for.
    pub leaves: Vec<[u8; 32]>,
    /// The internal nodes that the paths need, without repetitions.
    pub nodes: Vec<Vec<[u8; 32]>>,
    /// The depth of the tree.
    pub depth: u8,
}

/// Calls `winter_crypto::MerkleTree::new`, which fails on fewer than two
/// leaves and on a number of leaves that is not a power of two, and else
/// keeps the leaves as they were given.
#[verifier::external_body]
fn build_tree(leaves: Vec<[u8; 32]>) -> (r: Result<SegmentTree, MerkleTreeError>)
    ensures
        r.is_ok() == (leaves.len() >= 2 && is_pow2(leaves.len() as int)),
        r matches Ok(tree) ==> tree_leaves(tree) == digest_seqs(leaves@),
{
    let digests = leaves.into_iter().map(
        <<Blake3_256<BaseElement> as Hasher>::Digest>::new,
    ).collect();
    MerkleTree::new(digests).map(|inner| SegmentTree { inner })
}

/// Calls `winter_crypto::MerkleTree::root` and gives the digest as bytes.
#[verifier::external_body]
fn tree_root(tree: &SegmentTree) -> (root: [u8; 32])
    ensures
        root@ == merkle_root(tree_leaves(*tree)),
{
    tree.inner.root().as_bytes()
}

/// Calls `winter_crypto::MerkleTree::depth`, which is the binary logarithm of
/// the number of leaves.
#[verifier::external_body]
fn tree_depth(tree: &SegmentTree) -> (depth: usize)
    ensures
        depth == log(2, tree_leaves(*tree).len() as int),
{
    tree.inner.depth()
}

/// Calls `winter_crypto::MerkleTree::prove_batch`. It fails when no position
/// or more than 255 are given, when one lies outside the tree, and when one
/// is given twice. Else the proof holds the leaves at the positions, in the
/// order given, and the depth of the tree.
#[verifier::external_body]
fn tree_prove_batch(tree: &SegmentTree, positions: &[usize]) -> (r: Result<
    BatchProof,
    MerkleTreeError,
>)
    ensures
        r.is_ok() == openable(positions@, tree_leaves(*tree).len()),
        r matches Ok(proof) ==> {
            &&& proof.leaves.len() == positions.len()
            &&& forall|k: int|
                0 <= k < positions.len() ==> #[trigger] proof.leaves[k]@ == tree_leaves(
                    *tree,
                )[positions[k] as int]
            &&& node_seqs(proof.nodes@) == batch_proof_nodes(tree_leaves(*tree), positions@)
            &&& proof.depth == log(2, tree_leaves(*tree).len() as int)
        },
{
    tree.inner.prove_batch(positions).map(
        |p| BatchProof {
            leaves: p.leaves.iter().map(Digest::as_bytes).collect(),
            nodes: p.nodes.iter().map(|n| n.iter().map(Digest::as_bytes).collect()).collect(),
            depth: p.depth,
        },
    )
}

impl SegmentTree {
    /// The leaves of the tree.
    pub open spec fn leaves(&self) -> Seq<Seq<u8>> {
        tree_leaves(*self)
    }

    /// The root of the tree.
    pub open spec fn spec_root(&self) -> Seq<u8> {
        merkle_root(self.leaves())
    }

    /// The depth of the tree.
    pub open spec fn spec_depth(&self) -> int {
        log(2, self.leaves().len() as int)
    }

    /// Builds the tree over the given leaves. There must be at least two of
    /// them, and their number must be a power of two.
    pub fn new(leaves: Vec<[u8; 32]>) -> (r: Result<SegmentTree, TreeError>)
        ensures
            r.is_ok() == (leaves.len() >= 2 && is_pow2(leaves.len() as int)),
            r matches Ok(tree) ==> tree.leaves() == digest_seqs(leaves@),
            r matches Err(e) ==> e == (if leaves.len() < 2 {
                TreeError::TooFewLeaves
            } else {
                TreeError::NotPowerOfTwo
            }),
    {
        let n: usize = leaves.len();
        match build_tree(leaves) {
            Ok(tree) => Ok(tree),
            Err(_) => if n < 2 {
                Err(TreeError::TooFewLeaves)
            } else {
                Err(TreeError::NotPowerOfTwo)
            },
        }
    }

    /// The root digest, which commits to all the leaves.
    pub fn root(&self) -> (root: [u8; 32])
        ensures
            root@ == self.spec_root(),
    {
        tree_root(self)
    }

    /// The number of levels below the root.
    pub fn depth(&self) -> (depth: usize)
        ensures
            depth == self.spec_depth(),
    {
        tree_depth(self)
    }

    /// Opens the leaves at the given positions with one batch proof.
    pub fn prove_batch(&self, positions: &[usize]) -> (proof: BatchProof)
        requires
            openable(positions@, self.leaves().len()),
        ensures
            proof.leaves.len() == positions.len(),
            forall|k: int|
                0 <= k < positions.len() ==> #[trigger] proof.leaves[k]@ == self.leaves()[positions[k] as int],
            node_seqs(proof.nodes@) == batch_proof_nodes(self.leaves(), positions@),
            proof.depth == self.spec_depth(),
    {
        match tree_prove_batch(self, positions) {
            Ok(proof) => proof,
            Err(_) => vstd::pervasive::unreached(),
        }
    }
}

/// Tells whether one batch proof can open the given positions in a tree with
/// `num_leaves` leaves.
pub fn can_open(positions: &[usize], num_leaves: usize) -> (b: bool)
    ensures
        b == openable(positions@, num_leaves as nat),
{
    let n: usize = positions.len();
    if n < 1 || n > MAX_OPENINGS {
        return false;
    }
    let mut i: usize = 0;
    while i < n
        invariant
            i <= n,
            n == positions.len(),
            forall|k: int| 0 <= k < i ==> positions[k] < num_leaves,
            forall|a: int, b: int| 0 <= a < b < i ==> positions[a] != positions[b],
        decreases n - i,
    {
        if positions[i] >= num_leaves {
            return false;
        }
        let mut j: usize = 0;
        while j < i
            invariant
                j <= i,
                i < n,
                n == positions.len(),
                forall|a: int| 0 <= a < j ==> positions[a] != positions[i as int],
            decreases i - j,
        {
            if positions[j] == positions[i] {
                return false;
            }
            j = j + 1;
        }
        i = i + 1;
    }
    true
}

} // verus!
