//! Answers to row queries against a committed segment.
use crate::element::{coordinates_of_row, row_coordinates, Element};
use crate::matrix::row_digests;
use crate::merkle::{batch_proof_nodes, node_seqs, BatchProof};
use vstd::arithmetic::logarithm::log;
use vstd::prelude::*;

verus! {

/// The rows of a segment at the queried positions, with one batch proof that
/// opens them against the segment's commitment.
#[derive(Debug, PartialEq, Eq)]
pub struct Queries {
    /// The batch proof for the queried positions.
    pub proof: BatchProof,
    /// The queried rows, in the order of the positions, each written out in
    /// base-field coordinates.
    pub rows: Vec<Vec<u64>>,
}

/// `queries` answers the query for `positions` against a segment with the
/// given rows that is committed to by a tree over the given leaves: it holds
/// the rows at the positions, in the order of the positions, and the batch
/// proof that opens the leaves at the positions.
pub open spec fn answers<E: Element>(
    queries: Queries,
    rows: Seq<Seq<E>>,
    leaves: Seq<Seq<u8>>,
    positions: Seq<usize>,
) -> bool {
    &&& queries.rows.len() == positions.len()
    &&& forall|k: int|
        0 <= k < positions.len() ==> (#[trigger] queries.rows[k])@ == row_coordinates(
            rows[positions[k] as int],
        )
    &&& queries.proof.leaves.len() == positions.len()
    &&& forall|k: int|
        0 <= k < positions.len() ==> (#[trigger] queries.proof.leaves[k])@
            == leaves[positions[k] as int]
    &&& node_seqs(queries.proof.nodes@) == batch_proof_nodes(leaves, positions)
    &&& queries.proof.depth == log(2, leaves.len() as int)
}

/// In an answer against a tree that was built over the digests of the
/// segment's rows, every returned row comes with the leaf that is its own
/// digest: hashing the row gives the leaf that the proof opens.
pub proof fn lemma_opened_leaves_are_row_digests<E: Element>(
    queries: Queries,
    rows: Seq<Seq<E>>,
    positions: Seq<usize>,
)
    requires
        answers(queries, rows, row_digests::<E>(rows), positions),
        forall|k: int| 0 <= k < positions.len() ==> positions[k] < rows.len(),
    ensures
        queries.rows.len() == positions.len(),
        queries.proof.leaves.len() == positions.len(),
        forall|k: int|
            #![trigger positions[k]]
            0 <= k < positions.len() ==> {
                &&& queries.rows[k]@ == row_coordinates(rows[positions[k] as int])
                &&& queries.proof.leaves[k]@ == E::row_digest(rows[positions[k] as int])
            },
{
}

impl Queries {
    /// Bundles a batch proof with the rows that it opens, writing each row
    /// out in base-field coordinates.
    pub fn new<E: Element>(proof: BatchProof, states: Vec<Vec<E>>) -> (queries: Queries)
        ensures
            queries.proof == proof,
            queries.rows.len() == states.len(),
            forall|k: int|
                0 <= k < states.len() ==> (#[trigger] queries.rows[k])@ == row_coordinates(
                    states[k]@,
                ),
    {
        let mut rows: Vec<Vec<u64>> = Vec::new();
        let mut k: usize = 0;
        while k < states.len()
            invariant
                k <= states.len(),
                rows.len() == k,
                forall|i: int| 0 <= i < k ==> (#[trigger] rows[i])@ == row_coordinates(states[i]@),
            decreases states.len() - k,
        {
            rows.push(coordinates_of_row(states[k].as_slice()));
            k = k + 1;
        }
        Queries { proof, rows }
    }
}

} // verus!
