//! The extended trace with its commitments.
use crate::domain::StarkDomain;
use crate::element::Element;
use crate::frame::EvaluationFrame;
use crate::matrix::{
    extended_rows, extends, interpolated_columns, interpolates, row_digests, valid_rows,
    ColMatrix, RowMatrix,
};
use crate::merkle::{merkle_root, openable, SegmentTree};
use crate::poly_table::TracePolyTable;
use crate::power::lemma_pow2_of_log2;
use crate::queries::{answers, Queries};
use crate::trace_info::{TraceInfo, TraceLayout};
use vstd::arithmetic::div_mod::{lemma_mod_multiples_basic, lemma_mod_self_0, lemma_small_mod};
use vstd::arithmetic::logarithm::{lemma_log_nonnegative, lemma_log_s, log};
use vstd::arithmetic::power2::{is_pow2, pow2};
use vstd::prelude::*;
use vstd::slice::slice_to_vec;

verus! {

/// The step whose row follows the row at `lde_step` in the trace. One step
/// of the trace is `blowup` rows of the extended trace, and the step after
/// the last is the first: the domain is cyclic.
pub open spec fn next_lde_step(lde_step: int, blowup: int, trace_len: int) -> int {
    (lde_step + blowup) % trace_len
}

/// The last step of the trace is followed by the first: in a trace of
/// `trace_length` steps that is extended by the factor `blowup`, the step
/// after `(trace_length - 1) * blowup` is step zero.
pub proof fn lemma_last_step_wraps(trace_length: int, blowup: int)
    requires
        trace_length >= 1,
        blowup >= 1,
    ensures
        next_lde_step((trace_length - 1) * blowup, blowup, trace_length * blowup) == 0,
{
    assert((trace_length - 1) * blowup + blowup == trace_length * blowup) by (nonlinear_arith);
    lemma_mod_self_0(trace_length * blowup);
}

/// The first step of a trace of at least two steps is followed by the step
/// `blowup`.
pub proof fn lemma_first_step_advances(trace_length: int, blowup: int)
    requires
        trace_length >= 2,
        blowup >= 1,
    ensures
        next_lde_step(0, blowup, trace_length * blowup) == blowup,
{
    assert(blowup < trace_length * blowup) by (nonlinear_arith)
        requires
            trace_length >= 2,
            blowup >= 1,
    ;
    lemma_small_mod(blowup as nat, (trace_length * blowup) as nat);
}

/// Computes the step that follows `lde_step`.
pub fn next_step(lde_step: usize, blowup: usize, trace_len: usize) -> (next: usize)
    requires
        trace_len > 0,
    ensures
        next == next_lde_step(lde_step as int, blowup as int, trace_len as int),
        next < trace_len,
{
    ((lde_step as u128 + blowup as u128) % (trace_len as u128)) as usize
}

/// Reads the row of an extended segment at `lde_step` and the row that
/// follows it in the trace into the frame.
pub fn read_frame_into<E: Copy>(
    segment: &RowMatrix<E>,
    blowup: usize,
    lde_step: usize,
    frame: &mut EvaluationFrame<E>,
)
    requires
        segment.wf(),
        lde_step < segment.spec_num_rows(),
        old(frame).wf(),
        old(frame).spec_width() == segment.spec_num_cols(),
    ensures
        final(frame).spec_current() == segment@[lde_step as int],
        final(frame).spec_next() == segment@[next_lde_step(
            lde_step as int,
            blowup as int,
            segment.spec_num_rows(),
        )],
{
    let next_lde_step = next_step(lde_step, blowup, segment.num_rows());
    frame.copy_current_from(segment.row(lde_step));
    frame.copy_next_from(segment.row(next_lde_step));
}

/// Why an auxiliary segment cannot be added to an extended trace.
#[derive(Clone, Copy, Debug, PartialEq, Eq)]
pub enum AuxSegmentError {
    /// The segment has another number of rows than the trace domain has
    /// points.
    DomainMismatch,
    /// The layout declares no more auxiliary segments than have been added.
    TooManySegments,
    /// The extended segment would have another number of rows than the
    /// extended main segment.
    RowCountMismatch,
}

/// All segments of an extended trace, the commitments to them, the blowup
/// factor, and the description of the trace.
///
/// The main segment is there from the start; its elements are in the base
/// field. Auxiliary segments are added later, one at a time, up to the
/// number that the layout declares.
pub struct DefaultTraceLde<E> {
    main_segment_lde: RowMatrix<u64>,
    main_segment_tree: SegmentTree,
    aux_segment_ldes: Vec<RowMatrix<E>>,
    aux_segment_trees: Vec<SegmentTree>,
    blowup: usize,
    trace_info: TraceInfo,
}

impl<E: Element + Copy> DefaultTraceLde<E> {
    /// The rows of the extended main segment.
    pub closed spec fn spec_main_segment(&self) -> Seq<Seq<u64>> {
        self.main_segment_lde@
    }

    /// The number of columns of the main segment.
    pub closed spec fn spec_main_segment_width(&self) -> int {
        self.main_segment_lde.spec_num_cols()
    }

    /// The leaves of the tree that commits to the main segment.
    pub closed spec fn spec_main_leaves(&self) -> Seq<Seq<u8>> {
        self.main_segment_tree.leaves()
    }

    /// The rows of each extended auxiliary segment, in the order in which
    /// the segments were added.
    pub closed spec fn spec_aux_segments(&self) -> Seq<Seq<Seq<E>>> {
        Seq::new(self.aux_segment_ldes.len() as nat, |s: int| self.aux_segment_ldes[s]@)
    }

    /// The number of columns of each auxiliary segment.
    pub closed spec fn spec_aux_segment_widths(&self) -> Seq<int> {
        Seq::new(
            self.aux_segment_ldes.len() as nat,
            |s: int| self.aux_segment_ldes[s].spec_num_cols(),
        )
    }

    /// The leaves of the tree that commits to each auxiliary segment.
    pub closed spec fn spec_aux_leaves(&self) -> Seq<Seq<Seq<u8>>> {
        Seq::new(self.aux_segment_trees.len() as nat, |s: int| self.aux_segment_trees[s].leaves())
    }

    /// The blowup factor.
    pub closed spec fn spec_blowup(&self) -> usize {
        self.blowup
    }

    /// The description of the trace.
    pub closed spec fn spec_trace_info(&self) -> TraceInfo {
        self.trace_info
    }

    /// The number of rows of the extended trace.
    pub open spec fn spec_trace_len(&self) -> int {
        self.spec_main_segment().len() as int
    }

    /// The root of the tree that commits to the main segment.
    pub open spec fn spec_main_commitment(&self) -> Seq<u8> {
        merkle_root(self.spec_main_leaves())
    }

    /// The depth of the tree that commits to the main segment.
    pub open spec fn spec_main_tree_depth(&self) -> int {
        log(2, self.spec_main_leaves().len() as int)
    }

    /// The depth of the tree that commits to the auxiliary segment at the
    /// given index.
    pub open spec fn spec_aux_tree_depth(&self, segment: int) -> int {
        log(2, self.spec_aux_leaves()[segment].len() as int)
    }

    /// The number of auxiliary segments that the layout declares.
    pub open spec fn spec_max_aux_segments(&self) -> int {
        self.spec_trace_info().spec_layout().spec_num_aux_segments()
    }

    /// Every segment is a table with as many rows as the extended domain
    /// has points: a power of two, and a multiple of the blowup factor that
    /// is at least twice as large. Every tree is built over the row digests
    /// of its segment, and no more auxiliary segments are held than the
    /// layout declares.
    pub open spec fn wf(&self) -> bool {
        &&& valid_rows(self.spec_main_segment(), self.spec_main_segment_width())
        &&& self.spec_main_leaves() == row_digests::<u64>(self.spec_main_segment())
        &&& is_pow2(self.spec_trace_len())
        &&& self.spec_blowup() >= 1
        &&& self.spec_trace_len() >= 2 * self.spec_blowup()
        &&& self.spec_trace_len() % (self.spec_blowup() as int) == 0
        &&& self.spec_aux_segments().len() <= self.spec_max_aux_segments()
        &&& self.spec_aux_segment_widths().len() == self.spec_aux_segments().len()
        &&& self.spec_aux_leaves().len() == self.spec_aux_segments().len()
        &&& forall|s: int|
            0 <= s < self.spec_aux_segments().len() ==> {
                &&& valid_rows(
                    #[trigger] self.spec_aux_segments()[s],
                    self.spec_aux_segment_widths()[s],
                )
                &&& self.spec_aux_segments()[s].len() == self.spec_trace_len()
                &&& self.spec_aux_leaves()[s] == row_digests::<E>(self.spec_aux_segments()[s])
            }
    }

    /// The tree of every segment is as deep as the binary logarithm of the
    /// number of rows of the extended trace, and that number is two to the
    /// power of the depth.
    pub proof fn lemma_tree_depths(&self)
        requires
            self.wf(),
        ensures
            self.spec_main_tree_depth() == log(2, self.spec_trace_len()),
            forall|s: int|
                0 <= s < self.spec_aux_segments().len() ==> #[trigger] self.spec_aux_tree_depth(s)
                    == log(2, self.spec_trace_len()),
            log(2, self.spec_trace_len()) >= 1,
            pow2(log(2, self.spec_trace_len()) as nat) == self.spec_trace_len(),
    {
        lemma_pow2_of_log2(self.spec_trace_len());
        lemma_log_s(2, self.spec_trace_len());
        lemma_log_nonnegative(2, self.spec_trace_len() / 2);
        assert forall|s: int| 0 <= s < self.spec_aux_segments().len() implies #[trigger]
            self.spec_aux_tree_depth(s) == log(2, self.spec_trace_len()) by {
            assert(self.spec_aux_segments()[s].len() == self.spec_trace_len());
        }
    }

    /// The commitment to the main segment is determined by the rows of the
    /// main segment alone: two extended traces with the same main segment
    /// publish the same commitment, whatever auxiliary segments they hold.
    pub proof fn lemma_commitment_of_main_segment(&self, other: &DefaultTraceLde<E>)
        requires
            self.wf(),
            other.wf(),
            self.spec_main_segment() == other.spec_main_segment(),
        ensures
            self.spec_main_commitment() == other.spec_main_commitment(),
    {
    }

    /// The step that follows the last step of the trace is step zero, and
    /// the step that follows step zero is the step `blowup`.
    pub proof fn lemma_frame_wraps(&self)
        requires
            self.wf(),
        ensures
            next_lde_step(
                self.spec_trace_len() - self.spec_blowup(),
                self.spec_blowup() as int,
                self.spec_trace_len(),
            ) == 0,
            next_lde_step(0, self.spec_blowup() as int, self.spec_trace_len())
                == self.spec_blowup(),
    {
        let n = self.spec_trace_len();
        let b = self.spec_blowup() as int;
        lemma_mod_self_0(n);
        lemma_small_mod(b as nat, n as nat);
    }

    /// No segment is accepted once as many auxiliary segments have been
    /// added as the layout declares, and none whose extension would have
    /// another number of rows than the extended main segment.
    pub proof fn lemma_refused_segments(&self, aux_rows: int, domain: &StarkDomain)
        requires
            self.spec_aux_segments().len() >= self.spec_max_aux_segments()
                || domain.spec_lde_domain_size() != self.spec_trace_len(),
        ensures
            self.aux_segment_error(aux_rows, domain).is_some(),
    {
    }

    /// Interpolates the columns of the main segment into polynomials,
    /// evaluates them over the extended domain, commits to the evaluations,
    /// and makes the extended trace that holds the main segment alone.
    ///
    /// Returns the extended trace together with the polynomials of the main
    /// segment in coefficient form.
    pub fn new(trace_info: &TraceInfo, main_trace: &ColMatrix<u64>, domain: &StarkDomain) -> (r: (
        DefaultTraceLde<E>,
        TracePolyTable<E>,
    ))
        requires
            main_trace.wf(),
            domain.wf(),
            main_trace.spec_num_rows() == domain.spec_trace_length(),
        ensures
            r.0.wf(),
            r.0.spec_main_segment() == extended_rows(
                interpolated_columns(main_trace@),
                domain.spec_trace_twiddles(),
                domain.spec_offset(),
                domain.spec_blowup(),
            ),
            r.0.spec_main_segment_width() == main_trace.spec_num_cols(),
            r.0.spec_trace_len() == main_trace.spec_num_rows() * domain.spec_blowup(),
            r.0.spec_trace_len() == domain.spec_lde_domain_size(),
            r.0.spec_aux_segments().len() == 0,
            r.0.spec_blowup() == domain.spec_blowup(),
            r.0.spec_trace_info().same_as(trace_info),
            r.1.spec_main_polys() == interpolated_columns(main_trace@),
            interpolates(r.1.spec_main_polys(), main_trace@),
            extends(r.1.spec_main_polys(), r.0.spec_main_segment(), domain.spec_offset()),
            r.1.spec_aux_polys().len() == 0,
    {
        let (main_segment_lde, main_segment_tree, main_segment_polys) = build_trace_commitment::<
            u64,
        >(main_trace, domain);
        let trace_poly_table = TracePolyTable::new(main_segment_polys);
        let trace_lde = DefaultTraceLde {
            main_segment_lde,
            main_segment_tree,
            aux_segment_ldes: Vec::new(),
            aux_segment_trees: Vec::new(),
            blowup: domain.trace_to_lde_blowup(),
            trace_info: trace_info.clone(),
        };
        proof {
            domain.lemma_lde_domain_size();
            lemma_mod_multiples_basic(
                domain.spec_trace_length() as int,
                domain.spec_blowup() as int,
            );
        }
        (trace_lde, trace_poly_table)
    }

    /// The number of columns of the main segment.
    pub fn main_segment_width(&self) -> (w: usize)
        ensures
            w == self.spec_main_segment_width(),
    {
        self.main_segment_lde.num_cols()
    }

    /// The extended main segment.
    pub fn get_main_segment(&self) -> (segment: &RowMatrix<u64>)
        ensures
            segment@ == self.spec_main_segment(),
            segment.spec_num_cols() == self.spec_main_segment_width(),
    {
        &self.main_segment_lde
    }

    /// The whole column of the extended main segment at the given index.
    pub fn get_main_segment_column(&self, col_idx: usize) -> (column: Vec<u64>)
        requires
            self.wf(),
            col_idx < self.spec_main_segment_width(),
        ensures
            column.len() == self.spec_trace_len(),
            forall|i: int|
                0 <= i < self.spec_trace_len() ==> column[i] == self.spec_main_segment()[i][col_idx as int],
    {
        let mut column: Vec<u64> = Vec::new();
        let mut row_idx: usize = 0;
        while row_idx < self.main_segment_lde.num_rows()
            invariant
                self.wf(),
                col_idx < self.spec_main_segment_width(),
                row_idx <= self.spec_trace_len(),
                column.len() == row_idx,
                forall|i: int|
                    0 <= i < row_idx ==> column[i] == self.spec_main_segment()[i][col_idx as int],
            decreases self.spec_trace_len() - row_idx,
        {
            column.push(self.main_segment_lde.get(col_idx, row_idx));
            row_idx = row_idx + 1;
        }
        column
    }

    /// The tree that commits to the main segment.
    pub fn main_segment_tree(&self) -> (tree: &SegmentTree)
        ensures
            tree.leaves() == self.spec_main_leaves(),
    {
        &self.main_segment_tree
    }

    /// The extended auxiliary segment at the given index.
    pub fn get_aux_segment(&self, index: usize) -> (segment: &RowMatrix<E>)
        requires
            index < self.spec_aux_segments().len(),
        ensures
            segment@ == self.spec_aux_segments()[index as int],
            segment.spec_num_cols() == self.spec_aux_segment_widths()[index as int],
    {
        &self.aux_segment_ldes[index]
    }

    /// The number of auxiliary segments that have been added.
    pub fn num_aux_segments(&self) -> (n: usize)
        ensures
            n == self.spec_aux_segments().len(),
    {
        self.aux_segment_ldes.len()
    }

    /// The commitment to the extended main segment: the root of its tree.
    pub fn get_main_trace_commitment(&self) -> (root: [u8; 32])
        ensures
            root@ == self.spec_main_commitment(),
    {
        self.main_segment_tree.root()
    }

    /// What keeps an auxiliary segment of `aux_rows` rows from being added
    /// over the given domain, if anything does.
    pub open spec fn aux_segment_error(&self, aux_rows: int, domain: &StarkDomain) -> Option<
        AuxSegmentError,
    > {
        if aux_rows != domain.spec_trace_length() {
            Some(AuxSegmentError::DomainMismatch)
        } else if self.spec_aux_segments().len() >= self.spec_max_aux_segments() {
            Some(AuxSegmentError::TooManySegments)
        } else if domain.spec_lde_domain_size() != self.spec_trace_len() {
            Some(AuxSegmentError::RowCountMismatch)
        } else {
            None
        }
    }

    /// Tells whether `add_aux_segment` accepts the segment, and why not if
    /// it does not: the segment must fit the trace domain, the layout must
    /// declare more auxiliary segments than have been added, and the
    /// extended segment must have as many rows as the extended main
    /// segment.
    pub fn check_aux_segment(&self, aux_trace: &ColMatrix<E>, domain: &StarkDomain) -> (r: Result<
        (),
        AuxSegmentError,
    >)
        requires
            aux_trace.wf(),
            domain.wf(),
        ensures
            r == match self.aux_segment_error(aux_trace.spec_num_rows(), domain) {
                Some(e) => Err::<(), AuxSegmentError>(e),
                None => Ok::<(), AuxSegmentError>(()),
            },
    {
        if aux_trace.num_rows() != domain.trace_length() {
            Err(AuxSegmentError::DomainMismatch)
        } else if self.aux_segment_ldes.len() >= self.trace_info.layout().num_aux_segments() {
            Err(AuxSegmentError::TooManySegments)
        } else if domain.lde_domain_size() != self.main_segment_lde.num_rows() {
            Err(AuxSegmentError::RowCountMismatch)
        } else {
            Ok(())
        }
    }

    /// Interpolates the columns of an auxiliary segment into polynomials,
    /// evaluates them over the extended domain, commits to the evaluations,
    /// and keeps the extended segment and its tree after those added
    /// before.
    ///
    /// Returns the polynomials in coefficient form and the commitment to the
    /// extended segment. The layout must declare more auxiliary segments
    /// than have been added, and the extended segment must have as many
    /// rows as the main segment.
    pub fn add_aux_segment(&mut self, aux_trace: &ColMatrix<E>, domain: &StarkDomain) -> (r: (
        ColMatrix<E>,
        [u8; 32],
    ))
        requires
            old(self).wf(),
            aux_trace.wf(),
            domain.wf(),
            old(self).aux_segment_error(aux_trace.spec_num_rows(), domain).is_none(),
        ensures
            final(self).wf(),
            final(self).spec_aux_segments() == old(self).spec_aux_segments().push(
                extended_rows(
                    interpolated_columns(aux_trace@),
                    domain.spec_trace_twiddles(),
                    domain.spec_offset(),
                    domain.spec_blowup(),
                ),
            ),
            final(self).spec_aux_segment_widths() == old(self).spec_aux_segment_widths().push(
                aux_trace.spec_num_cols(),
            ),
            final(self).spec_aux_leaves() == old(self).spec_aux_leaves().push(
                row_digests::<E>(final(self).spec_aux_segments().last()),
            ),
            final(self).spec_main_segment() == old(self).spec_main_segment(),
            final(self).spec_main_segment_width() == old(self).spec_main_segment_width(),
            final(self).spec_main_leaves() == old(self).spec_main_leaves(),
            final(self).spec_main_commitment() == old(self).spec_main_commitment(),
            final(self).spec_blowup() == old(self).spec_blowup(),
            final(self).spec_trace_info() == old(self).spec_trace_info(),
            r.0@ == interpolated_columns(aux_trace@),
            interpolates(r.0@, aux_trace@),
            extends(r.0@, final(self).spec_aux_segments().last(), domain.spec_offset()),
            r.1@ == merkle_root(row_digests::<E>(final(self).spec_aux_segments().last())),
    {
        let (aux_segment_lde, aux_segment_tree, aux_segment_polys) = build_trace_commitment::<E>(
            aux_trace,
            domain,
        );
        let root_hash = aux_segment_tree.root();
        self.aux_segment_ldes.push(aux_segment_lde);
        self.aux_segment_trees.push(aux_segment_tree);
        (aux_segment_polys, root_hash)
    }

    /// Reads the row of the main segment at `lde_step` and the row that
    /// follows it in the trace into the frame.
    pub fn read_main_trace_frame_into(&self, lde_step: usize, frame: &mut EvaluationFrame<u64>)
        requires
            self.wf(),
            lde_step < self.spec_trace_len(),
            old(frame).wf(),
            old(frame).spec_width() == self.spec_main_segment_width(),
        ensures
            final(frame).spec_current() == self.spec_main_segment()[lde_step as int],
            final(frame).spec_next() == self.spec_main_segment()[next_lde_step(
                lde_step as int,
                self.spec_blowup() as int,
                self.spec_trace_len(),
            )],
    {
        read_frame_into(&self.main_segment_lde, self.blowup, lde_step, frame);
    }

    /// Reads the row of the auxiliary segment at `lde_step` and the row that
    /// follows it in the trace into the frame. There must be exactly one
    /// auxiliary segment.
    pub fn read_aux_trace_frame_into(&self, lde_step: usize, frame: &mut EvaluationFrame<E>)
        requires
            self.wf(),
            self.spec_aux_segments().len() == 1,
            lde_step < self.spec_trace_len(),
            old(frame).wf(),
            old(frame).spec_width() == self.spec_aux_segment_widths()[0],
        ensures
            final(frame).spec_current() == self.spec_aux_segments()[0][lde_step as int],
            final(frame).spec_next() == self.spec_aux_segments()[0][next_lde_step(
                lde_step as int,
                self.spec_blowup() as int,
                self.spec_trace_len(),
            )],
    {
        let segment = &self.aux_segment_ldes[0];
        assert(segment@ == self.spec_aux_segments()[0]);
        read_frame_into(segment, self.blowup, lde_step, frame);
    }

    /// Returns, for the main segment and then for each auxiliary segment in
    /// the order in which they were added, the rows at the given positions
    /// with a batch proof that opens them against the segment's commitment.
    pub fn query(&self, positions: &[usize]) -> (result: Vec<Queries>)
        requires
            self.wf(),
            openable(positions@, self.spec_trace_len() as nat),
        ensures
            result.len() == 1 + self.spec_aux_segments().len(),
            answers::<u64>(
                result[0],
                self.spec_main_segment(),
                self.spec_main_leaves(),
                positions@,
            ),
            forall|i: int|
                1 <= i < result.len() ==> answers::<E>(
                    #[trigger] result[i],
                    self.spec_aux_segments()[i - 1],
                    self.spec_aux_leaves()[i - 1],
                    positions@,
                ),
    {
        let mut result: Vec<Queries> = Vec::new();
        result.push(build_segment_queries(&self.main_segment_lde, &self.main_segment_tree, positions));
        let mut i: usize = 0;
        while i < self.aux_segment_trees.len()
            invariant
                self.wf(),
                openable(positions@, self.spec_trace_len() as nat),
                i <= self.aux_segment_trees.len(),
                result.len() == 1 + i,
                answers::<u64>(
                    result[0],
                    self.spec_main_segment(),
                    self.spec_main_leaves(),
                    positions@,
                ),
                forall|k: int|
                    1 <= k < result.len() ==> answers::<E>(
                        #[trigger] result[k],
                        self.spec_aux_segments()[k - 1],
                        self.spec_aux_leaves()[k - 1],
                        positions@,
                    ),
            decreases self.aux_segment_trees.len() - i,
        {
            let segment_tree = &self.aux_segment_trees[i];
            let segment_lde = &self.aux_segment_ldes[i];
            assert(segment_lde@ == self.spec_aux_segments()[i as int]);
            result.push(build_segment_queries(segment_lde, segment_tree, positions));
            i = i + 1;
        }
        result
    }

    /// The number of rows of the extended trace.
    pub fn trace_len(&self) -> (n: usize)
        ensures
            n == self.spec_trace_len(),
    {
        self.main_segment_lde.num_rows()
    }

    /// The blowup factor by which the trace was extended.
    pub fn blowup(&self) -> (b: usize)
        ensures
            b == self.spec_blowup(),
    {
        self.blowup
    }

    /// The layout of the trace.
    pub fn trace_layout(&self) -> (layout: &TraceLayout)
        ensures
            *layout == self.spec_trace_info().spec_layout(),
    {
        self.trace_info.layout()
    }
}


/// Extends a trace segment over the domain and commits to the result.
///
/// Every column is interpolated into a polynomial of degree below the
/// number of rows. The polynomials are evaluated over the extended domain,
/// every row of evaluations is hashed into a leaf, and a Merkle tree is
/// built over the leaves. Returns the extended segment, the tree, and the
/// polynomials in coefficient form.
pub fn build_trace_commitment<F: Element + Copy>(trace: &ColMatrix<F>, domain: &StarkDomain) -> (r:
    (RowMatrix<F>, SegmentTree, ColMatrix<F>))
    requires
        trace.wf(),
        domain.wf(),
        trace.spec_num_rows() == domain.spec_trace_length(),
    ensures
        r.2@ == interpolated_columns(trace@),
        interpolates(r.2@, trace@),
        extends(r.2@, r.0@, domain.spec_offset()),
        r.2.wf(),
        r.2.spec_num_cols() == trace.spec_num_cols(),
        r.2.spec_num_rows() == trace.spec_num_rows(),
        r.0@ == extended_rows(
            r.2@,
            domain.spec_trace_twiddles(),
            domain.spec_offset(),
            domain.spec_blowup(),
        ),
        r.0.wf(),
        r.0.spec_num_cols() == trace.spec_num_cols(),
        r.0.spec_num_rows() == trace.spec_num_rows() * domain.spec_blowup(),
        r.0.spec_num_rows() == domain.spec_lde_domain_size(),
        r.1.leaves() == row_digests::<F>(r.0@),
        r.1.spec_depth() == log(2, r.0.spec_num_rows()),
        pow2(r.1.spec_depth() as nat) == r.0.spec_num_rows(),
{
    let trace_polys = trace.interpolate_columns();
    let trace_lde = RowMatrix::evaluate_polys_over(&trace_polys, domain);
    proof {
        domain.lemma_lde_domain_size();
        lemma_pow2_of_log2(trace_lde.spec_num_rows());
    }
    match trace_lde.commit_to_rows() {
        Ok(trace_tree) => (trace_lde, trace_tree, trace_polys),
        Err(_) => vstd::pervasive::unreached(),
    }
}

/// Collects the rows of a segment at the given positions and opens them
/// against the segment's tree with one batch proof.
pub fn build_segment_queries<E: Element + Copy>(
    segment_lde: &RowMatrix<E>,
    segment_tree: &SegmentTree,
    positions: &[usize],
) -> (queries: Queries)
    requires
        segment_tree.leaves().len() == segment_lde.spec_num_rows(),
        openable(positions@, segment_lde.spec_num_rows() as nat),
    ensures
        answers(queries, segment_lde@, segment_tree.leaves(), positions@),
{
    let mut trace_states: Vec<Vec<E>> = Vec::new();
    let mut k: usize = 0;
    while k < positions.len()
        invariant
            k <= positions.len(),
            openable(positions@, segment_lde.spec_num_rows() as nat),
            trace_states.len() == k,
            forall|i: int|
                0 <= i < k ==> (#[trigger] trace_states[i])@ == segment_lde@[positions[i] as int],
        decreases positions.len() - k,
    {
        let row = segment_lde.row(positions[k]);
        trace_states.push(slice_to_vec(row));
        k = k + 1;
    }
    let trace_proof = segment_tree.prove_batch(positions);
    Queries::new(trace_proof, trace_states)
}

} // verus!
