//! The polynomials of a trace in coefficient form.
use crate::matrix::ColMatrix;
use vstd::prelude::*;

verus! {

/// The polynomials interpolated from the main segment of a trace and from
/// the auxiliary segments added after it.
pub struct TracePolyTable<E> {
    main_segment_polys: ColMatrix<u64>,
    aux_segment_polys: Vec<ColMatrix<E>>,
}

impl<E: Copy> TracePolyTable<E> {
    /// The coefficients of the main segment's polynomials, by column.
    pub closed spec fn spec_main_polys(&self) -> Seq<Seq<u64>> {
        self.main_segment_polys@
    }

    /// The coefficients of each auxiliary segment's polynomials, by column.
    pub closed spec fn spec_aux_polys(&self) -> Seq<Seq<Seq<E>>> {
        Seq::new(self.aux_segment_polys.len() as nat, |s: int| self.aux_segment_polys[s]@)
    }

    /// Makes a table that holds the polynomials of the main segment.
    pub fn new(main_segment_polys: ColMatrix<u64>) -> (table: TracePolyTable<E>)
        ensures
            table.spec_main_polys() == main_segment_polys@,
            table.spec_aux_polys().len() == 0,
    {
        TracePolyTable { main_segment_polys, aux_segment_polys: Vec::new() }
    }

    /// Adds the polynomials of one more auxiliary segment.
    pub fn add_aux_segment(&mut self, aux_segment_polys: ColMatrix<E>)
        ensures
            final(self).spec_main_polys() == old(self).spec_main_polys(),
            final(self).spec_aux_polys() == old(self).spec_aux_polys().push(aux_segment_polys@),
    {
        self.aux_segment_polys.push(aux_segment_polys);
    }

    /// The polynomials of the main segment.
    pub fn main_trace_polys(&self) -> (polys: &ColMatrix<u64>)
        ensures
            polys@ == self.spec_main_polys(),
    {
        &self.main_segment_polys
    }

    /// The number of auxiliary segments in the table.
    pub fn num_aux_segments(&self) -> (n: usize)
        ensures
            n == self.spec_aux_polys().len(),
    {
        self.aux_segment_polys.len()
    }

    /// The polynomials of the auxiliary segment at the given index.
    pub fn aux_trace_polys(&self, segment: usize) -> (polys: &ColMatrix<E>)
        requires
            segment < self.spec_aux_polys().len(),
        ensures
            polys@ == self.spec_aux_polys()[segment as int],
    {
        &self.aux_segment_polys[segment]
    }
}

} // verus!
