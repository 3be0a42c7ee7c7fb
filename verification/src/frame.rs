//! Pairs of consecutive trace rows.
use crate::element::Element;
use vstd::prelude::*;

verus! {

/// Copies `source` over `target`, which has the same length.
pub fn copy_row<E: Copy>(target: &mut Vec<E>, source: &[E])
    requires
        old(target).len() == source.len(),
    ensures
        final(target)@ == source@,
{
    let mut j: usize = 0;
    while j < source.len()
        invariant
            j <= source.len(),
            target.len() == source.len(),
            forall|k: int| 0 <= k < j ==> target[k] == source[k],
        decreases source.len() - j,
    {
        target.set(j, source[j]);
        j = j + 1;
    }
}

/// The row of a trace segment at one step and the row one step later.
#[derive(Debug)]
pub struct EvaluationFrame<E> {
    current: Vec<E>,
    next: Vec<E>,
}

impl<E: Copy> EvaluationFrame<E> {
    /// The row at the current step.
    pub closed spec fn spec_current(&self) -> Seq<E> {
        self.current@
    }

    /// The row at the next step.
    pub closed spec fn spec_next(&self) -> Seq<E> {
        self.next@
    }

    /// The number of columns of either row.
    pub open spec fn spec_width(&self) -> int {
        self.spec_current().len() as int
    }

    /// Both rows have the same number of columns.
    pub open spec fn wf(&self) -> bool {
        self.spec_current().len() == self.spec_next().len()
    }

    /// Makes a frame of two rows, if they have the same number of columns.
    pub fn from_rows(current: Vec<E>, next: Vec<E>) -> (r: Option<EvaluationFrame<E>>)
        ensures
            r.is_some() == (current.len() == next.len()),
            r matches Some(frame) ==> frame.spec_current() == current@ && frame.spec_next()
                == next@,
    {
        if current.len() != next.len() {
            None
        } else {
            Some(EvaluationFrame { current, next })
        }
    }

    /// The row at the current step.
    pub fn current(&self) -> (row: &[E])
        ensures
            row@ == self.spec_current(),
    {
        self.current.as_slice()
    }

    /// The row at the next step.
    pub fn next(&self) -> (row: &[E])
        ensures
            row@ == self.spec_next(),
    {
        self.next.as_slice()
    }

    /// Overwrites the current row with `row`.
    pub fn copy_current_from(&mut self, row: &[E])
        requires
            old(self).spec_current().len() == row.len(),
        ensures
            final(self).spec_current() == row@,
            final(self).spec_next() == old(self).spec_next(),
    {
        copy_row(&mut self.current, row);
    }

    /// Overwrites the next row with `row`.
    pub fn copy_next_from(&mut self, row: &[E])
        requires
            old(self).spec_next().len() == row.len(),
        ensures
            final(self).spec_next() == row@,
            final(self).spec_current() == old(self).spec_current(),
    {
        copy_row(&mut self.next, row);
    }
}

impl<E: Element + Copy> EvaluationFrame<E> {
    /// Makes a frame of two rows of `num_columns` zeros each.
    pub fn new(num_columns: usize) -> (frame: EvaluationFrame<E>)
        ensures
            frame.wf(),
            frame.spec_current() == Seq::new(num_columns as nat, |k: int| E::spec_zero()),
            frame.spec_next() == Seq::new(num_columns as nat, |k: int| E::spec_zero()),
    {
        let mut current: Vec<E> = Vec::new();
        let mut next: Vec<E> = Vec::new();
        let mut k: usize = 0;
        while k < num_columns
            invariant
                k <= num_columns,
                current.len() == k,
                next.len() == k,
                forall|c: int| 0 <= c < k ==> current[c] == E::spec_zero(),
                forall|c: int| 0 <= c < k ==> next[c] == E::spec_zero(),
            decreases num_columns - k,
        {
            current.push(E::zero());
            next.push(E::zero());
            k = k + 1;
        }
        EvaluationFrame { current, next }
    }
}

} // verus!
