//! Tables of field elements: by columns for a trace and its polynomials, by
//! rows for an extended trace.
use crate::domain::StarkDomain;
use crate::element::{inv_twiddles, inv_twiddles_of, Element};
use crate::field::MAX_TRACE_LENGTH;
use crate::merkle::{SegmentTree, TreeError};
use crate::power::is_power_of_two;
use vstd::arithmetic::power2::is_pow2;
use vstd::prelude::*;

verus! {

/// A sequence of vectors, each as the sequence of its entries.
pub open spec fn nested<E>(vectors: Seq<Vec<E>>) -> Seq<Seq<E>> {
    Seq::new(vectors.len(), |k: int| vectors[k]@)
}

/// The columns form a table that can be interpolated: there is at least one
/// column, all columns have the same length, and that length is a power of
/// two and at least two.
pub open spec fn valid_columns<E>(columns: Seq<Seq<E>>) -> bool {
    &&& columns.len() >= 1
    &&& forall|j: int| 0 <= j < columns.len() ==> (#[trigger] columns[j]).len() == columns[0].len()
    &&& columns[0].len() >= 2
    &&& is_pow2(columns[0].len() as int)
}

/// All rows have `num_cols` entries.
pub open spec fn valid_rows<E>(rows: Seq<Seq<E>>, num_cols: int) -> bool {
    forall|i: int| 0 <= i < rows.len() ==> (#[trigger] rows[i]).len() == num_cols
}

/// The coefficients of the polynomials that interpolate each column of a
/// table over the trace domain.
pub open spec fn interpolated_columns<E: Element>(columns: Seq<Seq<E>>) -> Seq<Seq<E>> {
    Seq::new(
        columns.len(),
        |j: int| E::interpolated(columns[j], inv_twiddles_of(columns[0].len() as usize)),
    )
}

/// The table with the given columns, read row by row: entry `j` of row `i`
/// is entry `i` of column `j`.
pub open spec fn transposed<E>(columns: Seq<Seq<E>>, num_rows: nat) -> Seq<Seq<E>> {
    Seq::new(num_rows, |i: int| Seq::new(columns.len(), |j: int| columns[j][i]))
}

/// The values of each polynomial over the extended domain.
pub open spec fn evaluated_columns<E: Element>(
    polys: Seq<Seq<E>>,
    twiddles: Seq<u64>,
    offset: u64,
    blowup: usize,
) -> Seq<Seq<E>> {
    Seq::new(polys.len(), |j: int| E::evaluated(polys[j], twiddles, offset, blowup))
}

/// The rows of the table that holds, in column `j` of row `i`, the value of
/// the `j`-th polynomial at the `i`-th point of the extended domain.
pub open spec fn extended_rows<E: Element>(
    polys: Seq<Seq<E>>,
    twiddles: Seq<u64>,
    offset: u64,
    blowup: usize,
) -> Seq<Seq<E>> {
    transposed(
        evaluated_columns(polys, twiddles, offset, blowup),
        (polys[0].len() * blowup) as nat,
    )
}

/// The column at index `j` of a table that is given by its rows.
pub open spec fn column_of<E>(rows: Seq<Seq<E>>, j: int) -> Seq<E> {
    Seq::new(rows.len(), |i: int| rows[i][j])
}

/// Every polynomial takes the values of its column on the trace domain: the
/// value of the `j`-th polynomial at the `i`-th point of the domain is the
/// entry in row `i` of column `j`.
pub open spec fn interpolates<E: Element>(polys: Seq<Seq<E>>, columns: Seq<Seq<E>>) -> bool {
    forall|j: int| 0 <= j < columns.len() ==> E::takes_values(#[trigger] polys[j], columns[j], 1)
}

/// Every column of the table holds the values of its polynomial on the
/// extended domain: the entry in row `i` of column `j` is the value of the
/// `j`-th polynomial at the `i`-th point of the domain shifted by `offset`.
pub open spec fn extends<E: Element>(polys: Seq<Seq<E>>, rows: Seq<Seq<E>>, offset: u64) -> bool {
    forall|j: int|
        0 <= j < polys.len() ==> E::takes_values(
            #[trigger] polys[j],
            column_of(rows, j),
            offset as int,
        )
}

/// The digest of every row, in order.
pub open spec fn row_digests<E: Element>(rows: Seq<Seq<E>>) -> Seq<Seq<u8>> {
    Seq::new(rows.len(), |i: int| E::row_digest(rows[i]))
}

/// A table of field elements stored column by column.
pub struct ColMatrix<E> {
    columns: Vec<Vec<E>>,
}

impl<E> View for ColMatrix<E> {
    type V = Seq<Seq<E>>;

    closed spec fn view(&self) -> Seq<Seq<E>> {
        nested(self.columns@)
    }
}

impl<E: Copy> ColMatrix<E> {
    /// The table has at least one column, and its columns share a length
    /// that is a power of two and at least two.
    pub open spec fn wf(&self) -> bool {
        valid_columns(self@)
    }

    /// The number of columns.
    pub open spec fn spec_num_cols(&self) -> int {
        self@.len() as int
    }

    /// The number of rows.
    pub open spec fn spec_num_rows(&self) -> int {
        self@[0].len() as int
    }

    /// Makes a table of the given columns, if they form one.
    pub fn new(columns: Vec<Vec<E>>) -> (r: Option<ColMatrix<E>>)
        ensures
            r.is_some() == valid_columns(nested(columns@)),
            r matches Some(matrix) ==> matrix@ == nested(columns@),
    {
        if columns.len() < 1 {
            return None;
        }
        let num_rows: usize = columns[0].len();
        if num_rows < 2 || !is_power_of_two(num_rows) {
            return None;
        }
        let mut j: usize = 1;
        while j < columns.len()
            invariant
                1 <= j <= columns.len(),
                num_rows == columns[0].len(),
                forall|k: int| 0 <= k < j ==> (#[trigger] nested(columns@)[k]).len() == num_rows,
            decreases columns.len() - j,
        {
            if columns[j].len() != num_rows {
                assert(nested(columns@)[j as int].len() != nested(columns@)[0].len());
                return None;
            }
            j = j + 1;
        }
        Some(ColMatrix { columns })
    }

    /// The number of columns.
    pub fn num_cols(&self) -> (n: usize)
        ensures
            n == self.spec_num_cols(),
    {
        self.columns.len()
    }

    /// The number of rows.
    pub fn num_rows(&self) -> (n: usize)
        requires
            self.wf(),
        ensures
            n == self.spec_num_rows(),
    {
        self.columns[0].len()
    }

    /// The element in the given column and row.
    pub fn get(&self, col_idx: usize, row_idx: usize) -> (e: E)
        requires
            col_idx < self.spec_num_cols(),
            row_idx < self@[col_idx as int].len(),
        ensures
            e == self@[col_idx as int][row_idx as int],
    {
        self.columns[col_idx][row_idx]
    }

    /// The column at the given index.
    pub fn get_column(&self, col_idx: usize) -> (column: &Vec<E>)
        requires
            col_idx < self.spec_num_cols(),
        ensures
            column@ == self@[col_idx as int],
    {
        &self.columns[col_idx]
    }
}

impl<E: Element + Copy> ColMatrix<E> {
    /// Interpolates every column into the polynomial that takes the
    /// column's values on the trace domain, and returns the table of their
    /// coefficients.
    pub fn interpolate_columns(&self) -> (polys: ColMatrix<E>)
        requires
            self.wf(),
            self.spec_num_rows() <= MAX_TRACE_LENGTH,
        ensures
            polys@ == interpolated_columns(self@),
            interpolates(polys@, self@),
            polys.wf(),
            polys.spec_num_cols() == self.spec_num_cols(),
            polys.spec_num_rows() == self.spec_num_rows(),
    {
        let num_rows: usize = self.num_rows();
        let factors = inv_twiddles(num_rows);
        let mut columns: Vec<Vec<E>> = Vec::new();
        let mut j: usize = 0;
        while j < self.columns.len()
            invariant
                j <= self.columns.len(),
                self.wf(),
                num_rows == self.spec_num_rows(),
                num_rows <= MAX_TRACE_LENGTH,
                factors@ == inv_twiddles_of(num_rows),
                factors.len() * 2 == num_rows,
                columns.len() == j,
                forall|k: int|
                    0 <= k < j ==> (#[trigger] columns[k])@ == E::interpolated(
                        self@[k],
                        factors@,
                    ),
                forall|k: int| 0 <= k < j ==> (#[trigger] columns[k]).len() == num_rows,
                forall|k: int| 0 <= k < j ==> E::takes_values((#[trigger] columns[k])@, self@[k], 1),
            decreases self.columns.len() - j,
        {
            assert(self@[j as int].len() == num_rows);
            let poly = E::interpolate(&self.columns[j], &factors);
            columns.push(poly);
            j = j + 1;
        }
        let polys = ColMatrix { columns };
        polys
    }
}

/// A table of field elements stored row by row.
pub struct RowMatrix<E> {
    rows: Vec<Vec<E>>,
    num_cols: usize,
}

impl<E> View for RowMatrix<E> {
    type V = Seq<Seq<E>>;

    closed spec fn view(&self) -> Seq<Seq<E>> {
        nested(self.rows@)
    }
}

impl<E: Copy> RowMatrix<E> {
    /// The number of columns.
    pub closed spec fn spec_num_cols(&self) -> int {
        self.num_cols as int
    }

    /// The number of rows.
    pub open spec fn spec_num_rows(&self) -> int {
        self@.len() as int
    }

    /// Every row has as many entries as the table has columns.
    pub open spec fn wf(&self) -> bool {
        valid_rows(self@, self.spec_num_cols())
    }

    /// Makes the table of `num_rows` rows whose columns are given.
    pub fn from_columns(columns: &Vec<Vec<E>>, num_rows: usize) -> (matrix: RowMatrix<E>)
        requires
            forall|j: int| 0 <= j < columns.len() ==> (#[trigger] columns[j]).len() == num_rows,
        ensures
            matrix@ == transposed(nested(columns@), num_rows as nat),
            forall|j: int|
                0 <= j < columns.len() ==> column_of(matrix@, j) == (#[trigger] columns[j])@,
            matrix.wf(),
            matrix.spec_num_cols() == columns.len(),
            matrix.spec_num_rows() == num_rows,
    {
        let num_cols: usize = columns.len();
        let mut rows: Vec<Vec<E>> = Vec::new();
        let mut i: usize = 0;
        while i < num_rows
            invariant
                i <= num_rows,
                columns.len() == num_cols,
                forall|j: int| 0 <= j < num_cols ==> (#[trigger] columns[j]).len() == num_rows,
                rows.len() == i,
                forall|r: int| 0 <= r < i ==> (#[trigger] rows[r]).len() == num_cols,
                forall|r: int, j: int|
                    0 <= r < i && 0 <= j < num_cols ==> (#[trigger] rows[r][j]) == columns[j][r],
            decreases num_rows - i,
        {
            let mut row: Vec<E> = Vec::new();
            let mut j: usize = 0;
            while j < num_cols
                invariant
                    j <= num_cols,
                    i < num_rows,
                    columns.len() == num_cols,
                    forall|c: int|
                        0 <= c < num_cols ==> (#[trigger] columns[c]).len() == num_rows,
                    row.len() == j,
                    forall|c: int| 0 <= c < j ==> (#[trigger] row[c]) == columns[c][i as int],
                decreases num_cols - j,
            {
                row.push(columns[j][i]);
                j = j + 1;
            }
            rows.push(row);
            i = i + 1;
        }
        let matrix = RowMatrix { rows, num_cols };
        assert(matrix@ =~~= transposed(nested(columns@), num_rows as nat));
        assert forall|j: int| 0 <= j < columns.len() implies column_of(matrix@, j) == (
        #[trigger] columns[j])@ by {
            assert(column_of(matrix@, j) =~= columns[j]@);
        }
        matrix
    }

    /// Makes a table of the given rows, if each has `num_cols` entries.
    pub fn new(rows: Vec<Vec<E>>, num_cols: usize) -> (r: Option<RowMatrix<E>>)
        ensures
            r.is_some() == valid_rows(nested(rows@), num_cols as int),
            r matches Some(matrix) ==> matrix@ == nested(rows@) && matrix.spec_num_cols()
                == num_cols,
    {
        let mut i: usize = 0;
        while i < rows.len()
            invariant
                i <= rows.len(),
                forall|k: int| 0 <= k < i ==> (#[trigger] nested(rows@)[k]).len() == num_cols,
            decreases rows.len() - i,
        {
            if rows[i].len() != num_cols {
                assert(nested(rows@)[i as int].len() != num_cols);
                return None;
            }
            i = i + 1;
        }
        Some(RowMatrix { rows, num_cols })
    }

    /// The number of columns.
    pub fn num_cols(&self) -> (n: usize)
        ensures
            n == self.spec_num_cols(),
    {
        self.num_cols
    }

    /// The number of rows.
    pub fn num_rows(&self) -> (n: usize)
        ensures
            n == self.spec_num_rows(),
    {
        self.rows.len()
    }

    /// The element in the given column and row.
    pub fn get(&self, col_idx: usize, row_idx: usize) -> (e: E)
        requires
            row_idx < self.spec_num_rows(),
            col_idx < self@[row_idx as int].len(),
        ensures
            e == self@[row_idx as int][col_idx as int],
    {
        self.rows[row_idx][col_idx]
    }

    /// The row at the given index.
    pub fn row(&self, row_idx: usize) -> (row: &[E])
        requires
            row_idx < self.spec_num_rows(),
        ensures
            row@ == self@[row_idx as int],
    {
        self.rows[row_idx].as_slice()
    }
}

impl<E: Element + Copy> RowMatrix<E> {
    /// Evaluates the polynomials whose coefficients are the columns of
    /// `polys` over the extended domain, and returns the values row by row:
    /// one row for each point of the domain, one column for each polynomial.
    pub fn evaluate_polys_over(polys: &ColMatrix<E>, domain: &StarkDomain) -> (lde: RowMatrix<E>)
        requires
            polys.wf(),
            domain.wf(),
            polys.spec_num_rows() == domain.spec_trace_length(),
        ensures
            lde@ == extended_rows(
                polys@,
                domain.spec_trace_twiddles(),
                domain.spec_offset(),
                domain.spec_blowup(),
            ),
            extends(polys@, lde@, domain.spec_offset()),
            lde.wf(),
            lde.spec_num_cols() == polys.spec_num_cols(),
            lde.spec_num_rows() == domain.spec_lde_domain_size(),
    {
        let num_cols: usize = polys.num_cols();
        let blowup: usize = domain.trace_to_lde_blowup();
        let offset: u64 = domain.offset();
        let size: usize = domain.lde_domain_size();
        let twiddles = domain.trace_twiddles();
        let mut evaluations: Vec<Vec<E>> = Vec::new();
        let mut j: usize = 0;
        while j < num_cols
            invariant
                j <= num_cols,
                num_cols == polys.spec_num_cols(),
                polys.wf(),
                domain.wf(),
                polys.spec_num_rows() == domain.spec_trace_length(),
                blowup == domain.spec_blowup(),
                offset == domain.spec_offset(),
                size == domain.spec_lde_domain_size(),
                twiddles@ == domain.spec_trace_twiddles(),
                evaluations.len() == j,
                forall|k: int|
                    0 <= k < j ==> (#[trigger] evaluations[k])@ == E::evaluated(
                        polys@[k],
                        twiddles@,
                        offset,
                        blowup,
                    ),
                forall|k: int| 0 <= k < j ==> (#[trigger] evaluations[k]).len() == size,
                forall|k: int|
                    0 <= k < j ==> E::takes_values(
                        polys@[k],
                        (#[trigger] evaluations[k])@,
                        offset as int,
                    ),
            decreases num_cols - j,
        {
            let column = E::evaluate(polys.get_column(j), twiddles, offset, blowup);
            evaluations.push(column);
            j = j + 1;
        }
        assert(nested(evaluations@) =~= evaluated_columns(polys@, twiddles@, offset, blowup));
        let lde = RowMatrix::from_columns(&evaluations, size);
        assert forall|k: int| 0 <= k < polys@.len() implies E::takes_values(
            #[trigger] polys@[k],
            column_of(lde@, k),
            offset as int,
        ) by {
            assert(column_of(lde@, k) == evaluations[k]@);
        }
        lde
    }

    /// Hashes every row into a leaf and builds a Merkle tree over the
    /// leaves. The number of rows must be a power of two and at least two.
    pub fn commit_to_rows(&self) -> (r: Result<SegmentTree, TreeError>)
        ensures
            r.is_ok() == (self.spec_num_rows() >= 2 && is_pow2(self.spec_num_rows())),
            r matches Ok(tree) ==> tree.leaves() == row_digests::<E>(self@),
            r matches Err(e) ==> e == (if self.spec_num_rows() < 2 {
                TreeError::TooFewLeaves
            } else {
                TreeError::NotPowerOfTwo
            }),
    {
        let mut leaves: Vec<[u8; 32]> = Vec::new();
        let mut i: usize = 0;
        while i < self.rows.len()
            invariant
                i <= self.rows.len(),
                leaves.len() == i,
                forall|k: int| 0 <= k < i ==> (#[trigger] leaves[k])@ == E::row_digest(self@[k]),
            decreases self.rows.len() - i,
        {
            let digest = E::hash_row(self.rows[i].as_slice());
            leaves.push(digest);
            i = i + 1;
        }
        SegmentTree::new(leaves)
    }
}

} // verus!
