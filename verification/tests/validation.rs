use trace_lde::domain::StarkDomain;
use trace_lde::field::{MAX_TRACE_LENGTH, MODULUS};
use trace_lde::frame::{copy_row, EvaluationFrame};
use trace_lde::matrix::{ColMatrix, RowMatrix};
use trace_lde::merkle::{can_open, BatchProof, SegmentTree, TreeError};
use trace_lde::poly_table::TracePolyTable;
use trace_lde::queries::Queries;
use trace_lde::trace_info::{TraceInfo, TraceLayout};
use trace_lde::trace_lde::{next_step, read_frame_into};
use winter_math::fft;
use winter_math::fields::f62::BaseElement;
use winter_math::StarkField;

#[test]
fn domain_accepts_valid_sizes() {
    let domain = StarkDomain::new(8, 4, 3).unwrap();
    assert_eq!(domain.trace_length(), 8);
    assert_eq!(domain.trace_to_lde_blowup(), 4);
    assert_eq!(domain.lde_domain_size(), 32);
    assert_eq!(domain.offset(), 3);
    let expected: Vec<u64> =
        fft::get_twiddles::<BaseElement>(8).iter().map(|e| e.as_int()).collect();
    assert_eq!(domain.trace_twiddles(), &expected);
    assert!(StarkDomain::new(2, 1, 1).is_some());
    assert!(StarkDomain::new(2, 1, MODULUS - 1).is_some());
}

#[test]
fn domain_rejects_invalid_sizes() {
    assert!(StarkDomain::new(0, 2, 3).is_none());
    assert!(StarkDomain::new(1, 2, 3).is_none());
    assert!(StarkDomain::new(6, 2, 3).is_none());
    assert!(StarkDomain::new(8, 0, 3).is_none());
    assert!(StarkDomain::new(8, 3, 3).is_none());
    assert!(StarkDomain::new(8, 2, 0).is_none());
    assert!(StarkDomain::new(8, 2, MODULUS).is_none());
    assert!(StarkDomain::new(8, 2, u64::MAX).is_none());
    assert!(StarkDomain::new(8, 1 << 37, 3).is_none());
    assert!(StarkDomain::new((MAX_TRACE_LENGTH as usize) * 2, 1, 3).is_none());
}

#[test]
fn column_table_needs_equal_columns_of_power_of_two_length() {
    assert!(ColMatrix::<u64>::new(vec![]).is_none());
    assert!(ColMatrix::<u64>::new(vec![vec![]]).is_none());
    assert!(ColMatrix::<u64>::new(vec![vec![1]]).is_none());
    assert!(ColMatrix::<u64>::new(vec![vec![1, 2, 3]]).is_none());
    assert!(ColMatrix::<u64>::new(vec![vec![1, 2, 3, 4], vec![1, 2]]).is_none());
    assert!(ColMatrix::<u64>::new(vec![vec![1, 2], vec![1, 2, 3, 4]]).is_none());
    let table = ColMatrix::<u64>::new(vec![vec![1, 2, 3, 4], vec![5, 6, 7, 8]]).unwrap();
    assert_eq!(table.num_cols(), 2);
    assert_eq!(table.num_rows(), 4);
    assert_eq!(table.get(1, 2), 7);
    assert_eq!(table.get_column(0), &vec![1, 2, 3, 4]);
}

#[test]
fn row_table_needs_rows_of_the_declared_width() {
    assert!(RowMatrix::<u64>::new(vec![vec![1, 2], vec![3]], 2).is_none());
    assert!(RowMatrix::<u64>::new(vec![vec![1, 2]], 3).is_none());
    let empty = RowMatrix::<u64>::new(vec![], 3).unwrap();
    assert_eq!(empty.num_rows(), 0);
    assert_eq!(empty.num_cols(), 3);
    let table = RowMatrix::<u64>::new(vec![vec![1, 2], vec![3, 4], vec![5, 6]], 2).unwrap();
    assert_eq!(table.num_rows(), 3);
    assert_eq!(table.num_cols(), 2);
    assert_eq!(table.get(1, 2), 6);
    assert_eq!(table.row(1), &[3, 4]);
}

#[test]
fn commitment_needs_a_power_of_two_of_rows() {
    let one = RowMatrix::<u64>::new(vec![vec![1, 2]], 2).unwrap();
    assert_eq!(one.commit_to_rows().err(), Some(TreeError::TooFewLeaves));
    let none = RowMatrix::<u64>::new(vec![], 2).unwrap();
    assert_eq!(none.commit_to_rows().err(), Some(TreeError::TooFewLeaves));
    let three = RowMatrix::<u64>::new(vec![vec![1], vec![2], vec![3]], 1).unwrap();
    assert_eq!(three.commit_to_rows().err(), Some(TreeError::NotPowerOfTwo));
    let six = RowMatrix::<u64>::new((0..6).map(|i| vec![i]).collect(), 1).unwrap();
    assert_eq!(six.commit_to_rows().err(), Some(TreeError::NotPowerOfTwo));
    let four = RowMatrix::<u64>::new((0..4).map(|i| vec![i]).collect(), 1).unwrap();
    let tree = four.commit_to_rows().unwrap();
    assert_eq!(tree.depth(), 2);
    let two = RowMatrix::<u64>::new(vec![vec![1], vec![2]], 1).unwrap();
    assert_eq!(two.commit_to_rows().unwrap().depth(), 1);
}

#[test]
fn tree_is_built_over_the_given_leaves() {
    assert_eq!(SegmentTree::new(vec![]).err(), Some(TreeError::TooFewLeaves));
    assert_eq!(SegmentTree::new(vec![[1u8; 32]]).err(), Some(TreeError::TooFewLeaves));
    assert_eq!(SegmentTree::new(vec![[1u8; 32]; 5]).err(), Some(TreeError::NotPowerOfTwo));
    let leaves: Vec<[u8; 32]> = (0..8u8).map(|i| [i; 32]).collect();
    let tree = SegmentTree::new(leaves.clone()).unwrap();
    assert_eq!(tree.depth(), 3);
    assert_eq!(tree.root(), SegmentTree::new(leaves.clone()).unwrap().root());
    let mut other = leaves.clone();
    other[3] = [9u8; 32];
    assert_ne!(tree.root(), SegmentTree::new(other).unwrap().root());
    let proof = tree.prove_batch(&[6, 1]);
    assert_eq!(proof.leaves, vec![leaves[6], leaves[1]]);
    assert_eq!(proof.depth, 3);
    assert_eq!(proof.nodes.len(), 2);
}

#[test]
fn positions_must_be_few_distinct_and_in_range() {
    assert!(!can_open(&[], 16));
    assert!(can_open(&[0], 16));
    assert!(can_open(&[15, 0, 7], 16));
    assert!(!can_open(&[16], 16));
    assert!(!can_open(&[3, 16, 4], 16));
    assert!(!can_open(&[3, 4, 3], 16));
    assert!(!can_open(&[5, 5], 16));
    assert!(!can_open(&[0], 0));
    let many: Vec<usize> = (0..255).collect();
    assert!(can_open(&many, 256));
    let too_many: Vec<usize> = (0..256).collect();
    assert!(!can_open(&too_many, 256));
}

#[test]
fn next_step_is_one_trace_step_ahead_modulo_the_length() {
    assert_eq!(next_step(0, 2, 16), 2);
    assert_eq!(next_step(14, 2, 16), 0);
    assert_eq!(next_step(15, 2, 16), 1);
    assert_eq!(next_step(13, 2, 16), 15);
    assert_eq!(next_step(0, 8, 8), 0);
    assert_eq!(next_step(5, 1, 8), 6);
    assert_eq!(next_step(7, 1, 8), 0);
    assert_eq!(next_step(24, 8, 32), 0);
    assert_eq!(next_step(usize::MAX - 1, usize::MAX, usize::MAX), usize::MAX - 1);
}

#[test]
fn layout_declares_at_most_one_auxiliary_segment() {
    assert!(TraceLayout::new(0, 0).is_none());
    assert!(TraceLayout::new(0, 3).is_none());
    let plain = TraceLayout::new(4, 0).unwrap();
    assert_eq!(plain.main_trace_width(), 4);
    assert_eq!(plain.aux_trace_width(), 0);
    assert_eq!(plain.num_aux_segments(), 0);
    let with_aux = TraceLayout::new(4, 3).unwrap();
    assert_eq!(with_aux.aux_trace_width(), 3);
    assert_eq!(with_aux.num_aux_segments(), 1);
}

#[test]
fn trace_info_needs_a_power_of_two_length() {
    let layout = TraceLayout::new(2, 1).unwrap();
    assert!(TraceInfo::new(layout, 0, vec![]).is_none());
    assert!(TraceInfo::new(layout, 1, vec![]).is_none());
    assert!(TraceInfo::new(layout, 12, vec![]).is_none());
    let info = TraceInfo::new(layout, 16, vec![1, 2, 3]).unwrap();
    assert_eq!(info.length(), 16);
    assert_eq!(*info.layout(), layout);
    assert_eq!(info.meta(), &vec![1, 2, 3]);
    let copy = info.clone();
    assert_eq!(copy.length(), 16);
    assert_eq!(*copy.layout(), layout);
    assert_eq!(copy.meta(), &vec![1, 2, 3]);
}

#[test]
fn frame_holds_two_rows_of_one_width() {
    assert!(EvaluationFrame::<u64>::from_rows(vec![1, 2], vec![3]).is_none());
    let mut frame = EvaluationFrame::<u64>::from_rows(vec![1, 2], vec![3, 4]).unwrap();
    assert_eq!(frame.current(), &[1, 2]);
    assert_eq!(frame.next(), &[3, 4]);
    frame.copy_current_from(&[5, 6]);
    assert_eq!(frame.current(), &[5, 6]);
    assert_eq!(frame.next(), &[3, 4]);
    frame.copy_next_from(&[7, 8]);
    assert_eq!(frame.current(), &[5, 6]);
    assert_eq!(frame.next(), &[7, 8]);
    let zeros = EvaluationFrame::<(u64, u64)>::new(3);
    assert_eq!(zeros.current(), &[(0, 0), (0, 0), (0, 0)]);
    assert_eq!(zeros.next(), &[(0, 0), (0, 0), (0, 0)]);
    let mut target: Vec<u64> = vec![0, 0, 0];
    copy_row(&mut target, &[4, 5, 6]);
    assert_eq!(target, vec![4, 5, 6]);
}

#[test]
fn queries_write_rows_out_in_coordinates() {
    let proof = BatchProof { leaves: vec![[1u8; 32]], nodes: vec![vec![[2u8; 32]]], depth: 1 };
    let queries = Queries::new::<(u64, u64)>(proof, vec![vec![(1, 2), (3, 4)], vec![(5, 6)]]);
    assert_eq!(queries.rows, vec![vec![1, 2, 3, 4], vec![5, 6]]);
    assert_eq!(queries.proof.leaves, vec![[1u8; 32]]);
    assert_eq!(queries.proof.nodes, vec![vec![[2u8; 32]]]);
    assert_eq!(queries.proof.depth, 1);
}

#[test]
fn poly_table_keeps_segments_in_order() {
    let main = ColMatrix::<u64>::new(vec![vec![1, 2]]).unwrap();
    let mut table = TracePolyTable::<(u64, u64)>::new(main);
    assert_eq!(table.num_aux_segments(), 0);
    assert_eq!(table.main_trace_polys().get(0, 1), 2);
    table.add_aux_segment(ColMatrix::new(vec![vec![(1, 1), (2, 2)]]).unwrap());
    assert_eq!(table.num_aux_segments(), 1);
    assert_eq!(table.aux_trace_polys(0).get(0, 1), (2, 2));
}

#[test]
fn frame_is_read_from_a_given_table() {
    let rows: Vec<Vec<u64>> = (0..8u64).map(|i| vec![i, 10 + i, 20 + i]).collect();
    let table = RowMatrix::new(rows, 3).unwrap();
    let mut frame = EvaluationFrame::<u64>::new(3);
    read_frame_into(&table, 2, 0, &mut frame);
    assert_eq!(frame.current(), &[0, 10, 20]);
    assert_eq!(frame.next(), &[2, 12, 22]);
    read_frame_into(&table, 2, 6, &mut frame);
    assert_eq!(frame.current(), &[6, 16, 26]);
    assert_eq!(frame.next(), &[0, 10, 20]);
    read_frame_into(&table, 2, 7, &mut frame);
    assert_eq!(frame.current(), &[7, 17, 27]);
    assert_eq!(frame.next(), &[1, 11, 21]);
    read_frame_into(&table, 4, 5, &mut frame);
    assert_eq!(frame.next(), &[1, 11, 21]);
}
