use std::sync::Arc;

use datafusion::arrow::array::Array;
use datafusion::arrow::array::ArrayData;
use datafusion::arrow::array::ArrayRef;
use datafusion::arrow::array::Date32Array;
use datafusion::arrow::array::Int32Array;
use datafusion::arrow::array::Int64Array;
use datafusion::arrow::array::RecordBatch;
use datafusion::arrow::array::StringArray;
use datafusion::arrow::datatypes::DataType;
use datafusion::arrow::datatypes::Field;
use datafusion::arrow::datatypes::Schema;
use datafusion_fdw::datum::Datum;
use datafusion_fdw::datum::Row;
use datafusion_fdw::results::reversed;
use datafusion_fdw::results::transpose2;
use datafusion_fdw::results::transpose_recordbatch;
use datafusion_fdw::results::Batch;
use datafusion_fdw::results::DFResult;

fn ints(values: Vec<i32>) -> ArrayData {
    Int32Array::from(values).into_data()
}

fn batch_of_ints(values: Vec<i32>) -> Batch {
    Batch::new(vec![ints(values)]).unwrap()
}

fn one(value: i32) -> Row {
    vec![Some(Datum::Int32(value))]
}

fn drain(result: &mut DFResult) -> Vec<Row> {
    let mut rows = Vec::new();
    while let Some(row) = result.next_record() {
        rows.push(row);
    }
    rows
}

/// The columns of a record batch in the form that the library reads.
fn columns_of(batch: &RecordBatch) -> Vec<ArrayData> {
    batch.columns().iter().map(|column| column.to_data()).collect()
}

#[test]
fn reversed_turns_the_order_round() {
    assert_eq!(reversed(vec![1, 2, 3]), vec![3, 2, 1]);
    assert_eq!(reversed(vec!["x".to_string()]), vec!["x".to_string()]);
    assert_eq!(reversed(Vec::<u8>::new()), Vec::<u8>::new());
}

#[test]
fn transpose2_swaps_rows_and_columns() {
    let rows = transpose2(vec![vec![1, 2, 3], vec![4, 5, 6]]);
    assert_eq!(rows, vec![vec![1, 4], vec![2, 5], vec![3, 6]]);
}

#[test]
fn transpose2_of_one_column() {
    let rows = transpose2(vec![vec!["a".to_string(), "b".to_string()]]);
    assert_eq!(rows, vec![vec!["a".to_string()], vec!["b".to_string()]]);
}

#[test]
fn transpose2_of_columns_without_rows() {
    let rows = transpose2(vec![Vec::<i32>::new(), Vec::new(), Vec::new()]);
    assert_eq!(rows, Vec::<Vec<i32>>::new());
}

#[test]
fn transpose2_twice_gives_the_columns_back() {
    let columns = vec![vec![1, 2], vec![3, 4], vec![5, 6]];
    assert_eq!(transpose2(transpose2(columns.clone())), columns);
}

#[test]
fn a_batch_needs_a_column() {
    assert!(Batch::new(Vec::new()).is_none());
}

#[test]
fn a_batch_needs_columns_of_one_length() {
    assert!(Batch::new(vec![ints(vec![1, 2]), ints(vec![1])]).is_none());
    assert!(Batch::new(vec![ints(vec![]), ints(vec![1])]).is_none());
    assert!(Batch::new(vec![ints(vec![1, 2]), ints(vec![3, 4]), ints(vec![5])]).is_none());
    assert!(Batch::new(vec![ints(vec![1, 2]), ints(vec![3, 4])]).is_some());
}

#[test]
fn a_batch_knows_its_size() {
    let batch = Batch::new(vec![ints(vec![1, 2, 3]), ints(vec![4, 5, 6])]).unwrap();
    assert_eq!(batch.num_columns(), 2);
    assert_eq!(batch.num_rows(), 3);
    assert_eq!(batch.column(1).len(), 3);
    let empty = batch_of_ints(vec![]);
    assert_eq!(empty.num_columns(), 1);
    assert_eq!(empty.num_rows(), 0);
}

#[test]
fn the_rows_of_a_batch_hold_each_column_in_its_place() {
    let names = StringArray::from(vec!["ann", "bob"]).into_data();
    let ages = Int64Array::from(vec![31i64, 47]).into_data();
    let days = Date32Array::from(vec![1, 2]).into_data();
    let batch = Batch::new(vec![names, ages, days]).unwrap();
    let rows = transpose_recordbatch(&batch);
    assert_eq!(
        rows,
        vec![
            vec![Some(Datum::Text("ann".to_string())), Some(Datum::Int64(31)), None],
            vec![Some(Datum::Text("bob".to_string())), Some(Datum::Int64(47)), None],
        ]
    );
}

#[test]
fn a_batch_without_rows_has_no_rows() {
    let batch = batch_of_ints(vec![]);
    assert_eq!(transpose_recordbatch(&batch), Vec::<Row>::new());
}

#[test]
fn one_batch_is_handed_out_row_by_row() {
    let mut result = DFResult::new(vec![batch_of_ints(vec![1, 2, 3])]);
    assert_eq!(result.next_record(), Some(one(1)));
    assert_eq!(result.next_record(), Some(one(2)));
    assert_eq!(result.next_record(), Some(one(3)));
    assert_eq!(result.next_record(), None);
}

#[test]
fn batches_are_chained() {
    let mut result = DFResult::new(vec![batch_of_ints(vec![10]), batch_of_ints(vec![20, 30])]);
    assert_eq!(result.next_record(), Some(one(10)));
    assert_eq!(result.next_record(), Some(one(20)));
    assert_eq!(result.next_record(), Some(one(30)));
    assert_eq!(result.next_record(), None);
}

#[test]
fn batches_without_rows_are_passed_over() {
    let mut result = DFResult::new(vec![
        batch_of_ints(vec![]),
        batch_of_ints(vec![1]),
        batch_of_ints(vec![]),
        batch_of_ints(vec![]),
        batch_of_ints(vec![2, 3]),
        batch_of_ints(vec![]),
    ]);
    assert_eq!(drain(&mut result), vec![one(1), one(2), one(3)]);
    assert_eq!(result.next_record(), None);
}

#[test]
fn nothing_comes_after_the_end() {
    let mut result = DFResult::new(vec![batch_of_ints(vec![1, 2])]);
    assert_eq!(drain(&mut result).len(), 2);
    for _ in 0..50 {
        assert_eq!(result.next_record(), None);
    }
    assert!(result.finished());
}

#[test]
fn a_scan_of_no_batches_is_at_its_end() {
    let mut result = DFResult::new(Vec::new());
    assert_eq!(result.next_record(), None);
    assert_eq!(result.next_record(), None);
    assert!(result.finished());
    assert!(DFResult::new(Vec::new()).finished());
    assert!(DFResult::new(vec![batch_of_ints(vec![]), batch_of_ints(vec![])]).finished());
}

#[test]
fn the_end_is_marked_exactly_when_no_row_is_owed() {
    assert!(!DFResult::new(vec![batch_of_ints(vec![1])]).finished());
    let mut result = DFResult::new(vec![batch_of_ints(vec![1]), batch_of_ints(vec![])]);
    assert_eq!(result.next_record(), Some(one(1)));
    assert!(result.finished());
    let mut result = DFResult::new(vec![batch_of_ints(vec![1]), batch_of_ints(vec![2])]);
    assert_eq!(result.next_record(), Some(one(1)));
    assert!(!result.finished());
}

#[test]
fn a_drain_gives_every_row_of_every_batch_in_order() {
    let mut batches = Vec::new();
    let mut expected = Vec::new();
    let mut next = 0i32;
    for size in [3usize, 0, 1, 5, 2] {
        let mut left = Vec::new();
        let mut right = Vec::new();
        for _ in 0..size {
            left.push(next);
            right.push(format!("row {}", next));
            expected.push(vec![
                Some(Datum::Int32(next)),
                Some(Datum::Text(format!("row {}", next))),
            ]);
            next += 1;
        }
        batches.push(
            Batch::new(vec![ints(left), StringArray::from(right).into_data()]).unwrap(),
        );
    }
    let mut result = DFResult::new(batches);
    let rows = drain(&mut result);
    assert_eq!(rows.len(), 11);
    assert!(rows.iter().all(|row| row.len() == 2));
    assert_eq!(rows, expected);
    assert_eq!(result.next_record(), None);
}

#[test]
fn two_scans_over_the_same_batches_give_the_same_rows() {
    let make = || vec![batch_of_ints(vec![4, 5]), batch_of_ints(vec![6])];
    let mut first = DFResult::new(make());
    assert_eq!(first.next_record(), Some(one(4)));
    let mut second = DFResult::new(make());
    let mut third = DFResult::new(make());
    assert_eq!(drain(&mut second), drain(&mut third));
    assert_eq!(drain(&mut first), vec![one(5), one(6)]);
}

#[test]
fn a_record_batch_of_the_remote_engine_is_read() {
    let schema = Schema::new(vec![
        Field::new("a", DataType::Int32, false),
        Field::new("b", DataType::Utf8, false),
    ]);
    let a: ArrayRef = Arc::new(Int32Array::from(vec![1, 2, 3]));
    let b: ArrayRef = Arc::new(StringArray::from(vec!["x", "y", "z"]));
    let record_batch = RecordBatch::try_new(Arc::new(schema), vec![a, b]).unwrap();
    let batch = Batch::new(columns_of(&record_batch)).unwrap();
    assert_eq!(batch.num_rows(), record_batch.num_rows());
    assert_eq!(batch.num_columns(), record_batch.num_columns());
    let mut result = DFResult::new(vec![batch]);
    assert_eq!(
        drain(&mut result),
        vec![
            vec![Some(Datum::Int32(1)), Some(Datum::Text("x".to_string()))],
            vec![Some(Datum::Int32(2)), Some(Datum::Text("y".to_string()))],
            vec![Some(Datum::Int32(3)), Some(Datum::Text("z".to_string()))],
        ]
    );
}

#[test]
fn a_slice_of_a_record_batch_is_read_from_its_own_first_row() {
    let schema = Schema::new(vec![Field::new("a", DataType::Int32, false)]);
    let a: ArrayRef = Arc::new(Int32Array::from(vec![1, 2, 3, 4, 5]));
    let record_batch = RecordBatch::try_new(Arc::new(schema), vec![a]).unwrap();
    let part = record_batch.slice(2, 2);
    let mut result = DFResult::new(vec![Batch::new(columns_of(&part)).unwrap()]);
    assert_eq!(drain(&mut result), vec![one(3), one(4)]);
}
