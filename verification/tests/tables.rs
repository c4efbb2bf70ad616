use rusty_base::{EvalMode, Table, ThreadingType};

fn sample() -> Table<i32> {
    Table::from_rows(3, vec![vec![1, 2, 3], vec![4, 5, 6]]).unwrap()
}

#[test]
fn from_rows_keeps_the_rows() {
    let t = sample();
    assert_eq!(t.nrows(), 2);
    assert_eq!(t.ncols(), 3);
    assert_eq!(t.row(0), &vec![1, 2, 3]);
    assert_eq!(t.row(1), &vec![4, 5, 6]);
    assert_eq!(t.into_rows(), vec![vec![1, 2, 3], vec![4, 5, 6]]);
}

#[test]
fn from_rows_refuses_a_row_of_another_length() {
    assert!(Table::from_rows(3, vec![vec![1, 2, 3], vec![4, 5]]).is_none());
    assert!(Table::from_rows(2, vec![vec![1, 2, 3]]).is_none());
    assert!(Table::from_rows(0, vec![vec![1]]).is_none());
    assert!(Table::from_rows(1, vec![vec![1], Vec::new()]).is_none());
}

#[test]
fn from_rows_without_rows_keeps_the_width() {
    let t: Table<i32> = Table::from_rows(3, Vec::new()).unwrap();
    assert_eq!(t.nrows(), 0);
    assert_eq!(t.ncols(), 3);
    assert_eq!(t.column(2), Vec::new());
}

#[test]
fn from_rows_without_columns_keeps_the_height() {
    let t: Table<i32> = Table::from_rows(0, vec![Vec::new(), Vec::new()]).unwrap();
    assert_eq!(t.nrows(), 2);
    assert_eq!(t.ncols(), 0);
}

#[test]
fn get_is_none_outside_the_table() {
    let t = sample();
    assert_eq!(t.get(0, 0), Some(1));
    assert_eq!(t.get(1, 2), Some(6));
    assert_eq!(t.get(0, 2), Some(3));
    assert_eq!(t.get(2, 0), None);
    assert_eq!(t.get(0, 3), None);
    assert_eq!(t.get(usize::MAX, usize::MAX), None);
}

#[test]
fn column_reads_from_top_to_bottom() {
    let t = sample();
    assert_eq!(t.column(0), vec![1, 4]);
    assert_eq!(t.column(2), vec![3, 6]);
}

#[test]
fn transpose_swaps_rows_and_columns() {
    let t = sample().transpose();
    assert_eq!(t.nrows(), 3);
    assert_eq!(t.ncols(), 2);
    assert_eq!(t.get(2, 1), Some(6));
    assert_eq!(t.into_rows(), vec![vec![1, 4], vec![2, 5], vec![3, 6]]);
}

#[test]
fn transpose_twice_gives_the_table_back() {
    assert_eq!(sample().transpose().transpose(), sample());
    let flat: Table<i32> = Table::from_rows(3, Vec::new()).unwrap();
    let tall = flat.transpose();
    assert_eq!(tall.nrows(), 3);
    assert_eq!(tall.ncols(), 0);
    assert_eq!(tall.transpose(), flat);
}

#[test]
fn from_columns_keeps_the_columns() {
    let t = Table::from_columns(2, vec![vec![1, 4], vec![2, 5], vec![3, 6]]).unwrap();
    assert_eq!(t.nrows(), 2);
    assert_eq!(t.ncols(), 3);
    assert_eq!(t.column(1), vec![2, 5]);
    assert_eq!(t, sample());
}

#[test]
fn from_columns_refuses_a_column_of_another_length() {
    assert!(Table::from_columns(2, vec![vec![1, 4], vec![2]]).is_none());
    assert!(Table::from_columns(0, vec![vec![1]]).is_none());
}

#[test]
fn from_columns_without_columns_keeps_the_height() {
    let t: Table<i32> = Table::from_columns(4, Vec::new()).unwrap();
    assert_eq!(t.nrows(), 4);
    assert_eq!(t.ncols(), 0);
    assert_eq!(t.row(3), &Vec::new());
}

#[test]
fn clone_has_the_same_entries() {
    let t = sample();
    let copy = t.clone();
    assert_eq!(copy, t);
    assert_eq!(copy.into_rows(), vec![vec![1, 2, 3], vec![4, 5, 6]]);
    let flat: Table<i32> = Table::from_rows(3, Vec::new()).unwrap();
    assert_eq!(flat.clone().ncols(), 3);
}

#[test]
fn switches_have_their_variants() {
    assert!(matches!(ThreadingType::Parallel, ThreadingType::Parallel));
    assert!(!matches!(ThreadingType::Serial, ThreadingType::Parallel));
    assert!(matches!(EvalMode::Value, EvalMode::Value));
    assert!(!matches!(EvalMode::ValueGrad, EvalMode::Value));
}
