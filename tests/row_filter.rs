use frameblaze::table::{Cell, Table};
use frameblaze::transform::{RowFilter, RowFilterOp, RowFilterValue, Transform, TransformError};

fn ints(v: &[i64]) -> Vec<Cell> {
    v.iter().map(|x| Cell::Int(*x)).collect()
}

fn people(rows: &[(&str, i64, &str)]) -> Table {
    let mut t = Table::new(rows.len());
    t.push_column("name".to_string(), rows.iter().map(|r| Cell::Str(r.0.to_string())).collect()).unwrap();
    t.push_column("age".to_string(), rows.iter().map(|r| Cell::Int(r.1)).collect()).unwrap();
    t.push_column("city".to_string(), rows.iter().map(|r| Cell::Str(r.2.to_string())).collect()).unwrap();
    t
}

fn sample_df() -> Table {
    people(&[("Alice", 30, "NYC"), ("Bob", 25, "LA"), ("Charlie", 35, "CHI")])
}

fn value(t: &Table, col: &str, row: usize) -> Cell {
    t.column(col).unwrap().get(row).unwrap().clone()
}

#[test]
fn test_eq_int() {
    let df = sample_df();
    let filter = RowFilter::new("age", RowFilterOp::Eq, RowFilterValue::Int(25));
    let out = filter.transform(df).unwrap();
    assert_eq!(out.shape(), (1, 3));
    assert_eq!(value(&out, "name", 0), Cell::Str("Bob".to_string()));
}

#[test]
fn test_gt_int() {
    let df = sample_df();
    let filter = RowFilter::new("age", RowFilterOp::Gt, RowFilterValue::Int(30));
    let out = filter.transform(df).unwrap();
    assert_eq!(out.shape(), (1, 3));
    assert_eq!(value(&out, "name", 0), Cell::Str("Charlie".to_string()));
}

#[test]
fn test_eq_str() {
    let df = sample_df();
    let filter = RowFilter::new("city", RowFilterOp::Eq, RowFilterValue::Str("LA".into()));
    let out = filter.transform(df).unwrap();
    assert_eq!(out.shape(), (1, 3));
    assert_eq!(value(&out, "city", 0), Cell::Str("LA".to_string()));
    assert_eq!(value(&out, "name", 0), Cell::Str("Bob".to_string()));
}

#[test]
fn test_no_matches() {
    let df = sample_df();
    let filter = RowFilter::new("age", RowFilterOp::Eq, RowFilterValue::Int(99));
    let out = filter.transform(df).unwrap();
    assert_eq!(out.shape(), (0, 3));
    assert_eq!(out.column_names(), vec!["name", "age", "city"]);
}

#[test]
fn eq_keeps_exactly_the_matching_row() {
    let t = people(&[("Alice", 25, "NYC"), ("Bob", 30, "SF")]);
    let filter = RowFilter::new("age", RowFilterOp::Eq, RowFilterValue::Int(25));
    let out = filter.transform(t).unwrap();
    assert_eq!(out, people(&[("Alice", 25, "NYC")]));
}

#[test]
fn gt_keeps_order() {
    let t = people(&[("Alice", 25, "NYC"), ("Bob", 30, "SF"), ("Charlie", 35, "CHI")]);
    let filter = RowFilter::new("age", RowFilterOp::Gt, RowFilterValue::Int(25));
    let out = filter.transform(t).unwrap();
    assert_eq!(out, people(&[("Bob", 30, "SF"), ("Charlie", 35, "CHI")]));
}

#[test]
fn lt_keeps_smaller_values() {
    let filter = RowFilter::new("age", RowFilterOp::Lt, RowFilterValue::Int(30));
    let out = filter.transform(sample_df()).unwrap();
    assert_eq!(out, people(&[("Bob", 25, "LA")]));
}

#[test]
fn text_order_comparison_is_unsupported() {
    let t = people(&[("Alice", 25, "NYC"), ("Bob", 30, "SF")]);
    let gt = RowFilter::new("city", RowFilterOp::Gt, RowFilterValue::Str("NYC".to_string()));
    assert_eq!(gt.transform(t.clone()).unwrap_err(), TransformError::UnsupportedPredicate);
    let lt = RowFilter::new("city", RowFilterOp::Lt, RowFilterValue::Str("NYC".to_string()));
    assert_eq!(lt.transform(t).unwrap_err(), TransformError::UnsupportedPredicate);
}

#[test]
fn missing_column_is_an_error() {
    let filter = RowFilter::new("height", RowFilterOp::Eq, RowFilterValue::Int(1));
    assert_eq!(filter.transform(sample_df()).unwrap_err(), TransformError::ColumnNotFound);
}

#[test]
fn nulls_and_other_values_never_match() {
    let mut t = Table::new(4);
    t.push_column("x".to_string(), vec![Cell::Null, Cell::Int(5), Cell::Other("5.0".to_string()), Cell::Str("5".to_string())])
        .unwrap();
    t.push_column("y".to_string(), ints(&[1, 2, 3, 4])).unwrap();
    let filter = RowFilter::new("x", RowFilterOp::Eq, RowFilterValue::Int(5));
    let out = filter.transform(t).unwrap();
    assert_eq!(out.shape(), (1, 2));
    assert_eq!(out.column("y").unwrap().cells, ints(&[2]));
}

#[test]
fn integer_extremes_compare_exactly() {
    let mut t = Table::new(3);
    t.push_column("v".to_string(), ints(&[i64::MIN, 0, i64::MAX])).unwrap();
    let out = RowFilter::new("v", RowFilterOp::Gt, RowFilterValue::Int(i64::MIN)).transform(t.clone()).unwrap();
    assert_eq!(out.column("v").unwrap().cells, ints(&[0, i64::MAX]));
    let out = RowFilter::new("v", RowFilterOp::Lt, RowFilterValue::Int(i64::MAX)).transform(t).unwrap();
    assert_eq!(out.column("v").unwrap().cells, ints(&[i64::MIN, 0]));
}
