use frameblaze::config::{parse_literal, parse_op, run_pipeline, Config, ConfigError};
use frameblaze::format::Format;
use frameblaze::table::{Cell, Table};
use frameblaze::text::parse_i64;
use frameblaze::transform::{ColumnFilter, RowFilter, RowFilterOp, RowFilterValue, TransformError};

fn strings(v: &[&str]) -> Vec<String> {
    v.iter().map(|s| s.to_string()).collect()
}

fn config(output: Option<&str>, op: Option<&str>, val: Option<&str>) -> Config {
    Config::new(
        Format::Csv,
        Format::Parquet,
        "in.csv".to_string(),
        output.map(|s| s.to_string()),
        Some(strings(&["name", "age"])),
        None,
        Some("age".to_string()),
        op.map(|s| s.to_string()),
        val.map(|s| s.to_string()),
    )
}

fn people() -> Table {
    let mut t = Table::new(3);
    t.push_column("name".to_string(), strings(&["Alice", "Bob", "Charlie"]).into_iter().map(Cell::Str).collect())
        .unwrap();
    t.push_column("age".to_string(), vec![Cell::Int(25), Cell::Int(30), Cell::Int(35)]).unwrap();
    t.push_column("city".to_string(), strings(&["NYC", "SF", "CHI"]).into_iter().map(Cell::Str).collect())
        .unwrap();
    t
}

#[test]
fn output_is_required() {
    assert_eq!(config(None, None, None).validate(), Err(ConfigError::MissingOutput));
    assert_eq!(config(Some("out.parquet"), None, None).validate(), Ok(()));
}

#[test]
fn operator_words() {
    assert_eq!(parse_op("eq"), Some(RowFilterOp::Eq));
    assert_eq!(parse_op("gt"), Some(RowFilterOp::Gt));
    assert_eq!(parse_op("lt"), Some(RowFilterOp::Lt));
    assert_eq!(parse_op("ge"), None);
    assert_eq!(parse_op("EQ"), None);
}

#[test]
fn literals_are_integers_when_they_parse() {
    assert_eq!(parse_literal("25"), RowFilterValue::Int(25));
    assert_eq!(parse_literal("-7"), RowFilterValue::Int(-7));
    assert_eq!(parse_literal("+7"), RowFilterValue::Int(7));
    assert_eq!(parse_literal("LA"), RowFilterValue::Str("LA".to_string()));
    assert_eq!(parse_literal("9223372036854775808"), RowFilterValue::Str("9223372036854775808".to_string()));
    assert_eq!(parse_literal(" 5"), RowFilterValue::Str(" 5".to_string()));
    assert_eq!(parse_i64("9223372036854775807"), Some(i64::MAX));
    assert_eq!(parse_i64("-9223372036854775808"), Some(i64::MIN));
    assert_eq!(parse_i64(""), None);
    assert_eq!(parse_i64("-"), None);
}

#[test]
fn row_filter_needs_all_three_parts() {
    let f = config(Some("o"), Some("gt"), Some("25")).row_filter().unwrap();
    assert_eq!(f.column, "age");
    assert_eq!(f.op, RowFilterOp::Gt);
    assert_eq!(f.value, RowFilterValue::Int(25));
    assert!(config(Some("o"), None, Some("25")).row_filter().is_none());
    assert!(config(Some("o"), Some("eq"), None).row_filter().is_none());
}

#[test]
fn unknown_operator_means_no_row_filter() {
    assert!(config(Some("o"), Some("like"), Some("25")).row_filter().is_none());
}

#[test]
fn pipeline_projects_then_filters_rows() {
    let c = config(Some("o"), Some("gt"), Some("25"));
    let out = run_pipeline(&c.column_filter(), &c.row_filter(), people()).unwrap();
    assert_eq!(out.column_names(), vec!["name", "age"]);
    assert_eq!(out.column("name").unwrap().cells, vec![Cell::Str("Bob".to_string()), Cell::Str("Charlie".to_string())]);
}

#[test]
fn predicate_on_removed_column_fails() {
    let columns = ColumnFilter::new(None, Some(strings(&["city"])));
    let rows = Some(RowFilter::new("city", RowFilterOp::Eq, RowFilterValue::Str("SF".to_string())));
    assert_eq!(run_pipeline(&columns, &rows, people()).unwrap_err(), TransformError::ColumnNotFound);
}

#[test]
fn pipeline_without_row_stage_only_projects() {
    let c = config(Some("o"), Some("between"), Some("25"));
    let out = run_pipeline(&c.column_filter(), &c.row_filter(), people()).unwrap();
    assert_eq!(out.shape(), (3, 2));
}
