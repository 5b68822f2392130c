//! The settings of one run, and the pipeline they configure.
use vstd::prelude::*;
use crate::format::Format;
use crate::table::{Table, TableView};
use crate::text::{copy_texts, parse_i64, same_text, decimal_i64};
use crate::transform::{
    names_view, outcome_view, ColumnFilter, RowFilter, RowFilterOp, RowFilterValue, Transform,
    TransformError,
};

verus! {

/// The command line of a run, as parsed.
#[derive(Clone, Debug)]
pub struct Cli {
    /// Source format.
    pub from_format: Format,
    /// Target format.
    pub to_format: Format,
    /// Path or URI of the input.
    pub input_file: String,
    /// Path or URI of the output.
    pub output: Option<String>,
    /// Append to an existing output (CSV only).
    pub append: bool,
    /// Columns to keep.
    pub include_columns: Option<Vec<String>>,
    /// Columns to drop.
    pub exclude_columns: Option<Vec<String>>,
    /// The column a row predicate reads.
    pub row_filter_col: Option<String>,
    /// The predicate's operator: `eq`, `gt` or `lt`.
    pub row_filter_op: Option<String>,
    /// The predicate's literal.
    pub row_filter_val: Option<String>,
}

/// Why a configuration cannot run.
#[derive(Clone, Copy, Debug, PartialEq, Eq, Structural)]
pub enum ConfigError {
    /// No output was given.
    MissingOutput,
}

/// The settings of one run.
#[derive(Clone, Debug)]
pub struct Config {
    pub from_format: Format,
    pub to_format: Format,
    pub input_file: String,
    pub output_file: Option<String>,
    pub include_columns: Option<Vec<String>>,
    pub exclude_columns: Option<Vec<String>>,
    pub row_filter_col: Option<String>,
    pub row_filter_op: Option<String>,
    pub row_filter_val: Option<String>,
}

/// The operator an operator word names: `eq`, `gt` or `lt`.
pub open spec fn op_named(word: Seq<char>) -> Option<RowFilterOp> {
    if word == "eq"@ {
        Some(RowFilterOp::Eq)
    } else if word == "gt"@ {
        Some(RowFilterOp::Gt)
    } else if word == "lt"@ {
        Some(RowFilterOp::Lt)
    } else {
        None
    }
}

/// Whether `v` is the literal that the text `raw` stands for: a 64-bit
/// integer where the text is one, the text itself otherwise.
pub open spec fn is_literal_of(v: RowFilterValue, raw: Seq<char>) -> bool {
    match decimal_i64(raw) {
        Some(i) => v == RowFilterValue::Int(i),
        None => v matches RowFilterValue::Str(s) && s@ == raw,
    }
}

/// A list of names, copied, as values.
pub open spec fn opt_names_view(v: Option<Vec<String>>) -> Option<Seq<Seq<char>>> {
    match v {
        Some(v) => Some(names_view(v@)),
        None => None,
    }
}

/// The operator an operator word names.
pub fn parse_op(word: &str) -> (r: Option<RowFilterOp>)
    ensures
        r == op_named(word@),
{
    if same_text(word, "eq") {
        Some(RowFilterOp::Eq)
    } else if same_text(word, "gt") {
        Some(RowFilterOp::Gt)
    } else if same_text(word, "lt") {
        Some(RowFilterOp::Lt)
    } else {
        None
    }
}

/// The literal a text stands for.
pub fn parse_literal(raw: &str) -> (r: RowFilterValue)
    ensures
        is_literal_of(r, raw@),
{
    match parse_i64(raw) {
        Some(i) => RowFilterValue::Int(i),
        None => RowFilterValue::Str(raw.to_owned()),
    }
}

fn copy_names(v: &Option<Vec<String>>) -> (r: Option<Vec<String>>)
    ensures
        opt_names_view(r) == opt_names_view(*v),
{
    match v {
        Some(names) => Some(copy_texts(names)),
        None => None,
    }
}

impl Config {
    /// The operator that the operator word names, if one is given.
    pub open spec fn named_op(&self) -> Option<RowFilterOp> {
        match self.row_filter_op {
            Some(w) => op_named(w@),
            None => None,
        }
    }

    pub fn new(
        from_format: Format,
        to_format: Format,
        input_file: String,
        output_file: Option<String>,
        include_columns: Option<Vec<String>>,
        exclude_columns: Option<Vec<String>>,
        row_filter_col: Option<String>,
        row_filter_op: Option<String>,
        row_filter_val: Option<String>,
    ) -> (r: Self)
        ensures
            r.from_format == from_format,
            r.to_format == to_format,
            r.input_file == input_file,
            r.output_file == output_file,
            r.include_columns == include_columns,
            r.exclude_columns == exclude_columns,
            r.row_filter_col == row_filter_col,
            r.row_filter_op == row_filter_op,
            r.row_filter_val == row_filter_val,
    {
        Config {
            from_format,
            to_format,
            input_file,
            output_file,
            include_columns,
            exclude_columns,
            row_filter_col,
            row_filter_op,
            row_filter_val,
        }
    }

    /// A run needs an output.
    pub fn validate(&self) -> (r: Result<(), ConfigError>)
        ensures
            r is Ok <==> self.output_file is Some,
            r is Err ==> r == Err::<(), ConfigError>(ConfigError::MissingOutput),
    {
        match &self.output_file {
            Some(_) => Ok(()),
            None => Err(ConfigError::MissingOutput),
        }
    }

    /// The column stage of the run.
    pub fn column_filter(&self) -> (r: ColumnFilter)
        ensures
            opt_names_view(r.select) == opt_names_view(self.include_columns),
            opt_names_view(r.exclude) == opt_names_view(self.exclude_columns),
    {
        ColumnFilter::new(copy_names(&self.include_columns), copy_names(&self.exclude_columns))
    }

    /// The row stage of the run: present when column, operator and literal all
    /// are, and the operator word is `eq`, `gt` or `lt`. Another operator word
    /// leaves the rows unfiltered rather than failing.
    pub fn row_filter(&self) -> (r: Option<RowFilter>)
        ensures
            r is Some <==> self.row_filter_col is Some && self.row_filter_val is Some
                && self.named_op() is Some,
            r matches Some(f) ==> self.row_filter_col is Some && f.column@ == self.row_filter_col->Some_0@
                && self.named_op() == Some(f.op)
                && self.row_filter_val is Some && is_literal_of(f.value, self.row_filter_val->Some_0@),
    {
        match (&self.row_filter_col, &self.row_filter_op, &self.row_filter_val) {
            (Some(col), Some(word), Some(raw)) => match parse_op(word.as_str()) {
                Some(op) => Some(RowFilter::new(col.as_str(), op, parse_literal(raw.as_str()))),
                None => None,
            },
            _ => None,
        }
    }
}

/// The pipeline's result: the column stage, then the row stage if there is one.
pub open spec fn pipeline_outcome(
    columns: ColumnFilter,
    rows: Option<RowFilter>,
    t: TableView,
) -> Result<TableView, TransformError> {
    match rows {
        None => Ok(columns.filtered(t)),
        Some(f) => f.filtered(columns.filtered(t)),
    }
}

/// Runs the column stage, then the row stage if there is one. A predicate on a
/// column that the column stage removed fails with `ColumnNotFound`.
pub fn run_pipeline(columns: &ColumnFilter, rows: &Option<RowFilter>, table: Table) -> (r: Result<Table, TransformError>)
    requires
        table.wf(),
    ensures
        outcome_view(r) == pipeline_outcome(*columns, *rows, table@),
        r matches Ok(t) ==> t.wf(),
{
    let projected = columns.transform(table);
    match projected {
        Ok(t) => match rows {
            Some(f) => f.transform(t),
            None => Ok(t),
        },
        Err(e) => Err(e),
    }
}

} // verus!
