//! The transform pipeline: column projection and exclusion, then a typed row
//! predicate. Each stage takes its table by value and hands back a new one.
use vstd::prelude::*;
use crate::table::{
    cells_view, column_position, lemma_position_names, Cell, CellView, Column, ColumnView, Table,
    TableView,
};
use crate::text::{contains_text, same_text};

verus! {

/// Why a transform stage refused a table.
#[derive(Clone, Copy, Debug, PartialEq, Eq, Structural)]
pub enum TransformError {
    /// The predicate names a column that the table does not have.
    ColumnNotFound,
    /// The operator cannot be applied to the literal (`>` or `<` on text).
    UnsupportedPredicate,
}

/// What a stage's result is, as values.
pub open spec fn outcome_view(r: Result<Table, TransformError>) -> Result<TableView, TransformError> {
    match r {
        Ok(t) => Ok(t@),
        Err(e) => Err(e),
    }
}

/// One stage of the pipeline.
pub trait Transform {
    /// What the stage makes of a table.
    spec fn outcome(&self, t: TableView) -> Result<TableView, TransformError>;

    /// Applies the stage; a well-formed table gives a well-formed table.
    fn transform(&self, table: Table) -> (r: Result<Table, TransformError>)
        requires
            table.wf(),
        ensures
            outcome_view(r) == self.outcome(table@),
            r matches Ok(t) ==> t.wf(),
    ;
}

/// The texts of a list of names, as values.
pub open spec fn names_view(names: Seq<String>) -> Seq<Seq<char>> {
    names.map_values(|s: String| s@)
}

/// Column projection (`select`) followed by column exclusion (`exclude`).
#[derive(Clone, Debug)]
pub struct ColumnFilter {
    pub select: Option<Vec<String>>,
    pub exclude: Option<Vec<String>>,
}

impl ColumnFilter {
    pub fn new(select: Option<Vec<String>>, exclude: Option<Vec<String>>) -> (r: Self)
        ensures
            r.select == select,
            r.exclude == exclude,
    {
        ColumnFilter { select, exclude }
    }

    /// Whether a column of this name survives: it is selected (or no selection
    /// list is given) and not excluded. Names that no column has play no part.
    pub open spec fn keeps(&self, name: Seq<char>) -> bool {
        &&& match self.select {
            Some(v) => names_view(v@).contains(name),
            None => true,
        }
        &&& match self.exclude {
            Some(v) => !names_view(v@).contains(name),
            None => true,
        }
    }

    /// The table with the surviving columns, in the table's own order, and all
    /// its rows.
    pub open spec fn filtered(&self, t: TableView) -> TableView {
        TableView { height: t.height, columns: t.columns.filter(|c: ColumnView| self.keeps(c.name)) }
    }

    fn keeps_name(&self, name: &String) -> (r: bool)
        ensures
            r == self.keeps(name@),
    {
        let included = match &self.select {
            Some(v) => contains_text(v, name.as_str()),
            None => true,
        };
        let excluded = match &self.exclude {
            Some(v) => contains_text(v, name.as_str()),
            None => false,
        };
        included && !excluded
    }
}

impl Transform for ColumnFilter {
    open spec fn outcome(&self, t: TableView) -> Result<TableView, TransformError> {
        Ok(self.filtered(t))
    }

    fn transform(&self, table: Table) -> (r: Result<Table, TransformError>) {
        let ghost orig = table@.columns;
        let ghost keep = |c: ColumnView| self.keeps(c.name);
        let height = table.height;
        let mut rest = table.columns;
        let mut kept: Vec<Column> = Vec::new();
        let n = rest.len();
        let mut i: usize = 0;
        while i < n
            invariant
                n == orig.len(),
                i <= n,
                table@.wf(),
                orig == table@.columns,
                height == table@.height,
                keep == (|c: ColumnView| self.keeps(c.name)),
                rest@.len() == n - i,
                forall|k: int| 0 <= k < rest@.len() ==> #[trigger] rest@[k]@ == orig[i + k],
                kept@.map_values(|c: Column| c@) == orig.take(i as int).filter(keep),
                forall|k: int| 0 <= k < kept@.len() ==> exists|j: int| 0 <= j < i && #[trigger] kept@[k]@ == orig[j],
                (TableView { height: height as nat, columns: kept@.map_values(|c: Column| c@) }).wf(),
            decreases n - i,
        {
            let ghost before = kept@;
            let ghost prev = before.map_values(|c: Column| c@);
            assert((TableView { height: height as nat, columns: prev }).wf());
            let ghost r0 = rest@;
            assert(r0[0]@ == orig[i + 0]);
            let c = rest.remove(0);
            assert forall|k: int| 0 <= k < rest@.len() implies #[trigger] rest@[k]@ == orig[i + 1 + k] by {
                assert(rest@[k] == r0[k + 1]);
            }
            proof {
                reveal(Seq::filter);
                assert(orig.take(i + 1).drop_last() =~= orig.take(i as int));
            }
            if self.keeps_name(&c.name) {
                kept.push(c);
                proof {
                    assert(kept@.map_values(|c: Column| c@) =~= before.map_values(|c: Column| c@).push(orig[i as int]));
                    let cols = kept@.map_values(|c: Column| c@);
                    assert forall|a: int, b: int|
                        0 <= a < cols.len() && 0 <= b < cols.len() && a != b
                            implies #[trigger] cols[a].name != #[trigger] cols[b].name by {
                        if a == cols.len() - 1 {
                            assert(kept@[b]@ == cols[b]);
                            let j = choose|j: int| 0 <= j < i && #[trigger] kept@[b]@ == orig[j];
                            assert(orig[j].name != orig[i as int].name);
                        } else if b == cols.len() - 1 {
                            assert(kept@[a]@ == cols[a]);
                            let j = choose|j: int| 0 <= j < i && #[trigger] kept@[a]@ == orig[j];
                            assert(orig[j].name != orig[i as int].name);
                        } else {
                            assert(prev[a] == cols[a]);
                            assert(prev[b] == cols[b]);
                            assert(prev[a].name != prev[b].name);
                        }
                    }
                    assert forall|k: int| 0 <= k < kept@.len()
                        implies exists|j: int| 0 <= j < i + 1 && #[trigger] kept@[k]@ == orig[j] by {
                        if k < kept@.len() - 1 {
                            assert(before[k] == kept@[k]);
                            let j = choose|j: int| 0 <= j < i && #[trigger] before[k]@ == orig[j];
                        } else {
                            assert(kept@[k]@ == orig[i as int]);
                        }
                    }
                    assert forall|a: int| 0 <= a < cols.len() implies #[trigger] cols[a].cells.len() == height by {
                        if a < cols.len() - 1 {
                            assert(before[a]@ == cols[a]);
                        }
                    }
                }
            }
            i = i + 1;
        }
        assert(orig.take(n as int) =~= orig);
        Ok(Table { columns: kept, height })
    }
}

/// A comparison operator of a row predicate.
#[derive(Clone, Copy, Debug, PartialEq, Eq, Structural)]
pub enum RowFilterOp {
    Eq,
    Gt,
    Lt,
}

/// The literal a row predicate compares against.
#[derive(Clone, Debug, PartialEq)]
pub enum RowFilterValue {
    Int(i64),
    Str(String),
}

/// Keeps the rows whose value in `column` stands in relation `op` to `value`.
#[derive(Clone, Debug)]
pub struct RowFilter {
    pub column: String,
    pub op: RowFilterOp,
    pub value: RowFilterValue,
}

/// The column restricted to the given rows, in the order given.
pub open spec fn pick_rows(c: ColumnView, rows: Seq<int>) -> ColumnView {
    ColumnView { name: c.name, cells: rows.map_values(|k: int| c.cells[k]) }
}

impl RowFilter {
    pub fn new(column: &str, op: RowFilterOp, value: RowFilterValue) -> (r: Self)
        ensures
            r.column@ == column@,
            r.op == op,
            r.value == value,
    {
        RowFilter { column: column.to_owned(), op, value }
    }

    /// Integer literals go with every operator, text literals with `Eq` only.
    pub open spec fn supported(&self) -> bool {
        match self.value {
            RowFilterValue::Int(_) => true,
            RowFilterValue::Str(_) => self.op == RowFilterOp::Eq,
        }
    }

    /// Whether a value satisfies the predicate: integers compare numerically
    /// with an integer literal, texts by equality with a text literal; nulls
    /// and values of another kind never satisfy it.
    pub open spec fn accepts(&self, c: CellView) -> bool {
        match (self.value, c) {
            (RowFilterValue::Int(lit), CellView::Int(x)) => match self.op {
                RowFilterOp::Eq => x == lit,
                RowFilterOp::Gt => x > lit,
                RowFilterOp::Lt => x < lit,
            },
            (RowFilterValue::Str(lit), CellView::Str(s)) => self.op == RowFilterOp::Eq && s == lit@,
            _ => false,
        }
    }

    /// The positions of the values that satisfy the predicate, in order.
    pub open spec fn matching_rows(&self, cells: Seq<CellView>) -> Seq<int>
        decreases cells.len(),
    {
        if cells.len() == 0 {
            Seq::empty()
        } else {
            let before = self.matching_rows(cells.drop_last());
            if self.accepts(cells.last()) {
                before.push(cells.len() - 1)
            } else {
                before
            }
        }
    }

    /// The table restricted to the rows that satisfy the predicate, with all its
    /// columns; an error for an unsupported predicate, then for a missing column.
    pub open spec fn filtered(&self, t: TableView) -> Result<TableView, TransformError> {
        if !self.supported() {
            Err(TransformError::UnsupportedPredicate)
        } else {
            match column_position(t.columns, self.column@) {
                None => Err(TransformError::ColumnNotFound),
                Some(p) => {
                    let rows = self.matching_rows(t.columns[p].cells);
                    Ok(TableView {
                        height: rows.len(),
                        columns: t.columns.map_values(|c: ColumnView| pick_rows(c, rows)),
                    })
                },
            }
        }
    }

    fn is_supported(&self) -> (r: bool)
        ensures
            r == self.supported(),
    {
        match &self.value {
            RowFilterValue::Int(_) => true,
            RowFilterValue::Str(_) => self.op == RowFilterOp::Eq,
        }
    }

    fn accepts_cell(&self, c: &Cell) -> (r: bool)
        ensures
            r == self.accepts(c@),
    {
        match (&self.value, c) {
            (RowFilterValue::Int(lit), Cell::Int(x)) => match self.op {
                RowFilterOp::Eq => *x == *lit,
                RowFilterOp::Gt => *x > *lit,
                RowFilterOp::Lt => *x < *lit,
            },
            (RowFilterValue::Str(lit), Cell::Str(s)) => self.op == RowFilterOp::Eq && same_text(
                s.as_str(),
                lit.as_str(),
            ),
            _ => false,
        }
    }

    /// The positions of the values of `cells` that satisfy the predicate.
    fn select_rows(&self, cells: &Vec<Cell>) -> (r: Vec<usize>)
        ensures
            r@.map_values(|k: usize| k as int) == self.matching_rows(cells_view(cells@)),
            forall|j: int| 0 <= j < r@.len() ==> #[trigger] r@[j] < cells@.len(),
    {
        let ghost cv = cells_view(cells@);
        let mut kept: Vec<usize> = Vec::new();
        let mut i: usize = 0;
        assert(cv.take(0) =~= Seq::<CellView>::empty());
        while i < cells.len()
            invariant
                cv == cells_view(cells@),
                i <= cells.len(),
                kept@.map_values(|k: usize| k as int) == self.matching_rows(cv.take(i as int)),
                forall|j: int| 0 <= j < kept@.len() ==> #[trigger] kept@[j] < i,
            decreases cells.len() - i,
        {
            assert(cv.take(i + 1).drop_last() =~= cv.take(i as int));
            let ghost before = kept@;
            if self.accepts_cell(&cells[i]) {
                kept.push(i);
                assert(kept@.map_values(|k: usize| k as int) =~= before.map_values(|k: usize| k as int).push(i as int));
            }
            i = i + 1;
        }
        assert(cv.take(cells.len() as int) =~= cv);
        kept
    }

    /// The column restricted to the rows at `rows`.
    fn pick(c: &Column, rows: &Vec<usize>) -> (r: Column)
        requires
            forall|j: int| 0 <= j < rows@.len() ==> #[trigger] rows@[j] < c.cells@.len(),
        ensures
            r@ == pick_rows(c@, rows@.map_values(|k: usize| k as int)),
    {
        let ghost rv = rows@.map_values(|k: usize| k as int);
        let mut cells: Vec<Cell> = Vec::new();
        let mut j: usize = 0;
        while j < rows.len()
            invariant
                rv == rows@.map_values(|k: usize| k as int),
                j <= rows.len(),
                forall|q: int| 0 <= q < rows@.len() ==> #[trigger] rows@[q] < c.cells@.len(),
                cells_view(cells@) =~= rv.take(j as int).map_values(|k: int| c@.cells[k]),
            decreases rows.len() - j,
        {
            let v = c.cells[rows[j]].duplicate();
            let ghost c0 = cells@;
            cells.push(v);
            assert(cells_view(cells@) =~= cells_view(c0).push(v@));
            assert(rv.take(j + 1).map_values(|k: int| c@.cells[k]) =~= rv.take(j as int).map_values(
                |k: int| c@.cells[k],
            ).push(c@.cells[rv[j as int]]));
            j = j + 1;
        }
        assert(rv.take(rows.len() as int) =~= rv);
        Column { name: c.name.clone(), cells }
    }
}

impl Transform for RowFilter {
    open spec fn outcome(&self, t: TableView) -> Result<TableView, TransformError> {
        self.filtered(t)
    }

    fn transform(&self, table: Table) -> (r: Result<Table, TransformError>) {
        if !self.is_supported() {
            return Err(TransformError::UnsupportedPredicate);
        }
        let p = match table.position(self.column.as_str()) {
            Some(p) => p,
            None => {
                return Err(TransformError::ColumnNotFound);
            },
        };
        proof {
            lemma_position_names(table@.columns, self.column@);
        }
        let ghost t = table@;
        assert(t.columns[p as int].cells.len() == t.height);
        let rows = self.select_rows(&table.columns[p].cells);
        let ghost rv = rows@.map_values(|k: usize| k as int);
        let mut columns: Vec<Column> = Vec::new();
        let mut i: usize = 0;
        while i < table.columns.len()
            invariant
                t == table@,
                t.wf(),
                i <= table.columns.len(),
                rv == rows@.map_values(|k: usize| k as int),
                forall|j: int| 0 <= j < rows@.len() ==> #[trigger] rows@[j] < t.height,
                columns@.map_values(|c: Column| c@) =~= t.columns.take(i as int).map_values(
                    |c: ColumnView| pick_rows(c, rv),
                ),
            decreases table.columns.len() - i,
        {
            assert(t.columns[i as int] == table.columns@[i as int]@);
            assert(t.columns[i as int].cells.len() == t.height);
            let c = Self::pick(&table.columns[i], &rows);
            let ghost c0 = columns@;
            columns.push(c);
            assert(columns@.map_values(|c: Column| c@) =~= c0.map_values(|c: Column| c@).push(c@));
            assert(t.columns.take(i + 1).map_values(|c: ColumnView| pick_rows(c, rv))
                =~= t.columns.take(i as int).map_values(|c: ColumnView| pick_rows(c, rv)).push(
                pick_rows(t.columns[i as int], rv),
            ));
            assert(columns@.map_values(|c: Column| c@) =~= t.columns.take(i + 1).map_values(
                |c: ColumnView| pick_rows(c, rv),
            ));
            i = i + 1;
        }
        assert(t.columns.take(t.columns.len() as int) =~= t.columns);
        let out = Table { columns, height: rows.len() };
        assert(out@.columns =~= t.columns.map_values(|c: ColumnView| pick_rows(c, rv)));
        assert(out.wf()) by {
            assert forall|a: int, b: int|
                0 <= a < out@.columns.len() && 0 <= b < out@.columns.len() && a != b
                    implies #[trigger] out@.columns[a].name != #[trigger] out@.columns[b].name by {
                assert(out@.columns[a].name == t.columns[a].name);
                assert(out@.columns[b].name == t.columns[b].name);
            }
        }
        Ok(out)
    }
}

} // verus!
