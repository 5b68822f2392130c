//! An in-memory, column-oriented table: named columns of equal length.
use vstd::prelude::*;
use crate::text::same_text;

verus! {

/// One value of a table.
///
/// Integers and texts are what row predicates compare; values of any other
/// kind (floating point, dates, booleans) are carried as their rendering and
/// never satisfy a predicate.
#[derive(Clone, Debug, PartialEq)]
pub enum Cell {
    Null,
    Int(i64),
    Str(String),
    Other(String),
}

/// The mathematical value of a [`Cell`].
pub enum CellView {
    Null,
    Int(i64),
    Str(Seq<char>),
    Other(Seq<char>),
}

impl View for Cell {
    type V = CellView;

    open spec fn view(&self) -> CellView {
        match self {
            Cell::Null => CellView::Null,
            Cell::Int(x) => CellView::Int(*x),
            Cell::Str(s) => CellView::Str(s@),
            Cell::Other(s) => CellView::Other(s@),
        }
    }
}

impl Cell {
    /// A copy of this value.
    pub fn duplicate(&self) -> (r: Cell)
        ensures
            r@ == self@,
    {
        match self {
            Cell::Null => Cell::Null,
            Cell::Int(x) => Cell::Int(*x),
            Cell::Str(s) => Cell::Str(s.clone()),
            Cell::Other(s) => Cell::Other(s.clone()),
        }
    }
}

/// The cells of a column, as values.
pub open spec fn cells_view(cells: Seq<Cell>) -> Seq<CellView> {
    cells.map_values(|c: Cell| c@)
}

/// A named column.
#[derive(Clone, Debug, PartialEq)]
pub struct Column {
    pub name: String,
    pub cells: Vec<Cell>,
}

/// The mathematical value of a [`Column`].
pub struct ColumnView {
    pub name: Seq<char>,
    pub cells: Seq<CellView>,
}

impl View for Column {
    type V = ColumnView;

    open spec fn view(&self) -> ColumnView {
        ColumnView { name: self.name@, cells: cells_view(self.cells@) }
    }
}

impl Column {
    /// The number of values in the column.
    pub fn len(&self) -> (r: usize)
        ensures
            r == self@.cells.len(),
    {
        self.cells.len()
    }

    /// Whether some value is a text or a rendering, so that the column cannot
    /// be held as integers.
    pub fn has_text(&self) -> (r: bool)
        ensures
            r == exists|i: int| 0 <= i < self@.cells.len() && (#[trigger] self@.cells[i] is Str || self@.cells[i] is Other),
    {
        let mut i: usize = 0;
        while i < self.cells.len()
            invariant
                i <= self.cells.len(),
                forall|j: int| 0 <= j < i ==> !(#[trigger] self@.cells[j] is Str || self@.cells[j] is Other),
            decreases self.cells.len() - i,
        {
            match &self.cells[i] {
                Cell::Str(_) | Cell::Other(_) => {
                    assert(self@.cells[i as int] is Str || self@.cells[i as int] is Other);
                    return true;
                },
                _ => {},
            }
            i = i + 1;
        }
        false
    }

    /// The value at `row`, if the column has that many values.
    pub fn get(&self, row: usize) -> (r: Option<&Cell>)
        ensures
            row < self@.cells.len() ==> r is Some && r->Some_0@ == self@.cells[row as int],
            row >= self@.cells.len() ==> r is None,
    {
        if row < self.cells.len() {
            Some(&self.cells[row])
        } else {
            None
        }
    }
}

/// The mathematical value of a [`Table`]: its row count and its columns in
/// order. The row count stands on its own so that a table without columns
/// still has one.
pub struct TableView {
    pub height: nat,
    pub columns: Seq<ColumnView>,
}

impl TableView {
    /// The column names, left to right.
    pub open spec fn names(self) -> Seq<Seq<char>> {
        self.columns.map_values(|c: ColumnView| c.name)
    }

    /// Every column has `height` values and no two columns share a name.
    pub open spec fn wf(self) -> bool {
        &&& forall|i: int| 0 <= i < self.columns.len() ==> #[trigger] self.columns[i].cells.len() == self.height
        &&& forall|i: int, j: int|
            0 <= i < self.columns.len() && 0 <= j < self.columns.len() && i != j
                ==> #[trigger] self.columns[i].name != #[trigger] self.columns[j].name
    }

    /// Whether some column is called `name`.
    pub open spec fn has_column(self, name: Seq<char>) -> bool {
        exists|i: int| 0 <= i < self.columns.len() && #[trigger] self.columns[i].name == name
    }
}

/// The position of the column called `name`, if any (the last one, should
/// names repeat).
pub open spec fn column_position(columns: Seq<ColumnView>, name: Seq<char>) -> Option<int>
    decreases columns.len(),
{
    if columns.len() == 0 {
        None
    } else if columns.last().name == name {
        Some(columns.len() - 1)
    } else {
        column_position(columns.drop_last(), name)
    }
}

/// Why a column could not be added to a table.
#[derive(Clone, Copy, Debug, PartialEq, Eq, Structural)]
pub enum TableError {
    /// The column's length differs from the table's row count.
    LengthMismatch,
    /// The table already has a column of that name.
    DuplicateColumn,
}

/// An ordered collection of named columns of equal length, with unique names.
///
/// The operations of this library ask for [`Table::wf`] and keep it.
#[derive(Clone, Debug, PartialEq)]
pub struct Table {
    pub columns: Vec<Column>,
    pub height: usize,
}

impl View for Table {
    type V = TableView;

    open spec fn view(&self) -> TableView {
        TableView { height: self.height as nat, columns: self.columns@.map_values(|c: Column| c@) }
    }
}

impl Table {
    /// The table's invariant.
    pub open spec fn wf(&self) -> bool {
        self@.wf()
    }

    /// A table of `height` rows and no columns.
    pub fn new(height: usize) -> (r: Table)
        ensures
            r.wf(),
            r@.height == height,
            r@.columns.len() == 0,
    {
        Table { columns: Vec::new(), height }
    }

    /// The number of rows.
    pub fn height(&self) -> (r: usize)
        ensures
            r == self@.height,
    {
        self.height
    }

    /// The number of columns.
    pub fn width(&self) -> (r: usize)
        ensures
            r == self@.columns.len(),
    {
        self.columns.len()
    }

    /// Rows and columns, in that order.
    pub fn shape(&self) -> (r: (usize, usize))
        ensures
            r.0 == self@.height,
            r.1 == self@.columns.len(),
    {
        (self.height, self.columns.len())
    }

    /// The column names, left to right.
    pub fn column_names(&self) -> (r: Vec<String>)
        ensures
            r@.map_values(|s: String| s@) == self@.names(),
    {
        let mut out: Vec<String> = Vec::new();
        let mut i: usize = 0;
        while i < self.columns.len()
            invariant
                i <= self.columns.len(),
                out@.len() == i,
                forall|j: int| 0 <= j < i ==> out@[j]@ == self.columns@[j].name@,
            decreases self.columns.len() - i,
        {
            out.push(self.columns[i].name.clone());
            i = i + 1;
        }
        assert(out@.map_values(|s: String| s@) =~= self@.names());
        out
    }

    /// The position of the column called `name`.
    pub fn position(&self, name: &str) -> (r: Option<usize>)
        ensures
            r matches Some(i) ==> column_position(self@.columns, name@) == Some(i as int),
            r is None ==> column_position(self@.columns, name@) is None,
            r is None <==> !self@.has_column(name@),
    {
        let ghost cols = self@.columns;
        let mut i: usize = self.columns.len();
        assert(cols.take(i as int) =~= cols);
        while i > 0
            invariant
                cols == self@.columns,
                i <= cols.len(),
                column_position(cols, name@) == column_position(cols.take(i as int), name@),
                forall|j: int| i <= j < cols.len() ==> cols[j].name != name@,
            decreases i,
        {
            assert(cols.take(i as int).drop_last() =~= cols.take(i - 1));
            if same_text(self.columns[i - 1].name.as_str(), name) {
                return Some(i - 1);
            }
            i = i - 1;
        }
        assert(cols.take(0) =~= Seq::<ColumnView>::empty());
        assert(!self@.has_column(name@)) by {
            assert forall|j: int| 0 <= j < cols.len() implies cols[j].name != name@ by {}
        }
        None
    }

    /// The column called `name`, if any.
    pub fn column(&self, name: &str) -> (r: Option<&Column>)
        ensures
            r is None <==> !self@.has_column(name@),
            r matches Some(c) ==> c@.name == name@ && (column_position(self@.columns, name@) matches Some(
                i,
            ) && c@ == self@.columns[i]),
    {
        match self.position(name) {
            Some(i) => {
                proof {
                    lemma_position_names(self@.columns, name@);
                }
                let c = &self.columns[i];
                assert(self@.columns[i as int] == c@);
                Some(c)
            },
            None => None,
        }
    }

    /// Adds a column on the right. Fails, leaving the table as it was, when the
    /// column's length is not the row count or when the name is taken.
    pub fn push_column(&mut self, name: String, cells: Vec<Cell>) -> (r: Result<(), TableError>)
        requires
            old(self).wf(),
        ensures
            final(self).wf(),
            cells@.len() != old(self)@.height ==> r == Err::<(), TableError>(TableError::LengthMismatch),
            cells@.len() == old(self)@.height && old(self)@.has_column(name@)
                ==> r == Err::<(), TableError>(TableError::DuplicateColumn),
            r is Err ==> final(self)@ == old(self)@,
            r is Ok <==> cells@.len() == old(self)@.height && !old(self)@.has_column(name@),
            r is Ok ==> final(self)@ == (TableView {
                height: old(self)@.height,
                columns: old(self)@.columns.push(ColumnView { name: name@, cells: cells_view(cells@) }),
            }),
    {
        if cells.len() != self.height {
            return Err(TableError::LengthMismatch);
        }
        if self.position(name.as_str()).is_some() {
            return Err(TableError::DuplicateColumn);
        }
        let ghost before = self@;
        self.columns.push(Column { name, cells });
        assert(self@.columns =~= before.columns.push(self.columns@.last()@));
        proof {
            let cols = self@.columns;
            assert forall|i: int, j: int|
                0 <= i < cols.len() && 0 <= j < cols.len() && i != j
                    implies #[trigger] cols[i].name != #[trigger] cols[j].name by {
                if i == cols.len() - 1 {
                    assert(before.columns[j] == cols[j]);
                } else if j == cols.len() - 1 {
                    assert(before.columns[i] == cols[i]);
                }
            }
        }
        Ok(())
    }
}

/// The position that [`column_position`] gives names a column of that name.
pub proof fn lemma_position_names(columns: Seq<ColumnView>, name: Seq<char>)
    ensures
        column_position(columns, name) matches Some(i) ==> 0 <= i < columns.len() && columns[i].name == name,
        column_position(columns, name) is None ==> forall|i: int| 0 <= i < columns.len() ==> columns[i].name != name,
    decreases columns.len(),
{
    if columns.len() > 0 {
        lemma_position_names(columns.drop_last(), name);
        if columns.last().name != name {
            assert forall|i: int| 0 <= i < columns.len() - 1 implies columns[i] == columns.drop_last()[i] by {}
        }
    }
}

} // verus!
