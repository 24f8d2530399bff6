use vstd::prelude::*;

verus! {

/// The type of one column of a list store.
#[derive(Clone, Copy, Debug, PartialEq, Eq, Structural)]
pub enum ValueType {
    Str,
    U32,
    Bool,
}

/// One value held in a list-store cell.
#[derive(Debug)]
pub enum Cell {
    Str(String),
    U32(u32),
    Bool(bool),
}

/// The type a cell value has.
pub open spec fn cell_type(c: Cell) -> ValueType {
    match c {
        Cell::Str(_) => ValueType::Str,
        Cell::U32(_) => ValueType::U32,
        Cell::Bool(_) => ValueType::Bool,
    }
}

/// A row fits a store when it has one value per column and each value has
/// the column's type.
pub open spec fn row_fits(row: Seq<Cell>, types: Seq<ValueType>) -> bool {
    &&& row.len() == types.len()
    &&& forall|i: int| 0 <= i < row.len() ==> #[trigger] cell_type(row[i]) == types[i]
}

/// The contents of a list store: its column types and its rows, in order.
pub struct RowStore {
    types: Vec<ValueType>,
    rows: Vec<Vec<Cell>>,
}

impl RowStore {
    /// The column types.
    pub closed spec fn types(&self) -> Seq<ValueType> {
        self.types@
    }

    /// The rows, first row first.
    pub closed spec fn rows(&self) -> Seq<Seq<Cell>> {
        self.rows@.map_values(|r: Vec<Cell>| r@)
    }

    /// Every row fits the column types.
    pub open spec fn wf(&self) -> bool {
        forall|i: int| 0 <= i < self.rows().len() ==> row_fits(#[trigger] self.rows()[i], self.types())
    }

    /// An empty store with the given column types.
    pub fn new(types: Vec<ValueType>) -> (s: RowStore)
        ensures
            s.types() == types@,
            s.rows() == Seq::<Seq<Cell>>::empty(),
            s.wf(),
    {
        let s = RowStore { types, rows: Vec::new() };
        assert(s.rows() =~= Seq::<Seq<Cell>>::empty());
        s
    }

    /// Removes every row.
    pub fn clear(&mut self)
        ensures
            final(self).types() == old(self).types(),
            final(self).rows() == Seq::<Seq<Cell>>::empty(),
            final(self).wf(),
    {
        self.rows.clear();
        assert(self.rows() =~= Seq::<Seq<Cell>>::empty());
    }

    /// Appends a row after the last one.
    pub fn append(&mut self, row: Vec<Cell>)
        requires
            old(self).wf(),
            row_fits(row@, old(self).types()),
        ensures
            final(self).types() == old(self).types(),
            final(self).rows() == old(self).rows().push(row@),
            final(self).wf(),
    {
        let ghost r = row@;
        self.rows.push(row);
        assert(self.rows() =~= old(self).rows().push(r));
    }

    /// The column types.
    pub fn column_types(&self) -> (t: &Vec<ValueType>)
        ensures
            t@ == self.types(),
    {
        &self.types
    }

    /// The number of rows.
    pub fn len(&self) -> (n: usize)
        ensures
            n == self.rows().len(),
    {
        self.rows.len()
    }

    /// The value in row `row`, column `column`, if there is such a cell.
    pub fn value(&self, row: usize, column: usize) -> (c: Option<&Cell>)
        ensures
            (row < self.rows().len() && column < self.rows()[row as int].len()) ==> c == Some(
                &self.rows()[row as int][column as int],
            ),
            !(row < self.rows().len() && column < self.rows()[row as int].len()) ==> c is None,
    {
        if row < self.rows.len() {
            let r = &self.rows[row];
            if column < r.len() {
                return Some(&r[column]);
            }
        }
        None
    }
}

} // verus!
