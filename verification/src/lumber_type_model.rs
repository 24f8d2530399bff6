use vstd::prelude::*;

use crate::column::{shows_by_title, shows_existing_columns, default_column, ids_are_positions, is_text_column, Align, ColumnSpec};
use crate::table::{row_fits, Cell, RowStore, ValueType};

verus! {

/// What one row of the lumber type table shows.
#[derive(Debug)]
pub struct LumberTypeCells {
    pub name: String,
    pub fob_price: String,
}

/// The table of lumber types and their FOB prices.
pub struct LumberTypeModel {
    columns: Vec<ColumnSpec>,
    store: RowStore,
}

/// Column types: type name, FOB price.
pub open spec fn lumber_type_types() -> Seq<ValueType> {
    seq![ValueType::Str, ValueType::Str]
}

/// The row shown for `lt`.
pub open spec fn lumber_type_row(lt: LumberTypeCells) -> Seq<Cell> {
    seq![Cell::Str(lt.name), Cell::Str(lt.fob_price)]
}

/// The rows shown for `lts`, in the same order.
pub open spec fn lumber_type_rows(lts: Seq<LumberTypeCells>) -> Seq<Seq<Cell>> {
    lts.map_values(|lt: LumberTypeCells| lumber_type_row(lt))
}

/// The visible columns of the lumber type table.
pub open spec fn lumber_type_columns_ok(cols: Seq<ColumnSpec>) -> bool {
    &&& cols.len() == 2
    &&& is_text_column(cols[0], "Lumber Type"@, 0, Align::Start)
    &&& is_text_column(cols[1], "FOB Price"@, 1, Align::Start)
}

/// Whether `c` is what the lumber type table shows under a column titled `title`; no
/// value fits any other title.
pub open spec fn lumber_type_cell_fits(lt: LumberTypeCells, title: Seq<char>, c: Cell) -> bool {
    if title == "Lumber Type"@ {
        c == Cell::Str(lt.name)
    } else if title == "FOB Price"@ {
        c == Cell::Str(lt.fob_price)
    } else {
        false
    }
}

/// In the lumber type table, every column that shows text shows the value its title
/// names.
pub proof fn lemma_lumber_type_row_by_titles(cols: Seq<ColumnSpec>, lt: LumberTypeCells)
    requires
        lumber_type_columns_ok(cols),
    ensures
        shows_by_title(cols, lumber_type_row(lt), |t: Seq<char>, c: Cell| lumber_type_cell_fits(lt, t, c)),
{
    reveal_strlit("Lumber Type");
    reveal_strlit("FOB Price");
    let row = lumber_type_row(lt);
    assert forall|i: int| 0 <= i < cols.len() && (#[trigger] cols[i]).shows_text implies 0 <= cols[i].id
        < row.len() && (|t: Seq<char>, c: Cell| lumber_type_cell_fits(lt, t, c))(
        cols[i].title@,
        row[cols[i].id as int],
    ) by {
        assert(cols[i].id == i);
        let t = cols[i].title@;
        if i == 0 {
            assert(t == "Lumber Type"@);
            assert(t.len() == 11 && t[0] == 'L' && t[1] == 'u' && t[2] == 'm');
        } else if i == 1 {
            assert(t == "FOB Price"@);
            assert(t.len() == 9 && t[0] == 'F' && t[1] == 'O' && t[2] == 'B');
        }
    }
}

impl LumberTypeModel {
    /// The visible columns, left to right.
    pub closed spec fn column_specs(&self) -> Seq<ColumnSpec> {
        self.columns@
    }

    /// The rows the table shows, first row first.
    pub closed spec fn rows(&self) -> Seq<Seq<Cell>> {
        self.store.rows()
    }

    /// The column types of the table's store.
    pub closed spec fn types(&self) -> Seq<ValueType> {
        self.store.types()
    }

    /// Every row fits the store's column types.
    pub closed spec fn wf(&self) -> bool {
        &&& self.store.wf()
        &&& self.store.types() == lumber_type_types()
    }

    /// The table's store: its column types and rows.
    pub fn store(&self) -> (s: &RowStore)
        ensures
            s.rows() == self.rows(),
            s.types() == self.types(),
            self.wf() ==> s.wf(),
    {
        &self.store
    }

    /// The visible columns, left to right.
    pub fn columns(&self) -> (c: &Vec<ColumnSpec>)
        ensures
            c@ == self.column_specs(),
    {
        &self.columns
    }

    /// An empty lumber type table with its two columns.
    pub fn new() -> (m: LumberTypeModel)
        ensures
            m.wf(),
            m.types() == lumber_type_types(),
            m.rows() == Seq::<Seq<Cell>>::empty(),
            lumber_type_columns_ok(m.column_specs()),
            ids_are_positions(m.column_specs()),
            shows_existing_columns(m.column_specs(), m.types().len()),
    {
        let types = vec![ValueType::Str, ValueType::Str];
        let store = RowStore::new(types);
        let mut columns: Vec<ColumnSpec> = Vec::new();
        default_column("Lumber Type", &mut columns);
        default_column("FOB Price", &mut columns);
        assert(store.types() =~= lumber_type_types());
        LumberTypeModel { columns, store }
    }

    /// Shows one row per lumber type, in the order given.
    pub fn update_model(&mut self, lumber_types: &Vec<LumberTypeCells>)
        requires
            old(self).wf(),
        ensures
            final(self).wf(),
            final(self).rows() == lumber_type_rows(lumber_types@),
            lumber_type_columns_ok(old(self).column_specs()) ==> forall|i: int|
                0 <= i < lumber_types@.len() ==> shows_by_title(
                    final(self).column_specs(),
                    #[trigger] final(self).rows()[i],
                    |t: Seq<char>, c: Cell| lumber_type_cell_fits(lumber_types@[i], t, c),
                ),
            final(self).column_specs() == old(self).column_specs(),
    {
        self.store.clear();
        let n = lumber_types.len();
        for i in 0..n
            invariant
                n == lumber_types@.len(),
                self.wf(),
                self.rows() == lumber_type_rows(lumber_types@.take(i as int)),
                self.column_specs() == old(self).column_specs(),
        {
            let lt = &lumber_types[i];
            let row = vec![Cell::Str(lt.name.clone()), Cell::Str(lt.fob_price.clone())];
            assert(row@ =~= lumber_type_row(*lt));
            assert(row_fits(row@, self.store.types()));
            self.store.append(row);
            assert(lumber_type_rows(lumber_types@.take(i + 1)) =~= lumber_type_rows(
                lumber_types@.take(i as int),
            ).push(lumber_type_row(*lt)));
        }
        assert(lumber_types@.take(n as int) =~= lumber_types@);
        proof {
            if lumber_type_columns_ok(self.column_specs()) {
                assert forall|i: int| 0 <= i < lumber_types@.len() implies shows_by_title(
                    self.column_specs(),
                    #[trigger] self.rows()[i],
                    |t: Seq<char>, c: Cell| lumber_type_cell_fits(lumber_types@[i], t, c),
                ) by {
                    lemma_lumber_type_row_by_titles(self.column_specs(), lumber_types@[i]);
                }
            }
        }
    }
}

} // verus!
