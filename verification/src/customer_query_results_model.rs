use vstd::prelude::*;

use crate::column::{shows_by_title, shows_existing_columns, default_column, ids_are_positions, is_text_column, Align, ColumnSpec};
use crate::table::{row_fits, Cell, RowStore, ValueType};

verus! {

/// What one row of the customer search results shows for a customer.
#[derive(Debug)]
pub struct CustomerCells {
    pub name: String,
    pub address: String,
    pub phone_number: String,
    pub notes: String,
}

/// The table of customers that a search found.
pub struct CustomerQueryResultsModel {
    columns: Vec<ColumnSpec>,
    store: RowStore,
}

/// Column types: name, address, phone number, notes.
pub open spec fn customer_types() -> Seq<ValueType> {
    seq![ValueType::Str, ValueType::Str, ValueType::Str, ValueType::Str]
}

/// The row shown for `c`.
pub open spec fn customer_row(c: CustomerCells) -> Seq<Cell> {
    seq![Cell::Str(c.name), Cell::Str(c.address), Cell::Str(c.phone_number), Cell::Str(c.notes)]
}

/// The visible columns of the customer search results.
pub open spec fn customer_columns_ok(cols: Seq<ColumnSpec>) -> bool {
    &&& cols.len() == 4
    &&& is_text_column(cols[0], "Name"@, 0, Align::Start)
    &&& is_text_column(cols[1], "Address"@, 1, Align::Start)
    &&& is_text_column(cols[2], "Phone Number"@, 2, Align::Start)
    &&& is_text_column(cols[3], "Notes"@, 3, Align::Start)
}

/// Whether `c` is what the customer results shows under a column titled `title`; no
/// value fits any other title.
pub open spec fn customer_cell_fits(customer: CustomerCells, title: Seq<char>, c: Cell) -> bool {
    if title == "Name"@ {
        c == Cell::Str(customer.name)
    } else if title == "Address"@ {
        c == Cell::Str(customer.address)
    } else if title == "Phone Number"@ {
        c == Cell::Str(customer.phone_number)
    } else if title == "Notes"@ {
        c == Cell::Str(customer.notes)
    } else {
        false
    }
}

/// In the customer results, every column that shows text shows the value its title
/// names.
pub proof fn lemma_customer_row_by_titles(cols: Seq<ColumnSpec>, customer: CustomerCells)
    requires
        customer_columns_ok(cols),
    ensures
        shows_by_title(cols, customer_row(customer), |t: Seq<char>, c: Cell| customer_cell_fits(customer, t, c)),
{
    reveal_strlit("Name");
    reveal_strlit("Address");
    reveal_strlit("Phone Number");
    reveal_strlit("Notes");
    let row = customer_row(customer);
    assert forall|i: int| 0 <= i < cols.len() && (#[trigger] cols[i]).shows_text implies 0 <= cols[i].id
        < row.len() && (|t: Seq<char>, c: Cell| customer_cell_fits(customer, t, c))(
        cols[i].title@,
        row[cols[i].id as int],
    ) by {
        assert(cols[i].id == i);
        let t = cols[i].title@;
        if i == 0 {
            assert(t == "Name"@);
            assert(t.len() == 4 && t[0] == 'N' && t[1] == 'a' && t[2] == 'm');
        } else if i == 1 {
            assert(t == "Address"@);
            assert(t.len() == 7 && t[0] == 'A' && t[1] == 'd' && t[2] == 'd');
        } else if i == 2 {
            assert(t == "Phone Number"@);
            assert(t.len() == 12 && t[0] == 'P' && t[1] == 'h' && t[2] == 'o');
        } else if i == 3 {
            assert(t == "Notes"@);
            assert(t.len() == 5 && t[0] == 'N' && t[1] == 'o' && t[2] == 't');
        }
    }
}

impl CustomerQueryResultsModel {
    /// The visible columns, left to right.
    pub closed spec fn column_specs(&self) -> Seq<ColumnSpec> {
        self.columns@
    }

    /// The rows the table shows, first row first.
    pub closed spec fn rows(&self) -> Seq<Seq<Cell>> {
        self.store.rows()
    }

    /// The column types of the table's store.
    pub closed spec fn types(&self) -> Seq<ValueType> {
        self.store.types()
    }

    /// Every row fits the store's column types.
    pub closed spec fn wf(&self) -> bool {
        &&& self.store.wf()
        &&& self.store.types() == customer_types()
    }

    /// The table's store: its column types and rows.
    pub fn store(&self) -> (s: &RowStore)
        ensures
            s.rows() == self.rows(),
            s.types() == self.types(),
            self.wf() ==> s.wf(),
    {
        &self.store
    }

    /// The visible columns, left to right.
    pub fn columns(&self) -> (c: &Vec<ColumnSpec>)
        ensures
            c@ == self.column_specs(),
    {
        &self.columns
    }

    /// An empty results table with its four columns.
    pub fn new() -> (m: CustomerQueryResultsModel)
        ensures
            m.wf(),
            m.types() == customer_types(),
            m.rows() == Seq::<Seq<Cell>>::empty(),
            customer_columns_ok(m.column_specs()),
            ids_are_positions(m.column_specs()),
            shows_existing_columns(m.column_specs(), m.types().len()),
    {
        let types = vec![ValueType::Str, ValueType::Str, ValueType::Str, ValueType::Str];
        let store = RowStore::new(types);
        let mut columns: Vec<ColumnSpec> = Vec::new();
        default_column("Name", &mut columns);
        default_column("Address", &mut columns);
        default_column("Phone Number", &mut columns);
        default_column("Notes", &mut columns);
        assert(store.types() =~= customer_types());
        CustomerQueryResultsModel { columns, store }
    }

    /// Removes every row.
    pub fn clear(&mut self)
        requires
            old(self).wf(),
        ensures
            final(self).wf(),
            final(self).rows() == Seq::<Seq<Cell>>::empty(),
            final(self).column_specs() == old(self).column_specs(),
    {
        self.store.clear();
    }

    /// Appends the row for `customer`.
    pub fn update_values(&mut self, customer: &CustomerCells)
        requires
            old(self).wf(),
        ensures
            final(self).wf(),
            final(self).rows() == old(self).rows().push(customer_row(*customer)),
            customer_columns_ok(old(self).column_specs()) ==> shows_by_title(
                final(self).column_specs(),
                final(self).rows().last(),
                |t: Seq<char>, c: Cell| customer_cell_fits(*customer, t, c),
            ),
            final(self).column_specs() == old(self).column_specs(),
    {
        let row = vec![
            Cell::Str(customer.name.clone()),
            Cell::Str(customer.address.clone()),
            Cell::Str(customer.phone_number.clone()),
            Cell::Str(customer.notes.clone()),
        ];
        assert(row@ =~= customer_row(*customer));
        assert(row_fits(row@, self.store.types()));
        self.store.append(row);
        proof {
            if customer_columns_ok(self.column_specs()) {
                lemma_customer_row_by_titles(self.column_specs(), *customer);
            }
        }
    }
}

} // verus!
