use vstd::prelude::*;

use crate::column::{shows_by_title, shows_existing_columns, 
    default_center_column, default_column, default_right_column, ids_are_positions,
    is_text_column, Align, ColumnSpec,
};
use crate::order_info_model::OrderNumber;
use crate::table::{row_fits, Cell, RowStore, ValueType};

verus! {

/// What one row of the invoice search results shows for an invoice.
#[derive(Debug)]
pub struct InvoiceCells {
    pub order_number: OrderNumber,
    pub customer_name: String,
    /// The order date, in local time.
    pub order_date: String,
    pub shipment_date: String,
    pub will_call: bool,
    pub total_pieces: usize,
    pub total_cost: String,
}

/// The table of invoices that a search found.
pub struct InvoiceQueryResultsModel {
    columns: Vec<ColumnSpec>,
    store: RowStore,
}

/// Column types: order number, customer, order date, shipment date, will
/// call, total pieces, total cost.
pub open spec fn invoice_query_types() -> Seq<ValueType> {
    seq![
        ValueType::U32,
        ValueType::Str,
        ValueType::Str,
        ValueType::Str,
        ValueType::Str,
        ValueType::U32,
        ValueType::Str,
    ]
}

/// How the will-call flag reads in the results.
pub open spec fn will_call_text(will_call: bool) -> Seq<char> {
    if will_call {
        "Yes"@
    } else {
        "No"@
    }
}

/// `row` is the row shown for `inv`: will call reads "Yes" or "No", and a
/// piece count that does not fit 32 bits is cut to its low 32 bits.
pub open spec fn is_invoice_row(row: Seq<Cell>, inv: InvoiceCells) -> bool {
    &&& row.len() == 7
    &&& row[0] == Cell::U32(inv.order_number)
    &&& row[1] == Cell::Str(inv.customer_name)
    &&& row[2] == Cell::Str(inv.order_date)
    &&& row[3] == Cell::Str(inv.shipment_date)
    &&& (row[4] matches Cell::Str(s) && s@ == will_call_text(inv.will_call))
    &&& row[5] == Cell::U32(inv.total_pieces as u32)
    &&& row[6] == Cell::Str(inv.total_cost)
}

/// The visible columns of the invoice search results.
pub open spec fn invoice_query_columns_ok(cols: Seq<ColumnSpec>) -> bool {
    &&& cols.len() == 7
    &&& is_text_column(cols[0], "Order Number"@, 0, Align::Center)
    &&& is_text_column(cols[1], "Customer"@, 1, Align::End)
    &&& is_text_column(cols[2], "Order Date (Local)"@, 2, Align::Center)
    &&& is_text_column(cols[3], "Shipment Date"@, 3, Align::Center)
    &&& is_text_column(cols[4], "Will Call"@, 4, Align::Center)
    &&& is_text_column(cols[5], "Total Pieces"@, 5, Align::Center)
    &&& is_text_column(cols[6], "Total Cost"@, 6, Align::Start)
}

/// The text cell that shows the will-call flag.
pub fn will_call_cell(will_call: bool) -> (c: Cell)
    ensures
        c matches Cell::Str(s) && s@ == will_call_text(will_call),
{
    if will_call {
        Cell::Str("Yes".to_string())
    } else {
        Cell::Str("No".to_string())
    }
}

/// Whether `c` is what the invoice results shows under a column titled `title`; no
/// value fits any other title.
pub open spec fn invoice_cell_fits(inv: InvoiceCells, title: Seq<char>, c: Cell) -> bool {
    if title == "Order Number"@ {
        c == Cell::U32(inv.order_number)
    } else if title == "Customer"@ {
        c == Cell::Str(inv.customer_name)
    } else if title == "Order Date (Local)"@ {
        c == Cell::Str(inv.order_date)
    } else if title == "Shipment Date"@ {
        c == Cell::Str(inv.shipment_date)
    } else if title == "Will Call"@ {
        c matches Cell::Str(s) && s@ == (if inv.will_call {
            "Yes"@
        } else {
            "No"@
        })
    } else if title == "Total Pieces"@ {
        c == Cell::U32(inv.total_pieces as u32)
    } else if title == "Total Cost"@ {
        c == Cell::Str(inv.total_cost)
    } else {
        false
    }
}

/// In the invoice results, every column that shows text shows the value its title
/// names.
pub proof fn lemma_invoice_row_by_titles(cols: Seq<ColumnSpec>, row: Seq<Cell>, inv: InvoiceCells)
    requires
        invoice_query_columns_ok(cols),
        is_invoice_row(row, inv),
    ensures
        shows_by_title(cols, row, |t: Seq<char>, c: Cell| invoice_cell_fits(inv, t, c)),
{
    reveal_strlit("Order Number");
    reveal_strlit("Customer");
    reveal_strlit("Order Date (Local)");
    reveal_strlit("Shipment Date");
    reveal_strlit("Will Call");
    reveal_strlit("Total Pieces");
    reveal_strlit("Total Cost");
    let row = row;
    assert forall|i: int| 0 <= i < cols.len() && (#[trigger] cols[i]).shows_text implies 0 <= cols[i].id
        < row.len() && (|t: Seq<char>, c: Cell| invoice_cell_fits(inv, t, c))(
        cols[i].title@,
        row[cols[i].id as int],
    ) by {
        assert(cols[i].id == i);
        let t = cols[i].title@;
        if i == 0 {
            assert(t == "Order Number"@);
            assert(t.len() == 12 && t[0] == 'O' && t[1] == 'r' && t[2] == 'd');
        } else if i == 1 {
            assert(t == "Customer"@);
            assert(t.len() == 8 && t[0] == 'C' && t[1] == 'u' && t[2] == 's');
        } else if i == 2 {
            assert(t == "Order Date (Local)"@);
            assert(t.len() == 18 && t[0] == 'O' && t[1] == 'r' && t[2] == 'd');
        } else if i == 3 {
            assert(t == "Shipment Date"@);
            assert(t.len() == 13 && t[0] == 'S' && t[1] == 'h' && t[2] == 'i');
        } else if i == 4 {
            assert(t == "Will Call"@);
            assert(t.len() == 9 && t[0] == 'W' && t[1] == 'i' && t[2] == 'l');
        } else if i == 5 {
            assert(t == "Total Pieces"@);
            assert(t.len() == 12 && t[0] == 'T' && t[1] == 'o' && t[2] == 't');
        } else if i == 6 {
            assert(t == "Total Cost"@);
            assert(t.len() == 10 && t[0] == 'T' && t[1] == 'o' && t[2] == 't');
        }
    }
}

impl InvoiceQueryResultsModel {
    /// The visible columns, left to right.
    pub closed spec fn column_specs(&self) -> Seq<ColumnSpec> {
        self.columns@
    }

    /// The rows the table shows, first row first.
    pub closed spec fn rows(&self) -> Seq<Seq<Cell>> {
        self.store.rows()
    }

    /// The column types of the table's store.
    pub closed spec fn types(&self) -> Seq<ValueType> {
        self.store.types()
    }

    /// Every row fits the store's column types.
    pub closed spec fn wf(&self) -> bool {
        &&& self.store.wf()
        &&& self.store.types() == invoice_query_types()
    }

    /// The table's store: its column types and rows.
    pub fn store(&self) -> (s: &RowStore)
        ensures
            s.rows() == self.rows(),
            s.types() == self.types(),
            self.wf() ==> s.wf(),
    {
        &self.store
    }

    /// The visible columns, left to right.
    pub fn columns(&self) -> (c: &Vec<ColumnSpec>)
        ensures
            c@ == self.column_specs(),
    {
        &self.columns
    }

    /// An empty results table with its seven columns.
    pub fn new() -> (m: InvoiceQueryResultsModel)
        ensures
            m.wf(),
            m.types() == invoice_query_types(),
            m.rows() == Seq::<Seq<Cell>>::empty(),
            invoice_query_columns_ok(m.column_specs()),
            ids_are_positions(m.column_specs()),
            shows_existing_columns(m.column_specs(), m.types().len()),
    {
        let types = vec![
            ValueType::U32,
            ValueType::Str,
            ValueType::Str,
            ValueType::Str,
            ValueType::Str,
            ValueType::U32,
            ValueType::Str,
        ];
        let store = RowStore::new(types);
        let mut columns: Vec<ColumnSpec> = Vec::new();
        default_center_column("Order Number", &mut columns);
        default_right_column("Customer", &mut columns);
        default_center_column("Order Date (Local)", &mut columns);
        default_center_column("Shipment Date", &mut columns);
        default_center_column("Will Call", &mut columns);
        default_center_column("Total Pieces", &mut columns);
        default_column("Total Cost", &mut columns);
        assert(store.types() =~= invoice_query_types());
        InvoiceQueryResultsModel { columns, store }
    }

    /// Removes every row.
    pub fn clear(&mut self)
        requires
            old(self).wf(),
        ensures
            final(self).wf(),
            final(self).rows() == Seq::<Seq<Cell>>::empty(),
            final(self).column_specs() == old(self).column_specs(),
    {
        self.store.clear();
    }

    /// Appends the row for `inv`.
    pub fn update_values(&mut self, inv: &InvoiceCells)
        requires
            old(self).wf(),
        ensures
            final(self).wf(),
            final(self).rows().len() == old(self).rows().len() + 1,
            final(self).rows().drop_last() == old(self).rows(),
            is_invoice_row(final(self).rows().last(), *inv),
            invoice_query_columns_ok(old(self).column_specs()) ==> shows_by_title(
                final(self).column_specs(),
                final(self).rows().last(),
                |t: Seq<char>, c: Cell| invoice_cell_fits(*inv, t, c),
            ),
            final(self).column_specs() == old(self).column_specs(),
    {
        let row = vec![
            Cell::U32(inv.order_number),
            Cell::Str(inv.customer_name.clone()),
            Cell::Str(inv.order_date.clone()),
            Cell::Str(inv.shipment_date.clone()),
            will_call_cell(inv.will_call),
            Cell::U32(inv.total_pieces as u32),
            Cell::Str(inv.total_cost.clone()),
        ];
        assert(is_invoice_row(row@, *inv));
        assert(row_fits(row@, self.store.types()));
        self.store.append(row);
        proof {
            if invoice_query_columns_ok(self.column_specs()) {
                lemma_invoice_row_by_titles(self.column_specs(), self.rows().last(), *inv);
            }
        }
        assert(self.store.rows().drop_last() =~= old(self).rows());
    }
}

} // verus!
