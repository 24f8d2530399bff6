use vstd::prelude::*;

use crate::column::{shows_by_title, shows_existing_columns, default_column, ids_are_positions, is_text_column, Align, ColumnSpec};
use crate::table::{row_fits, Cell, RowStore, ValueType};

verus! {

/// What the summary row shows for an invoice.
#[derive(Debug)]
pub struct SummaryCells {
    pub total_pieces: usize,
    pub estimated_shipping: String,
    pub sub_total: String,
    pub sales_tax: String,
    pub total_cost: String,
}

/// The one-row table that sums up an invoice.
pub struct InvoiceSummaryModel {
    columns: Vec<ColumnSpec>,
    store: RowStore,
}

/// Column types: total pieces, estimated shipping, sub total, sales tax,
/// total cost.
pub open spec fn summary_types() -> Seq<ValueType> {
    seq![ValueType::U32, ValueType::Str, ValueType::Str, ValueType::Str, ValueType::Str]
}

/// The row shown for `summary`; a piece count that does not fit 32 bits is
/// cut to its low 32 bits.
pub open spec fn summary_row(summary: SummaryCells) -> Seq<Cell> {
    seq![
        Cell::U32(summary.total_pieces as u32),
        Cell::Str(summary.estimated_shipping),
        Cell::Str(summary.sub_total),
        Cell::Str(summary.sales_tax),
        Cell::Str(summary.total_cost),
    ]
}

/// The visible columns of the summary table.
pub open spec fn summary_columns_ok(cols: Seq<ColumnSpec>) -> bool {
    &&& cols.len() == 5
    &&& is_text_column(cols[0], "Total Pieces"@, 0, Align::Start)
    &&& is_text_column(cols[1], "Estimated Shipping"@, 1, Align::Start)
    &&& is_text_column(cols[2], "Sub Total"@, 2, Align::Start)
    &&& is_text_column(cols[3], "Sales Tax"@, 3, Align::Start)
    &&& is_text_column(cols[4], "Total Cost"@, 4, Align::Start)
}

/// Whether `c` is what the summary row shows under a column titled `title`; no
/// value fits any other title.
pub open spec fn summary_cell_fits(summary: SummaryCells, title: Seq<char>, c: Cell) -> bool {
    if title == "Total Pieces"@ {
        c == Cell::U32(summary.total_pieces as u32)
    } else if title == "Estimated Shipping"@ {
        c == Cell::Str(summary.estimated_shipping)
    } else if title == "Sub Total"@ {
        c == Cell::Str(summary.sub_total)
    } else if title == "Sales Tax"@ {
        c == Cell::Str(summary.sales_tax)
    } else if title == "Total Cost"@ {
        c == Cell::Str(summary.total_cost)
    } else {
        false
    }
}

/// In the summary row, every column that shows text shows the value its title
/// names.
pub proof fn lemma_summary_row_by_titles(cols: Seq<ColumnSpec>, summary: SummaryCells)
    requires
        summary_columns_ok(cols),
    ensures
        shows_by_title(cols, summary_row(summary), |t: Seq<char>, c: Cell| summary_cell_fits(summary, t, c)),
{
    reveal_strlit("Total Pieces");
    reveal_strlit("Estimated Shipping");
    reveal_strlit("Sub Total");
    reveal_strlit("Sales Tax");
    reveal_strlit("Total Cost");
    let row = summary_row(summary);
    assert forall|i: int| 0 <= i < cols.len() && (#[trigger] cols[i]).shows_text implies 0 <= cols[i].id
        < row.len() && (|t: Seq<char>, c: Cell| summary_cell_fits(summary, t, c))(
        cols[i].title@,
        row[cols[i].id as int],
    ) by {
        assert(cols[i].id == i);
        let t = cols[i].title@;
        if i == 0 {
            assert(t == "Total Pieces"@);
            assert(t.len() == 12 && t[0] == 'T' && t[1] == 'o' && t[2] == 't');
        } else if i == 1 {
            assert(t == "Estimated Shipping"@);
            assert(t.len() == 18 && t[0] == 'E' && t[1] == 's' && t[2] == 't');
        } else if i == 2 {
            assert(t == "Sub Total"@);
            assert(t.len() == 9 && t[0] == 'S' && t[1] == 'u' && t[2] == 'b');
        } else if i == 3 {
            assert(t == "Sales Tax"@);
            assert(t.len() == 9 && t[0] == 'S' && t[1] == 'a' && t[2] == 'l');
        } else if i == 4 {
            assert(t == "Total Cost"@);
            assert(t.len() == 10 && t[0] == 'T' && t[1] == 'o' && t[2] == 't');
        }
    }
}

impl InvoiceSummaryModel {
    /// The visible columns, left to right.
    pub closed spec fn column_specs(&self) -> Seq<ColumnSpec> {
        self.columns@
    }

    /// The rows the table shows.
    pub closed spec fn rows(&self) -> Seq<Seq<Cell>> {
        self.store.rows()
    }

    /// The column types of the table's store.
    pub closed spec fn types(&self) -> Seq<ValueType> {
        self.store.types()
    }

    /// Every row fits the store's column types.
    pub closed spec fn wf(&self) -> bool {
        &&& self.store.wf()
        &&& self.store.types() == summary_types()
    }

    /// The table's store: its column types and rows.
    pub fn store(&self) -> (s: &RowStore)
        ensures
            s.rows() == self.rows(),
            s.types() == self.types(),
            self.wf() ==> s.wf(),
    {
        &self.store
    }

    /// The visible columns, left to right.
    pub fn columns(&self) -> (c: &Vec<ColumnSpec>)
        ensures
            c@ == self.column_specs(),
    {
        &self.columns
    }

    /// An empty summary table with its five columns.
    pub fn new() -> (m: InvoiceSummaryModel)
        ensures
            m.wf(),
            m.types() == summary_types(),
            m.rows() == Seq::<Seq<Cell>>::empty(),
            summary_columns_ok(m.column_specs()),
            ids_are_positions(m.column_specs()),
            shows_existing_columns(m.column_specs(), m.types().len()),
    {
        let types = vec![ValueType::U32, ValueType::Str, ValueType::Str, ValueType::Str, ValueType::Str];
        let store = RowStore::new(types);
        let mut columns: Vec<ColumnSpec> = Vec::new();
        default_column("Total Pieces", &mut columns);
        default_column("Estimated Shipping", &mut columns);
        default_column("Sub Total", &mut columns);
        default_column("Sales Tax", &mut columns);
        default_column("Total Cost", &mut columns);
        assert(store.types() =~= summary_types());
        InvoiceSummaryModel { columns, store }
    }

    /// Shows `summary` as the table's only row.
    pub fn update_values(&mut self, summary: &SummaryCells)
        requires
            old(self).wf(),
        ensures
            final(self).wf(),
            final(self).rows() == seq![summary_row(*summary)],
            summary_columns_ok(old(self).column_specs()) ==> shows_by_title(
                final(self).column_specs(),
                final(self).rows()[0],
                |t: Seq<char>, c: Cell| summary_cell_fits(*summary, t, c),
            ),
            final(self).column_specs() == old(self).column_specs(),
    {
        self.store.clear();
        let row = vec![
            Cell::U32(summary.total_pieces as u32),
            Cell::Str(summary.estimated_shipping.clone()),
            Cell::Str(summary.sub_total.clone()),
            Cell::Str(summary.sales_tax.clone()),
            Cell::Str(summary.total_cost.clone()),
        ];
        assert(row@ =~= summary_row(*summary));
        assert(row_fits(row@, self.store.types()));
        self.store.append(row);
        assert(self.store.rows() =~= seq![summary_row(*summary)]);
        proof {
            if summary_columns_ok(self.column_specs()) {
                lemma_summary_row_by_titles(self.column_specs(), *summary);
            }
        }
    }
}

} // verus!
