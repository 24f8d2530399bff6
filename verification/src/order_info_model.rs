use vstd::prelude::*;

use crate::column::{shows_by_title, shows_existing_columns, 
    default_center_column, default_combo_column, default_toggle_column, ids_are_positions,
    is_combo_column, is_text_column, is_toggle_column, make_last_editable, Align, ColumnSpec,
};
use crate::table::{row_fits, Cell, RowStore, ValueType};

verus! {

/// The number that identifies an invoice.
pub type OrderNumber = u32;

/// What the order-information row shows for an invoice.
#[derive(Debug)]
pub struct OrderInfoCells {
    pub customer_name: String,
    pub confirms_with: String,
    pub order_number: OrderNumber,
    pub weight_estimate: String,
    pub order_date: String,
    pub shipment_date: String,
    pub site_name: String,
    pub will_call: bool,
}

/// Numbers of the columns whose cells the user edits.
#[derive(Clone, Copy, Debug)]
pub struct CellRenderers {
    pub customer: i32,
    pub confirms_with: i32,
    pub will_call: i32,
}

/// The one-row table that shows an invoice's order information.
pub struct OrderInfoModel {
    columns: Vec<ColumnSpec>,
    cell_renderers: CellRenderers,
    store: RowStore,
}

/// Column types: customer, confirms with, order number, estimated weight,
/// order date, shipment date, site, will call.
pub open spec fn order_info_types() -> Seq<ValueType> {
    seq![
        ValueType::Str,
        ValueType::Str,
        ValueType::U32,
        ValueType::Str,
        ValueType::Str,
        ValueType::Str,
        ValueType::Str,
        ValueType::Bool,
    ]
}

/// The row shown for `info`.
pub open spec fn order_info_row(info: OrderInfoCells) -> Seq<Cell> {
    seq![
        Cell::Str(info.customer_name),
        Cell::Str(info.confirms_with),
        Cell::U32(info.order_number),
        Cell::Str(info.weight_estimate),
        Cell::Str(info.order_date),
        Cell::Str(info.shipment_date),
        Cell::Str(info.site_name),
        Cell::Bool(info.will_call),
    ]
}

/// The visible columns of the order-information table.
pub open spec fn order_info_columns_ok(cols: Seq<ColumnSpec>) -> bool {
    &&& cols.len() == 8
    &&& is_combo_column(cols[0], "Customer"@, 0)
    &&& cols[1] == (ColumnSpec { editable: true, wraps: true, ..cols[1] })
    &&& is_text_column(ColumnSpec { editable: false, wraps: false, ..cols[1] }, "Confirms with"@, 1, Align::Center)
    &&& is_text_column(cols[2], "Order Number"@, 2, Align::Center)
    &&& is_text_column(cols[3], "Est Weight"@, 3, Align::Center)
    &&& is_text_column(cols[4], "Order Date"@, 4, Align::Center)
    &&& is_text_column(cols[5], "Shipment Date"@, 5, Align::Center)
    &&& is_text_column(cols[6], "Site"@, 6, Align::Center)
    &&& is_toggle_column(cols[7], "Will Call"@, 7)
}

/// Whether `c` is what the order-information row shows under a column titled `title`; no
/// value fits any other title.
pub open spec fn order_info_cell_fits(info: OrderInfoCells, title: Seq<char>, c: Cell) -> bool {
    if title == "Customer"@ {
        c == Cell::Str(info.customer_name)
    } else if title == "Confirms with"@ {
        c == Cell::Str(info.confirms_with)
    } else if title == "Order Number"@ {
        c == Cell::U32(info.order_number)
    } else if title == "Est Weight"@ {
        c == Cell::Str(info.weight_estimate)
    } else if title == "Order Date"@ {
        c == Cell::Str(info.order_date)
    } else if title == "Shipment Date"@ {
        c == Cell::Str(info.shipment_date)
    } else if title == "Site"@ {
        c == Cell::Str(info.site_name)
    } else {
        false
    }
}

/// In the order-information row, every column that shows text shows the value its title
/// names.
pub proof fn lemma_order_info_row_by_titles(cols: Seq<ColumnSpec>, info: OrderInfoCells)
    requires
        order_info_columns_ok(cols),
    ensures
        shows_by_title(cols, order_info_row(info), |t: Seq<char>, c: Cell| order_info_cell_fits(info, t, c)),
{
    reveal_strlit("Customer");
    reveal_strlit("Confirms with");
    reveal_strlit("Order Number");
    reveal_strlit("Est Weight");
    reveal_strlit("Order Date");
    reveal_strlit("Shipment Date");
    reveal_strlit("Site");
    let row = order_info_row(info);
    assert forall|i: int| 0 <= i < cols.len() && (#[trigger] cols[i]).shows_text implies 0 <= cols[i].id
        < row.len() && (|t: Seq<char>, c: Cell| order_info_cell_fits(info, t, c))(
        cols[i].title@,
        row[cols[i].id as int],
    ) by {
        assert(cols[i].id == i);
        let t = cols[i].title@;
        if i == 0 {
            assert(t == "Customer"@);
            assert(t.len() == 8 && t[0] == 'C' && t[1] == 'u' && t[2] == 's');
        } else if i == 1 {
            assert(cols[1].title == (ColumnSpec { editable: false, wraps: false, ..cols[1] }).title);
            assert(t == "Confirms with"@);
            assert(t.len() == 13 && t[0] == 'C' && t[1] == 'o' && t[2] == 'n');
        } else if i == 2 {
            assert(t == "Order Number"@);
            assert(t.len() == 12 && t[0] == 'O' && t[1] == 'r' && t[2] == 'd');
        } else if i == 3 {
            assert(t == "Est Weight"@);
            assert(t.len() == 10 && t[0] == 'E' && t[1] == 's' && t[2] == 't');
        } else if i == 4 {
            assert(t == "Order Date"@);
            assert(t.len() == 10 && t[0] == 'O' && t[1] == 'r' && t[2] == 'd');
        } else if i == 5 {
            assert(t == "Shipment Date"@);
            assert(t.len() == 13 && t[0] == 'S' && t[1] == 'h' && t[2] == 'i');
        } else if i == 6 {
            assert(t == "Site"@);
            assert(t.len() == 4 && t[0] == 'S' && t[1] == 'i' && t[2] == 't');
        } else if i == 7 {
        }
    }
}

impl OrderInfoModel {
    /// The visible columns, left to right.
    pub closed spec fn column_specs(&self) -> Seq<ColumnSpec> {
        self.columns@
    }

    /// Numbers of the editable columns.
    pub closed spec fn renderers(&self) -> CellRenderers {
        self.cell_renderers
    }

    /// The rows the table shows.
    pub closed spec fn rows(&self) -> Seq<Seq<Cell>> {
        self.store.rows()
    }

    /// The column types of the table's store.
    pub closed spec fn types(&self) -> Seq<ValueType> {
        self.store.types()
    }

    /// Every row fits the store's column types.
    pub closed spec fn wf(&self) -> bool {
        &&& self.store.wf()
        &&& self.store.types() == order_info_types()
    }

    /// The table's store: its column types and rows.
    pub fn store(&self) -> (s: &RowStore)
        ensures
            s.rows() == self.rows(),
            s.types() == self.types(),
            self.wf() ==> s.wf(),
    {
        &self.store
    }

    /// The visible columns, left to right.
    pub fn columns(&self) -> (c: &Vec<ColumnSpec>)
        ensures
            c@ == self.column_specs(),
    {
        &self.columns
    }

    /// Numbers of the editable columns.
    pub fn cell_renderers(&self) -> (c: CellRenderers)
        ensures
            c == self.renderers(),
    {
        self.cell_renderers
    }

    /// An empty order-information table with its eight columns.
    pub fn new() -> (m: OrderInfoModel)
        ensures
            m.wf(),
            m.types() == order_info_types(),
            m.rows() == Seq::<Seq<Cell>>::empty(),
            order_info_columns_ok(m.column_specs()),
            ids_are_positions(m.column_specs()),
            shows_existing_columns(m.column_specs(), m.types().len()),
            m.renderers() == (CellRenderers { customer: 0, confirms_with: 1, will_call: 7 }),
    {
        let types = vec![
            ValueType::Str,
            ValueType::Str,
            ValueType::U32,
            ValueType::Str,
            ValueType::Str,
            ValueType::Str,
            ValueType::Str,
            ValueType::Bool,
        ];
        let store = RowStore::new(types);
        let mut columns: Vec<ColumnSpec> = Vec::new();
        let customer = default_combo_column("Customer", &mut columns);
        let confirms_with = default_center_column("Confirms with", &mut columns);
        make_last_editable(&mut columns, true);
        default_center_column("Order Number", &mut columns);
        default_center_column("Est Weight", &mut columns);
        default_center_column("Order Date", &mut columns);
        default_center_column("Shipment Date", &mut columns);
        default_center_column("Site", &mut columns);
        let will_call = default_toggle_column("Will Call", &mut columns);
        assert(store.types() =~= order_info_types());
        OrderInfoModel {
            columns,
            cell_renderers: CellRenderers { customer, confirms_with, will_call },
            store,
        }
    }

    /// Shows `info` as the table's only row.
    pub fn update_values(&mut self, info: &OrderInfoCells)
        requires
            old(self).wf(),
        ensures
            final(self).wf(),
            final(self).rows() == seq![order_info_row(*info)],
            order_info_columns_ok(old(self).column_specs()) ==> shows_by_title(
                final(self).column_specs(),
                final(self).rows()[0],
                |t: Seq<char>, c: Cell| order_info_cell_fits(*info, t, c),
            ),
            final(self).rows()[0][7] == Cell::Bool(info.will_call),
            final(self).column_specs() == old(self).column_specs(),
            final(self).renderers() == old(self).renderers(),
    {
        self.store.clear();
        let row = vec![
            Cell::Str(info.customer_name.clone()),
            Cell::Str(info.confirms_with.clone()),
            Cell::U32(info.order_number),
            Cell::Str(info.weight_estimate.clone()),
            Cell::Str(info.order_date.clone()),
            Cell::Str(info.shipment_date.clone()),
            Cell::Str(info.site_name.clone()),
            Cell::Bool(info.will_call),
        ];
        assert(row@ =~= order_info_row(*info));
        assert(row_fits(row@, self.store.types()));
        self.store.append(row);
        assert(self.store.rows() =~= seq![order_info_row(*info)]);
        proof {
            if order_info_columns_ok(self.column_specs()) {
                lemma_order_info_row_by_titles(self.column_specs(), *info);
            }
        }
    }
}

} // verus!
