use vstd::prelude::*;

use crate::column::{shows_by_title, shows_existing_columns, 
    default_column, default_combo_column, ids_are_positions, is_combo_column, is_text_column,
    make_last_editable, Align, ColumnSpec,
};
use crate::table::{row_fits, Cell, RowStore, ValueType};

verus! {

/// Index of an item among the invoice's billable items.
pub type ItemId = usize;

/// Store column that holds each row's item id; it has no visible column.
pub const ITEM_ID_COLUMN: usize = 10;

/// What one row of the items table shows for a billable item.
#[derive(Debug)]
pub struct ItemCells {
    pub lumber_type: String,
    pub drying_method: String,
    pub grade: String,
    pub spec: String,
    pub description: String,
    pub board_dimensions: String,
    pub quantity: usize,
    pub board_feet: String,
    pub fob_cost: String,
    pub cost: String,
}

/// Numbers of the columns whose cells the user edits.
#[derive(Clone, Copy, Debug)]
pub struct CellRenderers {
    pub lumber_type: i32,
    pub drying_method: i32,
    pub grade: i32,
    pub spec: i32,
    pub description: i32,
    pub board_dimensions: i32,
    pub quantity: i32,
}

/// The items table of an invoice: its columns and the rows it shows.
pub struct ItemsModel {
    columns: Vec<ColumnSpec>,
    cell_renderers: CellRenderers,
    store: RowStore,
}

/// Column types of the items store: lumber type, drying method, grade,
/// spec, description, dimensions, quantity, board feet, FOB cost, cost, and
/// the hidden item id.
pub open spec fn items_types() -> Seq<ValueType> {
    seq![
        ValueType::Str,
        ValueType::Str,
        ValueType::Str,
        ValueType::Str,
        ValueType::Str,
        ValueType::Str,
        ValueType::U32,
        ValueType::Str,
        ValueType::Str,
        ValueType::Str,
        ValueType::U32,
    ]
}

/// The row shown for `item` with id `id`; counts that do not fit 32 bits are
/// cut to their low 32 bits.
pub open spec fn items_row(item: ItemCells, id: ItemId) -> Seq<Cell> {
    seq![
        Cell::Str(item.lumber_type),
        Cell::Str(item.drying_method),
        Cell::Str(item.grade),
        Cell::Str(item.spec),
        Cell::Str(item.description),
        Cell::Str(item.board_dimensions),
        Cell::U32(item.quantity as u32),
        Cell::Str(item.board_feet),
        Cell::Str(item.fob_cost),
        Cell::Str(item.cost),
        Cell::U32(id as u32),
    ]
}

/// What a selection of row `row` reads: the item id in the row's hidden
/// column, or nothing when no row (or no such row) is selected.
pub open spec fn selection_of(rows: Seq<Seq<Cell>>, row: Option<usize>) -> (Option<ItemId>, bool) {
    match row {
        Some(r) => if r < rows.len() && ITEM_ID_COLUMN < rows[r as int].len() {
            match rows[r as int][ITEM_ID_COLUMN as int] {
                Cell::U32(x) => (Some(x as usize), true),
                _ => (None, false),
            }
        } else {
            (None, false)
        },
        None => (None, false),
    }
}

/// The visible columns of the items table.
pub open spec fn items_columns_ok(cols: Seq<ColumnSpec>) -> bool {
    &&& cols.len() == 10
    &&& is_combo_column(cols[0], "Lumber Type"@, 0)
    &&& is_combo_column(cols[1], "Drying Method"@, 1)
    &&& is_combo_column(cols[2], "Grade"@, 2)
    &&& is_combo_column(cols[3], "Spec"@, 3)
    &&& cols[4] == (ColumnSpec { editable: true, wraps: true, ..cols[4] })
    &&& is_text_column(ColumnSpec { editable: false, wraps: false, ..cols[4] }, "Description"@, 4, Align::Start)
    &&& cols[5] == (ColumnSpec { editable: true, ..cols[5] })
    &&& is_text_column(ColumnSpec { editable: false, ..cols[5] }, "Dimensions (T x W x L)"@, 5, Align::Start)
    &&& cols[6] == (ColumnSpec { editable: true, ..cols[6] })
    &&& is_text_column(ColumnSpec { editable: false, ..cols[6] }, "Quantity"@, 6, Align::Start)
    &&& is_text_column(cols[7], "BF"@, 7, Align::Start)
    &&& is_text_column(cols[8], "FOB"@, 8, Align::Start)
    &&& is_text_column(cols[9], "Cost"@, 9, Align::Start)
}

/// The value an item's row shows under a column titled `title`: the lumber
/// type under "Lumber Type", its board feet under "BF", its FOB cost under
/// "FOB", and so on; nothing for any other title.
pub open spec fn item_cell_titled(item: ItemCells, title: Seq<char>) -> Option<Cell> {
    if title == "Lumber Type"@ {
        Some(Cell::Str(item.lumber_type))
    } else if title == "Drying Method"@ {
        Some(Cell::Str(item.drying_method))
    } else if title == "Grade"@ {
        Some(Cell::Str(item.grade))
    } else if title == "Spec"@ {
        Some(Cell::Str(item.spec))
    } else if title == "Description"@ {
        Some(Cell::Str(item.description))
    } else if title == "Dimensions (T x W x L)"@ {
        Some(Cell::Str(item.board_dimensions))
    } else if title == "Quantity"@ {
        Some(Cell::U32(item.quantity as u32))
    } else if title == "BF"@ {
        Some(Cell::Str(item.board_feet))
    } else if title == "FOB"@ {
        Some(Cell::Str(item.fob_cost))
    } else if title == "Cost"@ {
        Some(Cell::Str(item.cost))
    } else {
        None
    }
}

/// In the items table, every column shows the field of the item that its
/// title names, and the hidden column holds the item's id.
pub proof fn lemma_items_row_by_titles(cols: Seq<ColumnSpec>, item: ItemCells, id: ItemId)
    requires
        items_columns_ok(cols),
    ensures
        shows_by_title(
            cols,
            items_row(item, id),
            |t: Seq<char>, c: Cell| item_cell_titled(item, t) == Some(c),
        ),
        items_row(item, id)[ITEM_ID_COLUMN as int] == Cell::U32(#[verifier::truncate] (id as u32)),
{
    reveal_strlit("Lumber Type");
    reveal_strlit("Drying Method");
    reveal_strlit("Grade");
    reveal_strlit("Spec");
    reveal_strlit("Description");
    reveal_strlit("Dimensions (T x W x L)");
    reveal_strlit("Quantity");
    reveal_strlit("BF");
    reveal_strlit("FOB");
    reveal_strlit("Cost");
    let row = items_row(item, id);
    assert forall|i: int| 0 <= i < cols.len() && (#[trigger] cols[i]).shows_text implies 0 <= cols[i].id
        < row.len() && (|t: Seq<char>, c: Cell| item_cell_titled(item, t) == Some(c))(
        cols[i].title@,
        row[cols[i].id as int],
    ) by {
        assert(cols[i].id == i);
        let t = cols[i].title@;
        if i == 0 {
            assert(t == "Lumber Type"@);
        } else if i == 1 {
            assert(t == "Drying Method"@);
            assert(t[0] == 'D' && "Lumber Type"@[0] == 'L');
        } else if i == 2 {
            assert(t == "Grade"@);
            assert(t[0] == 'G' && "Lumber Type"@[0] == 'L' && "Drying Method"@[0] == 'D');
        } else if i == 3 {
            assert(t == "Spec"@);
            assert(t[0] == 'S');
        } else if i == 4 {
            assert(cols[4].title == (ColumnSpec { editable: false, wraps: false, ..cols[4] }).title);
            assert(t == "Description"@);
            assert(t[0] == 'D' && t[1] == 'e');
        } else if i == 5 {
            assert(cols[5].title == (ColumnSpec { editable: false, ..cols[5] }).title);
            assert(t == "Dimensions (T x W x L)"@);
            assert(t[0] == 'D' && t[1] == 'i');
        } else if i == 6 {
            assert(cols[6].title == (ColumnSpec { editable: false, ..cols[6] }).title);
            assert(t == "Quantity"@);
            assert(t[0] == 'Q');
        } else if i == 7 {
            assert(t == "BF"@);
            assert(t.len() == 2);
        } else if i == 8 {
            assert(t == "FOB"@);
            assert(t.len() == 3);
        } else {
            assert(t == "Cost"@);
            assert(t[0] == 'C');
        }
    }
}

/// Selecting the row that was appended for an item reads back that item's
/// id, for every id that fits the store's 32-bit id column.
pub proof fn lemma_selected_row_gives_item_id(
    rows: Seq<Seq<Cell>>,
    item: ItemCells,
    id: ItemId,
    row: usize,
)
    requires
        row == rows.len(),
        id <= u32::MAX,
    ensures
        selection_of(rows.push(items_row(item, id)), Some(row)) == (Some(id), true),
{
    let all = rows.push(items_row(item, id));
    assert(all[row as int] == items_row(item, id));
    assert((id as u32) as usize == id);
}

impl ItemsModel {
    /// The visible columns, left to right.
    pub closed spec fn column_specs(&self) -> Seq<ColumnSpec> {
        self.columns@
    }

    /// Numbers of the editable columns.
    pub closed spec fn renderers(&self) -> CellRenderers {
        self.cell_renderers
    }

    /// The table's store: its column types and rows.
    pub fn store(&self) -> (s: &RowStore)
        ensures
            s.rows() == self.rows(),
            s.types() == self.types(),
            self.wf() ==> s.wf(),
    {
        &self.store
    }

    /// The visible columns, left to right.
    pub fn columns(&self) -> (c: &Vec<ColumnSpec>)
        ensures
            c@ == self.column_specs(),
    {
        &self.columns
    }

    /// Numbers of the editable columns.
    pub fn cell_renderers(&self) -> (c: CellRenderers)
        ensures
            c == self.renderers(),
    {
        self.cell_renderers
    }

    /// The rows the table shows, first row first.
    pub closed spec fn rows(&self) -> Seq<Seq<Cell>> {
        self.store.rows()
    }

    /// The column types of the table's store.
    pub closed spec fn types(&self) -> Seq<ValueType> {
        self.store.types()
    }

    /// Every row fits the store's column types.
    pub closed spec fn wf(&self) -> bool {
        &&& self.store.wf()
        &&& self.store.types() == items_types()
    }

    /// An empty items table with its ten visible columns.
    pub fn new() -> (m: ItemsModel)
        ensures
            m.wf(),
            m.types() == items_types(),
            m.rows() == Seq::<Seq<Cell>>::empty(),
            items_columns_ok(m.column_specs()),
            ids_are_positions(m.column_specs()),
            shows_existing_columns(m.column_specs(), m.types().len()),
            m.renderers() == (CellRenderers {
                lumber_type: 0,
                drying_method: 1,
                grade: 2,
                spec: 3,
                description: 4,
                board_dimensions: 5,
                quantity: 6,
            }),
    {
        let types = vec![
            ValueType::Str,
            ValueType::Str,
            ValueType::Str,
            ValueType::Str,
            ValueType::Str,
            ValueType::Str,
            ValueType::U32,
            ValueType::Str,
            ValueType::Str,
            ValueType::Str,
            ValueType::U32,
        ];
        let store = RowStore::new(types);
        let mut columns: Vec<ColumnSpec> = Vec::new();
        let lumber_type = default_combo_column("Lumber Type", &mut columns);
        let drying_method = default_combo_column("Drying Method", &mut columns);
        let grade = default_combo_column("Grade", &mut columns);
        let spec = default_combo_column("Spec", &mut columns);
        let description = default_column("Description", &mut columns);
        make_last_editable(&mut columns, true);
        let board_dimensions = default_column("Dimensions (T x W x L)", &mut columns);
        make_last_editable(&mut columns, false);
        let quantity = default_column("Quantity", &mut columns);
        make_last_editable(&mut columns, false);
        default_column("BF", &mut columns);
        default_column("FOB", &mut columns);
        default_column("Cost", &mut columns);
        assert(store.types() =~= items_types());
        ItemsModel {
            columns,
            cell_renderers: CellRenderers {
                lumber_type,
                drying_method,
                grade,
                spec,
                description,
                board_dimensions,
                quantity,
            },
            store,
        }
    }

    /// Removes every row.
    pub fn clear(&mut self)
        requires
            old(self).wf(),
        ensures
            final(self).wf(),
            final(self).rows() == Seq::<Seq<Cell>>::empty(),
            final(self).column_specs() == old(self).column_specs(),
            final(self).renderers() == old(self).renderers(),
    {
        self.store.clear();
    }

    /// Removes every row; the columns stay as they are.
    pub fn clear_rows(&mut self)
        ensures
            old(self).wf() ==> final(self).wf(),
            final(self).rows() == Seq::<Seq<Cell>>::empty(),
            final(self).types() == old(self).types(),
            final(self).column_specs() == old(self).column_specs(),
            final(self).renderers() == old(self).renderers(),
    {
        self.store.clear();
    }

    /// Appends the row for `item`, whose id is `item_id`.
    pub fn update_values(&mut self, item: &ItemCells, item_id: ItemId)
        requires
            old(self).wf(),
        ensures
            final(self).wf(),
            final(self).rows() == old(self).rows().push(items_row(*item, item_id)),
            items_columns_ok(old(self).column_specs()) ==> shows_by_title(
                final(self).column_specs(),
                final(self).rows().last(),
                |t: Seq<char>, c: Cell| item_cell_titled(*item, t) == Some(c),
            ),
            final(self).rows().last()[ITEM_ID_COLUMN as int] == Cell::U32(item_id as u32),
            final(self).column_specs() == old(self).column_specs(),
            final(self).renderers() == old(self).renderers(),
    {
        let row = vec![
            Cell::Str(item.lumber_type.clone()),
            Cell::Str(item.drying_method.clone()),
            Cell::Str(item.grade.clone()),
            Cell::Str(item.spec.clone()),
            Cell::Str(item.description.clone()),
            Cell::Str(item.board_dimensions.clone()),
            Cell::U32(item.quantity as u32),
            Cell::Str(item.board_feet.clone()),
            Cell::Str(item.fob_cost.clone()),
            Cell::Str(item.cost.clone()),
            Cell::U32(item_id as u32),
        ];
        assert(row@ =~= items_row(*item, item_id));
        assert(row_fits(row@, self.store.types()));
        self.store.append(row);
        proof {
            if items_columns_ok(self.column_specs()) {
                lemma_items_row_by_titles(self.column_specs(), *item, item_id);
            }
        }
    }

    /// The item id of the selected row `row` and whether a row is selected.
    pub fn get_selected(&self, row: Option<usize>) -> (r: (Option<ItemId>, bool))
        ensures
            r == selection_of(self.rows(), row),
    {
        match row {
            Some(r) => match self.store.value(r, ITEM_ID_COLUMN) {
                Some(Cell::U32(x)) => (Some(*x as usize), true),
                _ => (None, false),
            },
            None => (None, false),
        }
    }
}

} // verus!
