use vstd::prelude::*;

use crate::column::shows_by_title;
use crate::items_model::{item_cell_titled, lemma_items_row_by_titles, items_columns_ok, items_row, selection_of, ItemCells, ItemId, ItemsModel};
use crate::table::Cell;
use crate::order_info_model::OrderNumber;
use crate::quantity::{accepted_quantity, parse_usize, parse_usize_spec};

verus! {

/// The rows that show `items`, each item with its position as id.
pub open spec fn items_rows(items: Seq<ItemCells>) -> Seq<Seq<Cell>> {
    Seq::new(items.len(), |i: int| items_row(items[i], i as usize))
}

/// Shows the invoice's items afresh: one row per item, in order, each with
/// its position as its item id.
pub fn refresh_items_model(model: &mut ItemsModel, items: &Vec<ItemCells>)
    requires
        old(model).wf(),
    ensures
        final(model).wf(),
        final(model).rows() == items_rows(items@),
        items_columns_ok(old(model).column_specs()) ==> forall|j: int|
            0 <= j < items@.len() ==> shows_by_title(
                final(model).column_specs(),
                #[trigger] final(model).rows()[j],
                |t: Seq<char>, c: Cell| item_cell_titled(items@[j], t) == Some(c),
            ),
        final(model).column_specs() == old(model).column_specs(),
        final(model).renderers() == old(model).renderers(),
{
    model.clear();
    let n = items.len();
    for id in 0..n
        invariant
            n == items@.len(),
            model.wf(),
            model.rows() == items_rows(items@.take(id as int)),
            model.column_specs() == old(model).column_specs(),
            model.renderers() == old(model).renderers(),
    {
        model.update_values(&items[id], id);
        assert(items_rows(items@.take(id + 1)) =~= items_rows(items@.take(id as int)).push(
            items_row(items@[id as int], id),
        ));
    }
    assert(items@.take(n as int) =~= items@);
    proof {
        if items_columns_ok(model.column_specs()) {
            assert forall|j: int| 0 <= j < items@.len() implies shows_by_title(
                model.column_specs(),
                #[trigger] model.rows()[j],
                |t: Seq<char>, c: Cell| item_cell_titled(items@[j], t) == Some(c),
            ) by {
                lemma_items_row_by_titles(model.column_specs(), items@[j], j as usize);
            }
        }
    }
}

/// After the items are shown afresh, selecting any row reads back that
/// row's position, the id of the item it shows, as long as ids fit the
/// store's 32-bit id column.
pub proof fn lemma_every_row_selects_its_item(items: Seq<ItemCells>, row: usize)
    requires
        row < items.len(),
        items.len() <= u32::MAX + 1,
    ensures
        selection_of(items_rows(items), Some(row)) == (Some(row), true),
{
    assert(items_rows(items)[row as int] == items_row(items[row as int], row));
    assert((row as u32) as usize == row);
}

/// The order information the page itself keeps for the invoice it edits.
#[derive(Debug)]
pub struct OrderHeader {
    pub order_number: OrderNumber,
    pub customer_name: String,
    pub site_name: String,
}

impl OrderHeader {
    /// A copy of the header.
    pub fn copy(&self) -> (h: OrderHeader)
        ensures
            h == *self,
    {
        OrderHeader {
            order_number: self.order_number,
            customer_name: self.customer_name.clone(),
            site_name: self.site_name.clone(),
        }
    }
}

/// A change the page asks the application to make to the invoice it edits.
#[derive(Debug)]
pub enum InvoiceChange {
    /// Append a new billable item of the given lumber type.
    AddItem { lumber_type: String },
    /// Remove the item with the given id.
    RemoveItem { item_id: ItemId },
    /// Remove every billable item.
    ClearItems,
    SetDescription { item_id: ItemId, description: String },
    SetQuantity { item_id: ItemId, quantity: usize },
    SetLumberType { item_id: ItemId, lumber_type: String },
    /// Set the drying method to the one `text` names.
    SetDryingMethod { item_id: ItemId, text: String },
    /// Set the grade to the one `text` names.
    SetGrade { item_id: ItemId, text: String },
    /// Set the specification to the one `text` names.
    SetSpec { item_id: ItemId, text: String },
    /// Set the board dimensions to the ones `text` spells.
    SetBoardDimensions { item_id: ItemId, text: String },
    /// Bill the invoice to the customer of the given name.
    SetCustomerName { name: String },
}

/// What the user typed into (or picked for) a cell of the items table,
/// with what the application found out about it.
#[derive(Debug)]
pub enum ItemEdit {
    Description(String),
    Quantity(String),
    /// `known`: the database holds a lumber type of this name.
    LumberType { name: String, known: bool },
    /// `parses`: `text` names a drying method.
    DryingMethod { text: String, parses: bool },
    /// `parses`: `text` names a grade.
    Grade { text: String, parses: bool },
    /// `parses`: `text` names a specification.
    Spec { text: String, parses: bool },
    /// `parses`: `text` spells board dimensions.
    BoardDimensions { text: String, parses: bool },
}

/// What an edit of a cell leads to: the change to make, if any, and whether
/// the items and summary tables are shown afresh.
#[derive(Debug)]
pub struct EditOutcome {
    pub change: Option<InvoiceChange>,
    pub refresh: bool,
}

/// The change that `edit` of item `id` asks for, if it is accepted.
pub open spec fn edit_change(id: ItemId, edit: ItemEdit) -> Option<InvoiceChange> {
    match edit {
        ItemEdit::Description(t) => Some(InvoiceChange::SetDescription { item_id: id, description: t }),
        ItemEdit::Quantity(t) => match accepted_quantity(t@) {
            Some(q) => Some(InvoiceChange::SetQuantity { item_id: id, quantity: q }),
            None => None,
        },
        ItemEdit::LumberType { name, known } => if known {
            Some(InvoiceChange::SetLumberType { item_id: id, lumber_type: name })
        } else {
            None
        },
        ItemEdit::DryingMethod { text, parses } => if parses {
            Some(InvoiceChange::SetDryingMethod { item_id: id, text })
        } else {
            None
        },
        ItemEdit::Grade { text, parses } => if parses {
            Some(InvoiceChange::SetGrade { item_id: id, text })
        } else {
            None
        },
        ItemEdit::Spec { text, parses } => if parses {
            Some(InvoiceChange::SetSpec { item_id: id, text })
        } else {
            None
        },
        ItemEdit::BoardDimensions { text, parses } => if parses {
            Some(InvoiceChange::SetBoardDimensions { item_id: id, text })
        } else {
            None
        },
    }
}

/// Which cell of an item an edit is about: description, quantity, lumber
/// type, drying method, grade, spec, board dimensions, in table order.
pub open spec fn edit_field(e: ItemEdit) -> int {
    match e {
        ItemEdit::Description(_) => 0,
        ItemEdit::Quantity(_) => 1,
        ItemEdit::LumberType { .. } => 2,
        ItemEdit::DryingMethod { .. } => 3,
        ItemEdit::Grade { .. } => 4,
        ItemEdit::Spec { .. } => 5,
        ItemEdit::BoardDimensions { .. } => 6,
    }
}

/// The text the user typed or picked.
pub open spec fn edit_text(e: ItemEdit) -> Seq<char> {
    match e {
        ItemEdit::Description(t) => t@,
        ItemEdit::Quantity(t) => t@,
        ItemEdit::LumberType { name, .. } => name@,
        ItemEdit::DryingMethod { text, .. } => text@,
        ItemEdit::Grade { text, .. } => text@,
        ItemEdit::Spec { text, .. } => text@,
        ItemEdit::BoardDimensions { text, .. } => text@,
    }
}

/// Whether the edit is taken: any description; a quantity that reads as a
/// number above zero; a lumber type the database knows; a drying method,
/// grade, spec or board dimensions that parse.
pub open spec fn edit_accepted(e: ItemEdit) -> bool {
    match e {
        ItemEdit::Description(_) => true,
        ItemEdit::Quantity(t) => parse_usize_spec(t@) matches Some(q) && q > 0,
        ItemEdit::LumberType { known, .. } => known,
        ItemEdit::DryingMethod { parses, .. } => parses,
        ItemEdit::Grade { parses, .. } => parses,
        ItemEdit::Spec { parses, .. } => parses,
        ItemEdit::BoardDimensions { parses, .. } => parses,
    }
}

/// Which cell of an item a change sets, numbered as `edit_field`; -1 for a
/// change that sets no single cell.
pub open spec fn change_field(c: InvoiceChange) -> int {
    match c {
        InvoiceChange::SetDescription { .. } => 0,
        InvoiceChange::SetQuantity { .. } => 1,
        InvoiceChange::SetLumberType { .. } => 2,
        InvoiceChange::SetDryingMethod { .. } => 3,
        InvoiceChange::SetGrade { .. } => 4,
        InvoiceChange::SetSpec { .. } => 5,
        InvoiceChange::SetBoardDimensions { .. } => 6,
        _ => -1,
    }
}

/// The item a change sets a cell of.
pub open spec fn change_item(c: InvoiceChange) -> Option<ItemId> {
    match c {
        InvoiceChange::SetDescription { item_id, .. } => Some(item_id),
        InvoiceChange::SetQuantity { item_id, .. } => Some(item_id),
        InvoiceChange::SetLumberType { item_id, .. } => Some(item_id),
        InvoiceChange::SetDryingMethod { item_id, .. } => Some(item_id),
        InvoiceChange::SetGrade { item_id, .. } => Some(item_id),
        InvoiceChange::SetSpec { item_id, .. } => Some(item_id),
        InvoiceChange::SetBoardDimensions { item_id, .. } => Some(item_id),
        _ => None,
    }
}

/// The text a change puts into a text cell; empty for other changes.
pub open spec fn change_text(c: InvoiceChange) -> Seq<char> {
    match c {
        InvoiceChange::SetDescription { description, .. } => description@,
        InvoiceChange::SetLumberType { lumber_type, .. } => lumber_type@,
        InvoiceChange::SetDryingMethod { text, .. } => text@,
        InvoiceChange::SetGrade { text, .. } => text@,
        InvoiceChange::SetSpec { text, .. } => text@,
        InvoiceChange::SetBoardDimensions { text, .. } => text@,
        _ => Seq::empty(),
    }
}

/// What an edit of item `id` does, said by the edit's parts: it yields a
/// change exactly when it is accepted, and that change sets the edited cell
/// of item `id` to the typed text (to the number the text reads, for a
/// quantity).
pub open spec fn edit_outcome_ok(id: ItemId, e: ItemEdit, change: Option<InvoiceChange>) -> bool {
    &&& (change is Some) == edit_accepted(e)
    &&& (change matches Some(c) ==> {
        &&& change_field(c) == edit_field(e)
        &&& change_item(c) == Some(id)
        &&& (edit_field(e) != 1 ==> change_text(c) == edit_text(e))
        &&& (c matches InvoiceChange::SetQuantity { quantity, .. } ==> parse_usize_spec(edit_text(e))
            == Some(quantity))
    })
}

/// Every edit of a selected item yields the change of the same cell of that
/// item with the typed text exactly when the edit is accepted, and nothing
/// otherwise.
pub proof fn lemma_edit_change_sets_edited_cell(id: ItemId, e: ItemEdit)
    ensures
        edit_outcome_ok(id, e, edit_change(id, e)),
{
}

/// Every row carries its position, cut to the store's 32 bits, as its item
/// id.
pub open spec fn ids_follow_positions(rows: Seq<Seq<Cell>>) -> bool {
    forall|j: int|
        0 <= j < rows.len() ==> (#[trigger] rows[j]).len() == 11 && rows[j][10] == Cell::U32(
            j as u32,
        )
}

/// A position cut to 32 bits is no larger than the position.
proof fn lemma_cut_id_at_most(j: usize)
    ensures
        (j as u32) as usize <= j,
{
    assert((j as u32) as usize <= j) by (bit_vector);
}

/// The state of the "New Invoice" page: the invoice being written, the rows
/// of its items table, which item is selected, which buttons may be
/// pressed, and the order number the next invoice gets.
///
/// Every operation that changes the invoice's items (or its customer) empties
/// the items table, so no row stays selected, until the application shows
/// the invoice's items again with `refresh_items`.
pub struct NewInvoicePage {
    order: OrderHeader,
    item_count: usize,
    items_model: ItemsModel,
    selected_item_id: Option<ItemId>,
    next_order_number: OrderNumber,
    default_item_lumber_type: String,
    delete_enabled: bool,
    save_enabled: bool,
}

impl NewInvoicePage {
    pub closed spec fn spec_order(&self) -> OrderHeader {
        self.order
    }

    /// Number of billable items on the invoice.
    pub closed spec fn spec_item_count(&self) -> nat {
        self.item_count as nat
    }

    /// The items table.
    pub closed spec fn spec_items_model(&self) -> ItemsModel {
        self.items_model
    }

    /// The rows of the items table.
    pub open spec fn spec_rows(&self) -> Seq<Seq<Cell>> {
        self.spec_items_model().rows()
    }

    pub closed spec fn spec_selected(&self) -> Option<ItemId> {
        self.selected_item_id
    }

    /// The order number the next invoice gets.
    pub closed spec fn spec_next_number(&self) -> OrderNumber {
        self.next_order_number
    }

    pub closed spec fn spec_default_lumber_type(&self) -> Seq<char> {
        self.default_item_lumber_type@
    }

    pub closed spec fn spec_delete_enabled(&self) -> bool {
        self.delete_enabled
    }

    pub closed spec fn spec_save_enabled(&self) -> bool {
        self.save_enabled
    }

    /// What holds of the page between any two operations: the items table
    /// is sound, shows no more rows than the invoice has items, and each
    /// row carries its position as item id; a selected item exists;
    /// "Delete" may be pressed exactly when an item is selected; "Save" only
    /// when the invoice has items; and the next invoice's number lies after
    /// the current one's.
    pub open spec fn wf(&self) -> bool {
        &&& self.spec_items_model().wf()
        &&& self.spec_rows().len() <= self.spec_item_count()
        &&& ids_follow_positions(self.spec_rows())
        &&& (self.spec_selected() matches Some(id) ==> id < self.spec_item_count())
        &&& self.spec_delete_enabled() == self.spec_selected() is Some
        &&& (self.spec_save_enabled() ==> self.spec_item_count() > 0)
        &&& self.spec_order().order_number < self.spec_next_number()
    }

    /// The page stays on the same invoice and its item count, with the same
    /// next number and default lumber type, and the "Save" button as it was.
    pub open spec fn same_invoice(&self, other: &NewInvoicePage) -> bool {
        &&& self.spec_order() == other.spec_order()
        &&& self.spec_item_count() == other.spec_item_count()
        &&& self.spec_next_number() == other.spec_next_number()
        &&& self.spec_default_lumber_type() == other.spec_default_lumber_type()
        &&& self.spec_save_enabled() == other.spec_save_enabled()
    }

    /// The items table is emptied: no item is selected and "Delete" may not
    /// be pressed.
    pub open spec fn table_emptied(&self) -> bool {
        &&& self.spec_rows() == Seq::<Seq<Cell>>::empty()
        &&& self.spec_selected() is None
        &&& !self.spec_delete_enabled()
    }

    /// The items table, its selection and the "Delete" button are as in
    /// `other`.
    pub open spec fn same_table(&self, other: &NewInvoicePage) -> bool {
        &&& self.spec_items_model() == other.spec_items_model()
        &&& self.spec_selected() == other.spec_selected()
        &&& self.spec_delete_enabled() == other.spec_delete_enabled()
    }

    /// A page for a new invoice numbered `next_free`, billed to
    /// `customer_name` at `site_name`, whose new items are of lumber type
    /// `default_item_lumber_type`.
    pub fn new(
        next_free: OrderNumber,
        customer_name: String,
        site_name: String,
        default_item_lumber_type: String,
    ) -> (p: NewInvoicePage)
        requires
            next_free < u32::MAX,
        ensures
            p.wf(),
            p.spec_order() == (OrderHeader { order_number: next_free, customer_name, site_name }),
            p.spec_next_number() == next_free + 1,
            p.spec_item_count() == 0,
            p.spec_default_lumber_type() == default_item_lumber_type@,
            p.table_emptied(),
            items_columns_ok(p.spec_items_model().column_specs()),
            !p.spec_save_enabled(),
    {
        NewInvoicePage {
            order: OrderHeader { order_number: next_free, customer_name, site_name },
            item_count: 0,
            items_model: ItemsModel::new(),
            selected_item_id: None,
            next_order_number: next_free + 1,
            default_item_lumber_type,
            delete_enabled: false,
            save_enabled: false,
        }
    }

    /// The invoice's order information.
    pub fn order(&self) -> (h: &OrderHeader)
        ensures
            *h == self.spec_order(),
    {
        &self.order
    }

    /// Number of billable items on the invoice.
    pub fn item_count(&self) -> (n: usize)
        ensures
            n == self.spec_item_count(),
    {
        self.item_count
    }

    /// The items table.
    pub fn items_model(&self) -> (m: &ItemsModel)
        ensures
            *m == self.spec_items_model(),
    {
        &self.items_model
    }

    /// The id of the selected item, if one is selected.
    pub fn selected_item_id(&self) -> (id: Option<ItemId>)
        ensures
            id == self.spec_selected(),
    {
        self.selected_item_id
    }

    /// The order number the next invoice gets.
    pub fn next_order_number(&self) -> (n: OrderNumber)
        ensures
            n == self.spec_next_number(),
    {
        self.next_order_number
    }

    /// The lumber type new items get.
    pub fn default_item_lumber_type(&self) -> (t: &String)
        ensures
            t@ == self.spec_default_lumber_type(),
    {
        &self.default_item_lumber_type
    }

    /// The "Delete" button may be pressed.
    pub fn delete_enabled(&self) -> (b: bool)
        ensures
            b == self.spec_delete_enabled(),
    {
        self.delete_enabled
    }

    /// The "Save Invoice" button may be pressed.
    pub fn save_enabled(&self) -> (b: bool)
        ensures
            b == self.spec_save_enabled(),
    {
        self.save_enabled
    }

    fn empty_table(&mut self)
        ensures
            final(self).table_emptied(),
            final(self).same_invoice(old(self)),
            final(self).spec_items_model().column_specs() == old(
                self,
            ).spec_items_model().column_specs(),
            old(self).spec_items_model().wf() ==> final(self).spec_items_model().wf(),
    {
        self.items_model.clear_rows();
        self.selected_item_id = None;
        self.delete_enabled = false;
    }

    /// Shows the invoice's items, `items`, in the items table: row `j`
    /// shows `items[j]` with item id `j`. The invoice has as many items as
    /// the page counts.
    pub fn refresh_items(&mut self, items: &Vec<ItemCells>)
        requires
            old(self).wf(),
            items@.len() == old(self).spec_item_count(),
        ensures
            final(self).wf(),
            final(self).spec_rows() == items_rows(items@),
            final(self).spec_items_model().column_specs() == old(
                self,
            ).spec_items_model().column_specs(),
            final(self).same_invoice(old(self)),
            final(self).spec_selected() == old(self).spec_selected(),
            final(self).spec_delete_enabled() == old(self).spec_delete_enabled(),
    {
        refresh_items_model(&mut self.items_model, items);
        assert(ids_follow_positions(self.spec_rows())) by {
            assert forall|j: int| 0 <= j < self.spec_rows().len() implies (#[trigger] self.spec_rows()[j]).len() == 11
                && self.spec_rows()[j][10] == Cell::U32(j as u32) by {
                assert(self.spec_rows()[j] == items_row(items@[j], j as usize));
            }
        }
    }

    /// "Add" was pressed: a new item of the default lumber type is appended,
    /// the items table is emptied until shown afresh, and the invoice may be
    /// saved.
    pub fn on_add_item(&mut self) -> (c: InvoiceChange)
        requires
            old(self).wf(),
            old(self).spec_item_count() < usize::MAX,
        ensures
            final(self).wf(),
            c matches InvoiceChange::AddItem { lumber_type } && lumber_type@
                == old(self).spec_default_lumber_type(),
            final(self).spec_item_count() == old(self).spec_item_count() + 1,
            final(self).spec_save_enabled(),
            final(self).table_emptied(),
            final(self).spec_order() == old(self).spec_order(),
            final(self).spec_next_number() == old(self).spec_next_number(),
            final(self).spec_default_lumber_type() == old(self).spec_default_lumber_type(),
    {
        self.item_count = self.item_count + 1;
        self.save_enabled = true;
        self.empty_table();
        InvoiceChange::AddItem { lumber_type: self.default_item_lumber_type.clone() }
    }

    /// "Delete" was pressed: the selected item, if any, is removed and the
    /// items table is emptied until shown afresh; an invoice left without
    /// items may not be saved.
    pub fn on_delete_item(&mut self) -> (c: Option<InvoiceChange>)
        requires
            old(self).wf(),
        ensures
            final(self).wf(),
            match old(self).spec_selected() {
                Some(id) => {
                    &&& c == Some(InvoiceChange::RemoveItem { item_id: id })
                    &&& final(self).spec_item_count() == old(self).spec_item_count() - 1
                    &&& final(self).table_emptied()
                },
                None => {
                    &&& c is None
                    &&& final(self).spec_item_count() == old(self).spec_item_count()
                    &&& final(self).same_table(old(self))
                },
            },
            final(self).spec_save_enabled() == (old(self).spec_save_enabled()
                && final(self).spec_item_count() > 0),
            final(self).spec_order() == old(self).spec_order(),
            final(self).spec_next_number() == old(self).spec_next_number(),
            final(self).spec_default_lumber_type() == old(self).spec_default_lumber_type(),
    {
        let change = match self.selected_item_id {
            Some(id) => {
                self.item_count = self.item_count - 1;
                self.empty_table();
                Some(InvoiceChange::RemoveItem { item_id: id })
            },
            None => None,
        };
        if self.item_count == 0 {
            self.save_enabled = false;
        }
        change
    }

    /// "Clear Invoice" was pressed: every item is removed, the items table
    /// is emptied and the invoice may not be saved.
    pub fn on_clear_invoice(&mut self) -> (c: InvoiceChange)
        requires
            old(self).wf(),
        ensures
            final(self).wf(),
            c == InvoiceChange::ClearItems,
            final(self).spec_item_count() == 0,
            !final(self).spec_save_enabled(),
            final(self).table_emptied(),
            final(self).spec_order() == old(self).spec_order(),
            final(self).spec_next_number() == old(self).spec_next_number(),
            final(self).spec_default_lumber_type() == old(self).spec_default_lumber_type(),
    {
        self.save_enabled = false;
        self.item_count = 0;
        self.empty_table();
        InvoiceChange::ClearItems
    }

    /// The cursor of the items table moved to row `row` (or to no row): the
    /// selected item and the "Delete" button follow what the items table
    /// reads for that row.
    pub fn on_cursor_changed(&mut self, row: Option<usize>)
        requires
            old(self).wf(),
        ensures
            final(self).wf(),
            (final(self).spec_selected(), final(self).spec_delete_enabled()) == selection_of(
                old(self).spec_rows(),
                row,
            ),
            final(self).spec_items_model() == old(self).spec_items_model(),
            final(self).same_invoice(old(self)),
    {
        let (id, selected) = self.items_model.get_selected(row);
        proof {
            if let Some(r) = row {
                if r < self.spec_rows().len() {
                    assert(self.spec_rows()[r as int][10] == Cell::U32(r as u32));
                    lemma_cut_id_at_most(r);
                }
            }
        }
        self.selected_item_id = id;
        self.delete_enabled = selected;
    }

    /// A cell of the selected item was edited. Without a selected item
    /// nothing happens; with one, the edit's change is made when the edit is
    /// accepted (a quantity must read as a number above zero), and the items
    /// table is emptied until shown afresh either way.
    pub fn on_item_edited(&mut self, edit: ItemEdit) -> (o: EditOutcome)
        requires
            old(self).wf(),
        ensures
            final(self).wf(),
            final(self).same_invoice(old(self)),
            match old(self).spec_selected() {
                Some(id) => {
                    &&& o.change == edit_change(id, edit)
                    &&& edit_outcome_ok(id, edit, o.change)
                    &&& o.refresh
                    &&& final(self).table_emptied()
                },
                None => {
                    &&& o.change is None
                    &&& !o.refresh
                    &&& final(self).same_table(old(self))
                },
            },
    {
        let id = match self.selected_item_id {
            Some(id) => id,
            None => {
                return EditOutcome { change: None, refresh: false };
            },
        };
        let change = match edit {
            ItemEdit::Description(t) => Some(
                InvoiceChange::SetDescription { item_id: id, description: t },
            ),
            ItemEdit::Quantity(t) => {
                let parsed = parse_usize(t.as_str());
                match parsed {
                    Some(q) => if q > 0 {
                        Some(InvoiceChange::SetQuantity { item_id: id, quantity: q })
                    } else {
                        None
                    },
                    None => None,
                }
            },
            ItemEdit::LumberType { name, known } => if known {
                Some(InvoiceChange::SetLumberType { item_id: id, lumber_type: name })
            } else {
                None
            },
            ItemEdit::DryingMethod { text, parses } => if parses {
                Some(InvoiceChange::SetDryingMethod { item_id: id, text })
            } else {
                None
            },
            ItemEdit::Grade { text, parses } => if parses {
                Some(InvoiceChange::SetGrade { item_id: id, text })
            } else {
                None
            },
            ItemEdit::Spec { text, parses } => if parses {
                Some(InvoiceChange::SetSpec { item_id: id, text })
            } else {
                None
            },
            ItemEdit::BoardDimensions { text, parses } => if parses {
                Some(InvoiceChange::SetBoardDimensions { item_id: id, text })
            } else {
                None
            },
        };
        self.empty_table();
        EditOutcome { change, refresh: true }
    }

    /// A customer was picked. A name the database knows bills the invoice
    /// to that customer and empties the items table until every table is
    /// shown afresh; any other name changes nothing.
    pub fn on_customer_edited(&mut self, name: String, known: bool) -> (c: Option<InvoiceChange>)
        requires
            old(self).wf(),
        ensures
            final(self).wf(),
            known ==> {
                &&& c matches Some(InvoiceChange::SetCustomerName { name: n }) && n@ == name@
                &&& final(self).spec_order() == (OrderHeader {
                    customer_name: name,
                    ..old(self).spec_order()
                })
                &&& final(self).table_emptied()
            },
            !known ==> {
                &&& c is None
                &&& *final(self) == *old(self)
            },
            final(self).spec_item_count() == old(self).spec_item_count(),
            final(self).spec_next_number() == old(self).spec_next_number(),
            final(self).spec_default_lumber_type() == old(self).spec_default_lumber_type(),
            final(self).spec_save_enabled() == old(self).spec_save_enabled(),
    {
        if known {
            let change = InvoiceChange::SetCustomerName { name: name.clone() };
            self.order.customer_name = name;
            self.empty_table();
            Some(change)
        } else {
            None
        }
    }

    /// Starts a new invoice in place of the current one, and returns the
    /// order information of the invoice it replaces. The new invoice takes
    /// the next order number, keeps the customer and the site, has no items,
    /// and may not be saved yet.
    pub fn replace_invoice(&mut self) -> (replaced: OrderHeader)
        requires
            old(self).wf(),
            old(self).spec_next_number() < u32::MAX,
        ensures
            final(self).wf(),
            replaced == old(self).spec_order(),
            final(self).spec_order() == (OrderHeader {
                order_number: old(self).spec_next_number(),
                ..old(self).spec_order()
            }),
            final(self).spec_order().order_number > replaced.order_number,
            final(self).spec_next_number() == old(self).spec_next_number() + 1,
            final(self).spec_item_count() == 0,
            !final(self).spec_save_enabled(),
            final(self).table_emptied(),
            final(self).spec_default_lumber_type() == old(self).spec_default_lumber_type(),
    {
        let next_num = self.next_order_number;
        self.next_order_number = next_num + 1;
        let replaced = self.order.copy();
        self.order.order_number = next_num;
        self.save_enabled = false;
        self.item_count = 0;
        self.empty_table();
        replaced
    }
}

/// The law of the page: between any two operations "Save" may be pressed
/// only when the invoice has items, "Delete" exactly when an item is
/// selected, the selected item exists, and every row of the items table
/// selects the item of its position (for positions that fit the store's
/// 32-bit id column), with no more rows than items.
pub proof fn lemma_page_law(p: NewInvoicePage)
    requires
        p.wf(),
    ensures
        p.spec_save_enabled() ==> p.spec_item_count() > 0,
        p.spec_delete_enabled() == p.spec_selected() is Some,
        p.spec_selected() matches Some(id) ==> id < p.spec_item_count(),
        p.spec_rows().len() <= p.spec_item_count(),
        forall|j: usize|
            j < p.spec_rows().len() && j <= u32::MAX ==> #[trigger] selection_of(
                p.spec_rows(),
                Some(j),
            ) == (Some(j), true),
{
    assert forall|j: usize| j < p.spec_rows().len() && j <= u32::MAX implies #[trigger] selection_of(
        p.spec_rows(),
        Some(j),
    ) == (Some(j), true) by {
        assert(p.spec_rows()[j as int][10] == Cell::U32(j as u32));
        assert((j as u32) as usize == j);
    }
}

} // verus!
