use elis_gtk::items_model::{ItemCells, ItemsModel};
use elis_gtk::table::Cell;
use elis_gtk::new_invoice_page::{refresh_items_model, InvoiceChange, ItemEdit, NewInvoicePage};

fn page() -> NewInvoicePage {
    NewInvoicePage::new(100, "Acme".to_string(), "Mill".to_string(), "Oak".to_string())
}

/// Shows as many rows as the page counts items, as the application does
/// after every change.
fn show(p: &mut NewInvoicePage) {
    let items: Vec<ItemCells> = (0..p.item_count()).map(|i| cells(&i.to_string())).collect();
    p.refresh_items(&items);
}

fn add(p: &mut NewInvoicePage) {
    p.on_add_item();
    show(p);
}

fn select(p: &mut NewInvoicePage, row: usize) {
    p.on_cursor_changed(Some(row));
}

#[test]
fn new_page_starts_empty_with_next_number_after_its_own() {
    let p = page();
    assert_eq!(p.order().order_number, 100);
    assert_eq!(p.order().customer_name, "Acme");
    assert_eq!(p.order().site_name, "Mill");
    assert_eq!(p.next_order_number(), 101);
    assert_eq!(p.item_count(), 0);
    assert_eq!(p.selected_item_id(), None);
    assert!(!p.save_enabled());
    assert!(!p.delete_enabled());
    assert_eq!(p.default_item_lumber_type(), "Oak");
}

#[test]
fn adding_items_enables_saving() {
    let mut p = page();
    match p.on_add_item() {
        InvoiceChange::AddItem { lumber_type } => assert_eq!(lumber_type, "Oak"),
        other => panic!("{:?}", other),
    }
    assert_eq!(p.item_count(), 1);
    assert!(p.save_enabled());
    assert!(!p.delete_enabled());
}

#[test]
fn cursor_follows_the_selected_row() {
    let mut p = page();
    add(&mut p);
    add(&mut p);
    assert_eq!(p.items_model().store().len(), 2);
    select(&mut p, 1);
    assert_eq!(p.selected_item_id(), Some(1));
    assert!(p.delete_enabled());
    select(&mut p, 2);
    assert_eq!(p.selected_item_id(), None);
    assert!(!p.delete_enabled());
    p.on_cursor_changed(None);
    assert!(!p.delete_enabled());
}

#[test]
fn deleting_the_last_item_disables_saving() {
    let mut p = page();
    add(&mut p);
    assert!(p.on_delete_item().is_none());
    assert_eq!(p.item_count(), 1);
    assert!(p.save_enabled());
    assert_eq!(p.items_model().store().len(), 1);
    select(&mut p, 0);
    match p.on_delete_item() {
        Some(InvoiceChange::RemoveItem { item_id }) => assert_eq!(item_id, 0),
        other => panic!("{:?}", other),
    }
    assert_eq!(p.item_count(), 0);
    assert!(!p.save_enabled());
    assert!(!p.delete_enabled());
    assert_eq!(p.items_model().store().len(), 0);
}

#[test]
fn deleting_one_of_several_items_keeps_saving_enabled() {
    let mut p = page();
    add(&mut p);
    add(&mut p);
    select(&mut p, 0);
    assert!(p.on_delete_item().is_some());
    assert_eq!(p.item_count(), 1);
    assert!(p.save_enabled());
}

#[test]
fn clearing_removes_all_items() {
    let mut p = page();
    add(&mut p);
    add(&mut p);
    select(&mut p, 1);
    assert!(matches!(p.on_clear_invoice(), InvoiceChange::ClearItems));
    assert_eq!(p.item_count(), 0);
    assert!(!p.save_enabled());
    assert_eq!(p.selected_item_id(), None);
}

#[test]
fn edits_need_a_selected_item() {
    let mut p = page();
    add(&mut p);
    let o = p.on_item_edited(ItemEdit::Description("walnut slab".to_string()));
    assert!(o.change.is_none());
    assert!(!o.refresh);
    select(&mut p, 0);
    let o = p.on_item_edited(ItemEdit::Description("walnut slab".to_string()));
    assert!(o.refresh);
    match o.change {
        Some(InvoiceChange::SetDescription { item_id, description }) => {
            assert_eq!(item_id, 0);
            assert_eq!(description, "walnut slab");
        }
        other => panic!("{:?}", other),
    }
    assert_eq!(p.selected_item_id(), None);
}

#[test]
fn quantity_edits_take_positive_numbers_only() {
    let mut p = page();
    add(&mut p);
    let cases: Vec<(&str, Option<usize>)> =
        vec![("12", Some(12)), ("+3", Some(3)), ("0", None), ("-2", None), ("two", None), ("", None)];
    for (text, expected) in cases {
        select(&mut p, 0);
        let o = p.on_item_edited(ItemEdit::Quantity(text.to_string()));
        assert!(o.refresh);
        show(&mut p);
        match (o.change, expected) {
            (Some(InvoiceChange::SetQuantity { item_id: 0, quantity }), Some(q)) => assert_eq!(quantity, q),
            (None, None) => {}
            (other, _) => panic!("{:?} for {:?}", other, text),
        }
    }
}

#[test]
fn lookups_and_parses_decide_other_edits() {
    let mut p = page();
    add(&mut p);
    show(&mut p);
    select(&mut p, 0);
    let o = p.on_item_edited(ItemEdit::LumberType { name: "Teak".to_string(), known: false });
    assert!(o.change.is_none() && o.refresh);
    show(&mut p);
    select(&mut p, 0);
    let o = p.on_item_edited(ItemEdit::LumberType { name: "Pine".to_string(), known: true });
    assert!(matches!(o.change, Some(InvoiceChange::SetLumberType { item_id: 0, lumber_type }) if lumber_type == "Pine"));
    show(&mut p);
    select(&mut p, 0);
    let o = p.on_item_edited(ItemEdit::Grade { text: "Select".to_string(), parses: true });
    assert!(matches!(o.change, Some(InvoiceChange::SetGrade { item_id: 0, .. })));
    show(&mut p);
    select(&mut p, 0);
    let o = p.on_item_edited(ItemEdit::Spec { text: "??".to_string(), parses: false });
    assert!(o.change.is_none());
    show(&mut p);
    select(&mut p, 0);
    let o = p.on_item_edited(ItemEdit::DryingMethod { text: "Air Dried".to_string(), parses: true });
    assert!(matches!(o.change, Some(InvoiceChange::SetDryingMethod { item_id: 0, .. })));
    show(&mut p);
    select(&mut p, 0);
    let o = p.on_item_edited(ItemEdit::BoardDimensions { text: "1 x 6 x 8".to_string(), parses: true });
    assert!(matches!(o.change, Some(InvoiceChange::SetBoardDimensions { item_id: 0, text }) if text == "1 x 6 x 8"));
}

#[test]
fn customer_edits_need_a_known_customer() {
    let mut p = page();
    assert!(p.on_customer_edited("Nobody".to_string(), false).is_none());
    assert_eq!(p.order().customer_name, "Acme");
    match p.on_customer_edited("Bolt Co".to_string(), true) {
        Some(InvoiceChange::SetCustomerName { name }) => assert_eq!(name, "Bolt Co"),
        other => panic!("{:?}", other),
    }
    assert_eq!(p.order().customer_name, "Bolt Co");
}

#[test]
fn replace_invoice_hands_out_increasing_numbers() {
    let mut p = page();
    add(&mut p);
    p.on_customer_edited("Bolt Co".to_string(), true);
    let replaced = p.replace_invoice();
    assert_eq!(replaced.order_number, 100);
    assert_eq!(replaced.customer_name, "Bolt Co");
    assert_eq!(p.order().order_number, 101);
    assert_eq!(p.order().customer_name, "Bolt Co");
    assert_eq!(p.order().site_name, "Mill");
    assert_eq!(p.item_count(), 0);
    assert!(!p.save_enabled());
    assert_eq!(p.items_model().store().len(), 0);
    let second = p.replace_invoice();
    assert_eq!(second.order_number, 101);
    assert_eq!(p.order().order_number, 102);
    assert_eq!(p.next_order_number(), 103);
}

fn cells(description: &str) -> ItemCells {
    ItemCells {
        lumber_type: "Oak".to_string(),
        drying_method: String::new(),
        grade: String::new(),
        spec: String::new(),
        description: description.to_string(),
        board_dimensions: String::new(),
        quantity: 1,
        board_feet: String::new(),
        fob_cost: String::new(),
        cost: String::new(),
    }
}

#[test]
fn refresh_items_model_numbers_rows_by_position() {
    let mut m = ItemsModel::new();
    refresh_items_model(&mut m, &vec![cells("a"), cells("b"), cells("c")]);
    assert_eq!(m.store().len(), 3);
    for row in 0..3 {
        assert_eq!(m.get_selected(Some(row)), (Some(row), true));
    }
    refresh_items_model(&mut m, &vec![cells("z")]);
    assert_eq!(m.store().len(), 1);
    assert_eq!(m.get_selected(Some(1)), (None, false));
}

#[test]
fn refresh_items_shows_each_item_with_its_position() {
    let mut p = page();
    add(&mut p);
    add(&mut p);
    add(&mut p);
    p.refresh_items(&vec![cells("a"), cells("b"), cells("c")]);
    let store = p.items_model().store();
    assert_eq!(store.len(), 3);
    assert!(matches!(store.value(1, 4), Some(Cell::Str(s)) if s == "b"));
    for row in 0..3 {
        p.on_cursor_changed(Some(row));
        assert_eq!(p.selected_item_id(), Some(row));
        assert!(p.delete_enabled());
    }
    p.on_add_item();
    assert_eq!(p.items_model().store().len(), 0);
    assert_eq!(p.selected_item_id(), None);
}
