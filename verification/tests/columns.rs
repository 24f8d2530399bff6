use elis_gtk::column::{
    default_center_column, default_column, default_combo_column, default_right_column,
    default_toggle_column, make_last_editable, Align, ColumnSpec, RendererKind,
};

#[test]
fn default_column_numbers_columns_by_position() {
    let mut columns: Vec<ColumnSpec> = Vec::new();
    assert_eq!(default_column("Name", &mut columns), 0);
    assert_eq!(default_column("Address", &mut columns), 1);
    assert_eq!(default_column("Notes", &mut columns), 2);
    assert_eq!(columns.len(), 3);
    for (i, c) in columns.iter().enumerate() {
        assert_eq!(c.id, i as i32);
        assert_eq!(c.kind, RendererKind::Text);
        assert_eq!(c.align, Align::Start);
        assert!(c.shows_text);
        assert!(!c.editable);
        assert!(!c.activatable);
        assert!(!c.wraps);
    }
    assert_eq!(columns[1].title, "Address");
}

#[test]
fn center_and_right_columns_align_their_text() {
    let mut columns: Vec<ColumnSpec> = Vec::new();
    assert_eq!(default_center_column("Order Number", &mut columns), 0);
    assert_eq!(default_right_column("Customer", &mut columns), 1);
    assert_eq!(columns[0].align, Align::Center);
    assert_eq!(columns[1].align, Align::End);
    assert_eq!(columns[1].title, "Customer");
    assert_eq!(columns[0].kind, RendererKind::Text);
}

#[test]
fn combo_column_is_editable_and_toggle_is_clickable() {
    let mut columns: Vec<ColumnSpec> = Vec::new();
    default_column("First", &mut columns);
    assert_eq!(default_combo_column("Customer", &mut columns), 1);
    assert_eq!(default_toggle_column("Will Call", &mut columns), 2);
    let combo = &columns[1];
    assert_eq!(combo.kind, RendererKind::Combo);
    assert!(combo.editable && combo.shows_text && !combo.activatable);
    let toggle = &columns[2];
    assert_eq!(toggle.kind, RendererKind::Toggle);
    assert!(toggle.activatable && !toggle.shows_text && !toggle.editable);
    assert_eq!(toggle.align, Align::Start);
}

#[test]
fn make_last_editable_changes_only_the_last_column() {
    let mut columns: Vec<ColumnSpec> = Vec::new();
    default_column("Description", &mut columns);
    default_column("Quantity", &mut columns);
    make_last_editable(&mut columns, true);
    assert!(!columns[0].editable);
    assert!(columns[1].editable);
    assert!(columns[1].wraps);
    assert_eq!(columns[1].id, 1);
}
