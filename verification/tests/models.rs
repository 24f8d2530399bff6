use elis_gtk::column::{Align, RendererKind};
use elis_gtk::customer_query_results_model::{CustomerCells, CustomerQueryResultsModel};
use elis_gtk::invoice_query_results_model::{InvoiceCells, InvoiceQueryResultsModel};
use elis_gtk::invoice_summary_model::{InvoiceSummaryModel, SummaryCells};
use elis_gtk::items_model::{ItemCells, ItemsModel, ITEM_ID_COLUMN};
use elis_gtk::lumber_type_model::{LumberTypeCells, LumberTypeModel};
use elis_gtk::order_info_model::{OrderInfoCells, OrderInfoModel};
use elis_gtk::site_info_model::{SiteInfoCells, SiteInfoModel};
use elis_gtk::table::{Cell, RowStore, ValueType};

fn text(store: &RowStore, row: usize, column: usize) -> String {
    match store.value(row, column) {
        Some(Cell::Str(s)) => s.clone(),
        other => panic!("not text: {:?}", other),
    }
}

fn number(store: &RowStore, row: usize, column: usize) -> u32 {
    match store.value(row, column) {
        Some(Cell::U32(n)) => *n,
        other => panic!("not a number: {:?}", other),
    }
}

fn item(quantity: usize) -> ItemCells {
    ItemCells {
        lumber_type: "Oak".to_string(),
        drying_method: "Kiln Dried".to_string(),
        grade: "Select".to_string(),
        spec: "S4S".to_string(),
        description: "table top".to_string(),
        board_dimensions: "1 x 6 x 8".to_string(),
        quantity,
        board_feet: "4.000".to_string(),
        fob_cost: "$2.50".to_string(),
        cost: "$10.00".to_string(),
    }
}

#[test]
fn items_model_lays_out_ten_columns_over_eleven_store_columns() {
    let m = ItemsModel::new();
    let titles: Vec<&str> = m.columns().iter().map(|c| c.title.as_str()).collect();
    assert_eq!(
        titles,
        vec![
            "Lumber Type",
            "Drying Method",
            "Grade",
            "Spec",
            "Description",
            "Dimensions (T x W x L)",
            "Quantity",
            "BF",
            "FOB",
            "Cost"
        ]
    );
    assert_eq!(m.store().column_types().len(), 11);
    assert_eq!(m.store().column_types()[ITEM_ID_COLUMN], ValueType::U32);
    assert_eq!(m.store().column_types()[6], ValueType::U32);
    assert_eq!(m.columns()[0].kind, RendererKind::Combo);
    assert!(m.columns()[4].editable && m.columns()[4].wraps);
    assert!(m.columns()[5].editable && !m.columns()[5].wraps);
    assert!(m.columns()[6].editable);
    assert!(!m.columns()[7].editable);
    let r = m.cell_renderers();
    assert_eq!((r.lumber_type, r.spec, r.description, r.quantity), (0, 3, 4, 6));
    assert_eq!(m.store().len(), 0);
}

#[test]
fn items_model_rows_and_selection_round_trip() {
    let mut m = ItemsModel::new();
    m.update_values(&item(3), 0);
    m.update_values(&item(5), 1);
    assert_eq!(m.store().len(), 2);
    assert_eq!(text(m.store(), 0, 0), "Oak");
    assert_eq!(number(m.store(), 1, 6), 5);
    assert_eq!(text(m.store(), 1, 9), "$10.00");
    assert_eq!(m.get_selected(Some(1)), (Some(1), true));
    assert_eq!(m.get_selected(Some(0)), (Some(0), true));
    assert_eq!(m.get_selected(None), (None, false));
    assert_eq!(m.get_selected(Some(2)), (None, false));
    m.clear();
    assert_eq!(m.store().len(), 0);
    assert_eq!(m.get_selected(Some(0)), (None, false));
}

#[test]
fn items_model_cuts_large_counts_to_32_bits() {
    let mut m = ItemsModel::new();
    let big = (u32::MAX as usize).wrapping_add(5);
    m.update_values(&item(big), big);
    assert_eq!(number(m.store(), 0, 6), big as u32);
    assert_eq!(number(m.store(), 0, ITEM_ID_COLUMN), big as u32);
}

#[test]
fn order_info_model_shows_one_row() {
    let mut m = OrderInfoModel::new();
    assert_eq!(m.columns().len(), 8);
    assert_eq!(m.columns()[0].kind, RendererKind::Combo);
    assert_eq!(m.columns()[1].align, Align::Center);
    assert!(m.columns()[1].editable && m.columns()[1].wraps);
    assert_eq!(m.columns()[7].kind, RendererKind::Toggle);
    let r = m.cell_renderers();
    assert_eq!((r.customer, r.confirms_with, r.will_call), (0, 1, 7));
    let info = OrderInfoCells {
        customer_name: "Acme".to_string(),
        confirms_with: "Bob".to_string(),
        order_number: 42,
        weight_estimate: "120 lb".to_string(),
        order_date: "01/02/2019".to_string(),
        shipment_date: "01/05/2019".to_string(),
        site_name: "Mill".to_string(),
        will_call: true,
    };
    m.update_values(&info);
    m.update_values(&info);
    assert_eq!(m.store().len(), 1);
    assert_eq!(text(m.store(), 0, 0), "Acme");
    assert_eq!(number(m.store(), 0, 2), 42);
    assert!(matches!(m.store().value(0, 7), Some(Cell::Bool(true))));
}

#[test]
fn summary_model_shows_one_row() {
    let mut m = InvoiceSummaryModel::new();
    assert_eq!(m.columns()[1].title, "Estimated Shipping");
    let s = SummaryCells {
        total_pieces: 12,
        estimated_shipping: "$0.00".to_string(),
        sub_total: "$100.00".to_string(),
        sales_tax: "$5.00".to_string(),
        total_cost: "$105.00".to_string(),
    };
    m.update_values(&s);
    m.update_values(&s);
    assert_eq!(m.store().len(), 1);
    assert_eq!(number(m.store(), 0, 0), 12);
    assert_eq!(text(m.store(), 0, 4), "$105.00");
}

fn invoice(order_number: u32, will_call: bool) -> InvoiceCells {
    InvoiceCells {
        order_number,
        customer_name: "Acme".to_string(),
        order_date: "01/02/2019 10:00:00".to_string(),
        shipment_date: "01/05/2019".to_string(),
        will_call,
        total_pieces: 7,
        total_cost: "$70.00".to_string(),
    }
}

#[test]
fn invoice_results_read_will_call_as_yes_or_no() {
    let mut m = InvoiceQueryResultsModel::new();
    assert_eq!(m.columns()[1].align, Align::End);
    assert_eq!(m.columns()[6].align, Align::Start);
    m.update_values(&invoice(1, true));
    m.update_values(&invoice(2, false));
    assert_eq!(text(m.store(), 0, 4), "Yes");
    assert_eq!(text(m.store(), 1, 4), "No");
    assert_eq!(number(m.store(), 1, 0), 2);
    assert_eq!(number(m.store(), 1, 5), 7);
    m.clear();
    assert_eq!(m.store().len(), 0);
}

#[test]
fn customer_results_append_rows() {
    let mut m = CustomerQueryResultsModel::new();
    let c = CustomerCells {
        name: "Acme".to_string(),
        address: "1 Main St".to_string(),
        phone_number: "555-0100".to_string(),
        notes: "cash only".to_string(),
    };
    m.update_values(&c);
    m.update_values(&c);
    assert_eq!(m.store().len(), 2);
    assert_eq!(text(m.store(), 1, 3), "cash only");
    m.clear();
    assert_eq!(m.store().len(), 0);
}

#[test]
fn lumber_type_model_lists_types_in_order() {
    let mut m = LumberTypeModel::new();
    let types = vec![
        LumberTypeCells { name: "Oak".to_string(), fob_price: "$2.50".to_string() },
        LumberTypeCells { name: "Pine".to_string(), fob_price: "$1.10".to_string() },
    ];
    m.update_model(&types);
    m.update_model(&types);
    assert_eq!(m.store().len(), 2);
    assert_eq!(text(m.store(), 1, 0), "Pine");
    assert_eq!(text(m.store(), 0, 1), "$2.50");
}

#[test]
fn site_info_model_shows_the_site() {
    let site = SiteInfoCells {
        site_name: "Mill".to_string(),
        address: "2 Saw Rd".to_string(),
        phone_number: "555-0101".to_string(),
        fax_number: "555-0102".to_string(),
        sales_tax: "6.000 %".to_string(),
    };
    let m = SiteInfoModel::new(&site);
    m.update_model();
    assert_eq!(m.store().len(), 1);
    assert_eq!(text(m.store(), 0, 4), "6.000 %");
    assert_eq!(m.columns()[0].align, Align::Center);
    assert_eq!(m.columns()[4].align, Align::Start);
}
