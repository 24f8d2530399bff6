use elis_gtk::customer_query_results_model::CustomerCells;
use elis_gtk::customer_search_page::CustomerSearchPage;
use elis_gtk::invoice_query_results_model::InvoiceCells;
use elis_gtk::invoice_search_page::InvoiceSearchPage;
use elis_gtk::lumber_type_model::LumberTypeCells;
use elis_gtk::site_info_model::SiteInfoCells;
use elis_gtk::site_info_page::SiteInfoPage;
use elis_gtk::table::Cell;

fn customer(name: &str) -> CustomerCells {
    CustomerCells {
        name: name.to_string(),
        address: String::new(),
        phone_number: String::new(),
        notes: String::new(),
    }
}

#[test]
fn customer_search_lists_exactly_the_given_customers() {
    let mut page = CustomerSearchPage::new(3);
    assert_eq!(page.page_index(), 3);
    page.set_results(&vec![customer("A"), customer("B"), customer("C")]);
    page.set_results(&vec![customer("D")]);
    let store = page.results_model().store();
    assert_eq!(store.len(), 1);
    assert!(matches!(store.value(0, 0), Some(Cell::Str(s)) if s == "D"));
}

#[test]
fn invoice_search_lists_invoices_and_refreshes_on_its_tab() {
    let mut page = InvoiceSearchPage::new(1);
    assert!(page.refreshes_on_switch_to(1));
    assert!(!page.refreshes_on_switch_to(0));
    let invoices: Vec<InvoiceCells> = (1..4)
        .map(|n| InvoiceCells {
            order_number: n,
            customer_name: "Acme".to_string(),
            order_date: String::new(),
            shipment_date: String::new(),
            will_call: n == 2,
            total_pieces: 1,
            total_cost: String::new(),
        })
        .collect();
    page.set_results(&invoices);
    let store = page.results_model().store();
    assert_eq!(store.len(), 3);
    assert!(matches!(store.value(2, 0), Some(Cell::U32(3))));
    assert!(matches!(store.value(1, 4), Some(Cell::Str(s)) if s == "Yes"));
    assert!(matches!(store.value(0, 4), Some(Cell::Str(s)) if s == "No"));
}

#[test]
fn site_info_page_shows_site_and_lumber_types() {
    let site = SiteInfoCells {
        site_name: "Mill".to_string(),
        address: String::new(),
        phone_number: String::new(),
        fax_number: String::new(),
        sales_tax: "6.000 %".to_string(),
    };
    let types = vec![LumberTypeCells { name: "Oak".to_string(), fob_price: "$2.50".to_string() }];
    let mut page = SiteInfoPage::new(4, &site, &types);
    assert_eq!(page.index(), 4);
    assert_eq!(page.lumber_type_model().store().len(), 1);
    page.update_models(&Vec::new());
    assert_eq!(page.lumber_type_model().store().len(), 0);
    assert_eq!(page.site_info_model().store().len(), 1);
}
