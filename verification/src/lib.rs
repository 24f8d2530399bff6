//! Decision logic and table models of the ELIS invoicing front end.
//!
//! The widgets themselves live in the application; this library holds what
//! they show and decides how the invoice being edited changes.

pub mod column;
pub mod customer_query_results_model;
pub mod customer_search_page;
pub mod invoice_query_results_model;
pub mod invoice_search_page;
pub mod invoice_summary_model;
pub mod items_model;
pub mod lumber_type_model;
pub mod new_invoice_page;
pub mod order_info_model;
pub mod order_numbers;
pub mod quantity;
pub mod site_info_model;
pub mod site_info_page;
pub mod table;
