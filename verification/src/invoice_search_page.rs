use vstd::prelude::*;

use crate::column::shows_by_title;
use crate::table::Cell;
use crate::invoice_query_results_model::{invoice_cell_fits, lemma_invoice_row_by_titles, invoice_query_columns_ok, is_invoice_row, InvoiceCells, InvoiceQueryResultsModel};

verus! {

/// The "Invoice Search" page: its tab number and the invoices it lists.
pub struct InvoiceSearchPage {
    page_index: u32,
    results_model: InvoiceQueryResultsModel,
}

impl InvoiceSearchPage {
    pub closed spec fn spec_page_index(&self) -> u32 {
        self.page_index
    }

    /// The invoice results table.
    pub closed spec fn results(&self) -> InvoiceQueryResultsModel {
        self.results_model
    }

    pub open spec fn wf(&self) -> bool {
        self.results().wf()
    }

    /// The page in tab `page_index`, listing no invoices yet.
    pub fn new(page_index: u32) -> (p: InvoiceSearchPage)
        ensures
            p.wf(),
            p.spec_page_index() == page_index,
            p.results().rows().len() == 0,
            invoice_query_columns_ok(p.results().column_specs()),
    {
        InvoiceSearchPage { page_index, results_model: InvoiceQueryResultsModel::new() }
    }

    /// The tab number of the page.
    pub fn page_index(&self) -> (i: u32)
        ensures
            i == self.spec_page_index(),
    {
        self.page_index
    }

    /// The invoice results table.
    pub fn results_model(&self) -> (m: &InvoiceQueryResultsModel)
        ensures
            *m == self.results(),
    {
        &self.results_model
    }

    /// Switching the notebook to tab `page_index` lists the stored invoices
    /// afresh exactly when that tab is this page.
    pub fn refreshes_on_switch_to(&self, page_index: u32) -> (b: bool)
        ensures
            b == (page_index == self.spec_page_index()),
    {
        page_index == self.page_index
    }

    /// Lists exactly `invoices`, in the order given.
    pub fn set_results(&mut self, invoices: &Vec<InvoiceCells>)
        requires
            old(self).wf(),
        ensures
            final(self).wf(),
            final(self).results().rows().len() == invoices@.len(),
            forall|i: int|
                0 <= i < invoices@.len() ==> is_invoice_row(
                    #[trigger] final(self).results().rows()[i],
                    invoices@[i],
                ),
            invoice_query_columns_ok(old(self).results().column_specs()) ==> forall|i: int|
                0 <= i < invoices@.len() ==> shows_by_title(
                    final(self).results().column_specs(),
                    #[trigger] final(self).results().rows()[i],
                    |t: Seq<char>, c: Cell| invoice_cell_fits(invoices@[i], t, c),
                ),
            final(self).results().column_specs() == old(self).results().column_specs(),
            final(self).spec_page_index() == old(self).spec_page_index(),
    {
        self.results_model.clear();
        let n = invoices.len();
        for i in 0..n
            invariant
                n == invoices@.len(),
                self.wf(),
                self.results().rows().len() == i,
                forall|k: int|
                    0 <= k < i ==> is_invoice_row(#[trigger] self.results().rows()[k], invoices@[k]),
                self.results().column_specs() == old(self).results().column_specs(),
                self.spec_page_index() == old(self).spec_page_index(),
        {
            let ghost before = self.results().rows();
            self.results_model.update_values(&invoices[i]);
            assert forall|k: int| 0 <= k < i + 1 implies is_invoice_row(
                #[trigger] self.results().rows()[k],
                invoices@[k],
            ) by {
                if k < i {
                    assert(self.results().rows()[k] == self.results().rows().drop_last()[k]);
                }
            }
        }
        proof {
            if invoice_query_columns_ok(self.results().column_specs()) {
                assert forall|i: int| 0 <= i < invoices@.len() implies shows_by_title(
                    self.results().column_specs(),
                    #[trigger] self.results().rows()[i],
                    |t: Seq<char>, c: Cell| invoice_cell_fits(invoices@[i], t, c),
                ) by {
                    lemma_invoice_row_by_titles(
                        self.results().column_specs(),
                        self.results().rows()[i],
                        invoices@[i],
                    );
                }
            }
        }
    }
}

} // verus!
