use vstd::prelude::*;

use crate::column::shows_by_title;
use crate::customer_query_results_model::{customer_cell_fits, lemma_customer_row_by_titles, customer_columns_ok, customer_row, CustomerCells, CustomerQueryResultsModel};
use crate::table::Cell;

verus! {

/// The rows shown for `customers`, in the same order.
pub open spec fn customer_rows(customers: Seq<CustomerCells>) -> Seq<Seq<Cell>> {
    customers.map_values(|c: CustomerCells| customer_row(c))
}

/// The "Customer Search" page: its tab number and the customers it lists.
pub struct CustomerSearchPage {
    page_index: u32,
    results_model: CustomerQueryResultsModel,
}

impl CustomerSearchPage {
    pub closed spec fn spec_page_index(&self) -> u32 {
        self.page_index
    }

    /// The customer results table.
    pub closed spec fn results(&self) -> CustomerQueryResultsModel {
        self.results_model
    }

    pub open spec fn wf(&self) -> bool {
        self.results().wf()
    }

    /// The page in tab `page_index`, listing no customers yet.
    pub fn new(page_index: u32) -> (p: CustomerSearchPage)
        ensures
            p.wf(),
            p.spec_page_index() == page_index,
            p.results().rows() == Seq::<Seq<Cell>>::empty(),
            customer_columns_ok(p.results().column_specs()),
    {
        CustomerSearchPage { page_index, results_model: CustomerQueryResultsModel::new() }
    }

    /// The tab number of the page.
    pub fn page_index(&self) -> (i: u32)
        ensures
            i == self.spec_page_index(),
    {
        self.page_index
    }

    /// The customer results table.
    pub fn results_model(&self) -> (m: &CustomerQueryResultsModel)
        ensures
            *m == self.results(),
    {
        &self.results_model
    }

    /// Lists exactly `customers`, in the order given.
    pub fn set_results(&mut self, customers: &Vec<CustomerCells>)
        requires
            old(self).wf(),
        ensures
            final(self).wf(),
            final(self).results().rows() == customer_rows(customers@),
            customer_columns_ok(old(self).results().column_specs()) ==> forall|i: int|
                0 <= i < customers@.len() ==> shows_by_title(
                    final(self).results().column_specs(),
                    #[trigger] final(self).results().rows()[i],
                    |t: Seq<char>, c: Cell| customer_cell_fits(customers@[i], t, c),
                ),
            final(self).results().column_specs() == old(self).results().column_specs(),
            final(self).spec_page_index() == old(self).spec_page_index(),
    {
        self.results_model.clear();
        let n = customers.len();
        for i in 0..n
            invariant
                n == customers@.len(),
                self.wf(),
                self.results().rows() == customer_rows(customers@.take(i as int)),
                self.results().column_specs() == old(self).results().column_specs(),
                self.spec_page_index() == old(self).spec_page_index(),
        {
            self.results_model.update_values(&customers[i]);
            assert(customer_rows(customers@.take(i + 1)) =~= customer_rows(
                customers@.take(i as int),
            ).push(customer_row(customers@[i as int])));
        }
        assert(customers@.take(n as int) =~= customers@);
        proof {
            if customer_columns_ok(self.results().column_specs()) {
                assert forall|i: int| 0 <= i < customers@.len() implies shows_by_title(
                    self.results().column_specs(),
                    #[trigger] self.results().rows()[i],
                    |t: Seq<char>, c: Cell| customer_cell_fits(customers@[i], t, c),
                ) by {
                    lemma_customer_row_by_titles(self.results().column_specs(), customers@[i]);
                }
            }
        }
    }
}

} // verus!
