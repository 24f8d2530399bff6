use vstd::prelude::*;

use crate::lumber_type_model::{lumber_type_columns_ok, lumber_type_rows, LumberTypeCells, LumberTypeModel};
use crate::site_info_model::{site_info_columns_ok, site_info_row, SiteInfoCells, SiteInfoModel};

verus! {

/// The "Site Info" page: the site's information and the lumber types with
/// their prices.
pub struct SiteInfoPage {
    site_info_model: SiteInfoModel,
    lumber_type_model: LumberTypeModel,
    page_index: u32,
}

impl SiteInfoPage {
    pub closed spec fn spec_page_index(&self) -> u32 {
        self.page_index
    }

    pub closed spec fn site_info(&self) -> SiteInfoModel {
        self.site_info_model
    }

    pub closed spec fn lumber_types(&self) -> LumberTypeModel {
        self.lumber_type_model
    }

    pub open spec fn wf(&self) -> bool {
        &&& self.site_info().wf()
        &&& self.lumber_types().wf()
    }

    /// The page in tab `page_index`, showing `site` and `lumber_types`.
    pub fn new(page_index: u32, site: &SiteInfoCells, lumber_types: &Vec<LumberTypeCells>) -> (p:
        SiteInfoPage)
        ensures
            p.wf(),
            p.spec_page_index() == page_index,
            p.site_info().rows() == seq![site_info_row(*site)],
            p.lumber_types().rows() == lumber_type_rows(lumber_types@),
            site_info_columns_ok(p.site_info().column_specs()),
            lumber_type_columns_ok(p.lumber_types().column_specs()),
    {
        let site_info_model = SiteInfoModel::new(site);
        let mut lumber_type_model = LumberTypeModel::new();
        site_info_model.update_model();
        lumber_type_model.update_model(lumber_types);
        SiteInfoPage { site_info_model, lumber_type_model, page_index }
    }

    /// The tab number of the page.
    pub fn index(&self) -> (i: u32)
        ensures
            i == self.spec_page_index(),
    {
        self.page_index
    }

    /// The site information table.
    pub fn site_info_model(&self) -> (m: &SiteInfoModel)
        ensures
            *m == self.site_info(),
    {
        &self.site_info_model
    }

    /// The lumber type table.
    pub fn lumber_type_model(&self) -> (m: &LumberTypeModel)
        ensures
            *m == self.lumber_types(),
    {
        &self.lumber_type_model
    }

    /// Shows the current lumber types; the site information stays as shown.
    pub fn update_models(&mut self, lumber_types: &Vec<LumberTypeCells>)
        requires
            old(self).wf(),
        ensures
            final(self).wf(),
            final(self).site_info() == old(self).site_info(),
            final(self).lumber_types().rows() == lumber_type_rows(lumber_types@),
            final(self).lumber_types().column_specs() == old(self).lumber_types().column_specs(),
            final(self).spec_page_index() == old(self).spec_page_index(),
    {
        self.site_info_model.update_model();
        self.lumber_type_model.update_model(lumber_types);
    }
}

} // verus!
