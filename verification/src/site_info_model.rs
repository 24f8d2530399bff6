use vstd::prelude::*;

use crate::column::{shows_by_title, shows_existing_columns, default_column, ids_are_positions, is_text_column, realign_last, Align, ColumnSpec};
use crate::table::{row_fits, Cell, RowStore, ValueType};

verus! {

/// What the site information row shows.
#[derive(Debug)]
pub struct SiteInfoCells {
    pub site_name: String,
    pub address: String,
    pub phone_number: String,
    pub fax_number: String,
    /// The sales tax rate, as a percentage with three decimals.
    pub sales_tax: String,
}

/// The one-row table that shows the site's information.
pub struct SiteInfoModel {
    columns: Vec<ColumnSpec>,
    store: RowStore,
}

/// Column types: site name, address, phone number, fax number, sales tax.
pub open spec fn site_info_types() -> Seq<ValueType> {
    seq![ValueType::Str, ValueType::Str, ValueType::Str, ValueType::Str, ValueType::Str]
}

/// The row shown for `site`.
pub open spec fn site_info_row(site: SiteInfoCells) -> Seq<Cell> {
    seq![
        Cell::Str(site.site_name),
        Cell::Str(site.address),
        Cell::Str(site.phone_number),
        Cell::Str(site.fax_number),
        Cell::Str(site.sales_tax),
    ]
}

/// The visible columns of the site information table.
pub open spec fn site_info_columns_ok(cols: Seq<ColumnSpec>) -> bool {
    &&& cols.len() == 5
    &&& is_text_column(cols[0], "Site Name"@, 0, Align::Center)
    &&& is_text_column(cols[1], "Address"@, 1, Align::Center)
    &&& is_text_column(cols[2], "Phone Number"@, 2, Align::Center)
    &&& is_text_column(cols[3], "Fax Number"@, 3, Align::Center)
    &&& is_text_column(cols[4], "Sales Tax"@, 4, Align::Start)
}

/// Whether `c` is what the site information row shows under a column titled `title`; no
/// value fits any other title.
pub open spec fn site_info_cell_fits(site: SiteInfoCells, title: Seq<char>, c: Cell) -> bool {
    if title == "Site Name"@ {
        c == Cell::Str(site.site_name)
    } else if title == "Address"@ {
        c == Cell::Str(site.address)
    } else if title == "Phone Number"@ {
        c == Cell::Str(site.phone_number)
    } else if title == "Fax Number"@ {
        c == Cell::Str(site.fax_number)
    } else if title == "Sales Tax"@ {
        c == Cell::Str(site.sales_tax)
    } else {
        false
    }
}

/// In the site information row, every column that shows text shows the value its title
/// names.
pub proof fn lemma_site_info_row_by_titles(cols: Seq<ColumnSpec>, site: SiteInfoCells)
    requires
        site_info_columns_ok(cols),
    ensures
        shows_by_title(cols, site_info_row(site), |t: Seq<char>, c: Cell| site_info_cell_fits(site, t, c)),
{
    reveal_strlit("Site Name");
    reveal_strlit("Address");
    reveal_strlit("Phone Number");
    reveal_strlit("Fax Number");
    reveal_strlit("Sales Tax");
    let row = site_info_row(site);
    assert forall|i: int| 0 <= i < cols.len() && (#[trigger] cols[i]).shows_text implies 0 <= cols[i].id
        < row.len() && (|t: Seq<char>, c: Cell| site_info_cell_fits(site, t, c))(
        cols[i].title@,
        row[cols[i].id as int],
    ) by {
        assert(cols[i].id == i);
        let t = cols[i].title@;
        if i == 0 {
            assert(t == "Site Name"@);
            assert(t.len() == 9 && t[0] == 'S' && t[1] == 'i' && t[2] == 't');
        } else if i == 1 {
            assert(t == "Address"@);
            assert(t.len() == 7 && t[0] == 'A' && t[1] == 'd' && t[2] == 'd');
        } else if i == 2 {
            assert(t == "Phone Number"@);
            assert(t.len() == 12 && t[0] == 'P' && t[1] == 'h' && t[2] == 'o');
        } else if i == 3 {
            assert(t == "Fax Number"@);
            assert(t.len() == 10 && t[0] == 'F' && t[1] == 'a' && t[2] == 'x');
        } else if i == 4 {
            assert(t == "Sales Tax"@);
            assert(t.len() == 9 && t[0] == 'S' && t[1] == 'a' && t[2] == 'l');
        }
    }
}

impl SiteInfoModel {
    /// The visible columns, left to right.
    pub closed spec fn column_specs(&self) -> Seq<ColumnSpec> {
        self.columns@
    }

    /// The rows the table shows.
    pub closed spec fn rows(&self) -> Seq<Seq<Cell>> {
        self.store.rows()
    }

    /// The column types of the table's store.
    pub closed spec fn types(&self) -> Seq<ValueType> {
        self.store.types()
    }

    /// Every row fits the store's column types.
    pub closed spec fn wf(&self) -> bool {
        &&& self.store.wf()
        &&& self.store.types() == site_info_types()
    }

    /// The table's store: its column types and rows.
    pub fn store(&self) -> (s: &RowStore)
        ensures
            s.rows() == self.rows(),
            s.types() == self.types(),
            self.wf() ==> s.wf(),
    {
        &self.store
    }

    /// The visible columns, left to right.
    pub fn columns(&self) -> (c: &Vec<ColumnSpec>)
        ensures
            c@ == self.column_specs(),
    {
        &self.columns
    }

    /// The site information table, showing `site` as its only row.
    pub fn new(site: &SiteInfoCells) -> (m: SiteInfoModel)
        ensures
            m.wf(),
            m.types() == site_info_types(),
            m.rows() == seq![site_info_row(*site)],
            shows_by_title(m.column_specs(), m.rows()[0], |t: Seq<char>, c: Cell| site_info_cell_fits(*site, t, c)),
            site_info_columns_ok(m.column_specs()),
            ids_are_positions(m.column_specs()),
            shows_existing_columns(m.column_specs(), m.types().len()),
    {
        let types = vec![ValueType::Str, ValueType::Str, ValueType::Str, ValueType::Str, ValueType::Str];
        let mut store = RowStore::new(types);
        let mut columns: Vec<ColumnSpec> = Vec::new();
        default_column("Site Name", &mut columns);
        realign_last(&mut columns, Align::Center);
        default_column("Address", &mut columns);
        realign_last(&mut columns, Align::Center);
        default_column("Phone Number", &mut columns);
        realign_last(&mut columns, Align::Center);
        default_column("Fax Number", &mut columns);
        realign_last(&mut columns, Align::Center);
        default_column("Sales Tax", &mut columns);
        assert(store.types() =~= site_info_types());
        let row = vec![
            Cell::Str(site.site_name.clone()),
            Cell::Str(site.address.clone()),
            Cell::Str(site.phone_number.clone()),
            Cell::Str(site.fax_number.clone()),
            Cell::Str(site.sales_tax.clone()),
        ];
        assert(row@ =~= site_info_row(*site));
        assert(row_fits(row@, store.types()));
        store.append(row);
        assert(store.rows() =~= seq![site_info_row(*site)]);
        let m = SiteInfoModel { columns, store };
        proof {
            lemma_site_info_row_by_titles(m.column_specs(), *site);
        }
        m
    }

    /// Leaves the table as it is: the row it was built with stays shown.
    pub fn update_model(&self) {
    }
}

} // verus!
