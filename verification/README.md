# elis_gtk

The GTK front end of the ELIS lumber invoicing system, split in two.

* `src/` is a Verus-verified library. It holds what every table of the
  front end shows (column layouts, column types, rows) and the decisions of
  the "New Invoice" page: which buttons may be pressed, which item is
  selected, which change an edit makes to the invoice, and which order
  number the next invoice gets. It also reads typed quantities the way
  `str::parse::<usize>` does, and decides which order number follows the
  stored invoices and whether a saved invoice is written to the database.
* `app/` is the GTK program. It builds the widgets from the library's
  column specs, copies the library's rows into GTK list stores, turns the
  invoicing crate's values (money, dates, board feet, sales tax) into the
  text the rows show, forwards every signal to the library, and applies the
  changes the library asks for to the invoice.

Modules of the library:

| module | contents |
| --- | --- |
| `table` | cell values, column types and a row store whose rows always fit its types |
| `column` | column specs and the `default_*_column` builders |
| `*_model` | one table model per table of the front end |
| `*_page` | the search pages, the site page and the "New Invoice" page |
| `quantity` | decimal reading of quantities |
| `order_numbers` | the next free order number and the save rule |

The application needs the `elis_lib` invoicing crate (its invoices, database,
money and date formatting) and the GTK 3 system libraries to build.
