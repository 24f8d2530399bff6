use vstd::prelude::*;

use crate::table::Cell;

verus! {

/// Row height, in pixels, that every column's renderer is given.
pub const DEFAULT_ROW_HEIGHT: i32 = 35;

/// Narrowest width, in pixels, a column may be resized to.
pub const MIN_COLUMN_WIDTH: i32 = 50;

/// Width, in pixels, at which a wrapping text cell breaks its lines.
pub const WRAP_WIDTH: i32 = 200;

/// Horizontal placement of a cell's content.
#[derive(Clone, Copy, Debug, PartialEq, Eq, Structural)]
pub enum Align {
    Start,
    Center,
    End,
}

/// The kind of renderer that draws a column's cells.
#[derive(Clone, Copy, Debug, PartialEq, Eq, Structural)]
pub enum RendererKind {
    /// Plain text.
    Text,
    /// Text picked from a drop-down list of choices.
    Combo,
    /// A check box.
    Toggle,
}

/// How one column of a tree view is set up.
#[derive(Debug)]
pub struct ColumnSpec {
    pub title: String,
    pub kind: RendererKind,
    /// The column's number: it sorts by, and (when `shows_text`) displays,
    /// the store column with this index.
    pub id: i32,
    pub align: Align,
    /// The cell shows the text of store column `id`.
    pub shows_text: bool,
    /// The user may type into (or pick for) the cell.
    pub editable: bool,
    /// The user may click the cell (a check box).
    pub activatable: bool,
    /// Long text wraps at word or character boundaries.
    pub wraps: bool,
}

/// `c` is a plain text column titled `title` with number `id`.
pub open spec fn is_text_column(c: ColumnSpec, title: Seq<char>, id: i32, align: Align) -> bool {
    &&& c.title@ == title
    &&& c.kind == RendererKind::Text
    &&& c.id == id
    &&& c.align == align
    &&& c.shows_text
    &&& !c.editable
    &&& !c.activatable
    &&& !c.wraps
}

/// `c` is an editable combo column titled `title` with number `id`.
pub open spec fn is_combo_column(c: ColumnSpec, title: Seq<char>, id: i32) -> bool {
    &&& c.title@ == title
    &&& c.kind == RendererKind::Combo
    &&& c.id == id
    &&& c.align == Align::Start
    &&& c.shows_text
    &&& c.editable
    &&& !c.activatable
    &&& !c.wraps
}

/// `c` is a clickable check-box column titled `title` with number `id`.
pub open spec fn is_toggle_column(c: ColumnSpec, title: Seq<char>, id: i32) -> bool {
    &&& c.title@ == title
    &&& c.kind == RendererKind::Toggle
    &&& c.id == id
    &&& c.align == Align::Start
    &&& !c.shows_text
    &&& !c.editable
    &&& c.activatable
    &&& !c.wraps
}

/// Every column of `columns` that shows text shows, in `row`, a value that
/// `fits` accepts for the column's title.
pub open spec fn shows_by_title(
    columns: Seq<ColumnSpec>,
    row: Seq<Cell>,
    fits: spec_fn(Seq<char>, Cell) -> bool,
) -> bool {
    forall|i: int|
        0 <= i < columns.len() && (#[trigger] columns[i]).shows_text ==> 0 <= columns[i].id < row.len()
            && fits(columns[i].title@, row[columns[i].id as int])
}

/// The number a column appended after `n` columns gets.
pub open spec fn next_column_id(n: nat) -> i32 {
    n as i32
}

/// Every column's number is its position among the columns.
pub open spec fn ids_are_positions(columns: Seq<ColumnSpec>) -> bool {
    forall|i: int| 0 <= i < columns.len() ==> (#[trigger] columns[i]).id == i
}

/// Every column that shows text shows a column that the store has, one of
/// its first `width` columns.
pub open spec fn shows_existing_columns(columns: Seq<ColumnSpec>, width: nat) -> bool {
    forall|i: int| 0 <= i < columns.len() && (#[trigger] columns[i]).shows_text ==> 0 <= columns[i].id < width
}

fn column_count_as_id(columns: &Vec<ColumnSpec>) -> (id: i32)
    ensures
        id == next_column_id(columns@.len()),
{
    #[verifier::truncate]
    (columns.len() as i32)
}

/// Appends a left-aligned text column titled `title`, numbered by its
/// position, and returns that number.
pub fn default_column(title: &str, columns: &mut Vec<ColumnSpec>) -> (id: i32)
    ensures
        id == next_column_id(old(columns)@.len()),
        final(columns)@.len() == old(columns)@.len() + 1,
        final(columns)@.drop_last() == old(columns)@,
        is_text_column(final(columns)@.last(), title@, id, Align::Start),
{
    let id = column_count_as_id(columns);
    let spec = ColumnSpec {
        title: title.to_string(),
        kind: RendererKind::Text,
        id,
        align: Align::Start,
        shows_text: true,
        editable: false,
        activatable: false,
        wraps: false,
    };
    columns.push(spec);
    assert(columns@.drop_last() =~= old(columns)@);
    id
}

/// Moves the last column's content to `align`.
pub fn realign_last(columns: &mut Vec<ColumnSpec>, align: Align)
    requires
        old(columns)@.len() > 0,
    ensures
        final(columns)@.len() == old(columns)@.len(),
        final(columns)@.drop_last() == old(columns)@.drop_last(),
        final(columns)@.last() == (ColumnSpec { align, ..old(columns)@.last() }),
{
    let mut c = columns.pop().unwrap();
    c.align = align;
    columns.push(c);
    assert(columns@.drop_last() =~= old(columns)@.drop_last());
}

/// Appends a centred text column titled `title` and returns its number.
pub fn default_center_column(title: &str, columns: &mut Vec<ColumnSpec>) -> (id: i32)
    ensures
        id == next_column_id(old(columns)@.len()),
        final(columns)@.len() == old(columns)@.len() + 1,
        final(columns)@.drop_last() == old(columns)@,
        is_text_column(final(columns)@.last(), title@, id, Align::Center),
{
    let id = default_column(title, columns);
    realign_last(columns, Align::Center);
    id
}

/// Appends a right-aligned text column titled `title` and returns its number.
pub fn default_right_column(title: &str, columns: &mut Vec<ColumnSpec>) -> (id: i32)
    ensures
        id == next_column_id(old(columns)@.len()),
        final(columns)@.len() == old(columns)@.len() + 1,
        final(columns)@.drop_last() == old(columns)@,
        is_text_column(final(columns)@.last(), title@, id, Align::End),
{
    let id = default_column(title, columns);
    realign_last(columns, Align::End);
    id
}

/// Appends an editable combo column titled `title` and returns its number.
/// The list of choices belongs to the widget that draws it.
pub fn default_combo_column(title: &str, columns: &mut Vec<ColumnSpec>) -> (id: i32)
    ensures
        id == next_column_id(old(columns)@.len()),
        final(columns)@.len() == old(columns)@.len() + 1,
        final(columns)@.drop_last() == old(columns)@,
        is_combo_column(final(columns)@.last(), title@, id),
{
    let id = column_count_as_id(columns);
    let spec = ColumnSpec {
        title: title.to_string(),
        kind: RendererKind::Combo,
        id,
        align: Align::Start,
        shows_text: true,
        editable: true,
        activatable: false,
        wraps: false,
    };
    columns.push(spec);
    assert(columns@.drop_last() =~= old(columns)@);
    id
}

/// Appends a check-box column titled `title` and returns its number.
pub fn default_toggle_column(title: &str, columns: &mut Vec<ColumnSpec>) -> (id: i32)
    ensures
        id == next_column_id(old(columns)@.len()),
        final(columns)@.len() == old(columns)@.len() + 1,
        final(columns)@.drop_last() == old(columns)@,
        is_toggle_column(final(columns)@.last(), title@, id),
{
    let id = column_count_as_id(columns);
    let spec = ColumnSpec {
        title: title.to_string(),
        kind: RendererKind::Toggle,
        id,
        align: Align::Start,
        shows_text: false,
        editable: false,
        activatable: true,
        wraps: false,
    };
    columns.push(spec);
    assert(columns@.drop_last() =~= old(columns)@);
    id
}

/// Lets the user type into the last column; with `wraps`, long text also
/// wraps at word or character boundaries.
pub fn make_last_editable(columns: &mut Vec<ColumnSpec>, wraps: bool)
    requires
        old(columns)@.len() > 0,
    ensures
        final(columns)@.len() == old(columns)@.len(),
        final(columns)@.drop_last() == old(columns)@.drop_last(),
        final(columns)@.last() == (ColumnSpec { editable: true, wraps, ..old(columns)@.last() }),
{
    let mut c = columns.pop().unwrap();
    c.editable = true;
    c.wraps = wraps;
    columns.push(c);
    assert(columns@.drop_last() =~= old(columns)@.drop_last());
}

} // verus!
