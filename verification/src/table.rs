use crate::text::texts;
use vstd::prelude::*;

verus! {

#[verifier::external_type_specification]
#[verifier::external_body]
pub struct ExTable(comfy_table::Table);

/// The cells of a table's header row; empty while no header is set.
pub uninterp spec fn table_header(table: comfy_table::Table) -> Seq<Seq<char>>;

/// The rows of a table, each a run of cells, each cell its text.
pub uninterp spec fn table_rows(table: comfy_table::Table) -> Seq<Seq<Seq<char>>>;

/// Whether a table fits its columns to the width of the terminal.
pub uninterp spec fn table_dynamic(table: comfy_table::Table) -> bool;

/// Calls `comfy_table::Table::new`, which makes a table with no header and
/// no rows, and with content arrangement switched off.
#[verifier::external_body]
pub(crate) fn new_table() -> (table: comfy_table::Table)
    ensures
        table_header(table) == Seq::<Seq<char>>::empty(),
        table_rows(table) == Seq::<Seq<Seq<char>>>::empty(),
        !table_dynamic(table),
{
    comfy_table::Table::new()
}

/// Calls `comfy_table::Table::set_content_arrangement` with
/// `ContentArrangement::Dynamic`, which changes the arrangement and neither
/// the header nor the rows.
#[verifier::external_body]
pub(crate) fn set_dynamic(table: &mut comfy_table::Table)
    ensures
        table_dynamic(*final(table)),
        table_header(*final(table)) == table_header(*old(table)),
        table_rows(*final(table)) == table_rows(*old(table)),
{
    table.set_content_arrangement(comfy_table::ContentArrangement::Dynamic);
}

/// Calls `comfy_table::Table::set_header`, which makes one cell of each
/// text and sets them as the header row; the rows and the arrangement stay.
#[verifier::external_body]
pub(crate) fn set_header(table: &mut comfy_table::Table, cells: &Vec<String>)
    ensures
        table_header(*final(table)) == texts(cells@),
        table_rows(*final(table)) == table_rows(*old(table)),
        table_dynamic(*final(table)) == table_dynamic(*old(table)),
{
    table.set_header(cells);
}

/// Calls `comfy_table::Table::add_row`, which makes one cell of each text
/// and appends them as the last row; the header and the arrangement stay.
#[verifier::external_body]
pub(crate) fn add_row(table: &mut comfy_table::Table, cells: &Vec<String>)
    ensures
        table_rows(*final(table)) == table_rows(*old(table)).push(texts(cells@)),
        table_header(*final(table)) == table_header(*old(table)),
        table_dynamic(*final(table)) == table_dynamic(*old(table)),
{
    table.add_row(cells);
}

} // verus!
