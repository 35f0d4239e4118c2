//! Tables of text, drawn by the `prettytable` crate.

use vstd::prelude::*;
use crate::text::string_views;

verus! {

/// A table of `prettytable`.
#[verifier::external_type_specification]
#[verifier::external_body]
pub struct ExTable(prettytable::Table);

/// The rows of a table, each a list of cell texts.
pub uninterp spec fn table_rows(table: prettytable::Table) -> Seq<Seq<Seq<char>>>;

/// What `prettytable` draws for rows of plain cells in its default format.
pub uninterp spec fn table_text(rows: Seq<Seq<Seq<char>>>) -> Seq<char>;

/// `Table::new`: a table without rows, in the default format.
#[verifier::external_body]
fn new_table() -> (table: prettytable::Table)
    ensures
        table_rows(table) == Seq::<Seq<Seq<char>>>::empty(),
{
    prettytable::Table::new()
}

/// `Table::add_row` with a row of plain cells (`Row::new`, `Cell::new`), one
/// for each text: the row is added after the rows that are there.
#[verifier::external_body]
fn add_text_row(table: &mut prettytable::Table, cells: &Vec<String>)
    ensures
        table_rows(*final(table)) == table_rows(*old(table)).push(string_views(cells@)),
{
    let row: Vec<prettytable::Cell> = cells.iter().map(|c| prettytable::Cell::new(c)).collect();
    table.add_row(prettytable::Row::new(row));
}

/// The table as text, as its `Display` draws it.
#[verifier::external_body]
fn draw(table: &prettytable::Table) -> (text: String)
    ensures
        text@ == table_text(table_rows(*table)),
{
    table.to_string()
}

/// The rows of `rows` as plain text.
pub open spec fn row_views(rows: Seq<Vec<String>>) -> Seq<Seq<Seq<char>>> {
    rows.map_values(|r: Vec<String>| string_views(r@))
}

/// Draws a table with the given rows.
pub fn draw_table(rows: &Vec<Vec<String>>) -> (text: String)
    ensures
        text@ == table_text(row_views(rows@)),
{
    let mut table = new_table();
    let mut i: usize = 0;
    while i < rows.len()
        invariant
            i <= rows.len(),
            table_rows(table) == row_views(rows@).take(i as int),
        decreases rows.len() - i,
    {
        add_text_row(&mut table, &rows[i]);
        proof {
            let views = row_views(rows@);
            assert(views.take(i + 1) =~= views.take(i as int).push(views[i as int]));
        }
        i += 1;
    }
    proof {
        assert(row_views(rows@).take(rows.len() as int) =~= row_views(rows@));
    }
    draw(&table)
}

/// The rows of a table with a heading: the heading first.
pub open spec fn with_heading(headers: Seq<String>, rows: Seq<Vec<String>>) -> Seq<Seq<Seq<char>>> {
    seq![string_views(headers)] + row_views(rows)
}

/// Draws a table with a row of headers above the rows.
pub fn render_table(headers: &Vec<String>, rows: &Vec<Vec<String>>) -> (text: String)
    ensures
        text@ == table_text(with_heading(headers@, rows@)),
{
    let mut table = new_table();
    add_text_row(&mut table, headers);
    let ghost head = seq![string_views(headers@)];
    proof {
        assert(table_rows(table) =~= head + row_views(rows@).take(0));
    }
    let mut i: usize = 0;
    while i < rows.len()
        invariant
            i <= rows.len(),
            table_rows(table) == head + row_views(rows@).take(i as int),
        decreases rows.len() - i,
    {
        add_text_row(&mut table, &rows[i]);
        proof {
            let views = row_views(rows@);
            assert(views.take(i + 1) =~= views.take(i as int).push(views[i as int]));
            assert((head + views.take(i as int)).push(views[i as int]) =~= head + views.take(
                i + 1,
            ));
        }
        i += 1;
    }
    proof {
        assert(row_views(rows@).take(rows.len() as int) =~= row_views(rows@));
    }
    draw(&table)
}

} // verus!
