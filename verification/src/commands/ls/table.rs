//! The table of the long format, laid out by the `tabular` crate.

use tabular::{Row, Table};
use vstd::prelude::*;

verus! {

#[verifier::external_type_specification]
#[verifier::external_body]
pub struct ExTable(Table);

/// One row of the long format, as plain values.
#[derive(Debug, PartialEq, Eq)]
pub struct FormattedRow {
    pub permissions: String,
    pub links: u64,
    pub owner: String,
    pub group: String,
    pub size: u64,
    pub modified: String,
    pub name: String,
}

impl View for FormattedRow {
    type V = (Seq<char>, u64, Seq<char>, Seq<char>, u64, Seq<char>, Seq<char>);

    open spec fn view(&self) -> Self::V {
        (
            self.permissions@,
            self.links,
            self.owner@,
            self.group@,
            self.size,
            self.modified@,
            self.name@,
        )
    }
}

/// The mathematical content of a row: its seven cells.
pub type RowView = (Seq<char>, u64, Seq<char>, Seq<char>, u64, Seq<char>, Seq<char>);

/// The views of a sequence of rows, element by element.
pub open spec fn row_views(rows: Seq<FormattedRow>) -> Seq<
    (Seq<char>, u64, Seq<char>, Seq<char>, u64, Seq<char>, Seq<char>),
> {
    Seq::new(rows.len(), |i: int| rows[i]@)
}

/// The row specification of the long format: seven columns with one
/// space between them, the first and the last aligned left, the others
/// right.
pub open spec fn long_format() -> Seq<char> {
    "{:<} {:>} {:>} {:>} {:>} {:>} {:<}"@
}

/// The row specification that a table was made with.
pub uninterp spec fn table_format(t: Table) -> Seq<char>;

/// The rows that a table holds, in the order in which they were added.
pub uninterp spec fn table_rows(t: Table) -> Seq<
    (Seq<char>, u64, Seq<char>, Seq<char>, u64, Seq<char>, Seq<char>),
>;

/// The text that `tabular` lays a table out as: a function of the row
/// specification and of the rows.
pub uninterp spec fn table_text(
    format: Seq<char>,
    rows: Seq<(Seq<char>, u64, Seq<char>, Seq<char>, u64, Seq<char>, Seq<char>)>,
) -> Seq<char>;

/// Makes an empty table, through `Table::new`, which fails on a row
/// specification that it cannot parse: the one admitted here is the
/// specification of the long format, which it parses into seven columns.
/// The new table has that specification and no rows.
#[verifier::external_body]
pub(crate) fn table_new(format: &str) -> (t: Table)
    requires
        format@ == long_format(),
    ensures
        table_format(t) == format@,
        table_rows(t).len() == 0,
{
    Table::new(format)
}

/// Adds a row of seven cells, through `Row::with_cell` and
/// `Table::add_row`, which fails unless the row has as many cells as the
/// table has columns: seven, for a table of the long format. The row is
/// put after those that the table held; the specification stays.
#[verifier::external_body]
pub(crate) fn table_add_row(t: &mut Table, row: &FormattedRow)
    requires
        table_format(*old(t)) == long_format(),
    ensures
        table_format(*final(t)) == table_format(*old(t)),
        table_rows(*final(t)) == table_rows(*old(t)).push(row@),
{
    t.add_row(
        Row::new()
            .with_cell(&row.permissions)
            .with_cell(row.links)
            .with_cell(&row.owner)
            .with_cell(&row.group)
            .with_cell(row.size)
            .with_cell(&row.modified)
            .with_cell(&row.name),
    );
}

/// Lays the table out, through the `Display` of `Table`: the text is the
/// one that the crate gives this specification and these rows.
#[verifier::external_body]
pub(crate) fn table_render(t: &Table) -> (s: String)
    requires
        table_format(*t) == long_format(),
    ensures
        s@ == table_text(table_format(*t), table_rows(*t)),
{
    t.to_string()
}

/// Lays rows out as the table of the long format.
pub fn render_rows(rows: &Vec<FormattedRow>) -> (s: String)
    ensures
        s@ == table_text(long_format(), row_views(rows@)),
{
    let mut table = table_new("{:<} {:>} {:>} {:>} {:>} {:>} {:<}");
    let mut i: usize = 0;
    assert(table_rows(table) =~= row_views(rows@).take(0));
    while i < rows.len()
        invariant
            i <= rows.len(),
            table_format(table) == long_format(),
            table_rows(table) == row_views(rows@).take(i as int),
        decreases rows.len() - i,
    {
        table_add_row(&mut table, &rows[i]);
        assert(row_views(rows@).take(i as int + 1) =~= row_views(rows@).take(i as int).push(
            rows@[i as int]@,
        ));
        i += 1;
    }
    assert(row_views(rows@).take(rows@.len() as int) =~= row_views(rows@));
    table_render(&table)
}

} // verus!
