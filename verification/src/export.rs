//! The exported table: a header line and one line per logged entry.

use vstd::prelude::*;
use vstd::string::*;
use crate::log::{entry_views, SemanticEvent, SemanticEventView};
use crate::text::{decimal, push_decimal};

verus! {

/// Why an export failed.
#[derive(Clone, Debug, PartialEq, Eq)]
pub enum ExportError {
    /// The destination could not be created or written. `reason` is what
    /// the system said.
    IoFailure { reason: String },
}

impl ExportError {
    /// The message shown to whoever asked for the export.
    pub fn message(&self) -> (text: String)
        ensures
            text@ == self->reason@,
    {
        match self {
            ExportError::IoFailure { reason } => reason.clone(),
        }
    }
}

/// The first line of every table.
pub open spec fn header_line() -> Seq<char> {
    "Timestamp,Event\n"@
}

/// The line of one entry: its timestamp, a comma, its description as it
/// stands, and a line feed.
pub open spec fn row_text(entry: SemanticEventView) -> Seq<char> {
    decimal(entry.timestamp as nat) + ","@ + entry.description + "\n"@
}

/// The lines of the entries, in order.
pub open spec fn rows_text(entries: Seq<SemanticEventView>) -> Seq<char>
    decreases entries.len(),
{
    if entries.len() == 0 {
        Seq::empty()
    } else {
        rows_text(entries.drop_last()) + row_text(entries.last())
    }
}

/// The whole table: the header line, then one line per entry.
pub open spec fn table_text(entries: Seq<SemanticEventView>) -> Seq<char> {
    header_line() + rows_text(entries)
}

/// Renders the table of `entries`.
///
/// Descriptions are written as they stand: a comma or a line feed inside
/// one is not escaped.
pub fn render_table(entries: &Vec<SemanticEvent>) -> (table: String)
    ensures
        table@ == table_text(entry_views(entries@)),
{
    let ghost views = entry_views(entries@);
    let mut table = String::new();
    table.append("Timestamp,Event\n");
    let mut i: usize = 0;
    while i < entries.len()
        invariant
            i <= entries.len(),
            views == entry_views(entries@),
            table@ == header_line() + rows_text(views.take(i as int)),
        decreases entries.len() - i,
    {
        let ghost before = table@;
        assert(views.take(i + 1).drop_last() =~= views.take(i as int));
        push_decimal(&mut table, entries[i].timestamp);
        table.append(",");
        table.append(entries[i].description.as_str());
        table.append("\n");
        assert(table@ =~= before + row_text(views[i as int]));
        i += 1;
        assert(table@ =~= header_line() + rows_text(views.take(i as int)));
    }
    assert(views.take(entries.len() as int) =~= views);
    table
}

/// The table of one more entry is the table so far followed by that
/// entry's line.
pub proof fn table_grows_by_one_row(entries: Seq<SemanticEventView>, entry: SemanticEventView)
    ensures
        table_text(entries.push(entry)) == table_text(entries) + row_text(entry),
{
    assert(entries.push(entry).drop_last() =~= entries);
    assert(table_text(entries.push(entry)) =~= table_text(entries) + row_text(entry));
}

/// A table of no entries is the header line alone.
pub proof fn empty_table_is_header()
    ensures
        table_text(Seq::<SemanticEventView>::empty()) == header_line(),
{
    assert(table_text(Seq::<SemanticEventView>::empty()) =~= header_line());
}

} // verus!
