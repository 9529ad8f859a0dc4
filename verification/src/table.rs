use vstd::prelude::*;

use crate::text::contains_seq;
use crate::text::no_newline;

verus! {

#[verifier::external_type_specification]
#[verifier::external_body]
pub struct ExTable(comfy_table::Table);

/// A cell whose text comfy-table shows verbatim: no line break (the
/// renderer splits cell text at its own line breaks), and short enough that
/// the column never reaches the renderer's width cap of 65535 — a cell's
/// display width is at most twice its character count, so 32767 characters
/// stay safely below it.
pub open spec fn cell_shown_verbatim(s: Seq<char>) -> bool {
    no_newline(s) && s.len() <= 32767
}

/// The header cells a table holds, each as its text.
pub uninterp spec fn table_header(t: comfy_table::Table) -> Seq<Seq<char>>;

/// The data rows a table holds, each row a sequence of cell texts.
pub uninterp spec fn table_rows(t: comfy_table::Table) -> Seq<Seq<Seq<char>>>;

/// The text that comfy-table's renderer produces for a table built by the
/// wrappers below: with the default content arrangement nothing is truncated,
/// so the text is a function of the header and the rows alone.
pub uninterp spec fn table_text(header: Seq<Seq<char>>, rows: Seq<Seq<Seq<char>>>) -> Seq<char>;

/// Relies on `comfy_table::Table::new`: a fresh table has no header and no
/// data rows, default ASCII styling, and content arrangement `Disabled`.
#[verifier::external_body]
pub(crate) fn table_new() -> (t: comfy_table::Table)
    ensures
        table_header(t) == Seq::<Seq<char>>::empty(),
        table_rows(t) == Seq::<Seq<Seq<char>>>::empty(),
{
    comfy_table::Table::new()
}

/// Relies on `comfy_table::Table::set_header`: on a table that never had a
/// header, a nonempty header row becomes exactly `cells` and the data rows
/// are untouched. The precondition matters: comfy-table remembers columns
/// from earlier headers, so replacing a header would leave the output
/// shaped by the old column count, which this model does not track.
#[verifier::external_body]
pub(crate) fn table_set_header(t: &mut comfy_table::Table, cells: Vec<String>)
    requires
        table_header(*old(t)) == Seq::<Seq<char>>::empty(),
        cells@.len() > 0,
    ensures
        table_header(*final(t)) == cells@.map_values(|s: String| s@),
        table_rows(*final(t)) == table_rows(*old(t)),
{
    t.set_header(cells);
}

/// Relies on `comfy_table::Table::add_row`: appends one data row and leaves
/// the header alone.
#[verifier::external_body]
pub(crate) fn table_add_row(t: &mut comfy_table::Table, cells: Vec<String>)
    ensures
        table_header(*final(t)) == table_header(*old(t)),
        table_rows(*final(t)) == table_rows(*old(t)).push(cells@.map_values(|s: String| s@)),
{
    t.add_row(cells);
}

/// Relies on comfy-table's `Display` impl. Under the default content
/// arrangement (`Disabled`, which `Table::new` sets and no wrapper changes)
/// no cell is truncated, but a line wider than the renderer's 65535 column
/// cap is still wrapped; a cell within `cell_shown_verbatim` stays on one
/// line and appears verbatim in the output.
#[verifier::external_body]
pub(crate) fn table_render(t: &comfy_table::Table) -> (r: String)
    ensures
        r@ == table_text(table_header(*t), table_rows(*t)),
        forall|i: int|
            0 <= i < table_header(*t).len() && cell_shown_verbatim(
                #[trigger] table_header(*t)[i],
            ) ==> contains_seq(r@, table_header(*t)[i]),
        forall|i: int, j: int|
            0 <= i < table_rows(*t).len() && 0 <= j < table_rows(*t)[i].len()
                && cell_shown_verbatim(#[trigger] table_rows(*t)[i][j]) ==> contains_seq(
                r@,
                table_rows(*t)[i][j],
            ),
{
    format!("{}", t)
}

} // verus!
