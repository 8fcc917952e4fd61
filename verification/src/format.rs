//! Table formatting and link styling. Layout itself is the tabled crate's
//! work; this module only orchestrates it over plain records.

use crate::style::{emit_out_line, sty_italic, sty_new, sty_underlined, styled_view};
use vstd::prelude::*;

verus! {

/// Declares `tabled::Table`, a bordered textual table. The value stays
/// opaque to the verifier.
#[verifier::external_type_specification]
#[verifier::external_body]
pub struct ExTable(tabled::Table);

/// What records a table holds, cell by cell.
pub uninterp spec fn table_records(t: tabled::Table) -> Seq<Seq<Seq<char>>>;

/// Whether every record has the same number of cells.
pub open spec fn uniform_records(rows: Seq<Seq<Seq<char>>>) -> bool {
    forall|i: int, j: int|
        0 <= i < rows.len() && 0 <= j < rows.len() ==> rows[i].len() == rows[j].len()
}

/// What wrapping a table to a width leaves in its records. A function of
/// the table and the width alone: the wrap is a pure computation over the
/// table's records and configuration.
pub uninterp spec fn wrap_of(t: tabled::Table, w: nat) -> Seq<Seq<Seq<char>>>;

/// The text a table renders to: a pure function of the table, so equal
/// tables render to equal text.
pub uninterp spec fn rendered(t: tabled::Table) -> Seq<char>;

/// The table holds exactly these records, or the width-wrap of a table
/// that held them.
pub open spec fn holds_records_maybe_wrapped(r: tabled::Table, rows: Seq<Seq<Seq<char>>>) -> bool {
    table_records(r) == rows || (exists|t0: tabled::Table, w: nat|
        table_records(t0) == rows && table_records(r) == wrap_of(t0, w))
}

/// Relies on tabled's `Builder`: a table holding exactly the given records.
/// Records of unequal width are padded on the right with empty cells, so
/// the claim is made for uniformly-shaped records only.
#[verifier::external_body]
fn build_table(records: &Vec<Vec<String>>) -> (r: tabled::Table)
    ensures
        uniform_records(records.deep_view()) ==> table_records(r) == records.deep_view(),
{
    tabled::builder::Builder::from(records.clone()).build()
}

/// Relies on tabled's `Style::rounded`: changes only the border theme; the
/// records are untouched.
#[verifier::external_body]
fn style_rounded(t: &mut tabled::Table)
    ensures
        table_records(*final(t)) == table_records(*old(t)),
{
    t.with(tabled::settings::Style::rounded());
}

/// Relies on tabled's `Width::wrap`: wraps cell content so the rendered
/// table fits the width. The wrapping rewrites the stored records as a
/// pure function of the table and the width, named [`wrap_of`]; when the
/// table already fits, that function is the records unchanged.
#[verifier::external_body]
fn width_wrap(t: &mut tabled::Table, w: usize)
    ensures
        table_records(*final(t)) == wrap_of(*old(t), w as nat),
{
    t.with(tabled::settings::Width::wrap(w));
}

/// Relies on `term_size::dimensions`: the terminal's width, where it can be
/// told at all. The answer depends on the machine, so nothing is claimed.
#[verifier::external_body]
fn terminal_width() -> Option<usize> {
    match term_size::dimensions() {
        Some((w, _)) => Some(w),
        None => None,
    }
}

/// Relies on the `Display` of `tabled::Table`: the rendered text, a pure
/// function of the table, named [`rendered`].
#[verifier::external_body]
fn render_table(t: &tabled::Table) -> (r: String)
    ensures
        r@ == rendered(*t),
{
    t.to_string()
}

/// A rounded-border table of the records, wrapped to the width if one is
/// given; without one the table is rendered unconstrained. The first record
/// is the header row.
pub fn raw_table_at_width(records: &Vec<Vec<String>>, width: Option<usize>) -> (r: tabled::Table)
    ensures
        (width is None && uniform_records(records.deep_view())) ==> table_records(r)
            == records.deep_view(),
        (width is Some && uniform_records(records.deep_view())) ==> (exists|t0: tabled::Table|
            table_records(t0) == records.deep_view() && table_records(r) == wrap_of(
                t0,
                width->0 as nat,
            )),
{
    let mut t = build_table(records);
    style_rounded(&mut t);
    match width {
        Some(w) => {
            let ghost t0 = t;
            width_wrap(&mut t, w);
            proof {
                if uniform_records(records.deep_view()) {
                    assert(table_records(t0) == records.deep_view() && table_records(t) == wrap_of(
                        t0,
                        w as nat,
                    ));
                }
            }
        },
        None => (),
    }
    t
}

/// A rounded-border table of the records, wrapped to the terminal's width
/// when it can be told, for the caller to embed elsewhere: its records are
/// the input records, or their wrap to whatever width the terminal gave.
pub fn raw_table(records: &Vec<Vec<String>>) -> (r: tabled::Table)
    ensures
        uniform_records(records.deep_view()) ==> holds_records_maybe_wrapped(
            r,
            records.deep_view(),
        ),
{
    let width = terminal_width();
    let r = raw_table_at_width(records, width);
    proof {
        if uniform_records(records.deep_view()) && width is Some {
            let t0 = choose|t0: tabled::Table|
                table_records(t0) == records.deep_view() && table_records(r) == wrap_of(
                    t0,
                    width->0 as nat,
                );
            assert(table_records(t0) == records.deep_view() && table_records(r) == wrap_of(
                t0,
                width->0 as nat,
            ));
        }
    }
    r
}

/// Render the records as a table and write it to standard output.
pub fn table(records: &Vec<Vec<String>>) {
    let t = raw_table(records);
    let s = render_table(&t);
    emit_out_line(s.as_str());
}

/// The text wrapped in italic and underlined style, for display purposes
/// only; not a hyperlink escape sequence: the styled value carries exactly
/// the given text, italic and underlined, not bold.
pub fn link(msg: &str) -> (r: console::StyledObject<String>)
    ensures
        styled_view(r) == (msg@, false, true, true),
{
    sty_underlined(sty_italic(sty_new(msg)))
}

} // verus!
