//! The screen as text: a header, the place of the window in the dataset, the
//! rows in the window, and the keys.

use polars::prelude::PolarsError;
use vstd::prelude::*;

use crate::engine::{failure_text, print_rows};
use crate::error::PeepError;
use crate::models::{engine_rows, to_engine_rows, ModifierState, PeepFrame};
use crate::text::{decimal_text, push_decimal, push_str};

verus! {

/// The header: where the dataset came from, and its label in quotes.
pub open spec fn header_text(frame: &PeepFrame) -> Seq<char> {
    let title = match frame.modifier_state {
        ModifierState::Original => "Table name: '"@,
        ModifierState::Queried => "SQL result: '"@,
        ModifierState::RandomRows => "Sampling rows: '"@,
    };
    title + frame.file_name@ + "'"@
}

/// A range inside a total: `(start to end) out of total`, after `opening`.
pub open spec fn range_text(opening: Seq<char>, window: (usize, usize), total: usize) -> Seq<char> {
    opening + decimal_text(window.0 as nat) + " to "@ + decimal_text(window.1 as nat)
        + ") out of "@ + decimal_text(total as nat)
}

/// One mark for each of the first `columns` columns: filled for a column in the
/// window, hollow for one outside it.
pub open spec fn marks_text(window: (usize, usize), columns: nat) -> Seq<char>
    decreases columns,
{
    if columns == 0 {
        Seq::empty()
    } else {
        let last = (columns - 1) as nat;
        marks_text(window, last) + if window.0 <= last < window.1 {
            "■ "@
        } else {
            "□ "@
        }
    }
}

/// Where the row window lies; a random sample has no place in the dataset, so
/// nothing is said of it.
pub open spec fn row_data_text(frame: &PeepFrame) -> Seq<char> {
    match frame.modifier_state {
        ModifierState::RandomRows => Seq::empty(),
        _ => range_text("(Rows: "@, frame.row_slice_state, frame.max_rows) + " | "@,
    }
}

/// Where the column window lies: one mark for each column where there are
/// fewer than twenty, else the range in numbers.
pub open spec fn col_data_text(frame: &PeepFrame) -> Seq<char> {
    if frame.max_cols < 20 {
        marks_text(frame.col_slice_state, frame.max_cols as nat)
    } else {
        range_text("("@, frame.col_slice_state, frame.max_cols)
    }
}

/// The line that says where the window lies.
pub open spec fn view_data_text(frame: &PeepFrame) -> Seq<char> {
    row_data_text(frame) + "Columns shown: "@ + col_data_text(frame)
}

/// The line that lists the keys.
pub open spec fn controls_guide_text() -> Seq<char> {
    "Arrow keys | [s]ql | [r]andom | [t]ail | [h]ead | [o]riginal | [q]uit"@
}

/// The whole screen, around the table as the engine printed it.
pub open spec fn screen_text(frame: &PeepFrame, table: Seq<char>) -> Seq<char> {
    header_text(frame) + "\n"@ + view_data_text(frame) + "\n"@ + table + "\n"@
        + controls_guide_text()
}

/// The columns in the window are columns of the dataset.
pub open spec fn cols_in_reach(frame: &PeepFrame) -> bool {
    frame.col_slice_state.0 <= frame.col_slice_state.1 <= frame.col_names@.len()
}

/// The first row to ask the engine for, which counts from it in `i64`.
pub open spec fn engine_offset(row: usize) -> i64 {
    if row > i64::MAX {
        i64::MAX
    } else {
        row as i64
    }
}

/// Computes [`engine_offset`].
pub fn to_engine_offset(row: usize) -> (r: i64)
    ensures
        r == engine_offset(row),
{
    if row as u64 > i64::MAX as u64 {
        i64::MAX
    } else {
        row as i64
    }
}

/// Writes [`header_text`].
pub fn render_header(frame: &PeepFrame) -> (s: String)
    ensures
        s@ == header_text(frame),
{
    let mut s = match frame.modifier_state {
        ModifierState::Original => "Table name: '".to_owned(),
        ModifierState::Queried => "SQL result: '".to_owned(),
        ModifierState::RandomRows => "Sampling rows: '".to_owned(),
    };
    push_str(&mut s, frame.file_name.as_str());
    push_str(&mut s, "'");
    s
}

/// Writes [`range_text`].
fn render_range(opening: &str, window: (usize, usize), total: usize) -> (s: String)
    ensures
        s@ == range_text(opening@, window, total),
{
    let mut s = opening.to_owned();
    push_decimal(&mut s, window.0);
    push_str(&mut s, " to ");
    push_decimal(&mut s, window.1);
    push_str(&mut s, ") out of ");
    push_decimal(&mut s, total);
    s
}

/// Writes [`marks_text`].
fn render_marks(window: (usize, usize), columns: usize) -> (s: String)
    ensures
        s@ == marks_text(window, columns as nat),
{
    let mut s = String::new();
    let mut i: usize = 0;
    while i < columns
        invariant
            i <= columns,
            s@ == marks_text(window, i as nat),
        decreases columns - i,
    {
        if window.0 <= i && i < window.1 {
            push_str(&mut s, "■ ");
        } else {
            push_str(&mut s, "□ ");
        }
        i += 1;
    }
    s
}

/// Writes [`view_data_text`].
pub fn render_view_data(frame: &PeepFrame) -> (s: String)
    ensures
        s@ == view_data_text(frame),
{
    let mut s = match frame.modifier_state {
        ModifierState::RandomRows => String::new(),
        _ => {
            let mut rows = render_range("(Rows: ", frame.row_slice_state, frame.max_rows);
            push_str(&mut rows, " | ");
            rows
        },
    };
    let col_data = if frame.max_cols < 20 {
        render_marks(frame.col_slice_state, frame.max_cols)
    } else {
        render_range("(", frame.col_slice_state, frame.max_cols)
    };
    push_str(&mut s, "Columns shown: ");
    push_str(&mut s, col_data.as_str());
    s
}

/// Writes [`controls_guide_text`].
pub fn render_controls_guide() -> (s: String)
    ensures
        s@ == controls_guide_text(),
{
    "Arrow keys | [s]ql | [r]andom | [t]ail | [h]ead | [o]riginal | [q]uit".to_owned()
}

/// The names of the columns in the window, in the dataset's order.
pub fn visible_columns(frame: &PeepFrame) -> (names: Vec<String>)
    requires
        cols_in_reach(frame),
    ensures
        names@ == frame.col_names@.subrange(
            frame.col_slice_state.0 as int,
            frame.col_slice_state.1 as int,
        ),
{
    let (start, end) = frame.col_slice_state;
    let mut names: Vec<String> = Vec::new();
    let mut i: usize = start;
    while i < end
        invariant
            start <= i <= end <= frame.col_names@.len(),
            names@ == frame.col_names@.subrange(start as int, i as int),
        decreases end - i,
    {
        names.push(frame.col_names[i].clone());
        i += 1;
    }
    names
}

/// What to ask the engine for to show the window: the first row of the row
/// window, a page of rows from there, and the columns in the column window.
pub fn window_request(frame: &PeepFrame) -> (request: (i64, u32, Vec<String>))
    requires
        cols_in_reach(frame),
    ensures
        request.0 == engine_offset(frame.row_slice_state.0),
        request.1 == engine_rows(frame.display_rows),
        request.2@ == frame.col_names@.subrange(
            frame.col_slice_state.0 as int,
            frame.col_slice_state.1 as int,
        ),
{
    (
        to_engine_offset(frame.row_slice_state.0),
        to_engine_rows(frame.display_rows),
        visible_columns(frame),
    )
}

/// What the engine's answer to a request for a printed table means: its text is
/// the table, as it is; its failure is a failure to get at the data, with the
/// engine's text.
pub open spec fn is_table(r: Result<String, PeepError>, printed: Result<String, PolarsError>) -> bool {
    match printed {
        Ok(table) => r == Ok::<String, PeepError>(table),
        Err(_) => r matches Err(PeepError::DataAccess(_)),
    }
}

/// Reads the engine's answer to a request for a printed table.
pub fn table_from(printed: Result<String, PolarsError>) -> (r: Result<String, PeepError>)
    ensures
        is_table(r, printed),
{
    match printed {
        Ok(table) => Ok(table),
        Err(e) => Err(PeepError::DataAccess(failure_text(&e))),
    }
}

/// Asks the engine to print the rows and columns in the window. The text is the
/// engine's; a failure of the engine comes back as it is.
pub fn render_table(frame: &PeepFrame) -> (r: Result<String, PeepError>)
    requires
        cols_in_reach(frame),
    ensures
        r matches Err(e) ==> e is DataAccess,
{
    let (first_row, rows, columns) = window_request(frame);
    table_from(print_rows(&frame.current_lazy_frame, first_row, rows, columns))
}

/// Puts the screen together around a printed table.
pub fn layout(frame: &PeepFrame, table: &str) -> (s: String)
    ensures
        s@ == screen_text(frame, table@),
{
    let mut s = render_header(frame);
    push_str(&mut s, "\n");
    push_str(&mut s, render_view_data(frame).as_str());
    push_str(&mut s, "\n");
    push_str(&mut s, table);
    push_str(&mut s, "\n");
    push_str(&mut s, render_controls_guide().as_str());
    s
}

/// The whole screen for the session: the header, the place of the window, the
/// table as the engine prints it, and the keys, one below the other.
pub fn render(frame: &PeepFrame) -> (r: Result<String, PeepError>)
    requires
        cols_in_reach(frame),
    ensures
        r matches Ok(screen) ==> exists|table: Seq<char>| screen@ == screen_text(frame, table),
        r matches Err(e) ==> e is DataAccess,
{
    match render_table(frame) {
        Ok(table) => Ok(layout(frame, table.as_str())),
        Err(e) => Err(e),
    }
}

} // verus!
