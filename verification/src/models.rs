//! The browsing session: a dataset, the window of rows and columns that is
//! shown of it, and how the window moves.

use polars::prelude::{LazyFrame, PolarsError};
use vstd::prelude::*;

use crate::engine::{
    column_names, count_rows, failure_text, materialize_head, plan_sample, run_query,
};
use crate::error::{ErrorKind, PeepError};
use crate::window::{
    anchored, anchored_window, as_ints, backward, backward_window, forward, forward_window, head,
    head_window, min_int, tail, tail_window, window_full, window_ok,
};

verus! {

/// Where the dataset that is shown came from.
#[derive(Clone, Copy, Debug, PartialEq, Eq, Structural)]
pub enum ModifierState {
    /// The dataset as it was loaded.
    Original,
    /// The result of a query on the loaded dataset.
    Queried,
    /// A random sample of the rows of the loaded dataset.
    RandomRows,
}

/// A dataset with its table metadata and a stateful view window.
pub struct PeepFrame {
    /// The name by which queries address the dataset.
    pub file_name: String,
    /// The dataset that is shown.
    pub current_lazy_frame: LazyFrame,
    /// The dataset as it was loaded; queries and samples start from it.
    pub original_lazy_frame: LazyFrame,
    /// The number of rows of the dataset that is shown.
    pub max_rows: usize,
    /// The number of columns of the dataset that is shown.
    pub max_cols: usize,
    /// The columns of the dataset that is shown, in its order.
    pub col_names: Vec<String>,
    /// The columns of the dataset as it was loaded, in its order.
    pub original_col_names: Vec<String>,
    /// The rows in the window: from the first up to, not including, the second.
    pub row_slice_state: (usize, usize),
    /// The columns in the window: from the first up to, not including, the second.
    pub col_slice_state: (usize, usize),
    /// Where the dataset that is shown came from.
    pub modifier_state: ModifierState,
    /// How many rows a page holds.
    pub display_rows: usize,
    /// How many columns a page holds.
    pub display_cols: usize,
}

/// The column window after a new dataset came in: a query or a reset starts
/// from the left; a sample keeps the place and shows a page from there, or
/// stands at the end where the new dataset has fewer columns than that.
pub open spec fn recomputed_cols(
    mode: ModifierState,
    before: (int, int),
    page: int,
    total: int,
) -> (int, int) {
    match mode {
        ModifierState::Original => head_window(page, total),
        ModifierState::Queried => head_window(page, total),
        ModifierState::RandomRows => anchored_window(min_int(before.0, total), page, total),
    }
}

/// The number of rows to ask the engine for, which counts rows in `u32`.
pub open spec fn engine_rows(rows: usize) -> u32 {
    if rows > u32::MAX {
        u32::MAX
    } else {
        rows as u32
    }
}

/// Computes [`engine_rows`].
pub fn to_engine_rows(rows: usize) -> (r: u32)
    ensures
        r == engine_rows(rows),
{
    if rows > u32::MAX as usize {
        u32::MAX
    } else {
        rows as u32
    }
}

impl Clone for PeepFrame {
    fn clone(&self) -> (copy: Self)
        ensures
            copy.same_dataset(self),
            copy.row_slice_state == self.row_slice_state,
            copy.col_slice_state == self.col_slice_state,
    {
        let col_names = self.col_names.clone();
        assert(col_names@ =~= self.col_names@);
        let original_col_names = self.original_col_names.clone();
        assert(original_col_names@ =~= self.original_col_names@);
        PeepFrame {
            file_name: self.file_name.clone(),
            current_lazy_frame: self.current_lazy_frame.clone(),
            original_lazy_frame: self.original_lazy_frame.clone(),
            max_rows: self.max_rows,
            max_cols: self.max_cols,
            col_names,
            original_col_names,
            row_slice_state: (self.row_slice_state.0, self.row_slice_state.1),
            col_slice_state: (self.col_slice_state.0, self.col_slice_state.1),
            modifier_state: self.modifier_state,
            display_rows: self.display_rows,
            display_cols: self.display_cols,
        }
    }
}

impl PeepFrame {
    /// The row window.
    pub open spec fn rows(&self) -> (int, int) {
        as_ints(self.row_slice_state)
    }

    /// The column window.
    pub open spec fn cols(&self) -> (int, int) {
        as_ints(self.col_slice_state)
    }

    /// The cached metadata agrees with itself, the row window shows a full page
    /// inside the rows, and the column window lies inside the columns and shows
    /// at most a page.
    pub open spec fn wf(&self) -> bool {
        &&& self.max_cols == self.col_names@.len()
        &&& window_full(self.rows(), self.display_rows as int, self.max_rows as int)
        &&& window_ok(self.cols(), self.display_cols as int, self.max_cols as int)
    }

    /// Both sessions show the same dataset in the same mode with the same page
    /// sizes; only their windows may differ.
    pub open spec fn same_dataset(&self, other: &PeepFrame) -> bool {
        &&& self.file_name == other.file_name
        &&& self.current_lazy_frame == other.current_lazy_frame
        &&& self.original_lazy_frame == other.original_lazy_frame
        &&& self.max_rows == other.max_rows
        &&& self.max_cols == other.max_cols
        &&& self.col_names@ == other.col_names@
        &&& self.original_col_names@ == other.original_col_names@
        &&& self.modifier_state == other.modifier_state
        &&& self.display_rows == other.display_rows
        &&& self.display_cols == other.display_cols
    }

    /// The session is `before` after it took in `frame`, with `max_rows` rows and
    /// the columns `col_names`, in the mode `mode`: the new dataset and the mode
    /// come in together, the rows start at the top, the columns are placed by
    /// [`recomputed_cols`], and the label, the loaded dataset with its columns
    /// and the page sizes stay.
    pub open spec fn adopted(
        &self,
        before: &PeepFrame,
        frame: LazyFrame,
        max_rows: usize,
        col_names: Vec<String>,
        mode: ModifierState,
    ) -> bool {
        &&& self.file_name == before.file_name
        &&& self.original_lazy_frame == before.original_lazy_frame
        &&& self.original_col_names == before.original_col_names
        &&& self.display_rows == before.display_rows
        &&& self.display_cols == before.display_cols
        &&& self.current_lazy_frame == frame
        &&& self.modifier_state == mode
        &&& self.max_rows == max_rows
        &&& self.col_names == col_names
        &&& self.max_cols == col_names@.len()
        &&& self.rows() == head_window(self.display_rows as int, max_rows as int)
        &&& self.cols() == recomputed_cols(
            mode,
            before.cols(),
            self.display_cols as int,
            col_names@.len() as int,
        )
    }

    /// A session on a dataset whose row count and columns are known: it shows
    /// the loaded dataset from its top left corner.
    pub fn assemble(
        file_name: String,
        frame: LazyFrame,
        max_rows: usize,
        col_names: Vec<String>,
        display_rows: usize,
        display_cols: usize,
    ) -> (session: PeepFrame)
        ensures
            session.file_name == file_name,
            session.original_lazy_frame == frame,
            session.current_lazy_frame == frame,
            session.modifier_state == ModifierState::Original,
            session.max_rows == max_rows,
            session.col_names == col_names,
            session.original_col_names@ == col_names@,
            session.max_cols == col_names@.len(),
            session.display_rows == display_rows,
            session.display_cols == display_cols,
            session.rows() == head_window(display_rows as int, max_rows as int),
            session.cols() == head_window(display_cols as int, col_names@.len() as int),
            session.wf(),
    {
        let max_cols = col_names.len();
        let original_col_names = col_names.clone();
        assert(original_col_names@ =~= col_names@);
        PeepFrame {
            file_name,
            current_lazy_frame: frame.clone(),
            original_lazy_frame: frame,
            max_rows,
            max_cols,
            col_names,
            original_col_names,
            row_slice_state: head(display_rows, max_rows),
            col_slice_state: head(display_cols, max_cols),
            modifier_state: ModifierState::Original,
            display_rows,
            display_cols,
        }
    }

    /// Takes in a new dataset whose row count and columns are known, together
    /// with its mode.
    pub fn adopt(
        &mut self,
        frame: LazyFrame,
        max_rows: usize,
        col_names: Vec<String>,
        mode: ModifierState,
    )
        ensures
            final(self).adopted(old(self), frame, max_rows, col_names, mode),
            final(self).wf(),
    {
        let max_cols = col_names.len();
        self.current_lazy_frame = frame;
        self.max_rows = max_rows;
        self.max_cols = max_cols;
        self.col_names = col_names;
        self.row_slice_state = head(self.display_rows, max_rows);
        self.col_slice_state = match mode {
            ModifierState::Original => head(self.display_cols, max_cols),
            ModifierState::Queried => head(self.display_cols, max_cols),
            ModifierState::RandomRows => {
                let start = if self.col_slice_state.0 <= max_cols {
                    self.col_slice_state.0
                } else {
                    max_cols
                };
                anchored(start, self.display_cols, max_cols)
            },
        };
        self.modifier_state = mode;
    }

    /// Starts a session on a loaded dataset, labelled `file_name`: asks the
    /// engine for the row count and the columns, and shows the dataset from its
    /// top left corner.
    pub fn new(
        file_name: String,
        frame: LazyFrame,
        display_rows: usize,
        display_cols: usize,
    ) -> (r: Result<PeepFrame, PeepError>)
        ensures
            r matches Ok(session) ==> {
                &&& session.file_name == file_name
                &&& session.original_lazy_frame == frame
                &&& session.current_lazy_frame == frame
                &&& session.original_col_names@ == session.col_names@
                &&& session.modifier_state == ModifierState::Original
                &&& session.display_rows == display_rows
                &&& session.display_cols == display_cols
                &&& session.rows() == head_window(display_rows as int, session.max_rows as int)
                &&& session.cols() == head_window(display_cols as int, session.max_cols as int)
                &&& session.wf()
            },
            r matches Err(e) ==> e is DataAccess,
    {
        let max_rows = match measure(&frame) {
            Ok(rows) => rows,
            Err(e) => {
                return Err(e);
            },
        };
        let col_names = match column_names(&frame) {
            Ok(names) => names,
            Err(e) => {
                return Err(PeepError::DataAccess(failure_text(&e)));
            },
        };
        Ok(PeepFrame::assemble(file_name, frame, max_rows, col_names, display_rows, display_cols))
    }

    /// Takes in a new dataset together with its mode: asks the engine for its
    /// row count and columns, then [`adopt`](PeepFrame::adopt)s it. Where the
    /// engine fails, nothing changes.
    pub fn update_with(&mut self, frame: &LazyFrame, mode: ModifierState) -> (r: Result<(), PeepError>)
        ensures
            r is Ok ==> final(self).adopted(
                old(self),
                *frame,
                final(self).max_rows,
                final(self).col_names,
                mode,
            ),
            r is Ok ==> final(self).wf(),
            r matches Err(e) ==> e is DataAccess && *final(self) == *old(self),
    {
        let max_rows = match measure(frame) {
            Ok(rows) => rows,
            Err(e) => {
                return Err(e);
            },
        };
        let col_names = match column_names(frame) {
            Ok(names) => names,
            Err(e) => {
                return Err(PeepError::DataAccess(failure_text(&e)));
            },
        };
        self.adopt(frame.clone(), max_rows, col_names, mode);
        Ok(())
    }

    /// The dataset that every query and every sample starts from: the loaded
    /// one, never an earlier result.
    pub fn source(&self) -> (frame: &LazyFrame)
        ensures
            *frame == self.original_lazy_frame,
    {
        &self.original_lazy_frame
    }

    /// What a query is run on: the table name that the query addresses, which
    /// is the session's label, and the loaded dataset.
    pub fn query_request(&self) -> (request: (&str, &LazyFrame))
        ensures
            request.0@ == self.file_name@,
            *request.1 == self.original_lazy_frame,
    {
        (self.file_name.as_str(), self.source())
    }

    /// What to ask the engine for to draw a sample: the loaded dataset, its
    /// first column to flag the rows by, a page of rows to flag, and a page of
    /// rows to keep. A dataset that was loaded without columns has nothing to
    /// flag the rows by.
    pub fn sample_request(&self) -> (r: Result<(&LazyFrame, &str, usize, u32), PeepError>)
        ensures
            self.original_col_names@.len() == 0 <==> r is Err,
            r matches Err(e) ==> e == PeepError::NoColumns,
            r matches Ok(request) ==> {
                &&& *request.0 == self.original_lazy_frame
                &&& request.1@ == self.original_col_names@[0]@
                &&& request.2 == self.display_rows
                &&& request.3 == engine_rows(self.display_rows)
            },
    {
        if self.original_col_names.len() == 0 {
            return Err(PeepError::NoColumns);
        }
        let column = self.original_col_names[0].as_str();
        Ok((self.source(), column, self.display_rows, to_engine_rows(self.display_rows)))
    }

    /// Moves the row window one page down, stopping at the last row.
    pub fn down(&mut self)
        ensures
            final(self).rows() == forward_window(
                old(self).rows(),
                old(self).display_rows as int,
                old(self).max_rows as int,
            ),
            final(self).col_slice_state == old(self).col_slice_state,
            final(self).same_dataset(old(self)),
            old(self).wf() ==> final(self).wf(),
            old(self).wf() && old(self).row_slice_state.1 == old(self).max_rows
                ==> final(self).row_slice_state == old(self).row_slice_state,
    {
        self.row_slice_state = forward(self.row_slice_state, self.display_rows, self.max_rows);
    }

    /// Moves the row window one page up, stopping at the first row.
    pub fn up(&mut self)
        ensures
            final(self).rows() == backward_window(
                old(self).rows(),
                old(self).display_rows as int,
                old(self).max_rows as int,
            ),
            final(self).col_slice_state == old(self).col_slice_state,
            final(self).same_dataset(old(self)),
            old(self).wf() ==> final(self).wf(),
    {
        self.row_slice_state = backward(self.row_slice_state, self.display_rows, self.max_rows);
    }

    /// Moves the column window one page to the right, stopping at the last
    /// column.
    pub fn right(&mut self)
        ensures
            final(self).cols() == forward_window(
                old(self).cols(),
                old(self).display_cols as int,
                old(self).max_cols as int,
            ),
            final(self).row_slice_state == old(self).row_slice_state,
            final(self).same_dataset(old(self)),
            old(self).wf() ==> final(self).wf(),
    {
        self.col_slice_state = forward(self.col_slice_state, self.display_cols, self.max_cols);
    }

    /// Moves the column window one page to the left, stopping at the first
    /// column.
    pub fn left(&mut self)
        ensures
            final(self).cols() == backward_window(
                old(self).cols(),
                old(self).display_cols as int,
                old(self).max_cols as int,
            ),
            final(self).row_slice_state == old(self).row_slice_state,
            final(self).same_dataset(old(self)),
            old(self).wf() ==> final(self).wf(),
    {
        self.col_slice_state = backward(self.col_slice_state, self.display_cols, self.max_cols);
    }

    /// Moves the row window to the last page.
    pub fn jump_to_tail(&mut self)
        ensures
            final(self).rows() == tail_window(
                old(self).display_rows as int,
                old(self).max_rows as int,
            ),
            final(self).col_slice_state == old(self).col_slice_state,
            final(self).same_dataset(old(self)),
            old(self).wf() ==> final(self).wf(),
    {
        self.row_slice_state = tail(self.display_rows, self.max_rows);
    }

    /// Moves the row window to the first page.
    pub fn jump_to_head(&mut self)
        ensures
            final(self).rows() == head_window(
                old(self).display_rows as int,
                old(self).max_rows as int,
            ),
            final(self).col_slice_state == old(self).col_slice_state,
            final(self).same_dataset(old(self)),
            old(self).wf() ==> final(self).wf(),
    {
        self.row_slice_state = head(self.display_rows, self.max_rows);
    }

    /// Runs a query on the loaded dataset, which the query addresses by the
    /// session's label, and shows the result from its top left corner. Each
    /// query starts from the loaded dataset, never from an earlier result. Where
    /// the engine refuses the query or cannot describe the result, nothing
    /// changes.
    pub fn execute_sql(&mut self, sql_query: &str) -> (r: Result<(), PeepError>)
        ensures
            r is Ok ==> final(self).adopted(
                old(self),
                final(self).current_lazy_frame,
                final(self).max_rows,
                final(self).col_names,
                ModifierState::Queried,
            ),
            r is Ok ==> final(self).col_slice_state.0 == 0 && final(self).wf(),
            r matches Err(e) ==> (e is Query || e is DataAccess) && *final(self) == *old(self),
    {
        let (table, frame) = self.query_request();
        match run_query(table, frame, sql_query) {
            Ok(result) => self.update_with(&result, ModifierState::Queried),
            Err(e) => Err(PeepError::Query(failure_text(&e))),
        }
    }

    /// Shows a random sample of the rows of the loaded dataset: a page of them,
    /// or all where there are fewer. The sample is drawn from the loaded dataset
    /// alone, whatever is shown, and is evaluated at once, so that it stays the
    /// same while it is shown. The column window keeps its place, or stands at
    /// the end where the sample has fewer columns than that. A dataset that was
    /// loaded without columns has nothing to draw a sample by; where that or the
    /// engine fails, nothing changes, and the failure is one of getting at the
    /// data.
    pub fn shuffle_rows(&mut self) -> (r: Result<(), PeepError>)
        ensures
            old(self).original_col_names@.len() == 0 <==> r == Err::<(), PeepError>(
                PeepError::NoColumns,
            ),
            r is Ok ==> final(self).adopted(
                old(self),
                final(self).current_lazy_frame,
                final(self).max_rows,
                final(self).col_names,
                ModifierState::RandomRows,
            ),
            r is Ok ==> final(self).col_slice_state.0 == min_int(
                old(self).col_slice_state.0 as int,
                final(self).max_cols as int,
            ),
            r is Ok && old(self).col_slice_state.0 <= final(self).max_cols
                ==> final(self).col_slice_state.0 == old(self).col_slice_state.0,
            r is Ok ==> final(self).wf(),
            r matches Err(e) ==> e.kind_of() == ErrorKind::DataAccess && *final(self) == *old(self),
    {
        let (plan, limit) = match self.sample_request() {
            Ok((frame, column, sample, limit)) => (plan_sample(frame, column, sample), limit),
            Err(e) => {
                return Err(e);
            },
        };
        match materialize_head(plan, limit) {
            Ok(sample) => self.update_with(&sample, ModifierState::RandomRows),
            Err(e) => Err(PeepError::DataAccess(failure_text(&e))),
        }
    }

    /// Shows the loaded dataset again, from its top left corner. Where the
    /// engine fails, nothing changes.
    pub fn reset_to_original(&mut self) -> (r: Result<(), PeepError>)
        ensures
            r is Ok ==> final(self).adopted(
                old(self),
                old(self).original_lazy_frame,
                final(self).max_rows,
                final(self).col_names,
                ModifierState::Original,
            ),
            r is Ok ==> final(self).current_lazy_frame == final(self).original_lazy_frame
                && final(self).modifier_state == ModifierState::Original && final(self).cols()
                == head_window(final(self).display_cols as int, final(self).max_cols as int)
                && final(self).wf(),
            r matches Err(e) ==> e is DataAccess && *final(self) == *old(self),
    {
        let original = self.original_lazy_frame.clone();
        self.update_with(&original, ModifierState::Original)
    }
}

/// What the engine's answer to a count of rows means: a count is the number of
/// rows; an answer without a count, or a failure, is a failure to get at the
/// data, the first with a text of its own, the second with the engine's.
pub open spec fn is_row_count(
    r: Result<usize, PeepError>,
    counted: Result<Option<u32>, PolarsError>,
) -> bool {
    match counted {
        Ok(Some(rows)) => r == Ok::<usize, PeepError>(rows as usize),
        Ok(None) => r matches Err(PeepError::DataAccess(text)) && text@
            == "Unable to get row count"@,
        Err(_) => r matches Err(PeepError::DataAccess(_)),
    }
}

/// Reads the engine's answer to a count of rows.
pub fn row_count_from(counted: Result<Option<u32>, PolarsError>) -> (r: Result<usize, PeepError>)
    ensures
        is_row_count(r, counted),
{
    match counted {
        Ok(Some(rows)) => Ok(rows as usize),
        Ok(None) => Err(PeepError::DataAccess("Unable to get row count".to_owned())),
        Err(e) => Err(PeepError::DataAccess(failure_text(&e))),
    }
}

/// The number of rows of a dataset, as the engine counts them.
fn measure(frame: &LazyFrame) -> (r: Result<usize, PeepError>)
    ensures
        r matches Err(e) ==> e is DataAccess,
{
    row_count_from(count_rows(frame))
}

} // verus!
