//! The tabular engine: every call that the library makes into polars.
//!
//! A dataset is a `LazyFrame`, a plan that the engine evaluates when asked to.
//! What an evaluation gives depends on the file behind the plan, so nothing is
//! claimed here of any result: callers must be right for whatever comes back.

use polars::prelude::{
    col, cols, count, GetOutput, IndexOfSchema, IntoLazy, LazyFrame, NamedFrom, PolarsError,
    Series,
};
use polars_sql::SQLContext;
use vstd::prelude::*;

use crate::sampling::sample_mask;

verus! {

/// `polars::prelude::LazyFrame`, a plan that stands for a dataset. Nothing of
/// its inside is known here.
#[verifier::external_type_specification]
#[verifier::external_body]
pub struct ExLazyFrame(LazyFrame);

/// `polars::prelude::PolarsError`, the engine's failure. Nothing of its inside
/// is known here.
#[verifier::external_type_specification]
#[verifier::external_body]
pub struct ExPolarsError(PolarsError);

/// `LazyFrame::clone`. Trusted: the copy is the same plan.
pub assume_specification[ <LazyFrame as Clone>::clone ](frame: &LazyFrame) -> (copy: LazyFrame)
    ensures
        copy == *frame,
;

/// Evaluates `select([count().alias("count")])` on the frame with
/// `LazyFrame::collect` and reads the first value of the column `count` as
/// `u32`. Trusted: nothing.
#[verifier::external_body]
pub(crate) fn count_rows(frame: &LazyFrame) -> (rows: Result<Option<u32>, PolarsError>) {
    let counted = frame.clone().select([count().alias("count")]).collect()?;
    Ok(counted.column("count")?.u32()?.get(0))
}

/// Reads the column names of `LazyFrame::schema`, in the schema's order.
/// Trusted: nothing.
#[verifier::external_body]
pub(crate) fn column_names(frame: &LazyFrame) -> (names: Result<Vec<String>, PolarsError>) {
    let schema = frame.schema()?;
    Ok(schema.get_names().iter().map(|name| name.to_string()).collect())
}

/// Registers the frame under `table` in a fresh `polars_sql::SQLContext` and
/// runs `SQLContext::execute` on the query. Trusted: nothing.
#[verifier::external_body]
pub(crate) fn run_query(table: &str, frame: &LazyFrame, query: &str) -> (result: Result<LazyFrame, PolarsError>) {
    let mut context = SQLContext::new();
    context.register(table, frame.clone());
    context.execute(query)
}

/// Plans a random sample of the frame's rows: `Expr::map` on the column `by`
/// hands each batch of that column to [`sample_mask`], which flags `sample` of
/// its rows, and `LazyFrame::filter` keeps the flagged rows. Trusted: nothing.
#[verifier::external_body]
pub(crate) fn plan_sample(frame: &LazyFrame, by: &str, sample: usize) -> (plan: LazyFrame) {
    let flags = col(by).map(
        move |batch| Ok(Some(Series::new("_sample", sample_mask(batch.len(), sample)))),
        GetOutput::default(),
    );
    frame.clone().with_column(flags.alias("_sample")).filter(col("_sample")).select(
        &[col("*").exclude(["_sample"])],
    )
}

/// Evaluates the first `rows` rows of the frame with `LazyFrame::slice` and
/// `LazyFrame::collect`, and wraps the table in a new frame, which is then
/// evaluated no more. Trusted: nothing.
#[verifier::external_body]
pub(crate) fn materialize_head(frame: LazyFrame, rows: u32) -> (result: Result<LazyFrame, PolarsError>) {
    frame.slice(0_i64, rows).with_streaming(true).collect().map(|table| table.lazy())
}

/// Evaluates `rows` rows of the frame from `first_row` on, in the given columns,
/// with `LazyFrame::slice`, `LazyFrame::select` and `LazyFrame::collect`, and
/// prints the table with its `Display`, which takes its settings from the
/// process environment. Trusted: nothing.
#[verifier::external_body]
pub(crate) fn print_rows(
    frame: &LazyFrame,
    first_row: i64,
    rows: u32,
    columns: Vec<String>,
) -> (text: Result<String, PolarsError>) {
    let part = frame.clone().slice(first_row, rows).select([cols(columns)]);
    part.with_streaming(true).collect().map(|table| table.to_string())
}

/// The engine's own words for a failure, by `PolarsError`'s `Display`. Trusted:
/// nothing.
#[verifier::external_body]
pub(crate) fn failure_text(failure: &PolarsError) -> (text: String) {
    failure.to_string()
}

} // verus!
