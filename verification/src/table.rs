//! Summarization of a whole table: one record per column, in the table's
//! column order, assembled from the storage engine's probe results. A failed
//! unique-count probe aborts the whole run; a failed breakdown request only
//! degrades the affected column.

use vstd::prelude::*;
use vstd::string::*;

use crate::column::{
    analyze_categorical_column, analyze_numerical_column, classify, spec_cap, spec_freq_table,
    spec_is_numeric_tag, spec_is_text_tag, spec_numerical, spec_rows_view, spec_table_view,
    ClassificationDecision, ColumnStats, TypeTag,
};

verus! {

/// The probe results the storage engine answered for one column. Numerical
/// probes are in micro-units and absent when the computation is undefined.
#[derive(Debug)]
pub struct ColumnProbes {
    /// Arithmetic mean over the valid values.
    pub mean: Option<i64>,
    /// Sample standard deviation, one degree of freedom subtracted.
    pub std_dev: Option<i64>,
    /// 25th percentile, nearest-rank method.
    pub q25: Option<i64>,
    /// 75th percentile, nearest-rank method.
    pub q75: Option<i64>,
    /// The unique-count probe: performed for every non-numerical column; a
    /// failure carries the engine's message and is fatal.
    pub unique_count: Option<Result<usize, String>>,
    /// The breakdown rows, ranked by the engine, each a displayed value and
    /// its occurrence count (absent where not representable as the expected
    /// unsigned width); `None` when the breakdown request failed.
    pub value_counts: Option<Vec<(String, Option<u32>)>>,
}

/// One column of the table as handed to the summarizer: its name, its
/// declared type's display string, its classified type tag, and the engine's
/// probe results.
#[derive(Debug)]
pub struct ColumnInfo {
    pub name: String,
    pub data_type: String,
    pub tag: TypeTag,
    pub probes: ColumnProbes,
}

/// The summary of one column: produced once, never mutated, ordered by the
/// column's position in the source table.
#[derive(Debug, PartialEq, Eq)]
pub struct ColumnSummary {
    pub name: String,
    pub data_type: String,
    pub summary: ColumnStats,
}

/// A fatal summarization failure: the offending column and the engine's
/// message for the failed unique-count probe.
#[derive(Debug, PartialEq, Eq)]
pub struct SummaryError {
    pub column: String,
    pub cause: String,
}

/// The message of a fatal summarization failure.
pub open spec fn spec_error_message(column: Seq<char>, cause: Seq<char>) -> Seq<char> {
    "Failed to count unique values in column '"@ + column + "': "@ + cause
}

impl SummaryError {
    /// Renders the error with the offending column name and underlying cause.
    pub fn message(&self) -> (s: String)
        ensures
            s@ == spec_error_message(self.column@, self.cause@),
    {
        let mut s = String::new();
        s.append("Failed to count unique values in column '");
        s.append(self.column.as_str());
        s.append("': ");
        s.append(self.cause.as_str());
        assert(s@ =~= spec_error_message(self.column@, self.cause@));
        s
    }
}

/// The probes are answered as the classifier demands: every non-numerical
/// column has had its unique-count probe performed.
pub open spec fn spec_probes_wf(info: ColumnInfo) -> bool {
    !spec_is_numeric_tag(info.tag) ==> info.probes.unique_count is Some
}

/// Whether summarizing this column fails: its unique-count probe was
/// performed and came back with an error.
pub open spec fn spec_col_fails(info: ColumnInfo) -> bool {
    &&& !spec_is_numeric_tag(info.tag)
    &&& info.probes.unique_count matches Some(r) && r is Err
}

/// The engine's message for a failed column.
pub open spec fn spec_fail_cause(info: ColumnInfo) -> Seq<char> {
    info.probes.unique_count->0->Err_0@
}

/// What a successful per-column summary holds, given the column's probes.
pub open spec fn spec_column_ok(info: ColumnInfo, threshold: int, stats: ColumnStats) -> bool {
    if spec_is_numeric_tag(info.tag) {
        stats == spec_numerical(
            info.probes.mean,
            info.probes.std_dev,
            info.probes.q25,
            info.probes.q75,
        )
    } else {
        info.probes.unique_count matches Some(Ok(u)) && {
            if spec_is_text_tag(info.tag) || u <= threshold {
                stats matches ColumnStats::Categorical { frequency_table, total_unique, showing_top_n }
                    && total_unique == u && showing_top_n == (info.probes.value_counts is Some
                    && u > threshold) && spec_table_view(
                    frequency_table@,
                ) == (match info.probes.value_counts {
                    Some(rows) => spec_freq_table(spec_rows_view(rows@), spec_cap(u as int, threshold)),
                    None => Seq::<(Seq<char>, u32)>::empty(),
                }) && frequency_table@.len() == (match info.probes.value_counts {
                    Some(rows) => spec_freq_table(
                        spec_rows_view(rows@),
                        spec_cap(u as int, threshold),
                    ).len(),
                    None => 0,
                })
            } else {
                stats matches ColumnStats::Categorical { frequency_table, total_unique, showing_top_n }
                    && total_unique == u && showing_top_n == false && frequency_table@.len() == 0
            }
        }
    }
}

/// Summarizes one column from its probe results. An integer or float column
/// gets numerical statistics; a string-like column, or an unrecognized one
/// within the threshold, gets a frequency table; an unrecognized column over
/// the threshold gets only its unique count. Fails exactly when the column's
/// unique-count probe failed.
pub fn analyze_column(info: &ColumnInfo, threshold: usize) -> (r: Result<ColumnStats, SummaryError>)
    requires
        spec_probes_wf(*info),
    ensures
        !spec_col_fails(*info) ==> r is Ok && spec_column_ok(*info, threshold as int, r->Ok_0),
        spec_col_fails(*info) ==> r is Err && r->Err_0.column@ == info.name@ && r->Err_0.cause@
            == spec_fail_cause(*info),
{
    match classify(&info.tag, &info.probes.unique_count, threshold) {
        Err(cause) => Err(SummaryError { column: info.name.clone(), cause }),
        Ok(ClassificationDecision::Numerical) => Ok(
            analyze_numerical_column(
                info.probes.mean,
                info.probes.std_dev,
                info.probes.q25,
                info.probes.q75,
            ),
        ),
        Ok(ClassificationDecision::Categorical) => {
            match &info.probes.unique_count {
                Some(Ok(u)) => {
                    let vc: Option<&Vec<(String, Option<u32>)>> = match &info.probes.value_counts {
                        Some(rows) => Some(rows),
                        None => None,
                    };
                    Ok(analyze_categorical_column(*u, vc, threshold))
                },
                Some(Err(e)) => Err(
                    SummaryError { column: info.name.clone(), cause: e.clone() },
                ),
                None => {
                    proof {
                        assert(false);
                    }
                    Err(SummaryError { column: String::new(), cause: String::new() })
                },
            }
        },
        Ok(ClassificationDecision::CategoricalOverflow) => {
            match &info.probes.unique_count {
                Some(Ok(u)) => Ok(
                    ColumnStats::Categorical {
                        frequency_table: Vec::new(),
                        total_unique: *u,
                        showing_top_n: false,
                    },
                ),
                _ => {
                    proof {
                        assert(false);
                    }
                    Err(SummaryError { column: String::new(), cause: String::new() })
                },
            }
        },
    }
}

/// Summarizes every column of a table, in the table's column order: exactly
/// one summary per column, names and order preserved. Aborts on the first
/// column whose unique-count probe failed; no partial result is returned.
pub fn summarize_columns(inputs: &Vec<ColumnInfo>, threshold: usize) -> (r: Result<
    Vec<ColumnSummary>,
    SummaryError,
>)
    requires
        forall|i: int| 0 <= i < inputs@.len() ==> spec_probes_wf(#[trigger] inputs@[i]),
    ensures
        (r is Ok) <==> (forall|i: int|
            0 <= i < inputs@.len() ==> !spec_col_fails(#[trigger] inputs@[i])),
        r is Ok ==> r->Ok_0@.len() == inputs@.len(),
        r is Ok ==> (forall|i: int|
            0 <= i < inputs@.len() ==> (#[trigger] r->Ok_0@[i]).name@ == inputs@[i].name@
                && r->Ok_0@[i].data_type@ == inputs@[i].data_type@ && spec_column_ok(
                inputs@[i],
                threshold as int,
                r->Ok_0@[i].summary,
            )),
        r is Err ==> (exists|i: int|
            0 <= i < inputs@.len() && spec_col_fails(#[trigger] inputs@[i]) && (forall|j: int|
                0 <= j < i ==> !spec_col_fails(#[trigger] inputs@[j])) && r->Err_0.column@
                == inputs@[i].name@ && r->Err_0.cause@ == spec_fail_cause(inputs@[i])),
{
    let mut out: Vec<ColumnSummary> = Vec::new();
    let mut i: usize = 0;
    while i < inputs.len()
        invariant
            i <= inputs@.len(),
            out@.len() == i,
            forall|k: int| 0 <= k < inputs@.len() ==> spec_probes_wf(#[trigger] inputs@[k]),
            forall|j: int| 0 <= j < i ==> !spec_col_fails(#[trigger] inputs@[j]),
            forall|j: int|
                0 <= j < i ==> (#[trigger] out@[j]).name@ == inputs@[j].name@
                    && out@[j].data_type@ == inputs@[j].data_type@ && spec_column_ok(
                    inputs@[j],
                    threshold as int,
                    out@[j].summary,
                ),
        decreases inputs@.len() - i,
    {
        let info = &inputs[i];
        match analyze_column(info, threshold) {
            Ok(summary) => {
                out.push(
                    ColumnSummary {
                        name: info.name.clone(),
                        data_type: info.data_type.clone(),
                        summary,
                    },
                );
                i += 1;
            },
            Err(e) => {
                return Err(e);
            },
        }
    }
    Ok(out)
}

} // verus!
