//! Per-column classification and statistics: the type classifier, the
//! numerical statistics record in micro-units, and the bounded, ranked
//! categorical frequency table.

use vstd::prelude::*;

verus! {

/// The closed set of declared column types the classifier dispatches on.
#[derive(Clone, Copy, Debug, PartialEq, Eq, Structural)]
pub enum TypeTag {
    UInt8,
    UInt16,
    UInt32,
    UInt64,
    Int8,
    Int16,
    Int32,
    Int64,
    Int128,
    Float32,
    Float64,
    Str,
    CategoricalCoded,
    EnumCoded,
    Other,
}

/// What the classifier decides for a column.
#[derive(Clone, Copy, Debug, PartialEq, Eq, Structural)]
pub enum ClassificationDecision {
    /// The column gets numerical descriptive statistics.
    Numerical,
    /// The column gets a frequency-table breakdown.
    Categorical,
    /// The column has more distinct values than can usefully be displayed;
    /// only the unique count is reported.
    CategoricalOverflow,
}

/// Whether the declared type is an integer or floating-point kind.
pub open spec fn spec_is_numeric_tag(t: TypeTag) -> bool {
    match t {
        TypeTag::UInt8
        | TypeTag::UInt16
        | TypeTag::UInt32
        | TypeTag::UInt64
        | TypeTag::Int8
        | TypeTag::Int16
        | TypeTag::Int32
        | TypeTag::Int64
        | TypeTag::Int128
        | TypeTag::Float32
        | TypeTag::Float64 => true,
        _ => false,
    }
}

/// Whether the declared type is string-like: string, categorical-coded or
/// enum-coded. Such a column is always treated as categorical.
pub open spec fn spec_is_text_tag(t: TypeTag) -> bool {
    match t {
        TypeTag::Str | TypeTag::CategoricalCoded | TypeTag::EnumCoded => true,
        _ => false,
    }
}

/// Classifies a column from its declared type and, for an unrecognized type,
/// the probed unique-value count.
///
/// `unique_count` models the cardinality probe: it is consulted only for an
/// unrecognized (`Other`) type, and must then have been performed. A failed
/// probe carries the engine's message and makes classification fail.
pub fn classify(
    tag: &TypeTag,
    unique_count: &Option<Result<usize, String>>,
    threshold: usize,
) -> (d: Result<ClassificationDecision, String>)
    requires
        *tag is Other ==> unique_count is Some,
    ensures
        spec_is_numeric_tag(*tag) ==> d == Ok::<ClassificationDecision, String>(
            ClassificationDecision::Numerical,
        ),
        spec_is_text_tag(*tag) ==> d == Ok::<ClassificationDecision, String>(
            ClassificationDecision::Categorical,
        ),
        *tag is Other ==> (match unique_count->0 {
            Ok(u) => d == Ok::<ClassificationDecision, String>(
                if u <= threshold {
                    ClassificationDecision::Categorical
                } else {
                    ClassificationDecision::CategoricalOverflow
                },
            ),
            Err(e) => d matches Err(c) && c@ == e@,
        }),
{
    match tag {
        TypeTag::UInt8
        | TypeTag::UInt16
        | TypeTag::UInt32
        | TypeTag::UInt64
        | TypeTag::Int8
        | TypeTag::Int16
        | TypeTag::Int32
        | TypeTag::Int64
        | TypeTag::Int128
        | TypeTag::Float32
        | TypeTag::Float64 => Ok(ClassificationDecision::Numerical),
        TypeTag::Str | TypeTag::CategoricalCoded | TypeTag::EnumCoded => Ok(
            ClassificationDecision::Categorical,
        ),
        TypeTag::Other => {
            match unique_count {
                Some(Ok(u)) => {
                    if *u <= threshold {
                        Ok(ClassificationDecision::Categorical)
                    } else {
                        Ok(ClassificationDecision::CategoricalOverflow)
                    }
                },
                Some(Err(e)) => Err(e.clone()),
                None => {
                    proof {
                        assert(false);
                    }
                    Err(String::new())
                },
            }
        },
    }
}

/// The statistics record of a column: either numerical descriptive statistics
/// or a categorical frequency table. Numerical values are in micro-units
/// (millionths), so that six fractional digits render exactly; each is absent
/// when the underlying computation is undefined.
#[derive(Debug, PartialEq, Eq)]
pub enum ColumnStats {
    Numerical {
        mean: Option<i64>,
        std_dev: Option<i64>,
        q25: Option<i64>,
        q75: Option<i64>,
        iqr: Option<i128>,
    },
    Categorical {
        frequency_table: Vec<(String, u32)>,
        total_unique: usize,
        showing_top_n: bool,
    },
}

/// The interquartile range: the difference of the quartiles, present exactly
/// when both are.
pub open spec fn spec_iqr(q25: Option<i64>, q75: Option<i64>) -> Option<i128> {
    match (q25, q75) {
        (Some(a), Some(b)) => Some((b - a) as i128),
        _ => None,
    }
}

/// The numerical statistics record assembled from the engine's probes.
pub open spec fn spec_numerical(
    mean: Option<i64>,
    std_dev: Option<i64>,
    q25: Option<i64>,
    q75: Option<i64>,
) -> ColumnStats {
    ColumnStats::Numerical { mean, std_dev, q25, q75, iqr: spec_iqr(q25, q75) }
}

/// Assembles the numerical statistics of a column from the engine's probed
/// values, each in micro-units and absent when undefined. Never fails:
/// absence is a modeled outcome, not an error.
pub fn analyze_numerical_column(
    mean: Option<i64>,
    std_dev: Option<i64>,
    q25: Option<i64>,
    q75: Option<i64>,
) -> (r: ColumnStats)
    ensures
        r == spec_numerical(mean, std_dev, q25, q75),
{
    let iqr: Option<i128> = match (q25, q75) {
        (Some(a), Some(b)) => Some((b as i128) - (a as i128)),
        _ => None,
    };
    ColumnStats::Numerical { mean, std_dev, q25, q75, iqr }
}

/// The view of a raw breakdown row: the displayed value and its count, the
/// count absent where it was not representable as the expected unsigned width.
pub open spec fn spec_rows_view(rows: Seq<(String, Option<u32>)>) -> Seq<(Seq<char>, Option<u32>)> {
    rows.map_values(|r: (String, Option<u32>)| (r.0@, r.1))
}

/// The view of an assembled frequency table.
pub open spec fn spec_table_view(t: Seq<(String, u32)>) -> Seq<(Seq<char>, u32)> {
    t.map_values(|e: (String, u32)| (e.0@, e.1))
}

/// The frequency table built from the first `cap` breakdown rows: rows whose
/// count is not representable are silently skipped, the others kept in order.
pub open spec fn spec_freq_table(rows: Seq<(Seq<char>, Option<u32>)>, cap: int) -> Seq<
    (Seq<char>, u32),
>
    decreases rows.len(),
{
    if cap <= 0 || rows.len() == 0 {
        Seq::empty()
    } else {
        let rest = spec_freq_table(rows.drop_first(), cap - 1);
        if rows[0].1 is Some {
            seq![(rows[0].0, rows[0].1->0)] + rest
        } else {
            rest
        }
    }
}

/// The display cap of a frequency table: the full unique count when it is
/// within the threshold, and at most ten entries otherwise.
pub open spec fn spec_cap(unique_count: int, threshold: int) -> int {
    if unique_count > threshold {
        if unique_count < 10 {
            unique_count
        } else {
            10
        }
    } else {
        unique_count
    }
}

/// The display cap as an executable value, for a caller that fetches only as
/// many breakdown rows as can be displayed.
pub fn frequency_display_cap(unique_count: usize, threshold: usize) -> (cap: usize)
    ensures
        cap == spec_cap(unique_count as int, threshold as int),
{
    if unique_count > threshold {
        if unique_count < 10 {
            unique_count
        } else {
            10
        }
    } else {
        unique_count
    }
}

/// Builds the categorical statistics of a column: the true unique count, the
/// bounded frequency table taken from the sorted breakdown rows, and the
/// truncation flag. A missing breakdown (`value_counts == None`, the degraded
/// case) yields an empty table with the truncation flag off.
pub fn analyze_categorical_column(
    unique_count: usize,
    value_counts: Option<&Vec<(String, Option<u32>)>>,
    threshold: usize,
) -> (r: ColumnStats)
    ensures
        r matches ColumnStats::Categorical { frequency_table, total_unique, showing_top_n }
            && total_unique == unique_count && showing_top_n == (value_counts is Some
            && unique_count > threshold) && spec_table_view(frequency_table@) == (match value_counts {
            Some(rows) => spec_freq_table(
                spec_rows_view(rows@),
                spec_cap(unique_count as int, threshold as int),
            ),
            None => Seq::<(Seq<char>, u32)>::empty(),
        }) && frequency_table@.len() == (match value_counts {
            Some(rows) => spec_freq_table(
                spec_rows_view(rows@),
                spec_cap(unique_count as int, threshold as int),
            ).len(),
            None => 0,
        }),
{
    let showing_top_n = match value_counts {
        Some(_) => unique_count > threshold,
        None => false,
    };
    let cap: usize = frequency_display_cap(unique_count, threshold);
    let mut frequency_table: Vec<(String, u32)> = Vec::new();
    proof {
        assert(spec_table_view(frequency_table@) =~= Seq::<(Seq<char>, u32)>::empty());
    }
    match value_counts {
        None => {},
        Some(rows) => {
            let ghost rv = spec_rows_view(rows@);
            let ghost full = spec_freq_table(rv, cap as int);
            let limit: usize = if cap < rows.len() {
                cap
            } else {
                rows.len()
            };
            proof {
                assert(rv.skip(0) =~= rv);
                assert(spec_table_view(frequency_table@) + spec_freq_table(rv, cap as int)
                    =~= full);
            }
            let mut j: usize = 0;
            while j < limit
                invariant
                    j <= limit,
                    limit <= cap,
                    limit <= rows@.len(),
                    limit == cap || limit == rows@.len(),
                    rv == spec_rows_view(rows@),
                    rv.len() == rows@.len(),
                    full == spec_freq_table(rv, cap as int),
                    spec_table_view(frequency_table@) + spec_freq_table(
                        rv.skip(j as int),
                        cap - j,
                    ) == full,
                decreases limit - j,
            {
                let ghost tv0 = spec_table_view(frequency_table@);
                proof {
                    assert(rv.skip(j as int).len() > 0);
                    assert(rv.skip(j as int)[0] == rv[j as int]);
                    assert(rv.skip(j as int).drop_first() =~= rv.skip(j as int + 1));
                }
                let row = &rows[j];
                proof {
                    assert(rv[j as int] == (row.0@, row.1));
                }
                match row.1 {
                    Some(c) => {
                        frequency_table.push((row.0.clone(), c));
                        proof {
                            assert(spec_table_view(frequency_table@) =~= tv0.push(
                                (rv[j as int].0, c),
                            ));
                            assert(tv0 + (seq![(rv[j as int].0, c)] + spec_freq_table(
                                rv.skip(j as int + 1),
                                cap - j - 1,
                            )) =~= tv0.push((rv[j as int].0, c)) + spec_freq_table(
                                rv.skip(j as int + 1),
                                cap - j - 1,
                            ));
                        }
                    },
                    None => {},
                }
                j += 1;
            }
            proof {
                assert(spec_freq_table(rv.skip(limit as int), cap - limit) =~= Seq::<
                    (Seq<char>, u32),
                >::empty());
                assert(spec_table_view(frequency_table@) + Seq::<(Seq<char>, u32)>::empty()
                    =~= spec_table_view(frequency_table@));
            }
        },
    }
    proof {
        assert(spec_table_view(frequency_table@).len() == frequency_table@.len());
    }
    ColumnStats::Categorical { frequency_table, total_unique: unique_count, showing_top_n }
}

/// The frequency table built from rows that all carry a representable count
/// has as many entries as the cap and the row count allow.
pub proof fn lemma_freq_table_len_complete(rows: Seq<(Seq<char>, Option<u32>)>, cap: int)
    requires
        forall|i: int| 0 <= i < rows.len() ==> rows[i].1 is Some,
    ensures
        spec_freq_table(rows, cap).len() == if cap <= 0 {
            0
        } else if cap < rows.len() {
            cap
        } else {
            rows.len() as int
        },
    decreases rows.len(),
{
    if cap <= 0 || rows.len() == 0 {
    } else {
        assert(forall|i: int|
            0 <= i < rows.drop_first().len() ==> rows.drop_first()[i].1 is Some) by {
            assert(forall|i: int|
                0 <= i < rows.drop_first().len() ==> rows.drop_first()[i] == rows[i + 1]);
        }
        lemma_freq_table_len_complete(rows.drop_first(), cap - 1);
    }
}

/// For a categorical column whose unique count is within the threshold and
/// whose breakdown lists every unique value with a representable count, the
/// frequency table holds the complete set — one entry per unique value — and
/// the truncation flag `unique_count > threshold` is off.
pub proof fn lemma_complete_frequency_table(
    rows: Seq<(Seq<char>, Option<u32>)>,
    unique_count: int,
    threshold: int,
)
    requires
        rows.len() == unique_count,
        forall|i: int| 0 <= i < rows.len() ==> rows[i].1 is Some,
        unique_count <= threshold,
    ensures
        spec_cap(unique_count, threshold) == unique_count,
        spec_freq_table(rows, spec_cap(unique_count, threshold)).len() == unique_count,
        !(unique_count > threshold),
{
    lemma_freq_table_len_complete(rows, unique_count);
}

/// For a categorical column whose unique count exceeds the threshold and
/// whose breakdown lists every unique value with a representable count, the
/// frequency table is truncated to `min(10, unique_count)` entries and the
/// truncation flag `unique_count > threshold` is on.
pub proof fn lemma_truncated_frequency_table(
    rows: Seq<(Seq<char>, Option<u32>)>,
    unique_count: int,
    threshold: int,
)
    requires
        rows.len() == unique_count,
        forall|i: int| 0 <= i < rows.len() ==> rows[i].1 is Some,
        unique_count > threshold,
        threshold >= 0,
    ensures
        spec_cap(unique_count, threshold) == if unique_count < 10 {
            unique_count
        } else {
            10
        },
        spec_freq_table(rows, spec_cap(unique_count, threshold)).len() == if unique_count < 10 {
            unique_count
        } else {
            10
        },
        unique_count > threshold,
{
    lemma_freq_table_len_complete(rows, spec_cap(unique_count, threshold));
}

/// A numerical column with zero valid values reports nothing: with every
/// probe absent, the assembled record has mean, deviation, both quartiles and
/// the interquartile range all absent.
pub proof fn lemma_numerical_all_absent()
    ensures
        spec_numerical(None, None, None, None) == (ColumnStats::Numerical {
            mean: None,
            std_dev: None,
            q25: None,
            q75: None,
            iqr: None,
        }),
{
}

/// A numerical column with a single valid value keeps its mean — the value
/// itself, as the engine reports it — while the sample standard deviation,
/// undefined with one degree of freedom, is absent.
pub proof fn lemma_numerical_single_value(m: i64, q25: Option<i64>, q75: Option<i64>)
    ensures
        spec_numerical(Some(m), None, q25, q75)->Numerical_mean == Some(m),
        spec_numerical(Some(m), None, q25, q75)->Numerical_std_dev is None,
{
}

/// The interquartile range is present exactly when both quartiles are, and
/// equals the 75th percentile minus the 25th exactly when both are present.
pub proof fn lemma_iqr(q25: Option<i64>, q75: Option<i64>)
    ensures
        spec_iqr(q25, q75) is Some <==> (q25 is Some && q75 is Some),
        (q25 is Some && q75 is Some) ==> spec_iqr(q25, q75)->0 == q75->0 - q25->0,
{
}

} // verus!
