//! The report assembler: renders an ordered sequence of column summaries into
//! a single text document. Pure, total, and specified character by character;
//! percentages are computed over the displayed subset of a frequency table
//! (a known approximation when the table is truncated: the hidden tail is
//! excluded from the denominator).

use vstd::arithmetic::div_mod::{lemma_fundamental_div_mod, lemma_mod_bound};
use vstd::prelude::*;
use vstd::string::*;

use crate::column::ColumnStats;
use crate::numfmt::{
    append_dec, append_fixed6, append_percent, spec_dec, spec_fixed6, spec_percent,
    spec_percent_tenths,
};
use crate::table::ColumnSummary;

verus! {

/// The sum of the occurrence counts of the first `n` frequency entries.
pub open spec fn spec_sum_counts(t: Seq<(String, u32)>, n: int) -> int
    decreases n,
{
    if n <= 0 {
        0
    } else {
        spec_sum_counts(t, n - 1) + t[n - 1].1
    }
}

/// The sum of the rounded tenths-of-a-percent shares of the first `n`
/// frequency entries, each computed against `total`.
pub open spec fn spec_tenths_sum(t: Seq<(String, u32)>, total: int, n: int) -> int
    decreases n,
{
    if n <= 0 {
        0
    } else {
        spec_tenths_sum(t, total, n - 1) + spec_percent_tenths(t[n - 1].1 as int, total)
    }
}

/// One line of a frequency table: quoted value, raw count, and its share of
/// the displayed subset with one fractional digit.
pub open spec fn spec_freq_line(e: (String, u32), total: int) -> Seq<char> {
    "      '"@ + e.0@ + "': "@ + spec_dec(e.1 as nat) + " ("@ + spec_percent(e.1 as int, total)
        + "%)\n"@
}

/// The first `n` frequency lines, in table order.
pub open spec fn spec_freq_lines(t: Seq<(String, u32)>, total: int, n: int) -> Seq<char>
    decreases n,
{
    if n <= 0 {
        Seq::empty()
    } else {
        spec_freq_lines(t, total, n - 1) + spec_freq_line(t[n - 1], total)
    }
}

/// The block of a numerical column: mean and deviation each to six fractional
/// digits or an explicit marker, and the quartile group printed whole or not
/// at all.
pub open spec fn spec_numerical_block(
    mean: Option<i64>,
    std_dev: Option<i64>,
    q25: Option<i64>,
    q75: Option<i64>,
    iqr: Option<i128>,
) -> Seq<char> {
    "   📈 Numerical Statistics:\n"@ + (match mean {
        Some(m) => "      Mean: "@ + spec_fixed6(m as int) + "\n"@,
        None => "      Mean: N/A (no valid values)\n"@,
    }) + (match std_dev {
        Some(s) => "      Std Dev: "@ + spec_fixed6(s as int) + "\n"@,
        None => "      Std Dev: N/A (no valid values)\n"@,
    }) + (if q25 is Some && q75 is Some && iqr is Some {
        "      Q1 (25%): "@ + spec_fixed6(q25->0 as int) + "\n"@ + "      Q3 (75%): "@
            + spec_fixed6(q75->0 as int) + "\n"@ + "      IQR: "@ + spec_fixed6(iqr->0 as int)
            + "\n"@
    } else {
        "      Quartiles: N/A (no valid values)\n"@
    })
}

/// The block of a categorical column: an empty frequency table prints only
/// the unique count; otherwise a header naming the count (and whether only
/// the top entries are shown) and one line per displayed entry.
pub open spec fn spec_categorical_block(
    table: Seq<(String, u32)>,
    total_unique: int,
    showing_top_n: bool,
) -> Seq<char> {
    if table.len() == 0 {
        "   📊 Categorical: "@ + spec_dec(total_unique as nat)
            + " unique values (too many to display)\n"@
    } else {
        (if showing_top_n {
            "   📊 Categorical: "@ + spec_dec(total_unique as nat)
                + " total unique values (showing top 10):\n"@
        } else {
            "   📊 Categorical: "@ + spec_dec(total_unique as nat) + " unique values:\n"@
        }) + spec_freq_lines(table, spec_sum_counts(table, table.len() as int), table.len() as int)
    }
}

/// The numbered block of one column: its name, its type's display string, and
/// its statistics, followed by a blank line.
pub open spec fn spec_column_block(idx: int, s: ColumnSummary) -> Seq<char> {
    spec_dec(idx as nat) + ". Column: '"@ + s.name@ + "' ("@ + s.data_type@ + ")\n"@
        + (match s.summary {
        ColumnStats::Numerical { mean, std_dev, q25, q75, iqr } => spec_numerical_block(
            mean,
            std_dev,
            q25,
            q75,
            iqr,
        ),
        ColumnStats::Categorical { frequency_table, total_unique, showing_top_n } => spec_categorical_block(
            frequency_table@,
            total_unique as int,
            showing_top_n,
        ),
    }) + "\n"@
}

/// The blocks of the first `n` columns, numbered from one, in input order.
pub open spec fn spec_blocks(ss: Seq<ColumnSummary>, n: int) -> Seq<char>
    decreases n,
{
    if n <= 0 {
        Seq::empty()
    } else {
        spec_blocks(ss, n - 1) + spec_column_block(n, ss[n - 1])
    }
}

/// The fixed document header.
pub open spec fn spec_header() -> Seq<char> {
    "📋 Column Analysis\n"@ + "━━━━━━━━━━━━━━━━━━\n\n"@
}

/// The whole report: header, one block per column in input order, completion
/// marker.
pub open spec fn spec_render(ss: Seq<ColumnSummary>) -> Seq<char> {
    spec_header() + spec_blocks(ss, ss.len() as int) + "✅ Analysis complete!\n"@
}

/// The shape banner printed before the per-column analysis: the file's
/// display path and the table's dimensions.
pub open spec fn spec_shape_header(file: Seq<char>, rows: nat, cols: nat) -> Seq<char> {
    "📊 Parquet File Analysis\n"@ + "━━━━━━━━━━━━━━━━━━━━━━━━━\n"@ + "📁 File: "@ + file + "\n"@
        + "📏 Shape: "@ + spec_dec(rows) + " rows × "@ + spec_dec(cols) + " columns\n\n"@
}

fn append_mean_line(out: &mut String, mean: Option<i64>)
    ensures
        final(out)@ == old(out)@ + (match mean {
            Some(m) => "      Mean: "@ + spec_fixed6(m as int) + "\n"@,
            None => "      Mean: N/A (no valid values)\n"@,
        }),
{
    match mean {
        Some(m) => {
            out.append("      Mean: ");
            append_fixed6(out, m as i128);
            out.append("\n");
            assert(out@ =~= old(out)@ + ("      Mean: "@ + spec_fixed6(m as int) + "\n"@));
        },
        None => {
            out.append("      Mean: N/A (no valid values)\n");
        },
    }
}

fn append_std_dev_line(out: &mut String, std_dev: Option<i64>)
    ensures
        final(out)@ == old(out)@ + (match std_dev {
            Some(s) => "      Std Dev: "@ + spec_fixed6(s as int) + "\n"@,
            None => "      Std Dev: N/A (no valid values)\n"@,
        }),
{
    match std_dev {
        Some(s) => {
            out.append("      Std Dev: ");
            append_fixed6(out, s as i128);
            out.append("\n");
            assert(out@ =~= old(out)@ + ("      Std Dev: "@ + spec_fixed6(s as int) + "\n"@));
        },
        None => {
            out.append("      Std Dev: N/A (no valid values)\n");
        },
    }
}

fn append_quartile_group(out: &mut String, q25: Option<i64>, q75: Option<i64>, iqr: Option<i128>)
    ensures
        final(out)@ == old(out)@ + (if q25 is Some && q75 is Some && iqr is Some {
            "      Q1 (25%): "@ + spec_fixed6(q25->0 as int) + "\n"@ + "      Q3 (75%): "@
                + spec_fixed6(q75->0 as int) + "\n"@ + "      IQR: "@ + spec_fixed6(iqr->0 as int)
                + "\n"@
        } else {
            "      Quartiles: N/A (no valid values)\n"@
        }),
{
    match (q25, q75, iqr) {
        (Some(a), Some(b), Some(c)) => {
            out.append("      Q1 (25%): ");
            append_fixed6(out, a as i128);
            out.append("\n");
            out.append("      Q3 (75%): ");
            append_fixed6(out, b as i128);
            out.append("\n");
            out.append("      IQR: ");
            append_fixed6(out, c);
            out.append("\n");
            assert(out@ =~= old(out)@ + ("      Q1 (25%): "@ + spec_fixed6(a as int) + "\n"@
                + "      Q3 (75%): "@ + spec_fixed6(b as int) + "\n"@ + "      IQR: "@
                + spec_fixed6(c as int) + "\n"@));
        },
        _ => {
            out.append("      Quartiles: N/A (no valid values)\n");
        },
    }
}

fn append_numerical_block(
    out: &mut String,
    mean: Option<i64>,
    std_dev: Option<i64>,
    q25: Option<i64>,
    q75: Option<i64>,
    iqr: Option<i128>,
)
    ensures
        final(out)@ == old(out)@ + spec_numerical_block(mean, std_dev, q25, q75, iqr),
{
    out.append("   📈 Numerical Statistics:\n");
    append_mean_line(out, mean);
    append_std_dev_line(out, std_dev);
    append_quartile_group(out, q25, q75, iqr);
    assert(out@ =~= old(out)@ + spec_numerical_block(mean, std_dev, q25, q75, iqr));
}

fn append_freq_lines(out: &mut String, table: &Vec<(String, u32)>, total: u128)
    requires
        total < 0x1000000000000000000000000,
    ensures
        final(out)@ == old(out)@ + spec_freq_lines(table@, total as int, table@.len() as int),
{
    let mut j: usize = 0;
    while j < table.len()
        invariant
            j <= table@.len(),
            total < 0x1000000000000000000000000,
            out@ == old(out)@ + spec_freq_lines(table@, total as int, j as int),
        decreases table@.len() - j,
    {
        let ghost pre = out@;
        let e = &table[j];
        out.append("      '");
        out.append(e.0.as_str());
        out.append("': ");
        append_dec(out, e.1 as u128);
        out.append(" (");
        append_percent(out, e.1, total);
        out.append("%)\n");
        proof {
            assert(out@ =~= pre + spec_freq_line(table@[j as int], total as int));
            assert(out@ =~= old(out)@ + spec_freq_lines(table@, total as int, j as int + 1));
        }
        j += 1;
    }
}

fn append_categorical_block(
    out: &mut String,
    frequency_table: &Vec<(String, u32)>,
    total_unique: usize,
    showing_top_n: bool,
)
    ensures
        final(out)@ == old(out)@ + spec_categorical_block(
            frequency_table@,
            total_unique as int,
            showing_top_n,
        ),
{
    if frequency_table.len() == 0 {
        out.append("   📊 Categorical: ");
        append_dec(out, total_unique as u128);
        out.append(" unique values (too many to display)\n");
        assert(out@ =~= old(out)@ + spec_categorical_block(
            frequency_table@,
            total_unique as int,
            showing_top_n,
        ));
    } else {
        if showing_top_n {
            out.append("   📊 Categorical: ");
            append_dec(out, total_unique as u128);
            out.append(" total unique values (showing top 10):\n");
        } else {
            out.append("   📊 Categorical: ");
            append_dec(out, total_unique as u128);
            out.append(" unique values:\n");
        }
        let mut total: u128 = 0;
        let mut j: usize = 0;
        while j < frequency_table.len()
            invariant
                j <= frequency_table@.len(),
                total as int == spec_sum_counts(frequency_table@, j as int),
                total as int <= 0xFFFFFFFF * (j as int),
            decreases frequency_table@.len() - j,
        {
            total = total + (frequency_table[j].1 as u128);
            j += 1;
        }
        assert(total < 0x1000000000000000000000000);
        append_freq_lines(out, frequency_table, total);
        assert(out@ =~= old(out)@ + spec_categorical_block(
            frequency_table@,
            total_unique as int,
            showing_top_n,
        ));
    }
}

/// Renders the ordered column summaries into the report text. Pure: the
/// output is a function of the summaries alone, so rendering the same
/// sequence twice yields byte-identical text.
#[verifier::rlimit(80)]
pub fn format_summary(summaries: &Vec<ColumnSummary>) -> (out: String)
    ensures
        out@ == spec_render(summaries@),
{
    let mut out = String::new();
    out.append("📋 Column Analysis\n");
    out.append("━━━━━━━━━━━━━━━━━━\n\n");
    let mut i: usize = 0;
    while i < summaries.len()
        invariant
            i <= summaries@.len(),
            out@ == spec_header() + spec_blocks(summaries@, i as int),
        decreases summaries@.len() - i,
    {
        let ghost pre = out@;
        let s = &summaries[i];
        append_dec(&mut out, (i as u128) + 1);
        out.append(". Column: '");
        out.append(s.name.as_str());
        out.append("' (");
        out.append(s.data_type.as_str());
        out.append(")\n");
        match &s.summary {
            ColumnStats::Numerical { mean, std_dev, q25, q75, iqr } => {
                append_numerical_block(&mut out, *mean, *std_dev, *q25, *q75, *iqr);
            },
            ColumnStats::Categorical { frequency_table, total_unique, showing_top_n } => {
                append_categorical_block(&mut out, frequency_table, *total_unique, *showing_top_n);
            },
        }
        out.append("\n");
        proof {
            assert(out@ =~= pre + spec_column_block(i as int + 1, summaries@[i as int]));
            assert(out@ =~= spec_header() + spec_blocks(summaries@, i as int + 1));
        }
        i += 1;
    }
    out.append("✅ Analysis complete!\n");
    assert(out@ =~= spec_render(summaries@));
    out
}

/// Renders the shape banner for a table of `rows` by `cols`, loaded from the
/// file whose display path is `file`.
pub fn format_shape_header(file: &str, rows: u64, cols: u64) -> (out: String)
    ensures
        out@ == spec_shape_header(file@, rows as nat, cols as nat),
{
    let mut out = String::new();
    out.append("📊 Parquet File Analysis\n");
    out.append("━━━━━━━━━━━━━━━━━━━━━━━━━\n");
    out.append("📁 File: ");
    out.append(file);
    out.append("\n");
    out.append("📏 Shape: ");
    append_dec(&mut out, rows as u128);
    out.append(" rows × ");
    append_dec(&mut out, cols as u128);
    out.append(" columns\n\n");
    assert(out@ =~= spec_shape_header(file@, rows as nat, cols as nat));
    out
}

/// Rendering is deterministic: equal summary sequences render to equal text,
/// so rendering the same summaries twice yields byte-identical output.
pub proof fn lemma_render_deterministic(a: Seq<ColumnSummary>, b: Seq<ColumnSummary>)
    requires
        a == b,
    ensures
        spec_render(a) == spec_render(b),
{
}

proof fn lemma_tenths_elem(c: int, total: int)
    requires
        c >= 0,
        total > 0,
    ensures
        2000 * c - total < 2 * total * spec_percent_tenths(c, total),
        2 * total * spec_percent_tenths(c, total) <= 2000 * c + total,
{
    let x = 2000 * c + total;
    let d = 2 * total;
    lemma_fundamental_div_mod(x, d);
    lemma_mod_bound(x, d);
    assert(d * spec_percent_tenths(c, total) == x - x % d);
}

proof fn lemma_tenths_sum_bounds(t: Seq<(String, u32)>, total: int, n: int)
    requires
        total > 0,
        0 <= n <= t.len(),
    ensures
        2000 * spec_sum_counts(t, n) - n * total <= 2 * total * spec_tenths_sum(t, total, n),
        2 * total * spec_tenths_sum(t, total, n) <= 2000 * spec_sum_counts(t, n) + n * total,
    decreases n,
{
    if n <= 0 {
    } else {
        lemma_tenths_sum_bounds(t, total, n - 1);
        lemma_tenths_elem(t[n - 1].1 as int, total);
        let a = spec_tenths_sum(t, total, n - 1);
        let q = spec_percent_tenths(t[n - 1].1 as int, total);
        assert(spec_tenths_sum(t, total, n) == a + q);
        assert(2 * total * (a + q) == 2 * total * a + 2 * total * q) by (nonlinear_arith);
        assert(n * total == (n - 1) * total + total) by (nonlinear_arith);
    }
}

/// Displayed percentages sum to one hundred percent up to rounding: for a
/// frequency table whose displayed counts sum to a positive total, the
/// rounded tenths-of-a-percent shares — exactly the values the renderer
/// prints — sum to 1000 tenths (100.0%) within half a tenth per entry.
/// The denominator is the displayed subset, not the whole column: for a
/// truncated table this is a known approximation inherited from the design.
pub proof fn lemma_percentages_sum(t: Seq<(String, u32)>)
    requires
        spec_sum_counts(t, t.len() as int) > 0,
    ensures
        2000 - t.len() <= 2 * spec_tenths_sum(
            t,
            spec_sum_counts(t, t.len() as int),
            t.len() as int,
        ),
        2 * spec_tenths_sum(t, spec_sum_counts(t, t.len() as int), t.len() as int) <= 2000
            + t.len(),
{
    let total = spec_sum_counts(t, t.len() as int);
    let n = t.len() as int;
    let tsum = spec_tenths_sum(t, total, n);
    lemma_tenths_sum_bounds(t, total, n);
    assert(2000 - n <= 2 * tsum) by (nonlinear_arith)
        requires
            total > 0,
            2000 * total - n * total <= 2 * total * tsum,
    ;
    assert(2 * tsum <= 2000 + n) by (nonlinear_arith)
        requires
            total > 0,
            2 * total * tsum <= 2000 * total + n * total,
    ;
}

} // verus!
