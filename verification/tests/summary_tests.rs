use parquet_summarizer::column::{
    analyze_categorical_column, analyze_numerical_column, classify, frequency_display_cap,
    ClassificationDecision, ColumnStats, TypeTag,
};
use parquet_summarizer::table::{
    analyze_column, summarize_columns, ColumnInfo, ColumnProbes, ColumnSummary,
};

fn numeric_probes(
    mean: Option<i64>,
    std_dev: Option<i64>,
    q25: Option<i64>,
    q75: Option<i64>,
) -> ColumnProbes {
    ColumnProbes { mean, std_dev, q25, q75, unique_count: None, value_counts: None }
}

#[test]
fn classify_numeric_tags() {
    let tags = [
        TypeTag::UInt8,
        TypeTag::UInt16,
        TypeTag::UInt32,
        TypeTag::UInt64,
        TypeTag::Int8,
        TypeTag::Int16,
        TypeTag::Int32,
        TypeTag::Int64,
        TypeTag::Int128,
        TypeTag::Float32,
        TypeTag::Float64,
    ];
    for tag in tags {
        assert_eq!(classify(&tag, &None, 10), Ok(ClassificationDecision::Numerical));
    }
}

#[test]
fn classify_text_tags() {
    for tag in [TypeTag::Str, TypeTag::CategoricalCoded, TypeTag::EnumCoded] {
        assert_eq!(classify(&tag, &None, 10), Ok(ClassificationDecision::Categorical));
    }
}

#[test]
fn classify_other_by_cardinality() {
    assert_eq!(
        classify(&TypeTag::Other, &Some(Ok(10)), 10),
        Ok(ClassificationDecision::Categorical)
    );
    assert_eq!(
        classify(&TypeTag::Other, &Some(Ok(11)), 10),
        Ok(ClassificationDecision::CategoricalOverflow)
    );
}

#[test]
fn classify_other_probe_failure() {
    let probe = Some(Err(String::from("unsupported type")));
    assert_eq!(classify(&TypeTag::Other, &probe, 10), Err(String::from("unsupported type")));
}

#[test]
fn numerical_integer_column_scenario() {
    // One integer column [1, 2, 3, 4, 5]: mean 3.0, sample std-dev 1.581139
    // (micro-rounded), q25 2.0, q75 4.0, so the IQR is 2.0.
    let r = analyze_numerical_column(
        Some(3_000_000),
        Some(1_581_139),
        Some(2_000_000),
        Some(4_000_000),
    );
    assert_eq!(
        r,
        ColumnStats::Numerical {
            mean: Some(3_000_000),
            std_dev: Some(1_581_139),
            q25: Some(2_000_000),
            q75: Some(4_000_000),
            iqr: Some(2_000_000),
        }
    );
}

#[test]
fn numerical_no_valid_values() {
    let r = analyze_numerical_column(None, None, None, None);
    assert_eq!(
        r,
        ColumnStats::Numerical { mean: None, std_dev: None, q25: None, q75: None, iqr: None }
    );
}

#[test]
fn numerical_single_valid_value() {
    let r = analyze_numerical_column(Some(7_000_000), None, Some(7_000_000), Some(7_000_000));
    assert_eq!(
        r,
        ColumnStats::Numerical {
            mean: Some(7_000_000),
            std_dev: None,
            q25: Some(7_000_000),
            q75: Some(7_000_000),
            iqr: Some(0),
        }
    );
}

#[test]
fn iqr_absent_when_one_quartile_missing() {
    let r = analyze_numerical_column(Some(1), Some(1), Some(1_000_000), None);
    assert_eq!(
        r,
        ColumnStats::Numerical {
            mean: Some(1),
            std_dev: Some(1),
            q25: Some(1_000_000),
            q75: None,
            iqr: None,
        }
    );
    let r = analyze_numerical_column(Some(1), Some(1), None, Some(1_000_000));
    assert_eq!(
        r,
        ColumnStats::Numerical {
            mean: Some(1),
            std_dev: Some(1),
            q25: None,
            q75: Some(1_000_000),
            iqr: None,
        }
    );
}

#[test]
fn iqr_is_exact_difference() {
    let r = analyze_numerical_column(None, None, Some(-2_500_000), Some(4_000_000));
    match r {
        ColumnStats::Numerical { iqr, .. } => assert_eq!(iqr, Some(6_500_000)),
        _ => panic!("expected numerical statistics"),
    }
}

fn string_rows(rows: &[(&str, u32)]) -> Vec<(String, Option<u32>)> {
    rows.iter().map(|(v, c)| (v.to_string(), Some(*c))).collect()
}

#[test]
fn categorical_complete_table_scenario() {
    // One string column ["a", "a", "b", "c"]: three unique values, the table
    // holds the complete set and is not truncated.
    let rows = string_rows(&[("a", 2), ("b", 1), ("c", 1)]);
    let r = analyze_categorical_column(3, Some(&rows), 10);
    assert_eq!(
        r,
        ColumnStats::Categorical {
            frequency_table: vec![
                ("a".to_string(), 2),
                ("b".to_string(), 1),
                ("c".to_string(), 1),
            ],
            total_unique: 3,
            showing_top_n: false,
        }
    );
}

#[test]
fn categorical_truncated_to_top_ten() {
    let raw: Vec<(String, u32)> = (0..15).map(|i| (format!("v{i}"), 30 - i as u32)).collect();
    let rows: Vec<(String, Option<u32>)> =
        raw.iter().map(|(v, c)| (v.clone(), Some(*c))).collect();
    let r = analyze_categorical_column(15, Some(&rows), 10);
    match r {
        ColumnStats::Categorical { frequency_table, total_unique, showing_top_n } => {
            assert_eq!(frequency_table.len(), 10);
            assert_eq!(total_unique, 15);
            assert!(showing_top_n);
            assert_eq!(frequency_table[0], ("v0".to_string(), 30));
            assert_eq!(frequency_table[9], ("v9".to_string(), 21));
        },
        _ => panic!("expected categorical statistics"),
    }
}

#[test]
fn categorical_threshold_above_ten_keeps_complete_table() {
    // Boundary case inherited from the design: a unique count between 11 and
    // a threshold above 10 classifies as plain categorical, and the complete
    // set is kept (the ten-entry cap applies only when truncating).
    let rows: Vec<(String, Option<u32>)> =
        (0..15).map(|i| (format!("v{i}"), Some(1))).collect();
    let r = analyze_categorical_column(15, Some(&rows), 20);
    match r {
        ColumnStats::Categorical { frequency_table, total_unique, showing_top_n } => {
            assert_eq!(frequency_table.len(), 15);
            assert_eq!(total_unique, 15);
            assert!(!showing_top_n);
        },
        _ => panic!("expected categorical statistics"),
    }
}

#[test]
fn categorical_degraded_without_breakdown() {
    let r = analyze_categorical_column(42, None, 10);
    assert_eq!(
        r,
        ColumnStats::Categorical {
            frequency_table: vec![],
            total_unique: 42,
            showing_top_n: false,
        }
    );
}

#[test]
fn categorical_skips_unrepresentable_counts() {
    let rows = vec![
        ("a".to_string(), Some(5)),
        ("b".to_string(), None),
        ("c".to_string(), Some(1)),
    ];
    let r = analyze_categorical_column(3, Some(&rows), 10);
    assert_eq!(
        r,
        ColumnStats::Categorical {
            frequency_table: vec![("a".to_string(), 5), ("c".to_string(), 1)],
            total_unique: 3,
            showing_top_n: false,
        }
    );
}

#[test]
fn display_cap_rules() {
    assert_eq!(frequency_display_cap(3, 10), 3);
    assert_eq!(frequency_display_cap(10, 10), 10);
    assert_eq!(frequency_display_cap(11, 10), 10);
    assert_eq!(frequency_display_cap(15, 10), 10);
    assert_eq!(frequency_display_cap(9, 5), 9);
    assert_eq!(frequency_display_cap(15, 20), 15);
}

#[test]
fn analyze_column_other_overflow() {
    // An "other"-typed column with 20 unique values over a threshold of 10:
    // empty frequency table, the unique count alone, no truncation flag.
    let info = ColumnInfo {
        name: "blob".to_string(),
        data_type: "List(Int64)".to_string(),
        tag: TypeTag::Other,
        probes: ColumnProbes {
            mean: None,
            std_dev: None,
            q25: None,
            q75: None,
            unique_count: Some(Ok(20)),
            value_counts: Some(vec![("x".to_string(), Some(1))]),
        },
    };
    let r = analyze_column(&info, 10);
    assert_eq!(
        r,
        Ok(ColumnStats::Categorical {
            frequency_table: vec![],
            total_unique: 20,
            showing_top_n: false,
        })
    );
}

#[test]
fn analyze_column_other_within_threshold() {
    let info = ColumnInfo {
        name: "blob".to_string(),
        data_type: "List(Int64)".to_string(),
        tag: TypeTag::Other,
        probes: ColumnProbes {
            mean: None,
            std_dev: None,
            q25: None,
            q75: None,
            unique_count: Some(Ok(2)),
            value_counts: Some(string_rows(&[("x", 3), ("y", 1)])),
        },
    };
    let r = analyze_column(&info, 10);
    assert_eq!(
        r,
        Ok(ColumnStats::Categorical {
            frequency_table: vec![("x".to_string(), 3), ("y".to_string(), 1)],
            total_unique: 2,
            showing_top_n: false,
        })
    );
}

#[test]
fn analyze_column_unique_count_failure_is_fatal() {
    let info = ColumnInfo {
        name: "words".to_string(),
        data_type: "String".to_string(),
        tag: TypeTag::Str,
        probes: ColumnProbes {
            mean: None,
            std_dev: None,
            q25: None,
            q75: None,
            unique_count: Some(Err("operation unsupported".to_string())),
            value_counts: None,
        },
    };
    let r = analyze_column(&info, 10);
    let e = r.expect_err("a failed unique-count probe must abort");
    assert_eq!(e.column, "words");
    assert_eq!(e.cause, "operation unsupported");
    assert_eq!(
        e.message(),
        "Failed to count unique values in column 'words': operation unsupported"
    );
}

#[test]
fn summarize_preserves_count_and_order() {
    let inputs = vec![
        ColumnInfo {
            name: "ids".to_string(),
            data_type: "Int64".to_string(),
            tag: TypeTag::Int64,
            probes: numeric_probes(Some(3_000_000), Some(1_581_139), Some(2_000_000), Some(4_000_000)),
        },
        ColumnInfo {
            name: "labels".to_string(),
            data_type: "String".to_string(),
            tag: TypeTag::Str,
            probes: ColumnProbes {
                mean: None,
                std_dev: None,
                q25: None,
                q75: None,
                unique_count: Some(Ok(3)),
                value_counts: Some(string_rows(&[("a", 2), ("b", 1), ("c", 1)])),
            },
        },
        ColumnInfo {
            name: "empty".to_string(),
            data_type: "Float64".to_string(),
            tag: TypeTag::Float64,
            probes: numeric_probes(None, None, None, None),
        },
    ];
    let summaries = summarize_columns(&inputs, 10).expect("no fatal probe failures");
    assert_eq!(summaries.len(), inputs.len());
    let names: Vec<&str> = summaries.iter().map(|s| s.name.as_str()).collect();
    assert_eq!(names, vec!["ids", "labels", "empty"]);
    assert_eq!(summaries[0].data_type, "Int64");
    assert_eq!(summaries[1].data_type, "String");
    assert_eq!(summaries[2].data_type, "Float64");
}

#[test]
fn summarize_aborts_on_first_failure() {
    let inputs = vec![
        ColumnInfo {
            name: "fine".to_string(),
            data_type: "Int32".to_string(),
            tag: TypeTag::Int32,
            probes: numeric_probes(Some(0), None, None, None),
        },
        ColumnInfo {
            name: "broken".to_string(),
            data_type: "Object".to_string(),
            tag: TypeTag::Other,
            probes: ColumnProbes {
                mean: None,
                std_dev: None,
                q25: None,
                q75: None,
                unique_count: Some(Err("cannot count".to_string())),
                value_counts: None,
            },
        },
    ];
    let e = summarize_columns(&inputs, 10).expect_err("the failed probe must abort the run");
    assert_eq!(e.column, "broken");
    assert_eq!(e.cause, "cannot count");
}

#[test]
fn micros_model_matches_float_probes() {
    // The micro-unit representation a driver would hand over: scaling the
    // engine's floating-point answers by one million and rounding keeps
    // exactly the six digits the report prints.
    let std_dev: f64 = 1.5811388300841898;
    assert_eq!((std_dev * 1e6_f64).round() as i64, 1_581_139);
    let mean: f64 = 3.0;
    assert_eq!((mean * 1e6_f64).round() as i64, 3_000_000);
}

#[test]
fn analyze_column_numeric_path() {
    let info = ColumnInfo {
        name: "ages".to_string(),
        data_type: "UInt8".to_string(),
        tag: TypeTag::UInt8,
        probes: numeric_probes(Some(41_500_000), Some(12_000_000), Some(30_000_000), None),
    };
    let r = analyze_column(&info, 10);
    assert_eq!(
        r,
        Ok(ColumnStats::Numerical {
            mean: Some(41_500_000),
            std_dev: Some(12_000_000),
            q25: Some(30_000_000),
            q75: None,
            iqr: None,
        })
    );
}

#[test]
fn analyze_column_text_truncates_over_threshold() {
    let rows: Vec<(String, Option<u32>)> =
        (0..15).map(|i| (format!("v{i}"), Some(30 - i as u32))).collect();
    let info = ColumnInfo {
        name: "many".to_string(),
        data_type: "String".to_string(),
        tag: TypeTag::Str,
        probes: ColumnProbes {
            mean: None,
            std_dev: None,
            q25: None,
            q75: None,
            unique_count: Some(Ok(15)),
            value_counts: Some(rows),
        },
    };
    match analyze_column(&info, 10) {
        Ok(ColumnStats::Categorical { frequency_table, total_unique, showing_top_n }) => {
            assert_eq!(frequency_table.len(), 10);
            assert_eq!(total_unique, 15);
            assert!(showing_top_n);
        },
        other => panic!("expected a truncated categorical summary, got {other:?}"),
    }
}

#[test]
fn analyze_column_text_degraded_breakdown() {
    let info = ColumnInfo {
        name: "opaque".to_string(),
        data_type: "String".to_string(),
        tag: TypeTag::Str,
        probes: ColumnProbes {
            mean: None,
            std_dev: None,
            q25: None,
            q75: None,
            unique_count: Some(Ok(42)),
            value_counts: None,
        },
    };
    assert_eq!(
        analyze_column(&info, 10),
        Ok(ColumnStats::Categorical {
            frequency_table: vec![],
            total_unique: 42,
            showing_top_n: false,
        })
    );
}
