//! Statistical summarization of tabular data: per-column type classification,
//! numerical descriptive statistics in fixed-point micro-units, bounded ranked
//! frequency tables for categorical columns, and a plain-text report renderer.

pub mod column;
pub mod numfmt;
pub mod report;
pub mod table;
