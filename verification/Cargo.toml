[package]
name = "parquet_summarizer"
version = "0.1.0"
edition = "2021"
publish = false

[dependencies]
anyhow = "*"
clap = { version = "*", features = ["derive"] }
polars = { version = "*", features = ["lazy", "parquet", "dtype-categorical"] }
