[package]
name = "parcel_ingest"
version = "0.1.0"
edition = "2021"
publish = false

[dependencies]
dbase = "=0.8.0"
duckdb = { version = "=1.20000.0", default-features = false }
prettytable-rs = "=0.10.0"
